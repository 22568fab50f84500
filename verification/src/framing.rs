//! Messages as lines of text: one JSON object per line, ended by a line feed.

use crate::ipc::AgentTreeIpcMessage;
use crate::ipc::IpcMessageView;
use crate::json::json_parse;
use crate::json::json_text;
use crate::json::Json;
use crate::json::JsonError;
use crate::text::cut_lines;
use crate::text::lemma_split_lines_line;
use crate::text::lemma_split_lines_piece;
use crate::text::split_lines;
use crate::text::Lines;
use crate::wire::decode_message;
use crate::wire::encode_message;
use crate::wire::message_of;
use crate::wire::message_readable;
use crate::wire::message_tree;
use crate::wire::lemma_message_round_trip;
use crate::wire::Decoded;
use crate::wire::DecodedView;
use vstd::prelude::*;
use vstd::string::*;

verus! {

/// Why a line is no message. Either is fatal to the exchange.
#[derive(Debug, Clone, PartialEq, Eq)]
pub enum DecodeError {
    /// The line is no JSON document; this is what the reader said of it.
    Syntax(String),
    /// The line is JSON, but no well-formed message.
    Malformed,
}

/// What a line stands for; `None` where it is no message.
pub open spec fn line_meaning(line: Seq<char>) -> Option<DecodedView> {
    match json_parse(line) {
        Some(tree) => message_of(tree),
        None => None,
    }
}

/// What the lines stand for, in their order; `None` where one of them is no
/// message.
pub open spec fn lines_meaning(lines: Seq<Seq<char>>) -> Option<Seq<DecodedView>> {
    if forall|i: int| 0 <= i < lines.len() ==> line_meaning(#[trigger] lines[i]) is Some {
        Some(Seq::new(lines.len(), |i: int| line_meaning(lines[i])->0))
    } else {
        None
    }
}

/// The stream that holds the given lines, each ended by a line feed.
pub open spec fn framed(lines: Seq<Seq<char>>) -> Seq<char>
    decreases lines.len(),
{
    if lines.len() == 0 {
        Seq::empty()
    } else {
        framed(lines.drop_last()) + lines.last().push('\n')
    }
}

/// A stream of lines that hold no line feed, followed by a piece of a further
/// line, is cut into exactly those lines; the piece is left over.
pub proof fn lemma_framed_split(lines: Seq<Seq<char>>, partial: Seq<char>)
    requires
        forall|i: int| 0 <= i < lines.len() ==> !(#[trigger] lines[i]).contains('\n'),
        !partial.contains('\n'),
    ensures
        split_lines(framed(lines) + partial) == (Lines { complete: lines, rest: partial }),
    decreases lines.len(),
{
    if lines.len() == 0 {
        lemma_split_lines_piece(Seq::empty(), partial);
        assert(Seq::<char>::empty() + partial =~= partial);
        assert(split_lines(Seq::<char>::empty()).complete =~= lines);
    } else {
        let earlier = lines.drop_last();
        assert forall|i: int| 0 <= i < earlier.len() implies !(#[trigger] earlier[i]).contains(
            '\n',
        ) by {
            assert(earlier[i] == lines[i]);
        }
        lemma_framed_split(earlier, Seq::empty());
        assert(framed(earlier) + Seq::<char>::empty() =~= framed(earlier));
        assert(!lines.last().contains('\n')) by {
            assert(lines[lines.len() - 1] == lines.last());
        }
        lemma_split_lines_line(framed(earlier), lines.last());
        assert(Seq::<char>::empty() + lines.last() =~= lines.last());
        assert(earlier.push(lines.last()) =~= lines);
        lemma_split_lines_piece(framed(lines), partial);
        assert(Seq::<char>::empty() + partial =~= partial);
    }
}

/// A stream of written messages, however it ends, is read back as those
/// messages. The hypotheses name what the writer and the reader of JSON text
/// contribute: that the writer's line for a message holds no line feed, which
/// `encode_line` ensures of every line it gives, and that the reader reads the
/// writer's line back as the tree it was written from.
pub proof fn lemma_stream_round_trip(
    messages: Seq<IpcMessageView>,
    lines: Seq<Seq<char>>,
    partial: Seq<char>,
)
    requires
        lines.len() == messages.len(),
        forall|i: int|
            0 <= i < messages.len() ==> {
                &&& message_readable(#[trigger] messages[i])
                &&& json_text(message_tree(messages[i])) == Some(lines[i])
                &&& json_parse(lines[i]) == Some(message_tree(messages[i]))
                &&& !lines[i].contains('\n')
            },
        !partial.contains('\n'),
    ensures
        split_lines(framed(lines) + partial).complete == lines,
        lines_meaning(lines) == Some(
            Seq::new(messages.len(), |i: int| DecodedView::Message(messages[i])),
        ),
{
    assert forall|i: int| 0 <= i < lines.len() implies !(#[trigger] lines[i]).contains('\n') by {
        assert(message_readable(messages[i]));
    }
    lemma_framed_split(lines, partial);
    assert forall|i: int| 0 <= i < lines.len() implies line_meaning(#[trigger] lines[i]) == Some(
        DecodedView::Message(messages[i]),
    ) by {
        assert(message_readable(messages[i]));
        lemma_message_round_trip(messages[i]);
    }
    assert(Seq::new(lines.len(), |i: int| line_meaning(lines[i])->0) =~= Seq::new(
        messages.len(),
        |i: int| DecodedView::Message(messages[i]),
    ));
}

/// A line of its own for a text: the text and one line feed.
pub fn frame(text: String) -> (line: String)
    ensures
        line@ == text@.push('\n'),
{
    let mut line = text;
    line.push('\n');
    line
}

/// Writes a message as one line. Whether the JSON writer gives a text is the
/// writer's to say; where it does, the line is that text and one line feed, and
/// a reader that cuts at line feeds finds exactly that text in it.
pub fn encode_line(message: &AgentTreeIpcMessage) -> (line: Result<String, JsonError>)
    ensures
        line is Ok <==> json_text(message_tree(message@)) is Some,
        line matches Ok(text) ==> {
            &&& text@ == json_text(message_tree(message@))->0.push('\n')
            &&& !json_text(message_tree(message@))->0.contains('\n')
            &&& split_lines(text@) == (Lines {
                complete: seq![json_text(message_tree(message@))->0],
                rest: Seq::empty(),
            })
        },
{
    let tree = encode_message(message);
    match tree.render() {
        Ok(text) => {
            proof {
                lemma_split_lines_line(Seq::empty(), text@);
                assert(Seq::<char>::empty() + text@.push('\n') =~= text@.push('\n'));
                assert(Seq::<char>::empty() + text@ =~= text@);
                assert(Seq::<Seq<char>>::empty().push(text@) =~= seq![text@]);
            }
            Ok(frame(text))
        },
        Err(error) => Err(error),
    }
}

/// Reads the message of one line.
pub fn decode_line(line: &str) -> (decoded: Result<Decoded, DecodeError>)
    ensures
        decoded matches Ok(d) ==> line_meaning(line@) == Some(d@),
        decoded is Err <==> line_meaning(line@) is None,
        decoded matches Err(DecodeError::Syntax(_)) <==> json_parse(line@) is None,
{
    match Json::parse(line) {
        Ok(tree) => match decode_message(&tree) {
            Some(d) => Ok(d),
            None => Err(DecodeError::Malformed),
        },
        Err(error) => Err(DecodeError::Syntax(error.message)),
    }
}

/// Reads the messages of a stream: those of its ended lines, in their order.
/// What follows the last line feed is passed over. The first line that is no
/// message fails the whole.
pub fn decode_stream(stream: &str) -> (decoded: Result<Vec<Decoded>, DecodeError>)
    ensures
        decoded matches Ok(all) ==> lines_meaning(split_lines(stream@).complete) == Some(
            all.deep_view(),
        ),
        decoded is Err <==> lines_meaning(split_lines(stream@).complete) is None,
{
    let cut = cut_lines(stream);
    let lines = &cut.complete;
    let mut all: Vec<Decoded> = Vec::new();
    let mut i: usize = 0;
    while i < lines.len()
        invariant
            i <= lines.len(),
            all.len() == i,
            lines.deep_view() == split_lines(stream@).complete,
            forall|j: int| 0 <= j < i ==> line_meaning(lines@[j]@) == Some(all@[j]@),
        decreases lines.len() - i,
    {
        match decode_line(lines[i].as_str()) {
            Ok(d) => {
                all.push(d);
            },
            Err(error) => {
                proof {
                    assert(line_meaning(lines.deep_view()[i as int]) is None);
                }
                return Err(error);
            },
        }
        i = i + 1;
    }
    proof {
        let texts = lines.deep_view();
        assert forall|j: int| 0 <= j < texts.len() implies line_meaning(#[trigger] texts[j])
            == Some(all@[j]@) by {
            assert(texts[j] == lines@[j]@);
        }
        assert(all.deep_view() =~= Seq::new(texts.len(), |j: int| line_meaning(texts[j])->0));
    }
    Ok(all)
}

} // verus!
