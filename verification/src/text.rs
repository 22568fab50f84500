//! Texts: lines, surrounding whitespace, joining.

use vstd::prelude::*;
use vstd::string::*;

verus! {

/// `String::push` appends one character.
pub assume_specification[ String::push ](text: &mut String, c: char)
    ensures
        final(text)@ == old(text)@.push(c),
;

/// Whether a character has the Unicode property `White_Space`: the controls
/// from the tab to the carriage return, the space, the next line, the
/// no-break space, the ogham space mark, the spaces from the en quad to the
/// hair space, the line and the paragraph separator, the narrow no-break
/// space, the medium mathematical space and the ideographic space.
pub open spec fn is_whitespace_char(c: char) -> bool {
    let code = c as u32;
    ||| 0x0009 <= code <= 0x000d
    ||| code == 0x0020
    ||| code == 0x0085
    ||| code == 0x00a0
    ||| code == 0x1680
    ||| 0x2000 <= code <= 0x200a
    ||| code == 0x2028
    ||| code == 0x2029
    ||| code == 0x202f
    ||| code == 0x205f
    ||| code == 0x3000
}

/// `char::is_whitespace`, which tells whether a character has the Unicode
/// property `White_Space`.
#[verifier::external_body]
fn char_is_whitespace(c: char) -> (white: bool)
    ensures
        white == is_whitespace_char(c),
{
    c.is_whitespace()
}

/// Whether a text holds nothing but whitespace.
pub open spec fn blank(text: Seq<char>) -> bool {
    forall|i: int| 0 <= i < text.len() ==> is_whitespace_char(#[trigger] text[i])
}

/// A text without its leading whitespace.
pub open spec fn trim_start(text: Seq<char>) -> Seq<char>
    decreases text.len(),
{
    if text.len() > 0 && is_whitespace_char(text[0]) {
        trim_start(text.drop_first())
    } else {
        text
    }
}

/// A text without its trailing whitespace.
pub open spec fn trim_end(text: Seq<char>) -> Seq<char>
    decreases text.len(),
{
    if text.len() > 0 && is_whitespace_char(text.last()) {
        trim_end(text.drop_last())
    } else {
        text
    }
}

/// A text without the whitespace around it.
pub open spec fn trimmed(text: Seq<char>) -> Seq<char> {
    trim_end(trim_start(text))
}

/// The texts one after the other.
pub open spec fn concat(parts: Seq<Seq<char>>) -> Seq<char>
    decreases parts.len(),
{
    if parts.len() == 0 {
        Seq::empty()
    } else {
        concat(parts.drop_last()) + parts.last()
    }
}

/// The texts one after the other with `separator` between each two.
pub open spec fn joined(parts: Seq<Seq<char>>, separator: Seq<char>) -> Seq<char>
    decreases parts.len(),
{
    if parts.len() == 0 {
        Seq::empty()
    } else if parts.len() == 1 {
        parts[0]
    } else {
        joined(parts.drop_last(), separator) + separator + parts.last()
    }
}

/// What a reader that cuts at line feeds holds after a text: the lines that
/// were ended, and the rest after the last line feed.
pub struct Lines {
    pub complete: Seq<Seq<char>>,
    pub rest: Seq<char>,
}

/// Cuts a text at its line feeds.
pub open spec fn split_lines(text: Seq<char>) -> Lines
    decreases text.len(),
{
    if text.len() == 0 {
        Lines { complete: Seq::empty(), rest: Seq::empty() }
    } else {
        let before = split_lines(text.drop_last());
        if text.last() == '\n' {
            Lines { complete: before.complete.push(before.rest), rest: Seq::empty() }
        } else {
            Lines { complete: before.complete, rest: before.rest.push(text.last()) }
        }
    }
}

/// The lines of a text whose last line need not be ended.
pub open spec fn all_lines(text: Seq<char>) -> Seq<Seq<char>> {
    let cut = split_lines(text);
    if cut.rest.len() == 0 {
        cut.complete
    } else {
        cut.complete.push(cut.rest)
    }
}

/// Cutting goes character by character.
pub proof fn lemma_split_lines_push(text: Seq<char>, c: char)
    ensures
        split_lines(text.push(c)) == if c == '\n' {
            Lines {
                complete: split_lines(text).complete.push(split_lines(text).rest),
                rest: Seq::empty(),
            }
        } else {
            Lines { complete: split_lines(text).complete, rest: split_lines(text).rest.push(c) }
        },
{
    assert(text.push(c).drop_last() =~= text);
}

/// After a text, a further piece without a line feed only lengthens the rest.
pub proof fn lemma_split_lines_piece(text: Seq<char>, piece: Seq<char>)
    requires
        !piece.contains('\n'),
    ensures
        split_lines(text + piece) == (Lines {
            complete: split_lines(text).complete,
            rest: split_lines(text).rest + piece,
        }),
    decreases piece.len(),
{
    if piece.len() == 0 {
        assert(text + piece =~= text);
        assert(split_lines(text).rest + piece =~= split_lines(text).rest);
    } else {
        let shorter = piece.drop_last();
        assert(!shorter.contains('\n')) by {
            if shorter.contains('\n') {
                let i = choose|i: int| 0 <= i < shorter.len() && shorter[i] == '\n';
                assert(piece[i] == '\n');
            }
        }
        assert(piece.last() != '\n') by {
            assert(piece[piece.len() - 1] == piece.last());
        }
        lemma_split_lines_piece(text, shorter);
        assert(text + piece =~= (text + shorter).push(piece.last()));
        lemma_split_lines_push(text + shorter, piece.last());
        assert(split_lines(text).rest + piece =~= (split_lines(text).rest + shorter).push(
            piece.last(),
        ));
    }
}

/// After a text, a line without a line feed followed by one line feed adds
/// that line, behind what was left over, to the lines that were ended.
pub proof fn lemma_split_lines_line(text: Seq<char>, line: Seq<char>)
    requires
        !line.contains('\n'),
    ensures
        split_lines(text + line.push('\n')) == (Lines {
            complete: split_lines(text).complete.push(split_lines(text).rest + line),
            rest: Seq::empty(),
        }),
{
    lemma_split_lines_piece(text, line);
    assert(text + line.push('\n') =~= (text + line).push('\n'));
    lemma_split_lines_push(text + line, '\n');
}

/// Whether a text holds nothing but whitespace: whether trimming leaves
/// nothing of it.
pub fn is_blank(text: &str) -> (all_white: bool)
    ensures
        all_white == blank(text@),
{
    let mut all_white = true;
    for c in it: text.chars()
        invariant
            it.seq() == text@,
            all_white == blank(text@.take(it.index() as int)),
    {
        let ghost before = text@.take(it.index() as int);
        let ghost after = text@.take(it.index() + 1);
        assert(after =~= before.push(c));
        if !char_is_whitespace(c) {
            assert(!is_whitespace_char(after[it.index() as int]));
            all_white = false;
        } else {
            assert(blank(before) ==> blank(after)) by {
                if blank(before) {
                    assert forall|i: int| 0 <= i < after.len() implies is_whitespace_char(
                        #[trigger] after[i],
                    ) by {
                        if i < before.len() {
                            assert(after[i] == before[i]);
                        }
                    }
                }
            }
            assert(blank(after) ==> blank(before)) by {
                if blank(after) {
                    assert forall|i: int| 0 <= i < before.len() implies is_whitespace_char(
                        #[trigger] before[i],
                    ) by {
                        assert(after[i] == before[i]);
                    }
                }
            }
        }
    }
    assert(text@.take(text@.len() as int) =~= text@);
    all_white
}

/// The characters of a text.
pub fn characters(text: &str) -> (chars: Vec<char>)
    ensures
        chars@ == text@,
{
    let mut chars: Vec<char> = Vec::new();
    for c in it: text.chars()
        invariant
            it.seq() == text@,
            chars@ == text@.take(it.index() as int),
    {
        assert(text@.take(it.index() + 1) =~= text@.take(it.index() as int).push(c));
        chars.push(c);
    }
    assert(text@.take(text@.len() as int) =~= text@);
    chars
}

/// The text of the characters from `from` up to `to`.
pub fn text_of(chars: &Vec<char>, from: usize, to: usize) -> (text: String)
    requires
        from <= to <= chars.len(),
    ensures
        text@ == chars@.subrange(from as int, to as int),
{
    let mut text = String::new();
    let mut i: usize = from;
    while i < to
        invariant
            from <= i <= to <= chars.len(),
            text@ == chars@.subrange(from as int, i as int),
        decreases to - i,
    {
        assert(chars@.subrange(from as int, i + 1) =~= chars@.subrange(from as int, i as int).push(
            chars@[i as int],
        ));
        text.push(chars[i]);
        i = i + 1;
    }
    text
}

/// Leading whitespace can be dropped all at once.
pub proof fn lemma_trim_start_skip(text: Seq<char>, n: int)
    requires
        0 <= n <= text.len(),
        forall|i: int| 0 <= i < n ==> is_whitespace_char(#[trigger] text[i]),
    ensures
        trim_start(text) == trim_start(text.skip(n)),
    decreases n,
{
    if n == 0 {
        assert(text.skip(0) =~= text);
    } else {
        assert(is_whitespace_char(text[0]));
        let rest = text.drop_first();
        assert forall|i: int| 0 <= i < n - 1 implies is_whitespace_char(#[trigger] rest[i]) by {
            assert(rest[i] == text[i + 1]);
        }
        lemma_trim_start_skip(rest, n - 1);
        assert(rest.skip(n - 1) =~= text.skip(n));
    }
}

/// Trailing whitespace can be dropped all at once.
pub proof fn lemma_trim_end_take(text: Seq<char>, n: int)
    requires
        0 <= n <= text.len(),
        forall|i: int| n <= i < text.len() ==> is_whitespace_char(#[trigger] text[i]),
    ensures
        trim_end(text) == trim_end(text.take(n)),
    decreases text.len() - n,
{
    if n == text.len() {
        assert(text.take(n) =~= text);
    } else {
        assert(is_whitespace_char(text[text.len() - 1]));
        let rest = text.drop_last();
        assert forall|i: int| n <= i < rest.len() implies is_whitespace_char(
            #[trigger] rest[i],
        ) by {
            assert(rest[i] == text[i]);
        }
        lemma_trim_end_take(rest, n);
        assert(rest.take(n) =~= text.take(n));
    }
}

/// The text without the whitespace around it.
pub fn trim(text: &str) -> (inner: String)
    ensures
        inner@ == trimmed(text@),
{
    let chars = characters(text);
    let mut start: usize = 0;
    while start < chars.len() && char_is_whitespace(chars[start])
        invariant
            start <= chars.len(),
            forall|i: int| 0 <= i < start ==> is_whitespace_char(#[trigger] chars@[i]),
        decreases chars.len() - start,
    {
        start = start + 1;
    }
    let mut end: usize = chars.len();
    while end > start && char_is_whitespace(chars[end - 1])
        invariant
            start <= end <= chars.len(),
            forall|i: int| end <= i < chars.len() ==> is_whitespace_char(#[trigger] chars@[i]),
        decreases end,
    {
        end = end - 1;
    }
    proof {
        let s = chars@;
        lemma_trim_start_skip(s, start as int);
        let tail = s.skip(start as int);
        if start < chars.len() {
            assert(tail[0] == s[start as int]);
            assert(trim_start(tail) == tail);
        } else {
            assert(trim_start(tail) == tail);
        }
        assert forall|i: int| end - start <= i < tail.len() implies is_whitespace_char(
            #[trigger] tail[i],
        ) by {
            assert(tail[i] == s[i + start]);
        }
        lemma_trim_end_take(tail, end - start);
        let kept = tail.take(end - start);
        assert(kept =~= s.subrange(start as int, end as int));
        if end > start {
            assert(kept.last() == s[end - 1]);
            assert(trim_end(kept) == kept);
        } else {
            assert(trim_end(kept) == kept);
        }
    }
    text_of(&chars, start, end)
}

/// What cutting a text at its line feeds gave.
pub struct LineCut {
    /// The lines that were ended, without their line feeds.
    pub complete: Vec<String>,
    /// What follows the last line feed.
    pub rest: String,
}

impl View for LineCut {
    type V = Lines;

    open spec fn view(&self) -> Lines {
        Lines { complete: self.complete.deep_view(), rest: self.rest@ }
    }
}

/// Cuts a text at its line feeds.
pub fn cut_lines(text: &str) -> (cut: LineCut)
    ensures
        cut@ == split_lines(text@),
{
    let mut complete: Vec<String> = Vec::new();
    let mut rest = String::new();
    assert(complete.deep_view() =~= Seq::<Seq<char>>::empty());
    for c in it: text.chars()
        invariant
            it.seq() == text@,
            complete.deep_view() == split_lines(text@.take(it.index() as int)).complete,
            rest@ == split_lines(text@.take(it.index() as int)).rest,
    {
        let ghost before = text@.take(it.index() as int);
        proof {
            assert(text@.take(it.index() + 1) =~= before.push(c));
            lemma_split_lines_push(before, c);
        }
        if c == '\n' {
            let ghost lines = complete.deep_view();
            let line = rest;
            rest = String::new();
            complete.push(line);
            assert(complete.deep_view() =~= lines.push(line@));
        } else {
            rest.push(c);
        }
    }
    assert(text@.take(text@.len() as int) =~= text@);
    LineCut { complete, rest }
}

/// The texts one after the other.
pub fn concat_texts(parts: &Vec<String>) -> (whole: String)
    ensures
        whole@ == concat(parts.deep_view()),
{
    let mut whole = String::new();
    let mut i: usize = 0;
    while i < parts.len()
        invariant
            i <= parts.len(),
            whole@ == concat(parts.deep_view().take(i as int)),
        decreases parts.len() - i,
    {
        proof {
            let taken = parts.deep_view().take(i + 1);
            assert(taken.drop_last() =~= parts.deep_view().take(i as int));
            assert(taken.last() == parts@[i as int]@);
        }
        whole.append(parts[i].as_str());
        i = i + 1;
    }
    assert(parts.deep_view().take(parts.len() as int) =~= parts.deep_view());
    whole
}

/// The texts one after the other with `separator` between each two.
pub fn join_texts(parts: &Vec<String>, separator: &str) -> (whole: String)
    ensures
        whole@ == joined(parts.deep_view(), separator@),
{
    let mut whole = String::new();
    let mut i: usize = 0;
    while i < parts.len()
        invariant
            i <= parts.len(),
            whole@ == joined(parts.deep_view().take(i as int), separator@),
        decreases parts.len() - i,
    {
        proof {
            let taken = parts.deep_view().take(i + 1);
            assert(taken.drop_last() =~= parts.deep_view().take(i as int));
            assert(taken.last() == parts@[i as int]@);
            if i == 0 {
                assert(taken[0] == parts@[0]@);
                assert(Seq::<char>::empty() + parts@[0]@ =~= parts@[0]@);
            }
        }
        if i > 0 {
            whole.append(separator);
        }
        whole.append(parts[i].as_str());
        i = i + 1;
    }
    assert(parts.deep_view().take(parts.len() as int) =~= parts.deep_view());
    whole
}

} // verus!
