//! Captured command output and its truncation.

use vstd::prelude::*;
use vstd::string::*;
use vstd::utf8::*;

verus! {

/// Largest number of bytes of command output that a command record keeps.
pub const OUTPUT_LIMIT: usize = 16384;

/// The text that marks output as cut short.
pub open spec fn truncation_marker() -> Seq<char> {
    "\n\u{2026}(truncated)\u{2026}\n"@
}

/// `text` cut to its first `max_bytes` bytes of UTF-8 and followed by the marker,
/// or `text` itself where it is no longer than that.
pub open spec fn truncated(text: Seq<char>, max_bytes: int) -> Seq<char> {
    if encode_utf8(text).len() <= max_bytes {
        text
    } else {
        decode_utf8(encode_utf8(text).subrange(0, max_bytes)) + truncation_marker()
    }
}

/// Whether `text` can be cut after `max_bytes` bytes without splitting a character.
pub open spec fn can_truncate(text: Seq<char>, max_bytes: int) -> bool {
    encode_utf8(text).len() > max_bytes ==> is_char_boundary(encode_utf8(text), max_bytes)
}

/// The encoding of a concatenation is the concatenation of the encodings.
pub proof fn lemma_encode_concat(a: Seq<char>, b: Seq<char>)
    ensures
        encode_utf8(a + b) =~= encode_utf8(a) + encode_utf8(b),
    decreases a.len(),
{
    if a.len() == 0 {
        assert(a + b =~= b);
    } else {
        assert((a + b).drop_first() =~= a.drop_first() + b);
        lemma_encode_concat(a.drop_first(), b);
    }
}

/// A truncated text is the kept bytes followed by the bytes of the marker.
pub proof fn lemma_truncated_bytes(text: Seq<char>, max_bytes: int)
    requires
        0 <= max_bytes < encode_utf8(text).len(),
        is_char_boundary(encode_utf8(text), max_bytes),
    ensures
        encode_utf8(truncated(text, max_bytes)) =~= encode_utf8(text).subrange(0, max_bytes)
            + encode_utf8(truncation_marker()),
        encode_utf8(truncated(text, max_bytes)).len() == max_bytes + encode_utf8(
            truncation_marker(),
        ).len(),
{
    broadcast use {encode_utf8_valid_utf8, valid_utf8_split, decode_utf8_encode_utf8};

    let bytes = encode_utf8(text);
    let head = bytes.subrange(0, max_bytes);
    assert(valid_utf8(bytes));
    assert(valid_utf8(head));
    lemma_encode_concat(decode_utf8(head), truncation_marker());
}

/// Cuts `text` to at most `max_bytes` bytes, marking the cut.
pub fn truncate_output(text: &str, max_bytes: usize) -> (out: String)
    requires
        can_truncate(text@, max_bytes as int),
    ensures
        out@ == truncated(text@, max_bytes as int),
{
    if text.as_bytes().len() <= max_bytes {
        return text.to_owned();
    }
    let (head, _) = text.split_at(max_bytes);
    let mut out = head.to_owned();
    proof {
        broadcast use {encode_utf8_decode_utf8, encode_utf8_valid_utf8};

        assert(head@ == decode_utf8(encode_utf8(head@)));
    }
    out.append("\n\u{2026}(truncated)\u{2026}\n");
    out
}

/// The last place at or before `at` where the bytes can be cut without
/// splitting a character.
pub open spec fn floor_boundary(bytes: Seq<u8>, at: int) -> int
    decreases at,
{
    if at <= 0 || is_char_boundary(bytes, at) {
        at
    } else {
        floor_boundary(bytes, at - 1)
    }
}

/// `text` as a command record keeps it: cut to `max_bytes` bytes and marked
/// where it is longer, the cut moved back to the last whole character where
/// it would split one.
pub open spec fn clipped(text: Seq<char>, max_bytes: int) -> Seq<char> {
    truncated(text, floor_boundary(encode_utf8(text), max_bytes))
}

/// Where the text can be cut at the limit itself, clipping is truncating.
pub proof fn lemma_clipped_is_truncated(text: Seq<char>, max_bytes: int)
    requires
        0 <= max_bytes,
        can_truncate(text, max_bytes),
    ensures
        clipped(text, max_bytes) == truncated(text, max_bytes),
        encode_utf8(text).len() <= max_bytes ==> clipped(text, max_bytes) == text,
{
    broadcast use encode_utf8_valid_utf8;

    let bytes = encode_utf8(text);
    if bytes.len() <= max_bytes {
        lemma_floor_boundary_bounds(bytes, max_bytes);
        lemma_floor_boundary_of_short(bytes, max_bytes);
    }
}

/// The cut lies between 0 and where it was asked for.
pub proof fn lemma_floor_boundary_bounds(bytes: Seq<u8>, at: int)
    requires
        0 <= at,
    ensures
        0 <= floor_boundary(bytes, at) <= at,
        floor_boundary(bytes, at) == 0 || is_char_boundary(bytes, floor_boundary(bytes, at)),
    decreases at,
{
    if at > 0 && !is_char_boundary(bytes, at) {
        lemma_floor_boundary_bounds(bytes, at - 1);
    }
}

/// Past the end of the bytes the cut falls back to no earlier than the end.
pub proof fn lemma_floor_boundary_of_short(bytes: Seq<u8>, at: int)
    requires
        bytes.len() <= at,
        valid_utf8(bytes),
    ensures
        bytes.len() <= floor_boundary(bytes, at),
    decreases at,
{
    broadcast use is_char_boundary_start_end_of_seq;

    if at > 0 && !is_char_boundary(bytes, at) {
        assert(at != bytes.len());
        lemma_floor_boundary_of_short(bytes, at - 1);
    }
}

/// Cuts `text` to at most `max_bytes` bytes, marking the cut, and never
/// splits a character.
pub fn clip_output(text: &str, max_bytes: usize) -> (out: String)
    ensures
        out@ == clipped(text@, max_bytes as int),
{
    let bytes = text.as_bytes();
    if bytes.len() <= max_bytes {
        proof {
            broadcast use encode_utf8_valid_utf8;

            lemma_floor_boundary_of_short(encode_utf8(text@), max_bytes as int);
        }
        return text.to_owned();
    }
    let mut at: usize = max_bytes;
    while at > 0 && !text.is_char_boundary(at)
        invariant
            at <= max_bytes < encode_utf8(text@).len(),
            floor_boundary(encode_utf8(text@), at as int) == floor_boundary(
                encode_utf8(text@),
                max_bytes as int,
            ),
        decreases at,
    {
        at = at - 1;
    }
    proof {
        broadcast use {encode_utf8_valid_utf8, is_char_boundary_start_end_of_seq};

        assert(is_char_boundary(encode_utf8(text@), at as int));
        assert(floor_boundary(encode_utf8(text@), at as int) == at);
    }
    truncate_output(text, at)
}

} // verus!
