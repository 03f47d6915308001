//! Byte offsets into text. The engine reports matches as byte offsets into
//! the UTF-8 encoding of the text; this module says what such an offset
//! means and cuts text at offsets that fall between characters.

use vstd::prelude::*;
use vstd::utf8::*;

verus! {

/// The number of bytes of `text` in UTF-8.
pub open spec fn byte_count(text: Seq<char>) -> int {
    encode_utf8(text).len() as int
}

/// Whether the byte offset `at` falls between two characters of `text`, at
/// its start or at its end.
pub open spec fn on_boundary(text: Seq<char>, at: int) -> bool {
    0 <= at <= byte_count(text) && is_char_boundary(encode_utf8(text), at)
}

/// Whether `start..end` is a range of whole characters of `text`.
pub open spec fn whole_chars(text: Seq<char>, start: int, end: int) -> bool {
    start <= end && on_boundary(text, start) && on_boundary(text, end)
}

/// The characters of `text` whose encoding fills the bytes `start..end`.
pub open spec fn chars_between(text: Seq<char>, start: int, end: int) -> Seq<char>
    recommends
        whole_chars(text, start, end),
{
    decode_utf8(encode_utf8(text).subrange(start, end))
}

/// The first offset behind `at` that falls between two characters: the
/// offset one code point further on, for an `at` between two characters.
/// Never beyond the end of the text.
pub open spec fn boundary_after(text: Seq<char>, at: int) -> int
    decreases byte_count(text) - at,
{
    if at + 1 >= byte_count(text) {
        byte_count(text)
    } else if is_char_boundary(encode_utf8(text), at + 1) {
        at + 1
    } else {
        boundary_after(text, at + 1)
    }
}

/// The start and the end of a text fall between characters.
pub proof fn lemma_ends_on_boundary(text: Seq<char>)
    ensures
        on_boundary(text, 0),
        on_boundary(text, byte_count(text)),
{
    encode_utf8_valid_utf8(text);
    is_char_boundary_start_end_of_seq(encode_utf8(text));
}

/// `boundary_after` moves strictly forward, stays within the text and lands
/// between two characters.
pub proof fn lemma_boundary_after(text: Seq<char>, at: int)
    requires
        0 <= at < byte_count(text),
    ensures
        at < boundary_after(text, at) <= byte_count(text),
        on_boundary(text, boundary_after(text, at)),
        forall|k: int| at < k < boundary_after(text, at) ==> !on_boundary(text, k),
    decreases byte_count(text) - at,
{
    lemma_ends_on_boundary(text);
    if at + 1 >= byte_count(text) {
    } else if is_char_boundary(encode_utf8(text), at + 1) {
    } else {
        lemma_boundary_after(text, at + 1);
    }
}

/// An offset between two characters of a byte string still falls between
/// two characters when the string is cut at a later such offset.
proof fn lemma_boundary_in_prefix(bytes: Seq<u8>, start: int, end: int)
    requires
        valid_utf8(bytes),
        0 <= start <= end <= bytes.len(),
        is_char_boundary(bytes, start),
        is_char_boundary(bytes, end),
    ensures
        valid_utf8(bytes.subrange(0, end)),
        is_char_boundary(bytes.subrange(0, end), start),
{
    let head = bytes.subrange(0, end);
    valid_utf8_split(bytes, end);
    if start == end {
        is_char_boundary_start_end_of_seq(head);
    } else {
        is_char_boundary_iff_not_is_continuation_byte(bytes, start);
        is_char_boundary_iff_not_is_continuation_byte(head, start);
    }
}

/// The length of `text` in bytes.
pub fn byte_len(text: &str) -> (n: usize)
    ensures
        n == byte_count(text@),
{
    text.as_bytes().len()
}

/// Whether the byte offset `at` falls between two characters of `text`.
pub fn is_boundary(text: &str, at: usize) -> (b: bool)
    ensures
        b == on_boundary(text@, at as int),
{
    let n = byte_len(text);
    at <= n && text.is_char_boundary(at)
}

/// The offset one code point behind `at`.
pub fn next_boundary(text: &str, at: usize) -> (next: usize)
    requires
        at < byte_count(text@),
    ensures
        next == boundary_after(text@, at as int),
        at < next <= byte_count(text@),
        on_boundary(text@, next as int),
{
    let n = byte_len(text);
    let mut next: usize = at + 1;
    proof {
        lemma_boundary_after(text@, at as int);
    }
    while next < n && !text.is_char_boundary(next)
        invariant
            n == byte_count(text@),
            at < next <= n,
            boundary_after(text@, at as int) == boundary_after(text@, next as int - 1),
        decreases n - next,
    {
        next = next + 1;
    }
    next
}

/// The characters of `text` between the byte offsets `start` and `end`, as
/// a string of their own.
pub fn slice(text: &str, start: usize, end: usize) -> (piece: String)
    requires
        whole_chars(text@, start as int, end as int),
    ensures
        piece@ == chars_between(text@, start as int, end as int),
{
    proof {
        encode_utf8_valid_utf8(text@);
        lemma_boundary_in_prefix(encode_utf8(text@), start as int, end as int);
    }
    let (head, _) = text.split_at(end);
    let (_, body) = head.split_at(start);
    proof {
        let bytes = encode_utf8(text@);
        assert(encode_utf8(body@) =~= bytes.subrange(start as int, end as int));
        encode_utf8_decode_utf8(body@);
    }
    body.to_owned()
}

} // verus!
