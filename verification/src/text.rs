//! The text functions that the serial console needs.
use vstd::prelude::*;
use vstd::string::*;
use vstd::utf8::*;

verus! {

/// `needle` occurs in `text`.
pub open spec fn occurs_in(needle: Seq<char>, text: Seq<char>) -> bool {
    exists|i: int|
        0 <= i <= text.len() - needle.len() && #[trigger] text.subrange(i, i + needle.len())
            == needle
}

/// The longest end of `text` that takes at most `max` bytes in UTF-8.
pub open spec fn tail_of(text: Seq<char>, max: nat) -> Seq<char>
    decreases text.len(),
{
    if text.len() == 0 || encode_utf8(text).len() <= max {
        text
    } else {
        tail_of(text.drop_first(), max)
    }
}

/// What `String::from_utf8_lossy` makes of `bytes` that are not valid UTF-8.
pub uninterp spec fn lossy_text(bytes: Seq<u8>) -> Seq<char>;

/// The text of `bytes`: what they encode where they are valid UTF-8, and what
/// `String::from_utf8_lossy` makes of them else.
pub open spec fn text_of(bytes: Seq<u8>) -> Seq<char> {
    if valid_utf8(bytes) {
        decode_utf8(bytes)
    } else {
        lossy_text(bytes)
    }
}

/// What `{:?}` prints for an optional string.
pub uninterp spec fn debug_text(value: Option<Seq<char>>) -> Seq<char>;

/// The characters of an optional string.
pub open spec fn option_text(value: Option<String>) -> Option<Seq<char>> {
    match value {
        Some(text) => Some(text@),
        None => None,
    }
}

/// Trusted: `String::from_utf8_lossy`. The text depends on the bytes alone, and
/// bytes that are valid UTF-8 are decoded as they stand.
#[verifier::external_body]
pub(crate) fn from_utf8_lossy(bytes: &[u8]) -> (text: String)
    ensures
        valid_utf8(bytes@) ==> text@ == decode_utf8(bytes@),
        !valid_utf8(bytes@) ==> text@ == lossy_text(bytes@),
{
    String::from_utf8_lossy(bytes).into_owned()
}

/// Trusted: `str::contains` with a string pattern, which tells whether the
/// pattern matches a part of the string.
#[verifier::external_body]
pub(crate) fn str_contains(text: &str, needle: &str) -> (found: bool)
    ensures
        found == occurs_in(needle@, text@),
{
    text.contains(needle)
}

/// Trusted: the `Debug` form of an `Option<String>`, which depends on the value
/// alone.
#[verifier::external_body]
pub(crate) fn debug_option(value: &Option<String>) -> (text: String)
    ensures
        text@ == debug_text(option_text(*value)),
{
    format!("{:?}", value)
}

/// The end of `text` from its first character boundary at or after byte
/// `start` is what [`tail_of`] says.
proof fn lemma_tail_at_boundary(text: Seq<char>, max: nat, start: int)
    requires
        encode_utf8(text).len() > max ==> start >= encode_utf8(text).len() - max,
        encode_utf8(text).len() <= max ==> start == 0,
        0 <= start <= encode_utf8(text).len(),
        is_char_boundary(encode_utf8(text), start),
        forall|i: int|
            encode_utf8(text).len() - max <= i < start && 0 <= i ==> !is_char_boundary(
                encode_utf8(text),
                i,
            ),
    ensures
        encode_utf8(text).subrange(start, encode_utf8(text).len() as int) == encode_utf8(
            tail_of(text, max),
        ),
    decreases text.len(),
{
    let bytes = encode_utf8(text);
    encode_utf8_valid_utf8(text);
    if text.len() == 0 || bytes.len() <= max {
        assert(bytes.subrange(0, bytes.len() as int) == bytes);
    } else {
        let rest = text.drop_first();
        encode_utf8_first_scalar(text);
        encode_utf8_valid_utf8(rest);
        let width = length_of_first_scalar(bytes);
        assert(pop_first_scalar(bytes) == encode_utf8(rest));
        let rest_bytes = encode_utf8(rest);
        assert(start > 0);
        assert(start >= width) by {
            reveal_with_fuel(is_char_boundary, 2);
        }
        assert(forall|i: int|
            0 < i <= bytes.len() ==> is_char_boundary(bytes, i) == #[trigger] is_char_boundary(
                rest_bytes,
                i - width,
            ));
        is_char_boundary_start_end_of_seq(rest_bytes);
        if rest_bytes.len() <= max && start > width {
            assert(is_char_boundary(rest_bytes, 0));
            assert(is_char_boundary(bytes, width));
            assert(false);
        }
        assert forall|i: int|
            rest_bytes.len() - max <= i < start - width && 0 <= i implies !is_char_boundary(
            rest_bytes,
            i,
        ) by {
            assert(!is_char_boundary(bytes, i + width));
        }
        lemma_tail_at_boundary(rest, max, start - width);
        assert(bytes.subrange(start, bytes.len() as int) == rest_bytes.subrange(
            start - width,
            rest_bytes.len() as int,
        ));
    }
}

/// The longest end of `text` that takes at most `max` bytes.
pub fn text_tail(text: &str, max: usize) -> (tail: String)
    ensures
        tail@ == tail_of(text@, max as nat),
{
    let ghost bytes = text.spec_bytes();
    proof {
        encode_utf8_valid_utf8(text@);
        is_char_boundary_start_end_of_seq(bytes);
    }
    let len: usize = text.as_bytes().len();
    let first: usize = len.saturating_sub(max);
    let mut start: usize = first;
    while !text.is_char_boundary(start)
        invariant
            bytes == text.spec_bytes(),
            valid_utf8(bytes),
            len == bytes.len(),
            is_char_boundary(bytes, len as int),
            first <= start <= len,
            forall|i: int| first <= i < start ==> !is_char_boundary(bytes, i),
        decreases len - start,
    {
        start = start + 1;
    }
    let (_, tail) = text.split_at(start);
    proof {
        lemma_tail_at_boundary(text@, max as nat, start as int);
        encode_utf8_decode_utf8(tail@);
        encode_utf8_decode_utf8(tail_of(text@, max as nat));
    }
    tail.to_owned()
}

} // verus!
