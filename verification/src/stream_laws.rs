//! What holds of QMP messages that follow one another on a stream.
use vstd::prelude::*;
use vstd::utf8::*;

use crate::error::ErrorView;
use crate::json::Json;

verus! {

/// How many bytes the first line of `stream` takes: all up to the first newline,
/// with it, or all there are where there is none.
pub open spec fn line_len(stream: Seq<u8>) -> nat
    decreases stream.len(),
{
    if stream.len() == 0 {
        0
    } else if stream[0] == 10 {
        1
    } else {
        1 + line_len(stream.drop_first())
    }
}

/// The first line of `stream`.
pub open spec fn first_line(stream: Seq<u8>) -> Seq<u8> {
    stream.take(line_len(stream) as int)
}

/// What is left of `stream` behind its first line.
pub open spec fn after_line(stream: Seq<u8>) -> Seq<u8> {
    stream.skip(line_len(stream) as int)
}

/// What is on a stream after `lines` were written to it, one after the other.
pub open spec fn written(lines: Seq<Seq<char>>) -> Seq<u8>
    decreases lines.len(),
{
    if lines.len() == 0 {
        Seq::empty()
    } else {
        encode_utf8(lines[0]) + written(lines.drop_first())
    }
}

/// As many reads from `stream`, line by line, as there are `messages` give just
/// these in turn, and leave `rest`.
pub open spec fn reads_in_turn(stream: Seq<u8>, messages: Seq<Json>, rest: Seq<u8>) -> bool
    decreases messages.len(),
{
    if messages.len() == 0 {
        stream == rest
    } else {
        &&& valid_utf8(first_line(stream))
        &&& crate::qmp::message_of(Ok(decode_utf8(first_line(stream)))) == Ok::<Json, ErrorView>(
            messages[0],
        )
        &&& reads_in_turn(after_line(stream), messages.drop_first(), rest)
    }
}

/// A character that is no newline has no newline byte in UTF-8.
proof fn lemma_scalar_without_newline(c: char, i: int)
    requires
        c != '\n',
        0 <= i < encode_scalar(c as u32).len(),
    ensures
        encode_scalar(c as u32)[i] != 10,
{
    let v = c as u32;
    char_is_scalar(c);
    assert(v != 10);
    assert(v <= 0x7F ==> (v & 0x7F) as u8 == v) by (bit_vector);
    assert(0xC0 | ((v >> 6) & 0x1F) as u8 >= 0x80) by (bit_vector);
    assert(0xE0 | ((v >> 12) & 0x0F) as u8 >= 0x80) by (bit_vector);
    assert(0xF0 | ((v >> 18) & 0x7) as u8 >= 0x80) by (bit_vector);
    assert(0x80 | (v & 0x3F) as u8 >= 0x80) by (bit_vector);
    assert(0x80 | ((v >> 6) & 0x3F) as u8 >= 0x80) by (bit_vector);
    assert(0x80 | ((v >> 12) & 0x3F) as u8 >= 0x80) by (bit_vector);
}

/// Bytes without a newline only make the first line longer.
proof fn lemma_line_len_behind(bytes: Seq<u8>, stream: Seq<u8>)
    requires
        forall|i: int| 0 <= i < bytes.len() ==> bytes[i] != 10,
    ensures
        line_len(bytes + stream) == bytes.len() + line_len(stream),
    decreases bytes.len(),
{
    if bytes.len() == 0 {
        assert(bytes + stream == stream);
    } else {
        assert((bytes + stream).drop_first() == bytes.drop_first() + stream);
        lemma_line_len_behind(bytes.drop_first(), stream);
    }
}

/// A single line at the front of a stream is its first line, whatever comes behind.
proof fn lemma_first_line(line: Seq<char>, rest: Seq<u8>)
    requires
        crate::qmp::is_one_line(line),
    ensures
        line_len(encode_utf8(line) + rest) == encode_utf8(line).len(),
        first_line(encode_utf8(line) + rest) == encode_utf8(line),
        after_line(encode_utf8(line) + rest) == rest,
    decreases line.len(),
{
    let stream = encode_utf8(line) + rest;
    let front = encode_scalar(line[0] as u32);
    let tail = encode_utf8(line.drop_first());
    assert(stream == front + (tail + rest));
    assert(line_len(stream) == encode_utf8(line).len()) by {
        if line.len() == 1 {
            assert(encode_scalar('\n' as u32) == seq![10u8]) by {
                assert((10u32 & 0x7F) as u8 == 10u8) by (bit_vector);
            }
            assert(line.drop_first().len() == 0);
        } else {
            assert(line.drop_last()[0] == line[0]);
            assert(line.drop_first().drop_last() == line.drop_last().drop_first());
            assert forall|i: int| 0 <= i < front.len() implies front[i] != 10 by {
                lemma_scalar_without_newline(line[0], i);
            }
            lemma_line_len_behind(front, tail + rest);
            lemma_first_line(line.drop_first(), rest);
        }
    }
}

/// Messages are read as they were written: where each line carries its message, as
/// the line that [`crate::qmp::qmp_message_line`] makes of a portable message does,
/// as many reads as there were lines give the messages in their order, none lost and
/// none merged, and leave what comes behind them as it is.
pub proof fn law_messages_are_read_in_turn(
    lines: Seq<Seq<char>>,
    messages: Seq<Json>,
    rest: Seq<u8>,
)
    requires
        lines.len() == messages.len(),
        forall|i: int|
            0 <= i < lines.len() ==> crate::qmp::carries(#[trigger] lines[i], messages[i]),
    ensures
        reads_in_turn(written(lines) + rest, messages, rest),
    decreases lines.len(),
{
    let stream = written(lines) + rest;
    if lines.len() == 0 {
        assert(stream == rest);
    } else {
        let others = lines.drop_first();
        let behind = written(others) + rest;
        assert(crate::qmp::carries(lines[0], messages[0]));
        assert(stream == encode_utf8(lines[0]) + behind);
        lemma_first_line(lines[0], behind);
        encode_utf8_valid_utf8(lines[0]);
        encode_utf8_decode_utf8(lines[0]);
        assert forall|i: int| 0 <= i < others.len() implies crate::qmp::carries(
            #[trigger] others[i],
            messages.drop_first()[i],
        ) by {
            assert(others[i] == lines[i + 1]);
        }
        law_messages_are_read_in_turn(others, messages.drop_first(), rest);
    }
}

} // verus!
