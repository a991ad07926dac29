//! What holds of the serial console as a whole.
use vstd::prelude::*;
use vstd::utf8::*;

use crate::console::{
    ConnectActionView, ConnectEventView, ReadEventView, ReadStateView, SerialReadRequest,
    SerialReadView, WriteActionView, WriteEventView, WriteStateView,
};
use crate::error::ErrorView;
use crate::serial::{SerialView, SERIAL_BUFFER_LIMIT};

verus! {

/// The state after a series of reads from the serial socket.
pub open spec fn after_chunks<W>(state: SerialView<W>, chunks: Seq<Seq<u8>>) -> SerialView<W>
    decreases chunks.len(),
{
    if chunks.len() == 0 {
        state
    } else {
        crate::serial::after_read(
            after_chunks(state, chunks.drop_last()),
            Some(chunks.last()),
        )
    }
}

/// However the guest's output is cut into reads, the buffer holds the newest of
/// all that was printed, and all of it up to the limit.
pub proof fn law_buffer_holds_the_newest_output<W>(state: SerialView<W>, chunks: Seq<Seq<u8>>)
    requires
        state.wf(),
        forall|i: int| 0 <= i < chunks.len() ==> #[trigger] chunks[i].len() > 0,
    ensures
        after_chunks(state, chunks) == state.with_buffer(
            crate::serial::newest(state.buffer + chunks.flatten()),
        ),
        after_chunks(state, chunks).wf(),
        state.buffer.len() + chunks.flatten().len() <= SERIAL_BUFFER_LIMIT ==> after_chunks(
            state,
            chunks,
        ).buffer == state.buffer + chunks.flatten(),
    decreases chunks.len(),
{
    chunks.lemma_flatten_and_flatten_alt_are_equivalent();
    if chunks.len() == 0 {
        assert(chunks.flatten() == Seq::<u8>::empty());
        assert(state.buffer + chunks.flatten() == state.buffer);
    } else {
        let before = chunks.drop_last();
        before.lemma_flatten_and_flatten_alt_are_equivalent();
        law_buffer_holds_the_newest_output(state, before);
        assert(chunks.flatten() == before.flatten() + chunks.last());
        let printed = state.buffer + before.flatten();
        assert(state.buffer + chunks.flatten() == printed + chunks.last());
        assert(crate::serial::newest(crate::serial::newest(printed) + chunks.last())
            == crate::serial::newest(printed + chunks.last()));
    }
}

/// However the guest's output is cut into reads, the buffer is the end of all that was
/// buffered and printed: the whole of it up to 256 KiB, and just so much beyond.
pub proof fn law_buffer_is_the_end_of_the_output<W>(state: SerialView<W>, chunks: Seq<Seq<u8>>)
    requires
        state.wf(),
        forall|i: int| 0 <= i < chunks.len() ==> #[trigger] chunks[i].len() > 0,
    ensures
        ({
            let after = after_chunks(state, chunks);
            let all = state.buffer + chunks.flatten();
            &&& after.buffer.is_suffix_of(all)
            &&& after.buffer.len() == if all.len() <= 262144 {
                all.len()
            } else {
                262144
            }
            &&& after.connected == state.connected
            &&& after.writer == state.writer
        }),
{
    law_buffer_holds_the_newest_output(state, chunks);
}

/// A read that brings bytes puts them behind what was buffered, keeps the newest 256
/// KiB of the two, and leaves the connection alone.
pub proof fn law_printed_bytes_are_buffered<W>(state: SerialView<W>, chunk: Seq<u8>)
    requires
        chunk.len() > 0,
    ensures
        ({
            let after = crate::serial::after_read(state, Some(chunk));
            let all = state.buffer + chunk;
            &&& after.buffer.is_suffix_of(all)
            &&& after.buffer.len() == if all.len() <= 262144 {
                all.len()
            } else {
                262144
            }
            &&& after.connected == state.connected
            &&& after.writer == state.writer
        }),
{
}

/// The end of a connection loses no output, whether the read that finds it fails or
/// brings no bytes: the buffer is exactly what it was, and there is no connection.
pub proof fn law_buffer_survives_the_end_of_the_connection<W>(
    state: SerialView<W>,
    read: Option<Seq<u8>>,
)
    requires
        read matches Some(chunk) ==> chunk.len() == 0,
    ensures
        ({
            let after = crate::serial::after_read(state, read);
            &&& after.buffer == state.buffer
            &&& !after.connected
            &&& after.writer is None
        }),
{
}

/// What was buffered when a connection ended, in either way, is still served without
/// connecting again.
pub proof fn law_output_survives_the_connection<W>(
    state: SerialView<W>,
    end: Option<Seq<u8>>,
    read: SerialReadView,
)
    requires
        state.wf(),
        end matches Some(chunk) ==> chunk.len() == 0,
    ensures
        crate::serial::after_read(state, end).buffer == state.buffer,
        crate::serial::after_read(state, end).wf(),
        state.buffer.len() > 0 ==> crate::console::read_next(
            read,
            ReadStateView::Starting,
            ReadEventView::Inspected,
            crate::serial::after_read(state, end),
        ) == ReadStateView::Arming,
{
}

/// A change of one part of the state leaves the others as they are, and the state is
/// idle exactly where there is no connection and nothing is buffered.
pub proof fn law_parts_of_the_state<W>(state: SerialView<W>, buffer: Seq<u8>, writer: W)
    ensures
        state.with_buffer(buffer) == (SerialView {
            buffer,
            connected: state.connected,
            writer: state.writer,
        }),
        state.with_connection(writer) == (SerialView {
            buffer: state.buffer,
            connected: true,
            writer: Some(writer),
        }),
        state.without_connection() == (SerialView {
            buffer: state.buffer,
            connected: false,
            writer: None::<W>,
        }),
        state.is_idle() <==> !state.connected && state.buffer.len() == 0,
        state.wf() <==> state.buffer.len() <= 262144 && (state.connected <==> state.writer is Some),
{
}

/// `text` is what `bytes` are to a reader: the text that they encode, or, where they
/// encode none, what `String::from_utf8_lossy` makes of them.
pub open spec fn is_text_of(text: Seq<char>, bytes: Seq<u8>) -> bool {
    if valid_utf8(bytes) {
        encode_utf8(text) == bytes
    } else {
        text == crate::text::lossy_text(bytes)
    }
}

/// There is one text of a buffer.
pub proof fn law_buffers_have_one_text(text: Seq<char>, bytes: Seq<u8>)
    ensures
        is_text_of(text, bytes) <==> text == crate::text::text_of(bytes),
{
    if valid_utf8(bytes) {
        decode_utf8_encode_utf8(bytes);
        encode_utf8_decode_utf8(text);
    }
}

/// `needle` is a part of `text`: something comes before it, and something behind.
pub open spec fn has_part(text: Seq<char>, needle: Seq<char>) -> bool {
    exists|before: Seq<char>, after: Seq<char>| text == #[trigger] (before + needle + after)
}

/// A text occurs in another exactly where it is a part of it.
pub proof fn law_parts_occur(text: Seq<char>, needle: Seq<char>)
    ensures
        crate::text::occurs_in(needle, text) <==> has_part(text, needle),
{
    if crate::text::occurs_in(needle, text) {
        let i = choose|i: int|
            0 <= i <= text.len() - needle.len() && #[trigger] text.subrange(i, i + needle.len())
                == needle;
        let before = text.take(i);
        let after = text.skip(i + needle.len());
        assert(text == before + text.subrange(i, i + needle.len()) + after);
        assert(text == before + needle + after);
    }
    if has_part(text, needle) {
        let (before, after) = choose|before: Seq<char>, after: Seq<char>|
            text == #[trigger] (before + needle + after);
        let i = before.len() as int;
        assert(text.subrange(i, i + needle.len()) == needle);
    }
}

/// `output` is the longest end of `text` that takes at most `max` bytes.
pub open spec fn is_longest_end(output: Seq<char>, text: Seq<char>, max: int) -> bool {
    &&& output.is_suffix_of(text)
    &&& encode_utf8(output).len() <= max
    &&& forall|longer: Seq<char>|
        longer.is_suffix_of(text) && (#[trigger] encode_utf8(longer)).len() <= max ==> longer.len()
            <= output.len()
}

/// What is returned of a text: nothing exactly while a substring is waited for that is
/// no part of it, and else the longest end that fits.
pub proof fn law_output_is_the_longest_end(
    text: Seq<char>,
    wait_for: Option<Seq<char>>,
    max_chars: usize,
)
    ensures
        match crate::serial::output_of(text, wait_for, max_chars) {
            None => wait_for matches Some(needle) && !has_part(text, needle),
            Some(output) => {
                &&& wait_for matches Some(needle) ==> has_part(text, needle)
                &&& is_longest_end(output, text, max_chars as int)
            },
        },
{
    if let Some(needle) = wait_for {
        law_parts_occur(text, needle);
    }
    lemma_tail_fits(text, max_chars as nat);
    let output = crate::text::tail_of(text, max_chars as nat);
    assert forall|longer: Seq<char>|
        longer.is_suffix_of(text) && (#[trigger] encode_utf8(longer)).len()
            <= max_chars implies longer.len() <= output.len() by {
        assert(text.skip(text.len() - longer.len()) == longer);
        lemma_tail_is_longest(text, max_chars as nat, longer.len());
    }
}

/// With `wait_for` an output is returned only once the substring is in the
/// buffer, and then it is.
pub proof fn law_wait_for_gates_the_output<W>(
    read: SerialReadView,
    serial: SerialView<W>,
    deadline: u128,
    needle: Seq<char>,
)
    requires
        read.wait_for == Some(needle),
    ensures
        ({
            let next = crate::console::read_next(
                read,
                ReadStateView::Polling { deadline },
                ReadEventView::Inspected,
                serial,
            );
            let there = crate::text::occurs_in(needle, crate::text::text_of(serial.buffer));
            &&& next is Done <==> there
            &&& !there ==> next == ReadStateView::Missed { deadline }
        }),
{
}

/// A text has no more characters than bytes.
proof fn lemma_chars_are_bytes(text: Seq<char>)
    ensures
        text.len() <= encode_utf8(text).len(),
    decreases text.len(),
{
    if text.len() > 0 {
        lemma_chars_are_bytes(text.drop_first());
        char_is_scalar(text[0]);
    }
}

/// What is returned is an end of the text, with at most `max` bytes and so at
/// most `max` characters.
proof fn lemma_tail_fits(text: Seq<char>, max: nat)
    ensures
        crate::text::tail_of(text, max).is_suffix_of(text),
        encode_utf8(crate::text::tail_of(text, max)).len() <= max,
        crate::text::tail_of(text, max).len() <= max,
    decreases text.len(),
{
    if text.len() == 0 || encode_utf8(text).len() <= max {
        lemma_chars_are_bytes(text);
    } else {
        lemma_tail_fits(text.drop_first(), max);
    }
}

/// No end of the text that fits is longer than the one that is returned.
proof fn lemma_tail_is_longest(text: Seq<char>, max: nat, n: nat)
    requires
        n <= text.len(),
        encode_utf8(text.skip(text.len() - n)).len() <= max,
    ensures
        n <= crate::text::tail_of(text, max).len(),
    decreases text.len(),
{
    if text.len() == 0 || encode_utf8(text).len() <= max {
    } else {
        if n == text.len() {
            assert(text.skip(0) == text);
        }
        let rest = text.drop_first();
        assert(rest.skip(rest.len() - n) == text.skip(text.len() - n));
        lemma_tail_is_longest(rest, max, n);
    }
}

/// The output of a read is an end of the buffered text, and never more than
/// `max_chars` characters where the request names a number of them.
pub proof fn law_output_is_capped<W>(request: SerialReadRequest, serial: SerialView<W>)
    ensures
        match crate::console::polled(request.read_of(), serial) {
            Some(output) => {
                &&& output.is_suffix_of(crate::text::text_of(serial.buffer))
                &&& request.max_chars is Some ==> output.len() <= request.max_chars->0
                &&& request.max_chars is None ==> output.len()
                    <= crate::console::DEFAULT_SERIAL_MAX_CHARS
            },
            None => true,
        },
{
    lemma_tail_fits(
        crate::text::text_of(serial.buffer),
        request.read_of().max_chars as nat,
    );
}

/// The cap cuts no more than it has to: the output is the longest end of the
/// buffered text whose bytes fit, so that no other end that fits is longer.
pub proof fn law_output_is_longest<W>(read: SerialReadView, serial: SerialView<W>, n: nat)
    requires
        n <= crate::text::text_of(serial.buffer).len(),
        encode_utf8(
            crate::text::text_of(serial.buffer).skip(
                crate::text::text_of(serial.buffer).len() - n,
            ),
        ).len() <= read.max_chars,
    ensures
        match crate::console::polled(read, serial) {
            Some(output) => n <= output.len() && encode_utf8(output).len() <= read.max_chars,
            None => true,
        },
{
    lemma_tail_is_longest(crate::text::text_of(serial.buffer), read.max_chars as nat, n);
    lemma_tail_fits(crate::text::text_of(serial.buffer), read.max_chars as nat);
}

/// A read gives back, byte for byte, what the guest printed, where that is valid
/// UTF-8 and fits.
pub proof fn law_read_gives_back_what_was_printed<W>(read: SerialReadView, serial: SerialView<W>)
    requires
        valid_utf8(serial.buffer),
        serial.buffer.len() <= read.max_chars,
    ensures
        match crate::console::polled(read, serial) {
            Some(output) => encode_utf8(output) == serial.buffer,
            None => read.wait_for is Some,
        },
{
    decode_utf8_encode_utf8(serial.buffer);
}

/// What the guest prints into an empty buffer, in however many pieces, is what a
/// read without `wait_for` returns, where it is valid UTF-8 and fits.
pub proof fn law_printed_output_is_read<W>(
    read: SerialReadView,
    serial: SerialView<W>,
    chunks: Seq<Seq<u8>>,
)
    requires
        serial.wf(),
        serial.buffer.len() == 0,
        forall|i: int| 0 <= i < chunks.len() ==> #[trigger] chunks[i].len() > 0,
        chunks.flatten().len() <= SERIAL_BUFFER_LIMIT,
        chunks.flatten().len() <= read.max_chars,
        valid_utf8(chunks.flatten()),
        read.wait_for is None,
    ensures
        crate::console::polled(read, after_chunks(serial, chunks)) == Some(
            decode_utf8(chunks.flatten()),
        ),
        encode_utf8(decode_utf8(chunks.flatten())) == chunks.flatten(),
{
    law_buffer_holds_the_newest_output(serial, chunks);
    assert(serial.buffer + chunks.flatten() == chunks.flatten());
    decode_utf8_encode_utf8(chunks.flatten());
}

/// The serial state that a look at the buffer leaves: it is as it was, except
/// that a read which returns its output and asks for `clear` empties the buffer.
/// A read that goes on waiting discards nothing.
pub proof fn law_only_a_returned_read_clears<W>(
    read: SerialReadView,
    state: ReadStateView,
    event: ReadEventView,
    serial: SerialView<W>,
)
    ensures
        ({
            let next = crate::console::read_next(read, state, event, serial);
            let after = crate::console::read_serial_state(read, state, event, serial);
            &&& after != serial ==> read.clear && state is Polling && (next matches
                ReadStateView::Done(Ok(_))) && after == serial.with_buffer(Seq::empty())
            &&& state is Polling && event is Inspected && next is Done && read.clear
                ==> after.buffer.len() == 0
            &&& after.connected == serial.connected
            &&& after.writer == serial.writer
        }),
{
}

/// Once the buffer is cleared, the next read without `wait_for` returns the empty
/// text.
pub proof fn law_cleared_buffer_reads_empty<W>(read: SerialReadView, serial: SerialView<W>)
    requires
        read.wait_for is None,
    ensures
        crate::console::polled(read, serial.with_buffer(Seq::empty())) == Some(
            Seq::<char>::empty(),
        ),
{
    let empty = Seq::<u8>::empty();
    assert(valid_utf8(empty));
    assert(decode_utf8(empty) == Seq::<char>::empty());
}

/// The state of a read after a series of events, each with the serial state at
/// that time.
pub open spec fn read_run<W>(
    read: SerialReadView,
    state: ReadStateView,
    steps: Seq<(ReadEventView, SerialView<W>)>,
) -> ReadStateView
    decreases steps.len(),
{
    if steps.len() == 0 {
        state
    } else {
        let before = read_run(read, state, steps.drop_last());
        crate::console::read_next(read, before, steps.last().0, steps.last().1)
    }
}

/// One of `steps` was a failed attempt to connect that ended with `error`.
pub open spec fn was_refused<W>(
    steps: Seq<(ReadEventView, SerialView<W>)>,
    error: ErrorView,
) -> bool {
    exists|i: int|
        0 <= i < steps.len() && #[trigger] steps[i].0 == ReadEventView::Connected(Err(error))
}

/// One of `steps` was a look at a buffer that gave `output`.
pub open spec fn was_polled<W>(
    read: SerialReadView,
    steps: Seq<(ReadEventView, SerialView<W>)>,
    output: Seq<char>,
) -> bool {
    exists|i: int|
        0 <= i < steps.len() && (#[trigger] steps[i]).0 is Inspected && crate::console::polled(
            read,
            steps[i].1,
        ) == Some(output)
}

/// What a read can end with, whatever happens: the output that the buffer gave
/// when it was looked at, the error of a refused connection, or, only where it
/// waits for a substring, that it timed out.
pub proof fn law_read_outcomes<W>(
    read: SerialReadView,
    steps: Seq<(ReadEventView, SerialView<W>)>,
)
    ensures
        match read_run(read, ReadStateView::Starting, steps) {
            ReadStateView::Done(Ok(output)) => was_polled(read, steps, output),
            ReadStateView::Done(Err(error)) => was_refused(steps, error) || (read.wait_for is Some
                && error == crate::console::read_timeout_error(read.wait_for)),
            ReadStateView::Missed { .. } => read.wait_for is Some,
            ReadStateView::Sleeping { .. } => read.wait_for is Some,
            _ => true,
        },
    decreases steps.len(),
{
    if steps.len() > 0 {
        let before = steps.drop_last();
        law_read_outcomes(read, before);
        assert(steps[steps.len() - 1] == steps.last());
        match read_run(read, ReadStateView::Starting, before) {
            ReadStateView::Done(Ok(output)) => {
                let i = choose|i: int|
                    0 <= i < before.len() && (#[trigger] before[i]).0 is Inspected
                        && crate::console::polled(read, before[i].1) == Some(output);
                assert(steps[i] == before[i]);
            },
            ReadStateView::Done(Err(error)) => {
                if was_refused(before, error) {
                    let i = choose|i: int|
                        0 <= i < before.len() && #[trigger] before[i].0 == ReadEventView::Connected(
                            Err(error),
                        );
                    assert(steps[i].0 == before[i].0);
                }
            },
            _ => {},
        }
    }
}

/// Without `wait_for` a read returns at once: the first look at the buffer ends
/// it with an output, though that may be empty.
pub proof fn law_read_without_wait_for_returns_at_once<W>(
    read: SerialReadView,
    serial: SerialView<W>,
    deadline: u128,
)
    requires
        read.wait_for is None,
    ensures
        crate::console::read_next(
            read,
            ReadStateView::Polling { deadline },
            ReadEventView::Inspected,
            serial,
        ) == ReadStateView::Done(
            Ok(crate::text::tail_of(crate::text::text_of(serial.buffer), read.max_chars as nat)),
        ),
{
}

/// The deadline of a read is `timeout_ms` after its clock was first read, and
/// stays. Whatever happens then, the read ends with an error only at a clock that
/// has reached the deadline, and the error says that it timed out.
pub proof fn law_read_waits_until_its_deadline<W>(
    read: SerialReadView,
    start: u64,
    serial: SerialView<W>,
    steps: Seq<(ReadEventView, SerialView<W>)>,
)
    ensures
        ({
            let armed = crate::console::read_next(
                read,
                ReadStateView::Arming,
                ReadEventView::Clock(start),
                serial,
            );
            let end = start + read.timeout_ms * 1000000;
            &&& armed matches ReadStateView::Polling { deadline } && deadline == end
            &&& match read_run(read, armed, steps) {
                ReadStateView::Polling { deadline } => deadline == end,
                ReadStateView::Missed { deadline } => deadline == end,
                ReadStateView::Sleeping { deadline } => deadline == end,
                ReadStateView::Done(Ok(_)) => true,
                ReadStateView::Done(Err(error)) => {
                    &&& error == crate::console::read_timeout_error(read.wait_for)
                    &&& exists|i: int|
                        0 <= i < steps.len() && (#[trigger] steps[i].0 matches ReadEventView::Clock(
                            now,
                        ) && now >= end)
                },
                _ => false,
            }
        }),
    decreases steps.len(),
{
    let armed = crate::console::read_next(
        read,
        ReadStateView::Arming,
        ReadEventView::Clock(start),
        serial,
    );
    if steps.len() > 0 {
        let before = steps.drop_last();
        law_read_waits_until_its_deadline(read, start, serial, before);
        if read_run(read, armed, before) matches ReadStateView::Done(Err(_)) {
            let i = choose|i: int|
                0 <= i < before.len() && (#[trigger] before[i].0 matches ReadEventView::Clock(now)
                    && now >= start + read.timeout_ms * 1000000);
            assert(steps[i] == before[i]);
        } else {
            assert(steps[steps.len() - 1] == steps.last());
        }
    }
}

/// A clock that has reached the deadline ends a read that found nothing, and one
/// that has not lets it look again after the poll interval.
pub proof fn law_missed_read_ends_at_its_deadline<W>(
    read: SerialReadView,
    deadline: u128,
    now: u64,
    serial: SerialView<W>,
)
    ensures
        ({
            let next = crate::console::read_next(
                read,
                ReadStateView::Missed { deadline },
                ReadEventView::Clock(now),
                serial,
            );
            &&& now >= deadline ==> next == ReadStateView::Done(
                Err(crate::console::read_timeout_error(read.wait_for)),
            )
            &&& now < deadline ==> crate::console::read_action_of(next)
                == crate::console::ReadAction::Sleep(crate::console::SERIAL_POLL_INTERVAL_MS)
                && crate::console::read_next(read, next, ReadEventView::Woke, serial)
                == ReadStateView::Polling { deadline }
        }),
{
}

/// A connection is made once: while it lasts, asking for one again changes
/// nothing and connects to nothing. A refused attempt changes nothing either.
pub proof fn law_one_connection_at_a_time<W>(
    path: Seq<char>,
    serial: SerialView<W>,
    writer: W,
    reason: Seq<char>,
)
    requires
        serial.wf(),
    ensures
        ({
            let open = crate::console::connect_state(serial, ConnectEventView::Opened(writer));
            &&& open.wf()
            &&& open.buffer == serial.buffer
            &&& crate::console::connect_action(path, open, ConnectEventView::Requested)
                == ConnectActionView::Done(Ok(()))
            &&& crate::console::connect_state(open, ConnectEventView::Requested) == open
            &&& crate::console::connect_state(serial, ConnectEventView::Refused(reason)) == serial
        }),
{
}

/// A write that finds the connection gone is refused, and one that finds it goes
/// on to send its bytes.
pub proof fn law_write_needs_the_connection<W>(
    serial: SerialView<W>,
    typed: Seq<char>,
    end: Option<Seq<u8>>,
)
    requires
        serial.wf(),
        end matches Some(chunk) ==> chunk.len() == 0,
    ensures
        ({
            let next = crate::console::write_next(
                WriteStateView::Checking,
                WriteEventView::Inspected,
                serial,
            );
            &&& serial.connected ==> crate::console::write_action_of(typed, next)
                == WriteActionView::Write(encode_utf8(typed))
            &&& !serial.connected ==> next == WriteStateView::Done(
                Err(crate::error::internal("serial connection lost, retry the call"@)),
            )
        }),
        crate::console::write_next(
            WriteStateView::Checking,
            WriteEventView::Inspected,
            crate::serial::after_read(serial, end),
        ) matches WriteStateView::Done(Err(_)),
{
}

} // verus!
