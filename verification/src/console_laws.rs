//! What the serial tools do with their parameters, the clock and the connection.
use vstd::prelude::*;
use vstd::utf8::*;

use crate::console::{
    ConnectAction, ConnectActionView, ConnectEvent, ConnectEventView, ReadAction, ReadEvent,
    ReadEventView, ReadState, ReadStateView, SerialRead, SerialReadRequest, SerialReadView,
    SerialWriteRequest, WriteAction, WriteActionView, WriteEvent, WriteEventView, WriteState,
    WriteStateView,
};
use crate::error::ErrorView;
use crate::serial::SerialView;

verus! {

// ---------------------------------------------------------------------------
// Reading
// ---------------------------------------------------------------------------

/// A parameter that is given is taken as it is. One that is left out is five seconds
/// for the timeout, 4000 for the cap, and no clearing; without `wait_for` nothing is
/// waited for.
pub proof fn law_read_parameters(request: SerialReadRequest)
    ensures
        ({
            let read = request.read_of();
            &&& request.wait_for matches Some(needle) ==> read.wait_for == Some(needle@)
            &&& request.wait_for is None ==> read.wait_for is None
            &&& request.timeout_ms matches Some(timeout_ms) ==> read.timeout_ms == timeout_ms
            &&& request.timeout_ms is None ==> read.timeout_ms == 5000
            &&& request.max_chars matches Some(max_chars) ==> read.max_chars == max_chars
            &&& request.max_chars is None ==> read.max_chars == 4000
            &&& request.clear matches Some(clear) ==> read.clear == clear
            &&& request.clear is None ==> !read.clear
        }),
{
}

/// One of `steps` was an attempt to connect that succeeded.
pub open spec fn was_connected<W>(steps: Seq<(ReadEventView, SerialView<W>)>) -> bool {
    exists|i: int|
        0 <= i < steps.len() && ((#[trigger] steps[i]).0 matches ReadEventView::Connected(Ok(_)))
}

/// A read that starts with neither a connection nor buffered output connects first,
/// whatever its parameters: it returns no output before an attempt to connect has
/// succeeded, and without one its only error is that of an attempt that failed.
pub proof fn law_idle_reads_connect_first<W>(
    read: SerialReadView,
    serial: SerialView<W>,
    steps: Seq<(ReadEventView, SerialView<W>)>,
)
    requires
        !serial.connected,
        serial.buffer.len() == 0,
    ensures
        ({
            let first = crate::console::read_next(
                read,
                ReadStateView::Starting,
                ReadEventView::Inspected,
                serial,
            );
            let end = crate::serial_laws::read_run(read, first, steps);
            &&& first == ReadStateView::Connecting
            &&& crate::console::read_action_of(first) == ReadAction::Connect
            &&& !was_connected(steps) ==> end == ReadStateView::Connecting || (end matches
                ReadStateView::Done(Err(error)) && crate::serial_laws::was_refused(steps, error))
        }),
    decreases steps.len(),
{
    if steps.len() > 0 {
        let before = steps.drop_last();
        law_idle_reads_connect_first(read, serial, before);
        assert(steps[steps.len() - 1] == steps.last());
        if !was_connected(steps) {
            assert forall|i: int| 0 <= i < before.len() implies !((#[trigger] before[i]).0 matches
                ReadEventView::Connected(Ok(_))) by {
                assert(before[i] == steps[i]);
            }
            assert(!was_connected(before));
            assert(!(steps[steps.len() - 1].0 matches ReadEventView::Connected(Ok(_))));
            if let ReadStateView::Done(Err(error)) = crate::serial_laws::read_run(
                read,
                ReadStateView::Connecting,
                before,
            ) {
                let i = choose|i: int|
                    0 <= i < before.len() && #[trigger] before[i].0 == ReadEventView::Connected(
                        Err(error),
                    );
                assert(steps[i].0 == before[i].0);
            }
        }
    }
}

/// A read that starts with a connection or with buffered output does not connect.
pub proof fn law_other_reads_do_not_connect<W>(
    read: SerialReadView,
    serial: SerialView<W>,
    steps: Seq<(ReadEventView, SerialView<W>)>,
)
    requires
        serial.connected || serial.buffer.len() > 0,
    ensures
        ({
            let first = crate::console::read_next(
                read,
                ReadStateView::Starting,
                ReadEventView::Inspected,
                serial,
            );
            let end = crate::serial_laws::read_run(read, first, steps);
            &&& first == ReadStateView::Arming
            &&& crate::console::read_action_of(end) != ReadAction::Connect
            &&& !(end is Connecting) && !(end is Starting)
        }),
    decreases steps.len(),
{
    if steps.len() > 0 {
        law_other_reads_do_not_connect(read, serial, steps.drop_last());
    }
}

/// A read goes on where its attempt to connect succeeds, and ends with the error of
/// one that fails.
pub proof fn law_reads_follow_their_connection<W>(
    read: SerialReadView,
    error: ErrorView,
    serial: SerialView<W>,
)
    ensures
        crate::console::read_next(
            read,
            ReadStateView::Connecting,
            ReadEventView::Connected(Ok(())),
            serial,
        ) == ReadStateView::Arming,
        crate::console::read_next(
            read,
            ReadStateView::Connecting,
            ReadEventView::Connected(Err(error)),
            serial,
        ) == ReadStateView::Done(Err(error)),
{
}

/// A look at the buffer ends a read with the longest end of the buffered text that
/// fits, unless a substring is waited for that is no part of the text: then the clock
/// decides. The buffer is emptied exactly where the read ends and asks for that.
pub proof fn law_looks_return_the_longest_end<W>(
    read: SerialReadView,
    deadline: u128,
    serial: SerialView<W>,
    text: Seq<char>,
)
    requires
        crate::serial_laws::is_text_of(text, serial.buffer),
    ensures
        ({
            let looking = ReadStateView::Polling { deadline };
            let next = crate::console::read_next(read, looking, ReadEventView::Inspected, serial);
            let after = crate::console::read_serial_state(
                read,
                looking,
                ReadEventView::Inspected,
                serial,
            );
            let missing = read.wait_for matches Some(needle) && !crate::serial_laws::has_part(
                text,
                needle,
            );
            &&& missing ==> next == ReadStateView::Missed { deadline }
            &&& !missing ==> (next matches ReadStateView::Done(Ok(output))
                && crate::serial_laws::is_longest_end(output, text, read.max_chars as int))
            &&& after.connected == serial.connected
            &&& after.writer == serial.writer
            &&& after.buffer == if !missing && read.clear {
                Seq::<u8>::empty()
            } else {
                serial.buffer
            }
        }),
{
    crate::serial_laws::law_buffers_have_one_text(text, serial.buffer);
    crate::serial_laws::law_output_is_the_longest_end(text, read.wait_for, read.max_chars);
}

/// Nothing but a look at the buffer changes the serial state.
pub proof fn law_only_looks_touch_the_buffer<W>(
    read: SerialReadView,
    state: ReadStateView,
    event: ReadEventView,
    serial: SerialView<W>,
)
    requires
        !(state is Polling && event is Inspected),
    ensures
        crate::console::read_serial_state(read, state, event, serial) == serial,
{
}

/// The clock arms a read with a deadline, ends one that found nothing by then with an
/// error that quotes the substring, and sends any other to sleep until it looks again.
pub proof fn law_reads_follow_the_clock<W>(
    read: SerialReadView,
    now: u64,
    deadline: u128,
    serial: SerialView<W>,
)
    ensures
        crate::console::read_next(
            read,
            ReadStateView::Arming,
            ReadEventView::Clock(now),
            serial,
        ) matches ReadStateView::Polling { deadline } && deadline == now + read.timeout_ms * 1000000,
        now >= deadline ==> crate::console::read_next(
            read,
            ReadStateView::Missed { deadline },
            ReadEventView::Clock(now),
            serial,
        ) == ReadStateView::Done(
            Err(
                crate::message_laws::failure(
                    "timed out waiting for serial output containing "@ + crate::text::debug_text(
                        read.wait_for,
                    ) + "; call again without `wait_for` to see the raw buffer"@,
                ),
            ),
        ),
        now < deadline ==> crate::console::read_next(
            read,
            ReadStateView::Missed { deadline },
            ReadEventView::Clock(now),
            serial,
        ) == (ReadStateView::Sleeping { deadline }),
        crate::console::read_next(
            read,
            ReadStateView::Sleeping { deadline },
            ReadEventView::Woke,
            serial,
        ) == (ReadStateView::Polling { deadline }),
        crate::console::read_timeout_error(read.wait_for) == crate::message_laws::failure(
            "timed out waiting for serial output containing "@ + crate::text::debug_text(
                read.wait_for,
            ) + "; call again without `wait_for` to see the raw buffer"@,
        ),
{
}

/// `event` is what comes of `action`.
pub open spec fn answers_read(event: ReadEventView, action: ReadAction) -> bool {
    match action {
        ReadAction::Inspect => event is Inspected,
        ReadAction::Connect => event is Connected,
        ReadAction::ReadClock => event is Clock,
        ReadAction::Sleep(_) => event is Woke,
        ReadAction::Finish => false,
    }
}

/// What does not come of the pending action changes nothing, and a read that is done
/// stays as it is.
pub proof fn law_reads_take_only_what_they_await<W>(
    read: SerialReadView,
    state: ReadStateView,
    event: ReadEventView,
    serial: SerialView<W>,
)
    requires
        !answers_read(event, crate::console::read_action_of(state)),
    ensures
        crate::console::read_next(read, state, event, serial) == state,
{
}

/// What is to be done for a read: look, connect, read the clock, look, and between
/// looks read the clock and sleep for 50 milliseconds.
pub proof fn law_actions_of_a_read(state: ReadStateView)
    ensures
        ({
            let action = crate::console::read_action_of(state);
            &&& action == ReadAction::Inspect <==> state is Starting || state is Polling
            &&& action == ReadAction::Connect <==> state is Connecting
            &&& action == ReadAction::ReadClock <==> state is Arming || state is Missed
            &&& action == ReadAction::Sleep(50) <==> state is Sleeping
            &&& action == ReadAction::Finish <==> state is Done
        }),
{
}

// ---------------------------------------------------------------------------
// Writing
// ---------------------------------------------------------------------------

/// The bytes that are sent are the data in UTF-8 and a newline, or the data alone
/// where the newline is declined, whatever the data holds.
pub proof fn law_written_bytes_are_the_data(request: SerialWriteRequest)
    ensures
        ({
            let data = encode_utf8(request.data@);
            let sent = crate::console::write_action_of(request.typed(), WriteStateView::Writing);
            match request.newline {
                Some(false) => {
                    &&& encode_utf8(request.typed()) == data
                    &&& sent == WriteActionView::Write(data)
                },
                _ => {
                    &&& encode_utf8(request.typed()) == data.push(10u8)
                    &&& sent == WriteActionView::Write(data.push(10u8))
                },
            }
        }),
{
    crate::console::lemma_encode_newline(request.data@);
}

/// To leave the newline out of a write is to ask for it, and a declined one can be
/// given in the data instead.
pub proof fn law_newline_is_the_default(
    plain: SerialWriteRequest,
    asked: SerialWriteRequest,
    given: SerialWriteRequest,
)
    requires
        plain.newline is None,
        asked.newline == Some(true),
        asked.data@ == plain.data@,
        given.newline == Some(false),
        given.data@ == plain.data@.push('\n'),
    ensures
        plain.typed() == asked.typed(),
        plain.typed() == given.typed(),
{
}

/// A write connects, looks for the connection, sends its bytes and says `ok`. Where a
/// step fails it ends with an error that says why.
pub proof fn law_steps_of_a_write<W>(serial: SerialView<W>, error: ErrorView, reason: Seq<char>)
    ensures
        crate::console::write_next(
            WriteStateView::Connecting,
            WriteEventView::Connected(Ok(())),
            serial,
        ) == WriteStateView::Checking,
        crate::console::write_next(
            WriteStateView::Connecting,
            WriteEventView::Connected(Err(error)),
            serial,
        ) == WriteStateView::Done(Err(error)),
        crate::console::write_next(
            WriteStateView::Checking,
            WriteEventView::Inspected,
            serial,
        ) == if serial.writer is Some {
            WriteStateView::Writing
        } else {
            WriteStateView::Done(
                Err(crate::message_laws::failure("serial connection lost, retry the call"@)),
            )
        },
        crate::console::write_next(
            WriteStateView::Writing,
            WriteEventView::Written(Ok(())),
            serial,
        ) == WriteStateView::Done(Ok("ok"@)),
        crate::console::write_next(
            WriteStateView::Writing,
            WriteEventView::Written(Err(reason)),
            serial,
        ) == WriteStateView::Done(
            Err(crate::message_laws::failure("failed to write to serial socket: "@ + reason)),
        ),
{
    reveal_strlit("failed to write to serial socket: ");
    reveal_strlit("failed to write to serial socket");
    reveal_strlit(": ");
    assert("failed to write to serial socket"@ + ": "@ == "failed to write to serial socket: "@);
}

/// What does not come of the pending action changes nothing, and a write that is done
/// stays as it is.
pub proof fn law_writes_take_only_what_they_await<W>(
    state: WriteStateView,
    event: WriteEventView,
    serial: SerialView<W>,
)
    requires
        !(state is Connecting && event is Connected),
        !(state is Checking && event is Inspected),
        !(state is Writing && event is Written),
    ensures
        crate::console::write_next(state, event, serial) == state,
{
}

/// What is to be done for a write: connect, look, send the typed text, and then
/// nothing.
pub proof fn law_actions_of_a_write(typed: Seq<char>, state: WriteStateView)
    ensures
        ({
            let action = crate::console::write_action_of(typed, state);
            &&& action == WriteActionView::Connect <==> state is Connecting
            &&& action == WriteActionView::Inspect <==> state is Checking
            &&& action == WriteActionView::Write(encode_utf8(typed)) <==> state is Writing
            &&& action == WriteActionView::Finish <==> state is Done
        }),
{
}

/// The state of a write after a series of events, each with the serial state at that
/// time.
pub open spec fn write_run<W>(
    state: WriteStateView,
    steps: Seq<(WriteEventView, SerialView<W>)>,
) -> WriteStateView
    decreases steps.len(),
{
    if steps.len() == 0 {
        state
    } else {
        let before = write_run(state, steps.drop_last());
        crate::console::write_next(before, steps.last().0, steps.last().1)
    }
}

/// A write says `ok`, and nothing else, only after its bytes were written.
pub proof fn law_ok_means_written<W>(
    steps: Seq<(WriteEventView, SerialView<W>)>,
    text: Seq<char>,
)
    requires
        write_run(WriteStateView::Connecting, steps) == WriteStateView::Done(Ok(text)),
    ensures
        text == "ok"@,
        exists|i: int|
            0 <= i < steps.len() && ((#[trigger] steps[i]).0 matches WriteEventView::Written(Ok(_))),
    decreases steps.len(),
{
    assert(steps.len() > 0);
    let before = steps.drop_last();
    assert(steps[steps.len() - 1] == steps.last());
    if write_run(WriteStateView::Connecting, before) is Done {
        law_ok_means_written(before, text);
        let i = choose|i: int|
            0 <= i < before.len() && ((#[trigger] before[i]).0 matches WriteEventView::Written(
                Ok(_),
            ));
        assert(steps[i] == before[i]);
    } else {
        assert(steps[steps.len() - 1].0 matches WriteEventView::Written(Ok(_)));
    }
}

// ---------------------------------------------------------------------------
// Connecting
// ---------------------------------------------------------------------------

/// A connection that is wanted is opened unless there is one. An opened one is taken
/// over, with all that was buffered, and its reader started. A refused one is an error
/// that gives the path, the reason and the flag, and changes nothing.
pub proof fn law_steps_of_a_connection<W>(
    path: Seq<char>,
    serial: SerialView<W>,
    writer: W,
    reason: Seq<char>,
)
    ensures
        crate::console::connect_action(path, serial, ConnectEventView::Requested)
            == if serial.connected {
            ConnectActionView::Done(Ok(()))
        } else {
            ConnectActionView::Open
        },
        crate::console::connect_action(path, serial, ConnectEventView::Opened(writer))
            == ConnectActionView::StartReader,
        crate::console::connect_action(path, serial, ConnectEventView::Refused(reason))
            == ConnectActionView::Done(
            Err(
                crate::message_laws::failure(
                    "failed to connect to serial socket "@ + path + ": "@ + reason
                        + "; launch QEMU with `-serial unix:"@ + path + ",server,nowait`"@,
                ),
            ),
        ),
        crate::console::connect_state(serial, ConnectEventView::Requested) == serial,
        crate::console::connect_state(serial, ConnectEventView::Refused(reason)) == serial,
        crate::console::connect_state(serial, ConnectEventView::Opened(writer)) == (SerialView {
            buffer: serial.buffer,
            connected: true,
            writer: Some(writer),
        }),
{
    crate::message_laws::law_connect_failures_are_told("serial"@, "-serial"@, path, reason);
    reveal_strlit("failed to connect to ");
    reveal_strlit("serial");
    reveal_strlit(" socket ");
    reveal_strlit("failed to connect to serial socket ");
    reveal_strlit("; launch QEMU with `");
    reveal_strlit("-serial");
    reveal_strlit(" unix:");
    reveal_strlit("; launch QEMU with `-serial unix:");
    assert("failed to connect to "@ + "serial"@ + " socket "@
        == "failed to connect to serial socket "@);
    assert("; launch QEMU with `"@ + "-serial"@ + " unix:"@ == "; launch QEMU with `-serial unix:"@);
    let head = "failed to connect to serial socket "@ + path + ": "@ + reason;
    assert(head + "; launch QEMU with `"@ + "-serial"@ + " unix:"@ == head + (
    "; launch QEMU with `"@ + "-serial"@ + " unix:"@));
}

// ---------------------------------------------------------------------------
// What contracts see
// ---------------------------------------------------------------------------

/// Contracts see a read, what comes of its actions, and how far it has come, as they
/// stand.
pub proof fn law_reads_are_seen_as_they_are(read: SerialRead, event: ReadEvent, state: ReadState)
    ensures
        read.wait_for is None ==> read@.wait_for is None,
        read.wait_for matches Some(needle) ==> read@.wait_for == Some(needle@),
        read@.timeout_ms == read.timeout_ms,
        read@.max_chars == read.max_chars,
        read@.clear == read.clear,
        match event {
            ReadEvent::Inspected => event@ == ReadEventView::Inspected,
            ReadEvent::Connected(Ok(_)) => event@ == ReadEventView::Connected(Ok(())),
            ReadEvent::Connected(Err(error)) => event@ == ReadEventView::Connected(
                Err(ErrorView { code: error.code, message: error.message@ }),
            ),
            ReadEvent::Clock(now) => event@ == ReadEventView::Clock(now),
            ReadEvent::Woke => event@ == ReadEventView::Woke,
        },
        match state {
            ReadState::Starting => state@ == ReadStateView::Starting,
            ReadState::Connecting => state@ == ReadStateView::Connecting,
            ReadState::Arming => state@ == ReadStateView::Arming,
            ReadState::Polling { deadline } => state@ == (ReadStateView::Polling { deadline }),
            ReadState::Missed { deadline } => state@ == (ReadStateView::Missed { deadline }),
            ReadState::Sleeping { deadline } => state@ == (ReadStateView::Sleeping { deadline }),
            ReadState::Done(Ok(text)) => state@ == ReadStateView::Done(Ok(text@)),
            ReadState::Done(Err(error)) => state@ == ReadStateView::Done(
                Err(ErrorView { code: error.code, message: error.message@ }),
            ),
        },
{
}

/// Contracts see what is to be done for a write, what comes of it, and how far it has
/// come, as they stand.
pub proof fn law_writes_are_seen_as_they_are(
    action: WriteAction,
    event: WriteEvent,
    state: WriteState,
)
    ensures
        match action {
            WriteAction::Connect => action@ == WriteActionView::Connect,
            WriteAction::Inspect => action@ == WriteActionView::Inspect,
            WriteAction::Write(bytes) => action@ == WriteActionView::Write(bytes@),
            WriteAction::Finish => action@ == WriteActionView::Finish,
        },
        match event {
            WriteEvent::Connected(Ok(_)) => event@ == WriteEventView::Connected(Ok(())),
            WriteEvent::Connected(Err(error)) => event@ == WriteEventView::Connected(
                Err(ErrorView { code: error.code, message: error.message@ }),
            ),
            WriteEvent::Inspected => event@ == WriteEventView::Inspected,
            WriteEvent::Written(Ok(_)) => event@ == WriteEventView::Written(Ok(())),
            WriteEvent::Written(Err(reason)) => event@ == WriteEventView::Written(Err(reason@)),
        },
        match state {
            WriteState::Connecting => state@ == WriteStateView::Connecting,
            WriteState::Checking => state@ == WriteStateView::Checking,
            WriteState::Writing => state@ == WriteStateView::Writing,
            WriteState::Done(Ok(text)) => state@ == WriteStateView::Done(Ok(text@)),
            WriteState::Done(Err(error)) => state@ == WriteStateView::Done(
                Err(ErrorView { code: error.code, message: error.message@ }),
            ),
        },
{
}

/// Contracts see what is to be done for a connection, and what comes of it, as they
/// stand.
pub proof fn law_connections_are_seen_as_they_are<W>(event: ConnectEvent<W>, action: ConnectAction)
    ensures
        match event {
            ConnectEvent::Requested => event@ == ConnectEventView::<W>::Requested,
            ConnectEvent::Opened(writer) => event@ == ConnectEventView::Opened(writer),
            ConnectEvent::Refused(reason) => event@ == ConnectEventView::<W>::Refused(reason@),
        },
        match action {
            ConnectAction::Open => action@ == ConnectActionView::Open,
            ConnectAction::StartReader => action@ == ConnectActionView::StartReader,
            ConnectAction::Done(Ok(_)) => action@ == ConnectActionView::Done(Ok(())),
            ConnectAction::Done(Err(error)) => action@ == ConnectActionView::Done(
                Err(ErrorView { code: error.code, message: error.message@ }),
            ),
        },
{
}

/// Contracts see a substring that is waited for as it stands.
pub proof fn law_needles_are_seen_as_they_are(needle: &str)
    ensures
        crate::serial::option_str(Some(needle)) == Some(needle@),
        crate::serial::option_str(None) is None,
{
}

} // verus!
