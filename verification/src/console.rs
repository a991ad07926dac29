//! What the serial tools do, step by step.
//!
//! Reading and writing are state machines: each state waits for one action, and
//! the event that comes of it leads to the next state. An event that does not
//! answer the pending action changes nothing.
use vstd::prelude::*;
use vstd::string::*;
use vstd::utf8::*;

use crate::error::{ErrorView, ServerError};
use crate::serial::{SerialState, SerialView};

verus! {

/// How long a read waits for its substring where the request does not say.
pub const DEFAULT_SERIAL_TIMEOUT_MS: u64 = 5000;

/// How much a read returns where the request does not say.
pub const DEFAULT_SERIAL_MAX_CHARS: usize = 4000;

/// How often a read looks at the buffer again while waiting, in milliseconds.
pub const SERIAL_POLL_INTERVAL_MS: u64 = 50;

// ---------------------------------------------------------------------------
// Connecting
// ---------------------------------------------------------------------------

/// What came of the pending action of a connection.
pub enum ConnectEvent<W> {
    /// A connection is wanted.
    Requested,
    /// The serial socket was connected to; `W` is its write half.
    Opened(W),
    /// The serial socket could not be connected to.
    Refused(String),
}

/// What is to be done for a connection.
pub enum ConnectAction {
    /// Connect to the serial socket.
    Open,
    /// Start the background reader. The connection is there.
    StartReader,
    Done(Result<(), ServerError>),
}

pub enum ConnectEventView<W> {
    Requested,
    Opened(W),
    Refused(Seq<char>),
}

pub enum ConnectActionView {
    Open,
    StartReader,
    Done(Result<(), ErrorView>),
}

impl<W> View for ConnectEvent<W> {
    type V = ConnectEventView<W>;

    open spec fn view(&self) -> ConnectEventView<W> {
        match *self {
            ConnectEvent::Requested => ConnectEventView::Requested,
            ConnectEvent::Opened(writer) => ConnectEventView::Opened(writer),
            ConnectEvent::Refused(reason) => ConnectEventView::Refused(reason@),
        }
    }
}

impl View for ConnectAction {
    type V = ConnectActionView;

    open spec fn view(&self) -> ConnectActionView {
        match *self {
            ConnectAction::Open => ConnectActionView::Open,
            ConnectAction::StartReader => ConnectActionView::StartReader,
            ConnectAction::Done(outcome) => ConnectActionView::Done(
                crate::exchange::unit_outcome_view(outcome),
            ),
        }
    }
}

/// The action that an event on the way to a connection leads to.
pub open spec fn connect_action<W>(
    socket_path: Seq<char>,
    serial: SerialView<W>,
    event: ConnectEventView<W>,
) -> ConnectActionView {
    match event {
        ConnectEventView::Requested => if serial.connected {
            ConnectActionView::Done(Ok(()))
        } else {
            ConnectActionView::Open
        },
        ConnectEventView::Opened(_) => ConnectActionView::StartReader,
        ConnectEventView::Refused(reason) => ConnectActionView::Done(
            Err(crate::error::connect_failure("serial"@, "-serial"@, socket_path, reason)),
        ),
    }
}

/// The state that an event on the way to a connection leads to: only a new
/// connection changes it.
pub open spec fn connect_state<W>(serial: SerialView<W>, event: ConnectEventView<W>) -> SerialView<
    W,
> {
    match event {
        ConnectEventView::Opened(writer) => serial.with_connection(writer),
        _ => serial,
    }
}

// ---------------------------------------------------------------------------
// Reading
// ---------------------------------------------------------------------------

/// Parameters of the tool that reads from the serial console.
#[derive(Debug)]
pub struct SerialReadRequest {
    /// Keep polling until this substring appears in the output, or give up
    /// after `timeout_ms`. Omit to return the pending output as-is.
    pub wait_for: Option<String>,
    /// Give up waiting for `wait_for` after this many milliseconds.
    pub timeout_ms: Option<u64>,
    /// Return at most this many characters from the end of the buffer.
    pub max_chars: Option<usize>,
    /// Discard the buffered output after returning it.
    pub clear: Option<bool>,
}

/// A read with every parameter decided.
pub struct SerialRead {
    pub wait_for: Option<String>,
    pub timeout_ms: u64,
    pub max_chars: usize,
    pub clear: bool,
}

pub struct SerialReadView {
    pub wait_for: Option<Seq<char>>,
    pub timeout_ms: u64,
    pub max_chars: usize,
    pub clear: bool,
}

impl View for SerialRead {
    type V = SerialReadView;

    open spec fn view(&self) -> SerialReadView {
        SerialReadView {
            wait_for: crate::text::option_text(self.wait_for),
            timeout_ms: self.timeout_ms,
            max_chars: self.max_chars,
            clear: self.clear,
        }
    }
}

impl SerialReadRequest {
    /// The read that is asked for.
    pub open spec fn read_of(self) -> SerialReadView {
        SerialReadView {
            wait_for: crate::text::option_text(self.wait_for),
            timeout_ms: match self.timeout_ms {
                Some(timeout_ms) => timeout_ms,
                None => DEFAULT_SERIAL_TIMEOUT_MS,
            },
            max_chars: match self.max_chars {
                Some(max_chars) => max_chars,
                None => DEFAULT_SERIAL_MAX_CHARS,
            },
            clear: self.clear == Some(true),
        }
    }

    /// Decide the parameters that were left out.
    pub fn resolve(self) -> (read: SerialRead)
        ensures
            read@ == self.read_of(),
    {
        SerialRead {
            wait_for: self.wait_for,
            timeout_ms: self.timeout_ms.unwrap_or(DEFAULT_SERIAL_TIMEOUT_MS),
            max_chars: self.max_chars.unwrap_or(DEFAULT_SERIAL_MAX_CHARS),
            clear: self.clear.unwrap_or(false),
        }
    }
}

/// How far a read has come. A `deadline` is in nanoseconds on the clock that
/// [`ReadEvent::Clock`] reads.
pub enum ReadState {
    /// The serial state is to be looked at.
    Starting,
    /// A connection is to be made.
    Connecting,
    /// The clock is to be read, for the deadline.
    Arming,
    /// The buffer is to be looked at.
    Polling { deadline: u128 },
    /// The clock is to be read, since there was nothing to return.
    Missed { deadline: u128 },
    /// The poll interval is to be slept through.
    Sleeping { deadline: u128 },
    Done(Result<String, ServerError>),
}

pub enum ReadStateView {
    Starting,
    Connecting,
    Arming,
    Polling { deadline: u128 },
    Missed { deadline: u128 },
    Sleeping { deadline: u128 },
    Done(Result<Seq<char>, ErrorView>),
}

/// A text that a tool returns, or its error.
pub open spec fn text_outcome_view(outcome: Result<String, ServerError>) -> Result<
    Seq<char>,
    ErrorView,
> {
    match outcome {
        Ok(text) => Ok(text@),
        Err(error) => Err(error@),
    }
}

impl View for ReadState {
    type V = ReadStateView;

    open spec fn view(&self) -> ReadStateView {
        match *self {
            ReadState::Starting => ReadStateView::Starting,
            ReadState::Connecting => ReadStateView::Connecting,
            ReadState::Arming => ReadStateView::Arming,
            ReadState::Polling { deadline } => ReadStateView::Polling { deadline },
            ReadState::Missed { deadline } => ReadStateView::Missed { deadline },
            ReadState::Sleeping { deadline } => ReadStateView::Sleeping { deadline },
            ReadState::Done(outcome) => ReadStateView::Done(text_outcome_view(outcome)),
        }
    }
}

/// What came of the pending action of a read.
pub enum ReadEvent {
    /// The serial state is at hand.
    Inspected,
    /// The attempt to connect.
    Connected(Result<(), ServerError>),
    /// The clock, in nanoseconds.
    Clock(u64),
    /// The poll interval is over.
    Woke,
}

pub enum ReadEventView {
    Inspected,
    Connected(Result<(), ErrorView>),
    Clock(u64),
    Woke,
}

impl View for ReadEvent {
    type V = ReadEventView;

    open spec fn view(&self) -> ReadEventView {
        match *self {
            ReadEvent::Inspected => ReadEventView::Inspected,
            ReadEvent::Connected(outcome) => ReadEventView::Connected(
                crate::exchange::unit_outcome_view(outcome),
            ),
            ReadEvent::Clock(now) => ReadEventView::Clock(now),
            ReadEvent::Woke => ReadEventView::Woke,
        }
    }
}

/// The error of a read that gave up.
pub open spec fn read_timeout_error(wait_for: Option<Seq<char>>) -> ErrorView {
    crate::error::internal(
        "timed out waiting for serial output containing "@ + crate::text::debug_text(wait_for)
            + "; call again without `wait_for` to see the raw buffer"@,
    )
}

/// The error of a read that gave up.
pub fn read_timed_out(wait_for: &Option<String>) -> (error: ServerError)
    ensures
        error@ == read_timeout_error(crate::text::option_text(*wait_for)),
{
    ServerError::internal_error(
        "timed out waiting for serial output containing ".to_owned().concat(
            crate::text::debug_option(wait_for).as_str(),
        ).concat("; call again without `wait_for` to see the raw buffer"),
    )
}

/// The output that a look at the buffer gives.
pub open spec fn polled<W>(read: SerialReadView, serial: SerialView<W>) -> Option<Seq<char>> {
    crate::serial::output_of(crate::text::text_of(serial.buffer), read.wait_for, read.max_chars)
}

/// The step that one event takes in a read.
pub open spec fn read_next<W>(
    read: SerialReadView,
    state: ReadStateView,
    event: ReadEventView,
    serial: SerialView<W>,
) -> ReadStateView {
    match (state, event) {
        (ReadStateView::Starting, ReadEventView::Inspected) => if serial.is_idle() {
            ReadStateView::Connecting
        } else {
            ReadStateView::Arming
        },
        (ReadStateView::Connecting, ReadEventView::Connected(Ok(_))) => ReadStateView::Arming,
        (ReadStateView::Connecting, ReadEventView::Connected(Err(error))) => ReadStateView::Done(
            Err(error),
        ),
        (ReadStateView::Arming, ReadEventView::Clock(now)) => ReadStateView::Polling {
            deadline: (now + read.timeout_ms * crate::exchange::NANOS_PER_MILLI) as u128,
        },
        (ReadStateView::Polling { deadline }, ReadEventView::Inspected) => match polled(
            read,
            serial,
        ) {
            Some(output) => ReadStateView::Done(Ok(output)),
            None => ReadStateView::Missed { deadline },
        },
        (ReadStateView::Missed { deadline }, ReadEventView::Clock(now)) => if now >= deadline {
            ReadStateView::Done(Err(read_timeout_error(read.wait_for)))
        } else {
            ReadStateView::Sleeping { deadline }
        },
        (ReadStateView::Sleeping { deadline }, ReadEventView::Woke) => ReadStateView::Polling {
            deadline,
        },
        _ => state,
    }
}

/// What one event of a read makes of the serial state: the buffer is discarded
/// where its output is returned and the read asks for that.
pub open spec fn read_serial_state<W>(
    read: SerialReadView,
    state: ReadStateView,
    event: ReadEventView,
    serial: SerialView<W>,
) -> SerialView<W> {
    if state is Polling && event is Inspected && polled(read, serial) is Some && read.clear {
        serial.with_buffer(Seq::empty())
    } else {
        serial
    }
}

/// What is to be done for a read.
#[derive(Debug, Clone, Copy, PartialEq, Eq, Structural)]
pub enum ReadAction {
    /// Look at the serial state.
    Inspect,
    /// Make sure that the serial socket is connected.
    Connect,
    /// Read the clock.
    ReadClock,
    /// Sleep for this many milliseconds.
    Sleep(u64),
    /// Nothing: the outcome is in the state.
    Finish,
}

/// The action that a state of a read waits for.
pub open spec fn read_action_of(state: ReadStateView) -> ReadAction {
    match state {
        ReadStateView::Starting => ReadAction::Inspect,
        ReadStateView::Connecting => ReadAction::Connect,
        ReadStateView::Arming => ReadAction::ReadClock,
        ReadStateView::Polling { .. } => ReadAction::Inspect,
        ReadStateView::Missed { .. } => ReadAction::ReadClock,
        ReadStateView::Sleeping { .. } => ReadAction::Sleep(SERIAL_POLL_INTERVAL_MS),
        ReadStateView::Done(_) => ReadAction::Finish,
    }
}

impl ReadState {
    /// What is to be done next.
    pub fn action(&self) -> (action: ReadAction)
        ensures
            action == read_action_of(self@),
    {
        match self {
            ReadState::Starting => ReadAction::Inspect,
            ReadState::Connecting => ReadAction::Connect,
            ReadState::Arming => ReadAction::ReadClock,
            ReadState::Polling { .. } => ReadAction::Inspect,
            ReadState::Missed { .. } => ReadAction::ReadClock,
            ReadState::Sleeping { .. } => ReadAction::Sleep(SERIAL_POLL_INTERVAL_MS),
            ReadState::Done(_) => ReadAction::Finish,
        }
    }
}

// ---------------------------------------------------------------------------
// Writing
// ---------------------------------------------------------------------------

/// Parameters of the tool that writes to the serial console.
#[derive(Debug)]
pub struct SerialWriteRequest {
    /// Bytes to send to the guest's serial port, e.g. a command line.
    pub data: String,
    /// Append a newline after `data`.
    pub newline: Option<bool>,
}

impl SerialWriteRequest {
    /// The text that is typed: a newline is appended unless `newline` is false.
    pub open spec fn typed(self) -> Seq<char> {
        if self.newline == Some(false) {
            self.data@
        } else {
            self.data@.push('\n')
        }
    }

    /// The bytes to send: the typed text in UTF-8.
    pub fn payload(&self) -> (bytes: Vec<u8>)
        ensures
            bytes@ == encode_utf8(self.typed()),
            self.newline == Some(false) ==> bytes@ == encode_utf8(self.data@),
            self.newline != Some(false) ==> bytes@ == encode_utf8(self.data@).push(10u8),
    {
        let mut bytes: Vec<u8> = self.data.as_str().as_bytes_vec();
        if self.newline.unwrap_or(true) {
            bytes.push(10u8);
            proof {
                lemma_encode_newline(self.data@);
            }
        }
        bytes
    }
}

/// A newline at the end of a text is one more byte in UTF-8.
pub(crate) proof fn lemma_encode_newline(text: Seq<char>)
    ensures
        encode_utf8(text.push('\n')) == encode_utf8(text).push(10u8),
    decreases text.len(),
{
    let whole = text.push('\n');
    if text.len() == 0 {
        assert(whole.drop_first() == text);
        assert(encode_scalar('\n' as u32) == seq![10u8]) by {
            assert((10u32 & 0x7F) as u8 == 10u8) by (bit_vector);
        }
        reveal_with_fuel(encode_utf8, 2);
    } else {
        assert(whole.drop_first() == text.drop_first().push('\n'));
        lemma_encode_newline(text.drop_first());
    }
}

/// How far a write has come.
pub enum WriteState {
    /// A connection is to be made.
    Connecting,
    /// The serial state is to be looked at.
    Checking,
    /// The bytes are to be written and flushed.
    Writing,
    Done(Result<String, ServerError>),
}

pub enum WriteStateView {
    Connecting,
    Checking,
    Writing,
    Done(Result<Seq<char>, ErrorView>),
}

impl View for WriteState {
    type V = WriteStateView;

    open spec fn view(&self) -> WriteStateView {
        match *self {
            WriteState::Connecting => WriteStateView::Connecting,
            WriteState::Checking => WriteStateView::Checking,
            WriteState::Writing => WriteStateView::Writing,
            WriteState::Done(outcome) => WriteStateView::Done(text_outcome_view(outcome)),
        }
    }
}

/// What came of the pending action of a write.
pub enum WriteEvent {
    /// The attempt to connect.
    Connected(Result<(), ServerError>),
    /// The serial state is at hand.
    Inspected,
    /// The attempt to write and flush the bytes.
    Written(Result<(), String>),
}

pub enum WriteEventView {
    Connected(Result<(), ErrorView>),
    Inspected,
    Written(Result<(), Seq<char>>),
}

impl View for WriteEvent {
    type V = WriteEventView;

    open spec fn view(&self) -> WriteEventView {
        match *self {
            WriteEvent::Connected(outcome) => WriteEventView::Connected(
                crate::exchange::unit_outcome_view(outcome),
            ),
            WriteEvent::Inspected => WriteEventView::Inspected,
            WriteEvent::Written(attempt) => WriteEventView::Written(
                crate::exchange::attempt_view(attempt),
            ),
        }
    }
}

/// The step that one event takes in a write.
pub open spec fn write_next<W>(
    state: WriteStateView,
    event: WriteEventView,
    serial: SerialView<W>,
) -> WriteStateView {
    match (state, event) {
        (WriteStateView::Connecting, WriteEventView::Connected(Ok(_))) => WriteStateView::Checking,
        (WriteStateView::Connecting, WriteEventView::Connected(Err(error))) => WriteStateView::Done(
            Err(error),
        ),
        (WriteStateView::Checking, WriteEventView::Inspected) => if serial.writer is Some {
            WriteStateView::Writing
        } else {
            WriteStateView::Done(
                Err(crate::error::internal("serial connection lost, retry the call"@)),
            )
        },
        (WriteStateView::Writing, WriteEventView::Written(Ok(_))) => WriteStateView::Done(
            Ok("ok"@),
        ),
        (WriteStateView::Writing, WriteEventView::Written(Err(reason))) => WriteStateView::Done(
            Err(crate::error::internal("failed to write to serial socket"@ + ": "@ + reason)),
        ),
        _ => state,
    }
}

/// What is to be done for a write.
#[derive(Debug)]
pub enum WriteAction {
    /// Make sure that the serial socket is connected.
    Connect,
    /// Look at the serial state.
    Inspect,
    /// Write these bytes and flush.
    Write(Vec<u8>),
    /// Nothing: the outcome is in the state.
    Finish,
}

pub enum WriteActionView {
    Connect,
    Inspect,
    Write(Seq<u8>),
    Finish,
}

impl View for WriteAction {
    type V = WriteActionView;

    open spec fn view(&self) -> WriteActionView {
        match *self {
            WriteAction::Connect => WriteActionView::Connect,
            WriteAction::Inspect => WriteActionView::Inspect,
            WriteAction::Write(bytes) => WriteActionView::Write(bytes@),
            WriteAction::Finish => WriteActionView::Finish,
        }
    }
}

/// The action that a state of a write waits for, where `typed` is the text to
/// send.
pub open spec fn write_action_of(typed: Seq<char>, state: WriteStateView) -> WriteActionView {
    match state {
        WriteStateView::Connecting => WriteActionView::Connect,
        WriteStateView::Checking => WriteActionView::Inspect,
        WriteStateView::Writing => WriteActionView::Write(encode_utf8(typed)),
        WriteStateView::Done(_) => WriteActionView::Finish,
    }
}

impl WriteState {
    /// What is to be done next for the write of `request`.
    pub fn action(&self, request: &SerialWriteRequest) -> (action: WriteAction)
        ensures
            action@ == write_action_of(request.typed(), self@),
    {
        match self {
            WriteState::Connecting => WriteAction::Connect,
            WriteState::Checking => WriteAction::Inspect,
            WriteState::Writing => WriteAction::Write(request.payload()),
            WriteState::Done(_) => WriteAction::Finish,
        }
    }
}

} // verus!
