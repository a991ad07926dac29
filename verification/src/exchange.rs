//! One round trip on the QMP socket: connect, negotiate, execute one command,
//! shut down.
//!
//! The round trip is a state machine. [`next_action`] says what is to be done on
//! the socket, and [`run_command`] takes what came of it to the next state. An
//! event that does not answer the pending action changes nothing. The clock may be
//! read at any time: [`time_left`] says for how long the pending action may be
//! waited for.
use serde_json::Value;
use vstd::prelude::*;
use vstd::string::*;

use crate::error::{ErrorView, ServerError};
use crate::json::Json;

verus! {

/// How long a round trip may take before it is given up, in milliseconds.
pub const DEFAULT_QMP_TIMEOUT_MS: u64 = 30000;

/// The nanoseconds of a millisecond.
pub const NANOS_PER_MILLI: u128 = 1000000;

/// The id of the request that ends the negotiation.
pub const NEGOTIATION_ID: u64 = 0;

/// The id of the request that carries the command.
pub const COMMAND_ID: u64 = 1;

/// What came of the pending action.
pub enum Event {
    /// The attempt to connect.
    Connected(Result<(), String>),
    /// The attempt to write and flush a request.
    Sent(Result<(), String>),
    /// The attempt to read a line; the line is empty at the end of the stream.
    Read(Result<String, String>),
    /// The connection was shut down.
    ShutDown,
    /// The clock, in nanoseconds.
    Clock(u64),
}

pub enum EventView {
    Connected(Result<(), Seq<char>>),
    Sent(Result<(), Seq<char>>),
    Read(Result<Seq<char>, Seq<char>>),
    ShutDown,
    Clock(u64),
}

/// An attempt that gives nothing but a reason where it fails.
pub open spec fn attempt_view(attempt: Result<(), String>) -> Result<(), Seq<char>> {
    match attempt {
        Ok(_) => Ok(()),
        Err(reason) => Err(reason@),
    }
}

impl View for Event {
    type V = EventView;

    open spec fn view(&self) -> EventView {
        match *self {
            Event::Connected(attempt) => EventView::Connected(attempt_view(attempt)),
            Event::Sent(attempt) => EventView::Sent(attempt_view(attempt)),
            Event::Read(read) => EventView::Read(crate::qmp::read_view(read)),
            Event::ShutDown => EventView::ShutDown,
            Event::Clock(now) => EventView::Clock(now),
        }
    }
}

// ---------------------------------------------------------------------------
// Executing one request
// ---------------------------------------------------------------------------

/// How far the execution of one request has come.
pub enum ExecuteState {
    /// The request is to be sent.
    Sending,
    /// The reply is awaited.
    Reading,
    Done(Result<Value, ServerError>),
}

pub enum ExecuteView {
    Sending,
    Reading,
    Done(Result<Json, ErrorView>),
}

impl View for ExecuteState {
    type V = ExecuteView;

    open spec fn view(&self) -> ExecuteView {
        match *self {
            ExecuteState::Sending => ExecuteView::Sending,
            ExecuteState::Reading => ExecuteView::Reading,
            ExecuteState::Done(outcome) => ExecuteView::Done(crate::qmp::outcome_view(outcome)),
        }
    }
}

/// What a line that was read says of the request `id` for `command`: its
/// outcome, or nothing where another message is to be read.
pub open spec fn answer_in(
    read: Result<Seq<char>, Seq<char>>,
    command: Seq<char>,
    id: u64,
) -> Option<Result<Json, ErrorView>> {
    match crate::qmp::message_of(read) {
        Ok(message) => crate::qmp::answer_of(crate::qmp::reply_of(message), command, id),
        Err(error) => Some(Err(error)),
    }
}

/// The step that one event takes in the execution of a request.
pub open spec fn execute_next(
    command: Seq<char>,
    id: u64,
    state: ExecuteView,
    event: EventView,
) -> ExecuteView {
    match (state, event) {
        (ExecuteView::Sending, EventView::Sent(Ok(_))) => ExecuteView::Reading,
        (ExecuteView::Sending, EventView::Sent(Err(reason))) => ExecuteView::Done(
            Err(crate::error::internal("failed to send QMP command"@ + ": "@ + reason)),
        ),
        (ExecuteView::Reading, EventView::Read(read)) => match answer_in(read, command, id) {
            Some(outcome) => ExecuteView::Done(outcome),
            None => ExecuteView::Reading,
        },
        _ => state,
    }
}

/// Send one QMP command and await its response, skipping asynchronous events.
pub fn qmp_execute(command: &str, id: u64, state: ExecuteState, event: Event) -> (next:
    ExecuteState)
    ensures
        next@ == execute_next(command@, id, state@, event@),
{
    match (state, event) {
        (ExecuteState::Sending, Event::Sent(Ok(_))) => ExecuteState::Reading,
        (ExecuteState::Sending, Event::Sent(Err(reason))) => ExecuteState::Done(
            Err(ServerError::caused("failed to send QMP command", reason.as_str())),
        ),
        (ExecuteState::Reading, Event::Read(read)) => match crate::qmp::qmp_read_message(read) {
            Err(error) => ExecuteState::Done(Err(error)),
            Ok(message) => {
                let reply = crate::qmp::read_reply(&message);
                match crate::qmp::judge_reply(reply, command, id) {
                    Some(outcome) => ExecuteState::Done(outcome),
                    None => ExecuteState::Reading,
                }
            },
        },
        (state, _) => state,
    }
}

// ---------------------------------------------------------------------------
// Negotiation
// ---------------------------------------------------------------------------

/// How far the handshake has come.
pub enum NegotiateState {
    /// The greeting is awaited.
    Greeting,
    /// `qmp_capabilities` is being executed.
    Capabilities(ExecuteState),
    Done(Result<(), ServerError>),
}

pub enum NegotiateView {
    Greeting,
    Capabilities(ExecuteView),
    Done(Result<(), ErrorView>),
}

/// An outcome without a value.
pub open spec fn unit_outcome_view(outcome: Result<(), ServerError>) -> Result<(), ErrorView> {
    match outcome {
        Ok(_) => Ok(()),
        Err(error) => Err(error@),
    }
}

impl View for NegotiateState {
    type V = NegotiateView;

    open spec fn view(&self) -> NegotiateView {
        match *self {
            NegotiateState::Greeting => NegotiateView::Greeting,
            NegotiateState::Capabilities(state) => NegotiateView::Capabilities(state@),
            NegotiateState::Done(outcome) => NegotiateView::Done(unit_outcome_view(outcome)),
        }
    }
}

/// A greeting is a message with a `QMP` member. Anything else ends the
/// negotiation with an error that quotes it.
pub open spec fn greeting_of(message: Json) -> Result<(), ErrorView> {
    if message.member("QMP"@) is Some {
        Ok(())
    } else {
        Err(
            crate::error::internal(
                "expected QMP greeting, got: "@ + crate::json::json_text(message),
            ),
        )
    }
}

/// Check that the first message is a QMP greeting.
pub fn check_greeting(message: &Value) -> (result: Result<(), ServerError>)
    ensures
        unit_outcome_view(result) == greeting_of(crate::json::json_content(*message)),
{
    if !crate::json::json_get(message, "QMP").is_some() {
        let text = crate::json::json_to_string(message);
        return Err(
            ServerError::internal_error(
                "expected QMP greeting, got: ".to_owned().concat(text.as_str()),
            ),
        );
    }
    Ok(())
}

/// The step that one event takes in the handshake.
pub open spec fn negotiate_next(state: NegotiateView, event: EventView) -> NegotiateView {
    match (state, event) {
        (NegotiateView::Greeting, EventView::Read(read)) => match crate::qmp::message_of(read) {
            Ok(message) => match greeting_of(message) {
                Ok(_) => NegotiateView::Capabilities(ExecuteView::Sending),
                Err(error) => NegotiateView::Done(Err(error)),
            },
            Err(error) => NegotiateView::Done(Err(error)),
        },
        (NegotiateView::Capabilities(execute), _) => match execute_next(
            "qmp_capabilities"@,
            NEGOTIATION_ID,
            execute,
            event,
        ) {
            ExecuteView::Done(Ok(_)) => NegotiateView::Done(Ok(())),
            ExecuteView::Done(Err(error)) => NegotiateView::Done(Err(error)),
            next => NegotiateView::Capabilities(next),
        },
        _ => state,
    }
}

/// Perform the QMP handshake: read the greeting and complete `qmp_capabilities`
/// negotiation.
pub fn qmp_negotiate(state: NegotiateState, event: Event) -> (next: NegotiateState)
    ensures
        next@ == negotiate_next(state@, event@),
{
    match (state, event) {
        (NegotiateState::Greeting, Event::Read(read)) => match crate::qmp::qmp_read_message(read) {
            Ok(message) => match check_greeting(&message) {
                Ok(_) => NegotiateState::Capabilities(ExecuteState::Sending),
                Err(error) => NegotiateState::Done(Err(error)),
            },
            Err(error) => NegotiateState::Done(Err(error)),
        },
        (NegotiateState::Capabilities(execute), event) => match qmp_execute(
            "qmp_capabilities",
            NEGOTIATION_ID,
            execute,
            event,
        ) {
            ExecuteState::Done(Ok(_)) => NegotiateState::Done(Ok(())),
            ExecuteState::Done(Err(error)) => NegotiateState::Done(Err(error)),
            next => NegotiateState::Capabilities(next),
        },
        (state, _) => state,
    }
}

// ---------------------------------------------------------------------------
// The round trip
// ---------------------------------------------------------------------------

/// A command for the QEMU instance that listens on a socket.
pub struct Call {
    pub socket_path: String,
    pub command: String,
    pub arguments: Option<Value>,
    /// The clock when the round trip started, in nanoseconds.
    pub started: u64,
}

pub struct CallView {
    pub socket_path: Seq<char>,
    pub command: Seq<char>,
    pub arguments: Option<Json>,
    pub started: u64,
}

impl View for Call {
    type V = CallView;

    open spec fn view(&self) -> CallView {
        CallView {
            socket_path: self.socket_path@,
            command: self.command@,
            arguments: crate::qmp::option_content(self.arguments),
            started: self.started,
        }
    }
}

impl CallView {
    /// The clock at which the round trip has taken too long.
    pub open spec fn deadline(self) -> int {
        self.started + DEFAULT_QMP_TIMEOUT_MS * NANOS_PER_MILLI
    }
}

/// How long the round trip may still take at the clock `now`, in nanoseconds, or
/// `None` where it has taken too long.
pub fn time_left(call: &Call, now: u64) -> (left: Option<u128>)
    ensures
        match left {
            Some(nanos) => nanos > 0 && now + nanos == call@.deadline(),
            None => now >= call@.deadline(),
        },
{
    let deadline: u128 = call.started as u128 + DEFAULT_QMP_TIMEOUT_MS as u128 * NANOS_PER_MILLI;
    if now as u128 >= deadline {
        None
    } else {
        Some(deadline - now as u128)
    }
}

/// How far a round trip has come.
pub enum RunState {
    Connecting,
    Negotiating(NegotiateState),
    Executing(ExecuteState),
    /// The outcome is known and the connection is still open.
    Closing(Result<Value, ServerError>),
    Finished(Result<Value, ServerError>),
}

pub enum RunView {
    Connecting,
    Negotiating(NegotiateView),
    Executing(ExecuteView),
    Closing(Result<Json, ErrorView>),
    Finished(Result<Json, ErrorView>),
}

impl View for RunState {
    type V = RunView;

    open spec fn view(&self) -> RunView {
        match *self {
            RunState::Connecting => RunView::Connecting,
            RunState::Negotiating(state) => RunView::Negotiating(state@),
            RunState::Executing(state) => RunView::Executing(state@),
            RunState::Closing(outcome) => RunView::Closing(crate::qmp::outcome_view(outcome)),
            RunState::Finished(outcome) => RunView::Finished(crate::qmp::outcome_view(outcome)),
        }
    }
}

/// The error of a round trip that took too long. It names what usually keeps
/// QEMU from answering.
pub open spec fn timeout_error(socket_path: Seq<char>) -> ErrorView {
    crate::error::internal(
        "timed out waiting for QEMU on QMP socket "@ + socket_path
            + "; its process may be paused, the VM overloaded or its monitor stuck"@,
    )
}

/// The error of a round trip that took too long.
pub fn round_trip_timed_out(socket_path: &str) -> (error: ServerError)
    ensures
        error@ == timeout_error(socket_path@),
{
    ServerError::internal_error(
        "timed out waiting for QEMU on QMP socket ".to_owned().concat(socket_path).concat(
            "; its process may be paused, the VM overloaded or its monitor stuck",
        ),
    )
}

/// What a round trip that has taken too long comes to: an error, unless its
/// outcome is known already. Where there is a connection it is still to be shut
/// down.
pub open spec fn timed_out(call: CallView, state: RunView) -> RunView {
    match state {
        RunView::Connecting => RunView::Finished(Err(timeout_error(call.socket_path))),
        RunView::Negotiating(_) => RunView::Closing(Err(timeout_error(call.socket_path))),
        RunView::Executing(_) => RunView::Closing(Err(timeout_error(call.socket_path))),
        RunView::Closing(_) => state,
        RunView::Finished(_) => state,
    }
}

/// The step that one event takes in a round trip.
pub open spec fn run_next(call: CallView, state: RunView, event: EventView) -> RunView {
    match (state, event) {
        (RunView::Connecting, EventView::Connected(Ok(_))) => RunView::Negotiating(
            NegotiateView::Greeting,
        ),
        (RunView::Connecting, EventView::Connected(Err(reason))) => RunView::Finished(
            Err(crate::error::connect_failure("QMP"@, "-qmp"@, call.socket_path, reason)),
        ),
        (_, EventView::Clock(now)) => if now >= call.deadline() {
            timed_out(call, state)
        } else {
            state
        },
        (RunView::Negotiating(negotiate), _) => match negotiate_next(negotiate, event) {
            NegotiateView::Done(Ok(_)) => RunView::Executing(ExecuteView::Sending),
            NegotiateView::Done(Err(error)) => RunView::Closing(Err(error)),
            next => RunView::Negotiating(next),
        },
        (RunView::Executing(execute), _) => match execute_next(
            call.command,
            COMMAND_ID,
            execute,
            event,
        ) {
            ExecuteView::Done(outcome) => RunView::Closing(outcome),
            next => RunView::Executing(next),
        },
        (RunView::Closing(outcome), EventView::ShutDown) => RunView::Finished(outcome),
        _ => state,
    }
}

/// Connect to the QMP socket, negotiate, and execute one command.
///
/// The connection is always shut down before the round trip is finished, on
/// success and on failure alike.
pub fn run_command(call: &Call, state: RunState, event: Event) -> (next: RunState)
    ensures
        next@ == run_next(call@, state@, event@),
{
    match (state, event) {
        (RunState::Connecting, Event::Connected(Ok(_))) => RunState::Negotiating(
            NegotiateState::Greeting,
        ),
        (RunState::Connecting, Event::Connected(Err(reason))) => RunState::Finished(
            Err(
                crate::error::connect_failed(
                    "QMP",
                    "-qmp",
                    call.socket_path.as_str(),
                    reason.as_str(),
                ),
            ),
        ),
        (state, Event::Clock(now)) => match time_left(call, now) {
            Some(_) => state,
            None => {
                let late = Err(round_trip_timed_out(call.socket_path.as_str()));
                match state {
                    RunState::Connecting => RunState::Finished(late),
                    RunState::Negotiating(_) => RunState::Closing(late),
                    RunState::Executing(_) => RunState::Closing(late),
                    state => state,
                }
            },
        },
        (RunState::Negotiating(negotiate), event) => match qmp_negotiate(negotiate, event) {
            NegotiateState::Done(Ok(_)) => RunState::Executing(ExecuteState::Sending),
            NegotiateState::Done(Err(error)) => RunState::Closing(Err(error)),
            next => RunState::Negotiating(next),
        },
        (RunState::Executing(execute), event) => match qmp_execute(
            call.command.as_str(),
            COMMAND_ID,
            execute,
            event,
        ) {
            ExecuteState::Done(outcome) => RunState::Closing(outcome),
            next => RunState::Executing(next),
        },
        (RunState::Closing(outcome), Event::ShutDown) => RunState::Finished(outcome),
        (state, _) => state,
    }
}

/// What is to be done on the socket.
pub enum Action {
    Connect,
    /// Write this line and flush.
    Send(String),
    ReadLine,
    ShutDown,
    /// Nothing: the outcome is in the state.
    Finish,
}

pub enum ActionView {
    Connect,
    Send(Seq<char>),
    ReadLine,
    ShutDown,
    Finish,
}

impl View for Action {
    type V = ActionView;

    open spec fn view(&self) -> ActionView {
        match *self {
            Action::Connect => ActionView::Connect,
            Action::Send(line) => ActionView::Send(line@),
            Action::ReadLine => ActionView::ReadLine,
            Action::ShutDown => ActionView::ShutDown,
            Action::Finish => ActionView::Finish,
        }
    }
}

/// The action that a state of the round trip waits for.
pub open spec fn action_of(call: CallView, state: RunView) -> ActionView {
    match state {
        RunView::Connecting => ActionView::Connect,
        RunView::Negotiating(NegotiateView::Greeting) => ActionView::ReadLine,
        RunView::Negotiating(NegotiateView::Capabilities(ExecuteView::Sending)) => ActionView::Send(
            crate::qmp::request_line_of("qmp_capabilities"@, None, NEGOTIATION_ID),
        ),
        RunView::Negotiating(NegotiateView::Capabilities(ExecuteView::Reading)) =>
            ActionView::ReadLine,
        RunView::Executing(ExecuteView::Sending) => ActionView::Send(
            crate::qmp::request_line_of(call.command, call.arguments, COMMAND_ID),
        ),
        RunView::Executing(ExecuteView::Reading) => ActionView::ReadLine,
        RunView::Closing(_) => ActionView::ShutDown,
        _ => ActionView::Finish,
    }
}

/// What is to be done next on the socket.
pub fn next_action(call: &Call, state: &RunState) -> (action: Action)
    ensures
        action@ == action_of(call@, state@),
        action@ matches ActionView::Send(line) ==> crate::qmp::is_one_line(line),
{
    match state {
        RunState::Connecting => Action::Connect,
        RunState::Negotiating(NegotiateState::Greeting) => Action::ReadLine,
        RunState::Negotiating(NegotiateState::Capabilities(ExecuteState::Sending)) => Action::Send(
            crate::qmp::qmp_request_line("qmp_capabilities", None, NEGOTIATION_ID),
        ),
        RunState::Negotiating(NegotiateState::Capabilities(ExecuteState::Reading)) =>
            Action::ReadLine,
        RunState::Executing(ExecuteState::Sending) => Action::Send(
            crate::qmp::qmp_request_line(
                call.command.as_str(),
                call.arguments.as_ref(),
                COMMAND_ID,
            ),
        ),
        RunState::Executing(ExecuteState::Reading) => Action::ReadLine,
        RunState::Closing(_) => Action::ShutDown,
        _ => Action::Finish,
    }
}

} // verus!
