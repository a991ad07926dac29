//! What a round trip on the QMP socket comes to, told by what QEMU sends.
use vstd::prelude::*;

use crate::error::ErrorView;
use crate::exchange::{
    Action, ActionView, Call, CallView, Event, EventView, ExecuteState, ExecuteView, NegotiateState,
    NegotiateView, RunState, RunView,
};
use crate::json::Json;

verus! {

// ---------------------------------------------------------------------------
// Whole round trips
// ---------------------------------------------------------------------------

/// `event` is a line that spells a message beside the request `id`.
pub open spec fn is_noise(event: EventView, id: u64) -> bool {
    event matches EventView::Read(Ok(line)) && line.len() > 0 && (crate::json::parsed_json(
        line,
    ) matches Ok(message) && crate::message_laws::is_beside(message, id))
}

/// The events of a round trip: the connection, the greeting, the negotiation with
/// its reply, the command with its reply, and the end of the connection. Any messages
/// come before either reply.
pub open spec fn trip(
    greeting: Seq<char>,
    noise: Seq<EventView>,
    capabilities: Seq<char>,
    more_noise: Seq<EventView>,
    response: Result<Seq<char>, Seq<char>>,
) -> Seq<EventView> {
    seq![
        EventView::Connected(Ok(())),
        EventView::Read(Ok(greeting)),
        EventView::Sent(Ok(())),
    ] + noise + seq![EventView::Read(Ok(capabilities)), EventView::Sent(Ok(()))] + more_noise
        + seq![EventView::Read(response), EventView::ShutDown]
}

/// QEMU greets, and answers the negotiation with a result. Whatever else it sends
/// before either reply says nothing of the request.
pub open spec fn is_welcome(
    greeting: Seq<char>,
    noise: Seq<EventView>,
    capabilities: Seq<char>,
    more_noise: Seq<EventView>,
) -> bool {
    &&& greeting.len() > 0
    &&& crate::json::parsed_json(greeting) matches Ok(message) && message.member("QMP"@) is Some
    &&& capabilities.len() > 0
    &&& crate::json::parsed_json(capabilities) matches Ok(message) && {
        &&& crate::message_laws::replies_to(message, 0)
        &&& message.member("error"@) is None
        &&& message.member("return"@) is Some
    }
    &&& forall|i: int| 0 <= i < noise.len() ==> is_noise(#[trigger] noise[i], 0)
    &&& forall|i: int| 0 <= i < more_noise.len() ==> is_noise(#[trigger] more_noise[i], 1)
}

/// A welcome round trip ends with what the response says.
proof fn lemma_trip_ends_with_the_answer(
    call: CallView,
    greeting: Seq<char>,
    noise: Seq<EventView>,
    capabilities: Seq<char>,
    more_noise: Seq<EventView>,
    response: Result<Seq<char>, Seq<char>>,
)
    requires
        is_welcome(greeting, noise, capabilities, more_noise),
        crate::exchange::answer_in(response, call.command, 1) is Some,
    ensures
        crate::exchange_laws::run_all(
            call,
            RunView::Connecting,
            trip(greeting, noise, capabilities, more_noise, response),
        ) == RunView::Finished(crate::exchange::answer_in(response, call.command, 1)->0),
{
    let negotiation = crate::json::parsed_json(capabilities)->Ok_0;
    crate::message_laws::law_results_end_an_execution(
        "qmp_capabilities"@,
        0,
        capabilities,
        negotiation,
        negotiation.member("return"@)->0,
    );
    assert forall|i: int| 0 <= i < noise.len() implies crate::exchange_laws::is_unrelated(
        #[trigger] noise[i],
        "qmp_capabilities"@,
        0,
    ) by {
        assert(is_noise(noise[i], 0));
    }
    assert forall|i: int| 0 <= i < more_noise.len() implies crate::exchange_laws::is_unrelated(
        #[trigger] more_noise[i],
        call.command,
        1,
    ) by {
        assert(is_noise(more_noise[i], 1));
    }
    crate::exchange_laws::law_command_passes_through(
        call,
        greeting,
        noise,
        capabilities,
        more_noise,
        response,
    );
}

/// A round trip returns the result that QEMU gives for the command, whatever the
/// result is, and whatever else QEMU sends before it.
pub proof fn law_round_trips_return_the_result(
    call: CallView,
    greeting: Seq<char>,
    noise: Seq<EventView>,
    capabilities: Seq<char>,
    more_noise: Seq<EventView>,
    response: Seq<char>,
    message: Json,
    value: Json,
)
    requires
        is_welcome(greeting, noise, capabilities, more_noise),
        crate::message_laws::spells(response, message),
        crate::message_laws::replies_to(message, 1),
        message.member("error"@) is None,
        message.member("return"@) == Some(value),
    ensures
        crate::exchange_laws::run_all(
            call,
            RunView::Connecting,
            trip(greeting, noise, capabilities, more_noise, Ok(response)),
        ) == RunView::Finished(Ok(value)),
{
    crate::message_laws::law_results_end_an_execution(call.command, 1, response, message, value);
    lemma_trip_ends_with_the_answer(call, greeting, noise, capabilities, more_noise, Ok(response));
}

/// A round trip reports the error that QEMU gives for the command.
pub proof fn law_round_trips_report_the_error(
    call: CallView,
    greeting: Seq<char>,
    noise: Seq<EventView>,
    capabilities: Seq<char>,
    more_noise: Seq<EventView>,
    response: Seq<char>,
    message: Json,
    error: Json,
    reported: ErrorView,
)
    requires
        is_welcome(greeting, noise, capabilities, more_noise),
        crate::message_laws::spells(response, message),
        crate::message_laws::replies_to(message, 1),
        message.member("error"@) == Some(error),
        crate::message_laws::reports(reported, error, call.command),
    ensures
        crate::exchange_laws::run_all(
            call,
            RunView::Connecting,
            trip(greeting, noise, capabilities, more_noise, Ok(response)),
        ) == RunView::Finished(Err(reported)),
{
    crate::message_laws::law_errors_end_an_execution(
        call.command,
        1,
        response,
        message,
        error,
        reported,
    );
    lemma_trip_ends_with_the_answer(call, greeting, noise, capabilities, more_noise, Ok(response));
}

/// A round trip in which QEMU fails to answer the command with a message says why.
pub proof fn law_round_trips_report_a_lost_reply(
    call: CallView,
    greeting: Seq<char>,
    noise: Seq<EventView>,
    capabilities: Seq<char>,
    more_noise: Seq<EventView>,
    response: Result<Seq<char>, Seq<char>>,
    error: ErrorView,
)
    requires
        is_welcome(greeting, noise, capabilities, more_noise),
        crate::message_laws::is_unreadable(response, error),
    ensures
        crate::exchange_laws::run_all(
            call,
            RunView::Connecting,
            trip(greeting, noise, capabilities, more_noise, response),
        ) == RunView::Finished(Err(error)),
{
    crate::message_laws::law_unreadable_lines_end_an_execution(call.command, 1, response, error);
    lemma_trip_ends_with_the_answer(call, greeting, noise, capabilities, more_noise, response);
}

/// `event` is a line that spells a reply to the command with the result `value`.
pub open spec fn brings(event: EventView, value: Json) -> bool {
    event matches EventView::Read(Ok(line)) && line.len() > 0 && (crate::json::parsed_json(
        line,
    ) matches Ok(message) && {
        &&& crate::message_laws::replies_to(message, 1)
        &&& message.member("error"@) is None
        &&& message.member("return"@) == Some(value)
    })
}

/// No round trip makes a result up: one that succeeds has read a reply to the command
/// with just that result.
pub proof fn law_results_come_from_qemu(call: CallView, events: Seq<EventView>, value: Json)
    requires
        ({
            let end = crate::exchange_laws::run_all(call, RunView::Connecting, events);
            end == RunView::Closing(Ok(value)) || end == RunView::Finished(Ok(value))
        }),
    ensures
        exists|i: int| 0 <= i < events.len() && brings(#[trigger] events[i], value),
    decreases events.len(),
{
    assert(events.len() > 0);
    let shorter = events.drop_last();
    let before = crate::exchange_laws::run_all(call, RunView::Connecting, shorter);
    crate::exchange_laws::law_round_trip_is_settled(call, shorter);
    if before == RunView::Closing(Ok(value)) || before == RunView::Finished(Ok(value)) {
        law_results_come_from_qemu(call, shorter, value);
        let i = choose|i: int| 0 <= i < shorter.len() && brings(#[trigger] shorter[i], value);
        assert(events[i] == shorter[i]);
    } else {
        assert(brings(events[events.len() - 1], value));
    }
}

// ---------------------------------------------------------------------------
// Single steps
// ---------------------------------------------------------------------------

/// A round trip that has connected awaits the greeting, and one that could not is
/// over, with an error that gives the path, the reason and the flag.
pub proof fn law_round_trips_start_with_a_connection(call: CallView, reason: Seq<char>)
    ensures
        crate::exchange::run_next(call, RunView::Connecting, EventView::Connected(Ok(())))
            == RunView::Negotiating(NegotiateView::Greeting),
        crate::exchange::run_next(call, RunView::Connecting, EventView::Connected(Err(reason)))
            == RunView::Finished(
            Err(
                crate::message_laws::failure(
                    "failed to connect to QMP socket "@ + call.socket_path + ": "@ + reason
                        + "; launch QEMU with `-qmp unix:"@ + call.socket_path
                        + ",server,nowait`"@,
                ),
            ),
        ),
{
    crate::message_laws::law_connect_failures_are_told("QMP"@, "-qmp"@, call.socket_path, reason);
    reveal_strlit("failed to connect to ");
    reveal_strlit("QMP");
    reveal_strlit(" socket ");
    reveal_strlit("failed to connect to QMP socket ");
    reveal_strlit("; launch QEMU with `");
    reveal_strlit("-qmp");
    reveal_strlit(" unix:");
    reveal_strlit("; launch QEMU with `-qmp unix:");
    assert("failed to connect to "@ + "QMP"@ + " socket "@ == "failed to connect to QMP socket "@);
    assert("; launch QEMU with `"@ + "-qmp"@ + " unix:"@ == "; launch QEMU with `-qmp unix:"@);
    let head = "failed to connect to QMP socket "@ + call.socket_path + ": "@ + reason;
    assert(head + "; launch QEMU with `"@ + "-qmp"@ + " unix:"@ == head + ("; launch QEMU with `"@
        + "-qmp"@ + " unix:"@));
}

/// The first message is a greeting exactly where it has a `QMP` member. With one the
/// negotiation goes on, and any other message ends it with an error that quotes it.
pub proof fn law_greetings_have_a_qmp_member(call: CallView, line: Seq<char>, message: Json)
    requires
        crate::message_laws::spells(line, message),
    ensures
        ({
            let event = EventView::Read(Ok(line));
            let next = crate::exchange::run_next(
                call,
                RunView::Negotiating(NegotiateView::Greeting),
                event,
            );
            let step = crate::exchange::negotiate_next(NegotiateView::Greeting, event);
            let greeting = crate::exchange::greeting_of(message);
            if message.member("QMP"@) is Some {
                &&& greeting is Ok
                &&& step == NegotiateView::Capabilities(ExecuteView::Sending)
                &&& next == RunView::Negotiating(step)
            } else {
                let error = crate::message_laws::failure(
                    "expected QMP greeting, got: "@ + crate::json::json_text(message),
                );
                &&& greeting == Err::<(), ErrorView>(error)
                &&& step == NegotiateView::Done(Err(error))
                &&& next == RunView::Closing(Err(error))
            }
        }),
{
}

/// A message passes for a greeting exactly where it has a `QMP` member, and any other
/// is quoted in the error.
pub proof fn law_greetings_are_checked(message: Json)
    ensures
        crate::exchange::greeting_of(message) is Ok <==> message.member("QMP"@) is Some,
        message.member("QMP"@) is None ==> crate::exchange::greeting_of(message) == Err::<
            (),
            ErrorView,
        >(
            crate::message_laws::failure(
                "expected QMP greeting, got: "@ + crate::json::json_text(message),
            ),
        ),
{
}

/// The state of a round trip that awaits the reply to the request `id` for `command`.
pub open spec fn awaits_reply(call: CallView, state: RunView, command: Seq<char>, id: u64) -> bool {
    ||| state == RunView::Negotiating(NegotiateView::Capabilities(ExecuteView::Reading)) && command
        == "qmp_capabilities"@ && id == 0
    ||| state == RunView::Executing(ExecuteView::Reading) && command == call.command && id == 1
}

/// A result for the negotiation leads to the command, and a result for the command is
/// the outcome.
pub proof fn law_results_lead_on(
    call: CallView,
    state: RunView,
    command: Seq<char>,
    id: u64,
    line: Seq<char>,
    message: Json,
    value: Json,
)
    requires
        awaits_reply(call, state, command, id),
        crate::message_laws::spells(line, message),
        crate::message_laws::replies_to(message, id),
        message.member("error"@) is None,
        message.member("return"@) == Some(value),
    ensures
        crate::exchange::run_next(call, state, EventView::Read(Ok(line))) == if id == 0 {
            RunView::Executing(ExecuteView::Sending)
        } else {
            RunView::Closing(Ok(value))
        },
        id == 0 ==> crate::exchange::negotiate_next(
            NegotiateView::Capabilities(ExecuteView::Reading),
            EventView::Read(Ok(line)),
        ) == NegotiateView::Done(Ok(())),
{
    crate::message_laws::law_results_end_an_execution(command, id, line, message, value);
}

/// An error for either request is the outcome, and the connection is still to be shut
/// down.
pub proof fn law_errors_are_the_outcome(
    call: CallView,
    state: RunView,
    command: Seq<char>,
    id: u64,
    line: Seq<char>,
    message: Json,
    error: Json,
    reported: ErrorView,
)
    requires
        awaits_reply(call, state, command, id),
        crate::message_laws::spells(line, message),
        crate::message_laws::replies_to(message, id),
        message.member("error"@) == Some(error),
        crate::message_laws::reports(reported, error, command),
    ensures
        crate::exchange::run_next(call, state, EventView::Read(Ok(line))) == RunView::Closing(
            Err(reported),
        ),
        id == 0 ==> crate::exchange::negotiate_next(
            NegotiateView::Capabilities(ExecuteView::Reading),
            EventView::Read(Ok(line)),
        ) == NegotiateView::Done(Err(reported)),
{
    crate::message_laws::law_errors_end_an_execution(command, id, line, message, error, reported);
}

/// A message beside the request changes nothing.
pub proof fn law_messages_beside_change_nothing(
    call: CallView,
    state: RunView,
    command: Seq<char>,
    id: u64,
    line: Seq<char>,
    message: Json,
)
    requires
        awaits_reply(call, state, command, id),
        crate::message_laws::spells(line, message),
        crate::message_laws::is_beside(message, id),
    ensures
        crate::exchange::run_next(call, state, EventView::Read(Ok(line))) == state,
        id == 0 ==> crate::exchange::negotiate_next(
            NegotiateView::Capabilities(ExecuteView::Reading),
            EventView::Read(Ok(line)),
        ) == NegotiateView::Capabilities(ExecuteView::Reading),
{
    crate::message_laws::law_messages_beside_are_skipped(command, id, line, message);
}

/// Where a message is awaited and none can be read, the outcome says why.
pub proof fn law_unreadable_lines_are_the_outcome(
    call: CallView,
    state: RunView,
    read: Result<Seq<char>, Seq<char>>,
    error: ErrorView,
)
    requires
        state == RunView::Negotiating(NegotiateView::Greeting) || state == RunView::Negotiating(
            NegotiateView::Capabilities(ExecuteView::Reading),
        ) || state == RunView::Executing(ExecuteView::Reading),
        crate::message_laws::is_unreadable(read, error),
    ensures
        crate::exchange::run_next(call, state, EventView::Read(read)) == RunView::Closing(
            Err(error),
        ),
        state is Negotiating ==> crate::exchange::negotiate_next(
            state->Negotiating_0,
            EventView::Read(read),
        ) == NegotiateView::Done(Err(error)),
{
    crate::message_laws::law_unreadable_lines_are_errors(read, error);
}

/// After a request was sent its reply is awaited, and one that could not be sent gives
/// the outcome.
pub proof fn law_sends_lead_on(call: CallView, reason: Seq<char>)
    ensures
        ({
            let error = crate::message_laws::failure("failed to send QMP command: "@ + reason);
            let negotiating = RunView::Negotiating(
                NegotiateView::Capabilities(ExecuteView::Sending),
            );
            let executing = RunView::Executing(ExecuteView::Sending);
            let sent = EventView::Sent(Ok(()));
            let lost = EventView::Sent(Err(reason));
            &&& crate::exchange::run_next(call, negotiating, sent) == RunView::Negotiating(
                NegotiateView::Capabilities(ExecuteView::Reading),
            )
            &&& crate::exchange::run_next(call, executing, sent) == RunView::Executing(
                ExecuteView::Reading,
            )
            &&& crate::exchange::run_next(call, negotiating, lost) == RunView::Closing(Err(error))
            &&& crate::exchange::run_next(call, executing, lost) == RunView::Closing(Err(error))
            &&& crate::exchange::negotiate_next(
                NegotiateView::Capabilities(ExecuteView::Sending),
                sent,
            ) == NegotiateView::Capabilities(ExecuteView::Reading)
            &&& crate::exchange::negotiate_next(
                NegotiateView::Capabilities(ExecuteView::Sending),
                lost,
            ) == NegotiateView::Done(Err(error))
        }),
{
    crate::message_laws::law_sent_requests_are_waited_for("qmp_capabilities"@, 0, reason);
    crate::message_laws::law_sent_requests_are_waited_for(call.command, 1, reason);
}

/// `event` is what comes of `action`.
pub open spec fn answers(event: EventView, action: ActionView) -> bool {
    match action {
        ActionView::Connect => event is Connected,
        ActionView::Send(_) => event is Sent,
        ActionView::ReadLine => event is Read,
        ActionView::ShutDown => event is ShutDown,
        ActionView::Finish => false,
    }
}

/// What does not come of the pending action changes nothing, the clock aside.
pub proof fn law_round_trips_take_only_what_they_await(
    call: CallView,
    state: RunView,
    event: EventView,
)
    requires
        crate::exchange_laws::is_settled(state),
        !(event is Clock),
        !answers(event, crate::exchange::action_of(call, state)),
    ensures
        crate::exchange::run_next(call, state, event) == state,
{
}

/// The handshake takes nothing but what it awaits either.
pub proof fn law_negotiations_take_only_what_they_await(state: NegotiateView, event: EventView)
    requires
        !(state is Greeting && event is Read),
        !(state == NegotiateView::Capabilities(ExecuteView::Sending) && event is Sent),
        !(state == NegotiateView::Capabilities(ExecuteView::Reading) && event is Read),
        !(state matches NegotiateView::Capabilities(ExecuteView::Done(_))),
    ensures
        crate::exchange::negotiate_next(state, event) == state,
{
}

/// A step that is done leads on whatever happens, and takes its outcome along.
pub proof fn law_done_steps_lead_on(
    call: CallView,
    outcome: Result<Json, ErrorView>,
    event: EventView,
)
    requires
        !(event is Clock),
    ensures
        ({
            let done = NegotiateView::Done(
                match outcome {
                    Ok(_) => Ok(()),
                    Err(error) => Err(error),
                },
            );
            let after = match outcome {
                Ok(_) => RunView::Executing(ExecuteView::Sending),
                Err(error) => RunView::Closing(Err(error)),
            };
            &&& crate::exchange::negotiate_next(
                NegotiateView::Capabilities(ExecuteView::Done(outcome)),
                event,
            ) == done
            &&& crate::exchange::run_next(
                call,
                RunView::Negotiating(NegotiateView::Capabilities(ExecuteView::Done(outcome))),
                event,
            ) == after
            &&& crate::exchange::run_next(call, RunView::Negotiating(done), event) == after
            &&& crate::exchange::run_next(
                call,
                RunView::Executing(ExecuteView::Done(outcome)),
                event,
            ) == RunView::Closing(outcome)
        }),
{
}

/// The end of the connection finishes a round trip with the outcome that was there.
pub proof fn law_shut_down_finishes(call: CallView, outcome: Result<Json, ErrorView>)
    ensures
        crate::exchange::run_next(call, RunView::Closing(outcome), EventView::ShutDown)
            == RunView::Finished(outcome),
{
}

/// A round trip has thirty seconds from its start, and a clock from then on makes of
/// any state without an outcome the error that gives the path.
pub proof fn law_round_trips_have_thirty_seconds(call: CallView, state: RunView, now: u64)
    ensures
        call.deadline() == call.started + 30000000000,
        ({
            let next = crate::exchange::run_next(call, state, EventView::Clock(now));
            let error = crate::message_laws::failure(
                "timed out waiting for QEMU on QMP socket "@ + call.socket_path
                    + "; its process may be paused, the VM overloaded or its monitor stuck"@,
            );
            if now < call.started + 30000000000 || state is Closing || state is Finished {
                next == state
            } else if state is Connecting {
                next == RunView::Finished(Err(error))
            } else {
                next == RunView::Closing(Err(error))
            }
        }),
        crate::exchange::timeout_error(call.socket_path) == crate::message_laws::failure(
            "timed out waiting for QEMU on QMP socket "@ + call.socket_path
                + "; its process may be paused, the VM overloaded or its monitor stuck"@,
        ),
{
}

/// What is to be done: connect, await the greeting, ask for the capabilities under
/// the id 0 and await the reply, ask for the command with its arguments under the id
/// 1 and await the reply, shut the connection down, and then nothing.
pub proof fn law_actions_of_a_round_trip(
    call: CallView,
    state: RunView,
    negotiation: Json,
    request: Json,
)
    requires
        crate::exchange_laws::is_settled(state),
        crate::message_laws::asks_for(negotiation, "qmp_capabilities"@, None, 0),
        crate::message_laws::asks_for(request, call.command, call.arguments, 1),
    ensures
        crate::exchange::action_of(call, state) == (match state {
            RunView::Connecting => ActionView::Connect,
            RunView::Negotiating(NegotiateView::Capabilities(ExecuteView::Sending)) =>
                ActionView::Send(crate::json::json_text(negotiation).push('\n')),
            RunView::Executing(ExecuteView::Sending) => ActionView::Send(
                crate::json::json_text(request).push('\n'),
            ),
            RunView::Closing(_) => ActionView::ShutDown,
            RunView::Finished(_) => ActionView::Finish,
            _ => ActionView::ReadLine,
        }),
{
    crate::message_laws::law_request_lines_ask_for_their_command(
        "qmp_capabilities"@,
        None,
        0,
        negotiation,
    );
    crate::message_laws::law_request_lines_ask_for_their_command(
        call.command,
        call.arguments,
        1,
        request,
    );
}

// ---------------------------------------------------------------------------
// What contracts see
// ---------------------------------------------------------------------------

/// Contracts see a call as it stands, its arguments as what they hold.
pub proof fn law_calls_are_seen_as_they_are(call: Call)
    ensures
        call@.socket_path == call.socket_path@,
        call@.command == call.command@,
        call@.started == call.started,
        call.arguments is None ==> call@.arguments is None,
        call.arguments matches Some(arguments) ==> call@.arguments == Some(
            crate::json::json_content(arguments),
        ),
{
}

/// Contracts see events and actions as they stand.
pub proof fn law_events_are_seen_as_they_are(event: Event, action: Action)
    ensures
        match event {
            Event::Connected(Ok(_)) => event@ == EventView::Connected(Ok(())),
            Event::Connected(Err(reason)) => event@ == EventView::Connected(Err(reason@)),
            Event::Sent(Ok(_)) => event@ == EventView::Sent(Ok(())),
            Event::Sent(Err(reason)) => event@ == EventView::Sent(Err(reason@)),
            Event::Read(Ok(line)) => event@ == EventView::Read(Ok(line@)),
            Event::Read(Err(reason)) => event@ == EventView::Read(Err(reason@)),
            Event::ShutDown => event@ == EventView::ShutDown,
            Event::Clock(now) => event@ == EventView::Clock(now),
        },
        match action {
            Action::Connect => action@ == ActionView::Connect,
            Action::Send(line) => action@ == ActionView::Send(line@),
            Action::ReadLine => action@ == ActionView::ReadLine,
            Action::ShutDown => action@ == ActionView::ShutDown,
            Action::Finish => action@ == ActionView::Finish,
        },
{
}

/// Contracts see how far an execution and a handshake have come, and their outcome.
pub proof fn law_executions_are_seen_as_they_are(state: ExecuteState, handshake: NegotiateState)
    ensures
        match state {
            ExecuteState::Sending => state@ == ExecuteView::Sending,
            ExecuteState::Reading => state@ == ExecuteView::Reading,
            ExecuteState::Done(Ok(value)) => state@ == ExecuteView::Done(
                Ok(crate::json::json_content(value)),
            ),
            ExecuteState::Done(Err(error)) => state@ == ExecuteView::Done(
                Err(ErrorView { code: error.code, message: error.message@ }),
            ),
        },
        match handshake {
            NegotiateState::Greeting => handshake@ == NegotiateView::Greeting,
            NegotiateState::Capabilities(inner) => handshake@ == NegotiateView::Capabilities(
                inner@,
            ),
            NegotiateState::Done(Ok(_)) => handshake@ == NegotiateView::Done(Ok(())),
            NegotiateState::Done(Err(error)) => handshake@ == NegotiateView::Done(
                Err(ErrorView { code: error.code, message: error.message@ }),
            ),
        },
{
}

/// Contracts see how far a round trip has come, and its outcome.
pub proof fn law_round_trips_are_seen_as_they_are(state: RunState)
    ensures
        match state {
            RunState::Connecting => state@ == RunView::Connecting,
            RunState::Negotiating(inner) => state@ == RunView::Negotiating(inner@),
            RunState::Executing(inner) => state@ == RunView::Executing(inner@),
            RunState::Closing(Ok(value)) => state@ == RunView::Closing(
                Ok(crate::json::json_content(value)),
            ),
            RunState::Closing(Err(error)) => state@ == RunView::Closing(
                Err(ErrorView { code: error.code, message: error.message@ }),
            ),
            RunState::Finished(Ok(value)) => state@ == RunView::Finished(
                Ok(crate::json::json_content(value)),
            ),
            RunState::Finished(Err(error)) => state@ == RunView::Finished(
                Err(ErrorView { code: error.code, message: error.message@ }),
            ),
        },
{
}

} // verus!
