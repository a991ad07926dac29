//! What holds of QMP requests, replies and round trips as a whole.
use vstd::prelude::*;

use crate::error::{ErrorCode, ErrorView};
use crate::exchange::{
    ActionView, CallView, EventView, ExecuteView, NegotiateView, RunView, COMMAND_ID,
    DEFAULT_QMP_TIMEOUT_MS, NEGOTIATION_ID,
};
use crate::json::{Json, JsonNumber};
use crate::qmp::FaultView;

verus! {

/// A request holds the command, its id, its arguments where there are any, and
/// nothing else. The id stands where the id of a reply is looked for.
pub proof fn law_request_members(command: Seq<char>, arguments: Option<Json>, id: u64, key: Seq<char>)
    ensures
        ({
            let request = crate::qmp::request_of(command, arguments, id);
            &&& request.member("execute"@) == Some(Json::Text(command))
            &&& request.member("id"@) == Some(Json::Number(JsonNumber::Unsigned(id)))
            &&& request.member("arguments"@) == arguments
            &&& crate::qmp::reply_of(request).id == Some(id)
            &&& key != "execute"@ && key != "id"@ && key != "arguments"@ ==> request.member(key)
                is None
        }),
{
    reveal_strlit("execute");
    reveal_strlit("id");
    reveal_strlit("arguments");
    assert("execute"@.len() != "id"@.len());
    assert("execute"@.len() != "arguments"@.len());
    assert("id"@.len() != "arguments"@.len());
}

/// A text occurs in whatever is written around it.
proof fn lemma_occurs_within(before: Seq<char>, text: Seq<char>, after: Seq<char>)
    ensures
        crate::text::occurs_in(text, before + text + after),
{
    let whole = before + text + after;
    let i = before.len() as int;
    assert(whole.subrange(i, i + text.len()) == text);
}

/// A command that QEMU does not know is a method that is not found, and the error
/// names the command. Any other refusal is one of invalid parameters, and the
/// error gives the class and the description that QEMU gave.
pub proof fn law_refusals_are_classified(fault: FaultView, command: Seq<char>)
    ensures
        ({
            let error = crate::qmp::refusal(fault, command);
            &&& error.code == ErrorCode::MethodNotFound <==> fault.class == Some(
                "CommandNotFound"@,
            )
            &&& error.code == ErrorCode::InvalidParams <==> fault.class != Some(
                "CommandNotFound"@,
            )
            &&& fault.class == Some("CommandNotFound"@) ==> crate::text::occurs_in(
                command,
                error.message,
            )
            &&& fault.class != Some("CommandNotFound"@) && fault.class is Some
                ==> crate::text::occurs_in(fault.class->0, error.message)
            &&& fault.class != Some("CommandNotFound"@) && fault.desc is Some
                ==> crate::text::occurs_in(fault.desc->0, error.message)
        }),
{
    reveal_strlit("CommandNotFound");
    reveal_strlit("unknown");
    assert("CommandNotFound"@.len() != "unknown"@.len());
    let error = crate::qmp::refusal(fault, command);
    let none = Seq::<char>::empty();
    let class = match fault.class {
        Some(class) => class,
        None => "unknown"@,
    };
    let desc = match fault.desc {
        Some(desc) => desc,
        None => ""@,
    };
    if class == "CommandNotFound"@ {
        lemma_occurs_within("QMP command not found: "@, command, none);
        assert("QMP command not found: "@ + command + none == error.message);
    } else {
        lemma_occurs_within("QMP error ("@, class, "): "@ + desc);
        assert("QMP error ("@ + class + ("): "@ + desc) == error.message);
        lemma_occurs_within("QMP error ("@ + class + "): "@, desc, none);
        assert("QMP error ("@ + class + "): "@ + desc + none == error.message);
    }
}

/// Where a socket cannot be connected to, the error names the QEMU flag that
/// creates it, and the reason.
pub proof fn law_connect_failures_name_the_flag(
    device: Seq<char>,
    flag: Seq<char>,
    path: Seq<char>,
    reason: Seq<char>,
)
    ensures
        ({
            let error = crate::error::connect_failure(device, flag, path, reason);
            &&& error.code == ErrorCode::InternalError
            &&& crate::text::occurs_in(crate::error::socket_flag(flag, path), error.message)
            &&& crate::text::occurs_in(reason, error.message)
        }),
{
    let error = crate::error::connect_failure(device, flag, path, reason);
    let head = "failed to connect to "@ + device + " socket "@ + path + ": "@;
    let lead = "; launch QEMU with `"@;
    let hint = crate::error::socket_flag(flag, path);
    lemma_occurs_within(head + reason + lead, hint, "`"@);
    lemma_occurs_within(head, reason, lead + hint + "`"@);
    assert(head + reason + (lead + hint + "`"@) == head + reason + lead + hint + "`"@);
}

/// The execution of a request after a series of events.
pub open spec fn execute_run(
    command: Seq<char>,
    id: u64,
    state: ExecuteView,
    events: Seq<EventView>,
) -> ExecuteView
    decreases events.len(),
{
    if events.len() == 0 {
        state
    } else {
        execute_run(
            command,
            id,
            crate::exchange::execute_next(command, id, state, events[0]),
            events.drop_first(),
        )
    }
}

/// `event` is a message that says nothing of the request: an asynchronous event,
/// or a response to some other command, or one with neither error nor result.
pub open spec fn is_unrelated(event: EventView, command: Seq<char>, id: u64) -> bool {
    event matches EventView::Read(read) && crate::exchange::answer_in(read, command, id) is None
}

/// Messages that say nothing of a request do not matter: with any number of them
/// in front, what follows leads to the same state.
pub proof fn law_unrelated_messages_are_skipped(
    command: Seq<char>,
    id: u64,
    unrelated: Seq<EventView>,
    rest: Seq<EventView>,
)
    requires
        forall|i: int|
            0 <= i < unrelated.len() ==> is_unrelated(#[trigger] unrelated[i], command, id),
    ensures
        execute_run(command, id, ExecuteView::Reading, unrelated + rest) == execute_run(
            command,
            id,
            ExecuteView::Reading,
            rest,
        ),
    decreases unrelated.len(),
{
    if unrelated.len() == 0 {
        assert(unrelated + rest == rest);
    } else {
        assert(is_unrelated(unrelated[0], command, id));
        assert((unrelated + rest).drop_first() == unrelated.drop_first() + rest);
        law_unrelated_messages_are_skipped(command, id, unrelated.drop_first(), rest);
    }
}

/// A finished execution stays as it is.
proof fn lemma_done_stays(
    command: Seq<char>,
    id: u64,
    outcome: Result<Json, ErrorView>,
    events: Seq<EventView>,
)
    ensures
        execute_run(command, id, ExecuteView::Done(outcome), events) == ExecuteView::Done(outcome),
    decreases events.len(),
{
    if events.len() > 0 {
        lemma_done_stays(command, id, outcome, events.drop_first());
    }
}

/// The first message that answers a request decides its outcome, whatever came
/// before and whatever comes after.
pub proof fn law_first_answer_decides(
    command: Seq<char>,
    id: u64,
    unrelated: Seq<EventView>,
    read: Result<Seq<char>, Seq<char>>,
    later: Seq<EventView>,
)
    requires
        forall|i: int|
            0 <= i < unrelated.len() ==> is_unrelated(#[trigger] unrelated[i], command, id),
        crate::exchange::answer_in(read, command, id) is Some,
    ensures
        execute_run(
            command,
            id,
            ExecuteView::Sending,
            seq![EventView::Sent(Ok(()))] + unrelated + seq![EventView::Read(read)] + later,
        ) == ExecuteView::Done(crate::exchange::answer_in(read, command, id)->0),
{
    let rest = seq![EventView::Read(read)] + later;
    let events = seq![EventView::Sent(Ok(()))] + unrelated + seq![EventView::Read(read)] + later;
    assert(events.drop_first() == unrelated + rest);
    law_unrelated_messages_are_skipped(command, id, unrelated, rest);
    assert(rest.drop_first() == later);
    lemma_done_stays(command, id, crate::exchange::answer_in(read, command, id)->0, later);
}

/// An asynchronous event says nothing of any request, and neither does a response
/// to another one, whatever else they hold.
pub proof fn law_events_and_other_responses_say_nothing(
    message: Json,
    command: Seq<char>,
    id: u64,
)
    requires
        message.member("event"@) is Some || message.member("id"@) != Some(
            Json::Number(JsonNumber::Unsigned(id)),
        ),
    ensures
        crate::qmp::answer_of(crate::qmp::reply_of(message), command, id) is None,
{
}

/// A response to the request with a result and no error is its outcome, and one
/// with an error is refused, whether or not it has a result.
pub proof fn law_responses_are_answers(message: Json, command: Seq<char>, id: u64)
    requires
        message.member("event"@) is None,
        message.member("id"@) == Some(Json::Number(JsonNumber::Unsigned(id))),
    ensures
        ({
            let answer = crate::qmp::answer_of(crate::qmp::reply_of(message), command, id);
            match (message.member("error"@), message.member("return"@)) {
                (Some(_), _) => answer matches Some(Err(_)),
                (None, Some(value)) => answer == Some(Ok::<Json, ErrorView>(value)),
                (None, None) => answer is None,
            }
        }),
{
}

/// The round trip after a series of events.
pub open spec fn run_all(call: CallView, state: RunView, events: Seq<EventView>) -> RunView
    decreases events.len(),
{
    if events.len() == 0 {
        state
    } else {
        crate::exchange::run_next(call, run_all(call, state, events.drop_last()), events.last())
    }
}

/// The states that a round trip can be in: an inner step that is done has already
/// led on.
pub open spec fn is_settled(state: RunView) -> bool {
    match state {
        RunView::Negotiating(NegotiateView::Done(_)) => false,
        RunView::Negotiating(NegotiateView::Capabilities(ExecuteView::Done(_))) => false,
        RunView::Executing(ExecuteView::Done(_)) => false,
        _ => true,
    }
}

/// A round trip is always at a point where one action is pending, and there is
/// nothing left to do exactly when it is finished.
pub proof fn law_round_trip_is_settled(call: CallView, events: Seq<EventView>)
    ensures
        is_settled(run_all(call, RunView::Connecting, events)),
        crate::exchange::action_of(call, run_all(call, RunView::Connecting, events))
            == ActionView::Finish <==> run_all(call, RunView::Connecting, events) is Finished,
    decreases events.len(),
{
    if events.len() > 0 {
        law_round_trip_is_settled(call, events.drop_last());
    }
}

/// `event` is a clock at which the round trip has taken too long.
pub open spec fn is_late(call: CallView, event: EventView) -> bool {
    event matches EventView::Clock(now) && now >= call.deadline()
}

/// The connection is always shut down before a round trip is finished, on success
/// and on failure alike: it finishes either where no connection was made, or with
/// the outcome that was there when the connection was shut down.
pub proof fn law_connection_is_shut_down(call: CallView, events: Seq<EventView>)
    requires
        run_all(call, RunView::Connecting, events) is Finished,
    ensures
        exists|i: int|
            0 <= i < events.len() && ({
                let before = #[trigger] run_all(call, RunView::Connecting, events.take(i));
                ||| before is Connecting && (events[i] matches EventView::Connected(Err(_))
                    || is_late(call, events[i]))
                ||| before is Closing && events[i] is ShutDown && run_all(
                    call,
                    RunView::Connecting,
                    events,
                ) == RunView::Finished(before->Closing_0)
            }),
    decreases events.len(),
{
    assert(events.len() > 0);
    let shorter = events.drop_last();
    let last = run_all(call, RunView::Connecting, shorter);
    if last is Finished {
        law_connection_is_shut_down(call, shorter);
        let i = choose|i: int|
            0 <= i < shorter.len() && ({
                let before = #[trigger] run_all(call, RunView::Connecting, shorter.take(i));
                ||| before is Connecting && (shorter[i] matches EventView::Connected(Err(_))
                    || is_late(call, shorter[i]))
                ||| before is Closing && shorter[i] is ShutDown && run_all(
                    call,
                    RunView::Connecting,
                    shorter,
                ) == RunView::Finished(before->Closing_0)
            });
        assert(shorter.take(i) == events.take(i));
        assert(shorter[i] == events[i]);
    } else {
        let i = events.len() - 1;
        assert(events.take(i) == shorter);
        assert(events[i] == events.last());
    }
}

/// Once the outcome of a round trip is known, nothing that happens changes it.
pub proof fn law_outcome_is_kept(
    call: CallView,
    outcome: Result<Json, ErrorView>,
    events: Seq<EventView>,
)
    ensures
        run_all(call, RunView::Closing(outcome), events) == RunView::Closing(outcome) || run_all(
            call,
            RunView::Closing(outcome),
            events,
        ) == RunView::Finished(outcome),
        run_all(call, RunView::Finished(outcome), events) == RunView::Finished(outcome),
    decreases events.len(),
{
    if events.len() > 0 {
        law_outcome_is_kept(call, outcome, events.drop_last());
    }
}

/// QEMU has greeted, and `qmp_capabilities` is being executed.
pub open spec fn is_after_greeting(state: RunView) -> bool {
    state is Negotiating && state->Negotiating_0 is Capabilities
}

/// The command is sent only after QEMU greeted and answered `qmp_capabilities`
/// with a result: there is no other way into its execution.
pub proof fn law_negotiation_comes_first(call: CallView, state: RunView, event: EventView)
    requires
        is_settled(state),
    ensures
        ({
            let next = crate::exchange::run_next(call, state, event);
            &&& next is Executing && !(state is Executing) ==> {
                &&& next == RunView::Executing(ExecuteView::Sending)
                &&& state == RunView::Negotiating(NegotiateView::Capabilities(ExecuteView::Reading))
                &&& event matches EventView::Read(read) && (crate::exchange::answer_in(
                    read,
                    "qmp_capabilities"@,
                    NEGOTIATION_ID,
                ) matches Some(Ok(_)))
            }
            &&& is_after_greeting(next) && !is_after_greeting(state) ==> {
                &&& state == RunView::Negotiating(NegotiateView::Greeting)
                &&& event matches EventView::Read(read) && (crate::qmp::message_of(
                    read,
                ) matches Ok(greeting) && greeting.member("QMP"@) is Some)
            }
        }),
{
}

/// What goes over the socket is the negotiation request or the command, each
/// under its own id.
pub proof fn law_sent_lines_are_the_two_requests(call: CallView, state: RunView, line: Seq<char>)
    requires
        crate::exchange::action_of(call, state) == ActionView::Send(line),
    ensures
        state == RunView::Negotiating(NegotiateView::Capabilities(ExecuteView::Sending)) && line
            == crate::qmp::request_line_of("qmp_capabilities"@, None, NEGOTIATION_ID) || state
            == RunView::Executing(ExecuteView::Sending) && line == crate::qmp::request_line_of(
            call.command,
            call.arguments,
            COMMAND_ID,
        ),
        NEGOTIATION_ID != COMMAND_ID,
{
}

/// How far a round trip has come, as a number.
spec fn progress(state: RunView) -> int {
    match state {
        RunView::Connecting => 0,
        RunView::Negotiating(NegotiateView::Greeting) => 1,
        RunView::Negotiating(NegotiateView::Capabilities(ExecuteView::Sending)) => 2,
        RunView::Negotiating(_) => 3,
        RunView::Executing(ExecuteView::Sending) => 4,
        RunView::Executing(_) => 5,
        RunView::Closing(_) => 6,
        RunView::Finished(_) => 7,
    }
}

/// A round trip never goes back.
proof fn lemma_progress(call: CallView, events: Seq<EventView>, i: int, j: int)
    requires
        0 <= i <= j <= events.len(),
    ensures
        progress(run_all(call, RunView::Connecting, events.take(i))) <= progress(
            run_all(call, RunView::Connecting, events.take(j)),
        ),
    decreases j,
{
    if i < j {
        lemma_progress(call, events, i, j - 1);
        law_round_trip_is_settled(call, events.take(j - 1));
        assert(events.take(j).drop_last() == events.take(j - 1));
    }
}

/// Each request, and so the command, is sent at most once: after a point at which
/// a request was pending and an attempt was made to send it, it is never pending
/// again.
pub proof fn law_each_request_is_sent_once(call: CallView, events: Seq<EventView>, i: int, j: int)
    requires
        0 <= i < j <= events.len(),
        crate::exchange::action_of(call, run_all(call, RunView::Connecting, events.take(i))) is Send,
        events[i] is Sent,
    ensures
        run_all(call, RunView::Connecting, events.take(j)) != run_all(
            call,
            RunView::Connecting,
            events.take(i),
        ),
{
    assert(events.take(i + 1).drop_last() == events.take(i));
    assert(events.take(i + 1).last() == events[i]);
    lemma_progress(call, events, i + 1, j);
}

/// A round trip is over once its time is up: after a clock that has reached its
/// deadline it has an outcome, whatever happened before and happens then.
pub proof fn law_round_trip_ends_at_its_deadline(call: CallView, events: Seq<EventView>, i: int)
    requires
        0 <= i < events.len(),
        is_late(call, events[i]),
    ensures
        ({
            let end = run_all(call, RunView::Connecting, events);
            end is Closing || end is Finished
        }),
{
    assert(events.take(i + 1).drop_last() == events.take(i));
    assert(events.take(i + 1).last() == events[i]);
    lemma_progress(call, events, i + 1, events.len() as int);
    assert(events.take(events.len() as int) == events);
}

/// A clock ends a round trip exactly when its time, counted from its start, is
/// up: before that it changes nothing, and from then on it leads to the error that
/// names the likely causes, unless the outcome is known already. Where there is a
/// connection it is shut down first.
pub proof fn law_timeout_ends_a_round_trip(call: CallView, state: RunView, now: u64)
    requires
        !(state is Closing),
        !(state is Finished),
    ensures
        ({
            let late = Err::<Json, ErrorView>(crate::exchange::timeout_error(call.socket_path));
            let next = crate::exchange::run_next(call, state, EventView::Clock(now));
            if now < call.started + DEFAULT_QMP_TIMEOUT_MS * 1000000 {
                next == state
            } else if state is Connecting {
                next == RunView::Finished(late)
            } else {
                &&& next == RunView::Closing(late)
                &&& crate::exchange::run_next(call, next, EventView::ShutDown)
                    == RunView::Finished(late)
            }
        }),
{
}

/// A round trip goes on from where the events so far have led.
proof fn lemma_run_concat(call: CallView, state: RunView, first: Seq<EventView>, then: Seq<EventView>)
    ensures
        run_all(call, state, first + then) == run_all(call, run_all(call, state, first), then),
    decreases then.len(),
{
    if then.len() == 0 {
        assert(first + then == first);
    } else {
        assert((first + then).drop_last() == first + then.drop_last());
        lemma_run_concat(call, state, first, then.drop_last());
    }
}

/// A round trip that awaits a reply stays where it is over messages that say
/// nothing of the request.
proof fn lemma_run_skips(
    call: CallView,
    state: RunView,
    command: Seq<char>,
    id: u64,
    unrelated: Seq<EventView>,
)
    requires
        ({
            ||| state == RunView::Negotiating(NegotiateView::Capabilities(ExecuteView::Reading))
                && command == "qmp_capabilities"@ && id == NEGOTIATION_ID
            ||| state == RunView::Executing(ExecuteView::Reading) && command == call.command && id
                == COMMAND_ID
        }),
        forall|i: int|
            0 <= i < unrelated.len() ==> is_unrelated(#[trigger] unrelated[i], command, id),
    ensures
        run_all(call, state, unrelated) == state,
    decreases unrelated.len(),
{
    if unrelated.len() > 0 {
        let before = unrelated.drop_last();
        assert forall|i: int| 0 <= i < before.len() implies is_unrelated(
            #[trigger] before[i],
            command,
            id,
        ) by {
            assert(before[i] == unrelated[i]);
        }
        lemma_run_skips(call, state, command, id, before);
        assert(is_unrelated(unrelated[unrelated.len() - 1], command, id));
    }
}

/// Messages that say nothing of either request do not matter: put in at any point
/// but where the greeting is awaited, they leave the course of the round trip, and
/// so its outcome, as it is without them.
pub proof fn law_unrelated_messages_do_not_matter(
    call: CallView,
    first: Seq<EventView>,
    unrelated: Seq<EventView>,
    then: Seq<EventView>,
)
    requires
        run_all(call, RunView::Connecting, first) != RunView::Negotiating(NegotiateView::Greeting),
        forall|i: int|
            0 <= i < unrelated.len() ==> is_unrelated(
                #[trigger] unrelated[i],
                "qmp_capabilities"@,
                NEGOTIATION_ID,
            ) && is_unrelated(unrelated[i], call.command, COMMAND_ID),
    ensures
        run_all(call, RunView::Connecting, first + unrelated + then) == run_all(
            call,
            RunView::Connecting,
            first + then,
        ),
    decreases unrelated.len(),
{
    let start = RunView::Connecting;
    if unrelated.len() == 0 {
        assert(first + unrelated == first);
    } else {
        let fewer = unrelated.drop_last();
        assert forall|i: int| 0 <= i < fewer.len() implies is_unrelated(
            #[trigger] fewer[i],
            "qmp_capabilities"@,
            NEGOTIATION_ID,
        ) && is_unrelated(fewer[i], call.command, COMMAND_ID) by {
            assert(fewer[i] == unrelated[i]);
        }
        assert(is_unrelated(
            unrelated[unrelated.len() - 1],
            "qmp_capabilities"@,
            NEGOTIATION_ID,
        ));
        law_unrelated_messages_do_not_matter(call, first, fewer, Seq::empty());
        assert(first + fewer + Seq::empty() == first + fewer);
        assert(first + Seq::empty() == first);
        law_round_trip_is_settled(call, first);
        assert((first + unrelated).drop_last() == first + fewer);
        assert((first + unrelated).last() == unrelated.last());
        assert(run_all(call, start, first + unrelated) == run_all(call, start, first));
    }
    lemma_run_concat(call, start, first + unrelated, then);
    lemma_run_concat(call, start, first, then);
}

/// What QEMU answers to a command reaches the caller: a round trip in which the
/// negotiation succeeds ends with what the first answer to the command says,
/// whatever unrelated messages come in between.
pub proof fn law_command_passes_through(
    call: CallView,
    greeting: Seq<char>,
    noise: Seq<EventView>,
    capabilities: Seq<char>,
    more_noise: Seq<EventView>,
    response: Result<Seq<char>, Seq<char>>,
)
    requires
        crate::qmp::message_of(Ok(greeting)) matches Ok(message) && message.member("QMP"@) is Some,
        forall|i: int|
            0 <= i < noise.len() ==> is_unrelated(
                #[trigger] noise[i],
                "qmp_capabilities"@,
                NEGOTIATION_ID,
            ),
        crate::exchange::answer_in(Ok(capabilities), "qmp_capabilities"@, NEGOTIATION_ID) matches
            Some(Ok(_)),
        forall|i: int|
            0 <= i < more_noise.len() ==> is_unrelated(
                #[trigger] more_noise[i],
                call.command,
                COMMAND_ID,
            ),
        crate::exchange::answer_in(response, call.command, COMMAND_ID) is Some,
    ensures
        run_all(
            call,
            RunView::Connecting,
            seq![
                EventView::Connected(Ok(())),
                EventView::Read(Ok(greeting)),
                EventView::Sent(Ok(())),
            ] + noise + seq![EventView::Read(Ok(capabilities)), EventView::Sent(Ok(()))]
                + more_noise + seq![EventView::Read(response), EventView::ShutDown],
        ) == RunView::Finished(
            crate::exchange::answer_in(response, call.command, COMMAND_ID)->0,
        ),
{
    let start = RunView::Connecting;
    let opening = seq![
        EventView::Connected(Ok(())),
        EventView::Read(Ok(greeting)),
        EventView::Sent(Ok(())),
    ];
    let middle = seq![EventView::Read(Ok(capabilities)), EventView::Sent(Ok(()))];
    let closing = seq![EventView::Read(response), EventView::ShutDown];
    let negotiating = RunView::Negotiating(NegotiateView::Capabilities(ExecuteView::Reading));
    let executing = RunView::Executing(ExecuteView::Reading);
    assert(run_all(call, start, opening) == negotiating) by {
        reveal_with_fuel(run_all, 4);
        assert(opening.drop_last().drop_last() == seq![opening[0]]);
    }
    assert(run_all(call, negotiating, middle) == executing) by {
        reveal_with_fuel(run_all, 3);
    }
    assert(run_all(call, executing, closing) == RunView::Finished(
        crate::exchange::answer_in(response, call.command, COMMAND_ID)->0,
    )) by {
        reveal_with_fuel(run_all, 3);
    }
    lemma_run_skips(call, negotiating, "qmp_capabilities"@, NEGOTIATION_ID, noise);
    lemma_run_skips(call, executing, call.command, COMMAND_ID, more_noise);
    lemma_run_concat(call, start, opening, noise);
    lemma_run_concat(call, start, opening + noise, middle);
    lemma_run_concat(call, start, opening + noise + middle, more_noise);
    lemma_run_concat(call, start, opening + noise + middle + more_noise, closing);
}

} // verus!
