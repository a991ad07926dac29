//! What a QMP message means, told by its text and its members.
use serde_json::Value;
use vstd::prelude::*;

use crate::error::{ErrorCode, ErrorView, ServerError};
use crate::exchange::{EventView, ExecuteView};
use crate::json::{Json, JsonNumber};
use crate::qmp::{Fault, FaultView, Reply, ReplyView};

verus! {

// ---------------------------------------------------------------------------
// Lines and messages
// ---------------------------------------------------------------------------

/// `line` is not empty, and the JSON parser makes `message` of it.
pub open spec fn spells(line: Seq<char>, message: Json) -> bool {
    line.len() > 0 && crate::json::parsed_json(line) == Ok::<Json, Seq<char>>(message)
}

/// The failure of the server that says `message`.
pub open spec fn failure(message: Seq<char>) -> ErrorView {
    ErrorView { code: ErrorCode::InternalError, message }
}

/// `read` gives no message, and `error` says why: the socket failed, QEMU closed
/// it, or the line is no JSON.
pub open spec fn is_unreadable(read: Result<Seq<char>, Seq<char>>, error: ErrorView) -> bool {
    match read {
        Err(reason) => error == failure("QMP connection error: "@ + reason),
        Ok(line) => if line.len() == 0 {
            error == failure("QMP connection closed by QEMU"@)
        } else {
            crate::json::parsed_json(line) matches Err(reason) && error == failure(
                "malformed QMP message: "@ + reason,
            )
        },
    }
}

/// A line that the parser accepts is read as just the value that the parser gives,
/// whatever white space or line end it has.
pub proof fn law_lines_are_read_as_parsed(line: Seq<char>, message: Json)
    requires
        spells(line, message),
    ensures
        crate::qmp::message_of(Ok(line)) == Ok::<Json, ErrorView>(message),
{
}

/// What gives no message is an error that says why.
pub proof fn law_unreadable_lines_are_errors(
    read: Result<Seq<char>, Seq<char>>,
    error: ErrorView,
)
    requires
        is_unreadable(read, error),
    ensures
        crate::qmp::message_of(read) == Err::<Json, ErrorView>(error),
{
    reveal_strlit("QMP connection error: ");
    reveal_strlit("QMP connection error");
    reveal_strlit("malformed QMP message: ");
    reveal_strlit("malformed QMP message");
    reveal_strlit(": ");
    assert("QMP connection error"@ + ": "@ == "QMP connection error: "@);
    assert("malformed QMP message"@ + ": "@ == "malformed QMP message: "@);
}

/// Every read comes to one of the two: a message that its line spells, or an error
/// that says why there is none.
pub proof fn law_reads_are_messages_or_errors(read: Result<Seq<char>, Seq<char>>)
    ensures
        match crate::qmp::message_of(read) {
            Ok(message) => read matches Ok(line) && spells(line, message),
            Err(error) => is_unreadable(read, error),
        },
{
    reveal_strlit("QMP connection error: ");
    reveal_strlit("QMP connection error");
    reveal_strlit("malformed QMP message: ");
    reveal_strlit("malformed QMP message");
    reveal_strlit(": ");
    assert("QMP connection error"@ + ": "@ == "QMP connection error: "@);
    assert("malformed QMP message"@ + ": "@ == "malformed QMP message: "@);
}

/// The members of a JSON value are those of its map, and only an object has any.
pub proof fn law_members_are_those_of_the_object(json: Json, key: Seq<char>)
    ensures
        match json {
            Json::Object(members) => {
                &&& members.contains_key(key) ==> json.member(key) == Some(members[key])
                &&& !members.contains_key(key) ==> json.member(key) is None
            },
            _ => json.member(key) is None,
        },
        json.as_str() == (match json {
            Json::Text(text) => Some(text),
            _ => None,
        }),
        json.as_u64() == (match json {
            Json::Number(JsonNumber::Unsigned(n)) => Some(n),
            _ => None,
        }),
{
}

// ---------------------------------------------------------------------------
// Requests
// ---------------------------------------------------------------------------

/// `request` is an object with the command under `execute`, the number under `id`,
/// the arguments, where there are any, as they are under `arguments`, and nothing
/// else.
pub open spec fn asks_for(
    request: Json,
    command: Seq<char>,
    arguments: Option<Json>,
    id: u64,
) -> bool {
    &&& request is Object
    &&& request.member("execute"@) == Some(Json::Text(command))
    &&& request.member("id"@) == Some(Json::Number(JsonNumber::Unsigned(id)))
    &&& request.member("arguments"@) == arguments
    &&& forall|key: Seq<char>|
        request->Object_0.contains_key(key) ==> key == "execute"@ || key == "id"@ || key
            == "arguments"@
}

/// No other value than the request asks for its command.
pub proof fn law_requests_ask_for_their_command(
    request: Json,
    command: Seq<char>,
    arguments: Option<Json>,
    id: u64,
)
    ensures
        asks_for(request, command, arguments, id) <==> request == crate::qmp::request_of(
            command,
            arguments,
            id,
        ),
{
    let made = crate::qmp::request_of(command, arguments, id);
    crate::exchange_laws::law_request_members(command, arguments, id, Seq::empty());
    assert forall|key: Seq<char>| made->Object_0.contains_key(key) implies key == "execute"@
        || key == "id"@ || key == "arguments"@ by {
        crate::exchange_laws::law_request_members(command, arguments, id, key);
    }
    if asks_for(request, command, arguments, id) {
        assert(request->Object_0 =~= made->Object_0) by {
            let found = request->Object_0;
            let members = made->Object_0;
            assert forall|key: Seq<char>| found.contains_key(key) == members.contains_key(key) by {
                crate::exchange_laws::law_request_members(command, arguments, id, key);
                assert(request.member(key) is Some <==> found.contains_key(key));
                assert(made.member(key) is Some <==> members.contains_key(key));
            }
            assert forall|key: Seq<char>| found.contains_key(key) implies found[key]
                == members[key] by {
                assert(request.member(key) == Some(found[key]));
                assert(made.member(key) == Some(members[key]));
            }
        }
    }
}

/// A request goes over the socket as the compact text of an object that asks for
/// its command, and a newline.
pub proof fn law_request_lines_ask_for_their_command(
    command: Seq<char>,
    arguments: Option<Json>,
    id: u64,
    request: Json,
)
    requires
        asks_for(request, command, arguments, id),
    ensures
        crate::qmp::request_line_of(command, arguments, id) == crate::json::json_text(
            request,
        ).push('\n'),
        crate::qmp::message_line_of(request) == crate::json::json_text(request).push('\n'),
{
    law_requests_ask_for_their_command(request, command, arguments, id);
    reveal_strlit("\n");
    assert(crate::json::json_text(request) + "\n"@ == crate::json::json_text(request).push('\n'));
}

/// Any message goes over the socket as its compact text and a newline.
pub proof fn law_message_lines_are_the_text_and_a_newline(message: Json)
    ensures
        crate::qmp::message_line_of(message) == crate::json::json_text(message).push('\n'),
{
    reveal_strlit("\n");
    assert(crate::json::json_text(message) + "\n"@ == crate::json::json_text(message).push('\n'));
}

// ---------------------------------------------------------------------------
// Replies
// ---------------------------------------------------------------------------

/// `message` is a reply to the request `id`: no asynchronous event, and under that
/// id.
pub open spec fn replies_to(message: Json, id: u64) -> bool {
    &&& message.member("event"@) is None
    &&& message.member("id"@) == Some(Json::Number(JsonNumber::Unsigned(id)))
}

/// `message` says nothing of the request `id`: an asynchronous event, a reply under
/// another id or none, or a reply with neither an error nor a result.
pub open spec fn is_beside(message: Json, id: u64) -> bool {
    ||| message.member("event"@) is Some
    ||| message.member("id"@) != Some(Json::Number(JsonNumber::Unsigned(id)))
    ||| message.member("error"@) is None && message.member("return"@) is None
}

/// The member of `json` under `key` where that is a string, and else `default`.
pub open spec fn text_or(json: Json, key: Seq<char>, default: Seq<char>) -> Seq<char> {
    match json.member(key) {
        Some(Json::Text(text)) => text,
        _ => default,
    }
}

/// `reported` is the error that a caller of `command` gets where QEMU's reply holds
/// `error`: a method that is not found, where that is the class that QEMU gives, and
/// else invalid parameters, with the class and the description that it gives.
pub open spec fn reports(reported: ErrorView, error: Json, command: Seq<char>) -> bool {
    let class = text_or(error, "class"@, "unknown"@);
    if class == "CommandNotFound"@ {
        &&& reported.code == ErrorCode::MethodNotFound
        &&& reported.message == "QMP command not found: "@ + command
    } else {
        &&& reported.code == ErrorCode::InvalidParams
        &&& reported.message == "QMP error ("@ + class + "): "@ + text_or(error, "desc"@, ""@)
    }
}

/// An execution that awaits the reply to a request ends with the result that the
/// reply brings, whatever the result is and whatever else the reply holds.
pub proof fn law_results_end_an_execution(
    command: Seq<char>,
    id: u64,
    line: Seq<char>,
    message: Json,
    value: Json,
)
    requires
        spells(line, message),
        replies_to(message, id),
        message.member("error"@) is None,
        message.member("return"@) == Some(value),
    ensures
        crate::exchange::execute_next(command, id, ExecuteView::Reading, EventView::Read(Ok(line)))
            == ExecuteView::Done(Ok(value)),
        crate::exchange::answer_in(Ok(line), command, id) == Some(Ok::<Json, ErrorView>(value)),
{
}

/// An execution that awaits the reply to a request ends with the error that the
/// reply brings, whatever else the reply holds.
pub proof fn law_errors_end_an_execution(
    command: Seq<char>,
    id: u64,
    line: Seq<char>,
    message: Json,
    error: Json,
    reported: ErrorView,
)
    requires
        spells(line, message),
        replies_to(message, id),
        message.member("error"@) == Some(error),
        reports(reported, error, command),
    ensures
        crate::exchange::execute_next(command, id, ExecuteView::Reading, EventView::Read(Ok(line)))
            == ExecuteView::Done(Err(reported)),
        crate::exchange::answer_in(Ok(line), command, id) == Some(Err::<Json, ErrorView>(reported)),
{
}

/// An execution that awaits a reply goes on waiting over a message that says nothing
/// of its request.
pub proof fn law_messages_beside_are_skipped(
    command: Seq<char>,
    id: u64,
    line: Seq<char>,
    message: Json,
)
    requires
        spells(line, message),
        is_beside(message, id),
    ensures
        crate::exchange::execute_next(command, id, ExecuteView::Reading, EventView::Read(Ok(line)))
            == ExecuteView::Reading,
        crate::exchange::answer_in(Ok(line), command, id) is None,
{
}

/// An execution that awaits a reply ends with the reason where it reads no message.
pub proof fn law_unreadable_lines_end_an_execution(
    command: Seq<char>,
    id: u64,
    read: Result<Seq<char>, Seq<char>>,
    error: ErrorView,
)
    requires
        is_unreadable(read, error),
    ensures
        crate::exchange::execute_next(command, id, ExecuteView::Reading, EventView::Read(read))
            == ExecuteView::Done(Err(error)),
        crate::exchange::answer_in(read, command, id) == Some(Err::<Json, ErrorView>(error)),
{
    law_unreadable_lines_are_errors(read, error);
}

/// A request that was sent is waited for, and one that could not be sent ends its
/// execution with the reason.
pub proof fn law_sent_requests_are_waited_for(command: Seq<char>, id: u64, reason: Seq<char>)
    ensures
        crate::exchange::execute_next(
            command,
            id,
            ExecuteView::Sending,
            EventView::Sent(Ok(())),
        ) == ExecuteView::Reading,
        crate::exchange::execute_next(
            command,
            id,
            ExecuteView::Sending,
            EventView::Sent(Err(reason)),
        ) == ExecuteView::Done(Err(failure("failed to send QMP command: "@ + reason))),
{
    reveal_strlit("failed to send QMP command: ");
    reveal_strlit("failed to send QMP command");
    reveal_strlit(": ");
    assert("failed to send QMP command"@ + ": "@ == "failed to send QMP command: "@);
}

/// An execution changes by nothing else: not by a read before the request is sent,
/// not by a send after it, and by nothing at all once it is done.
pub proof fn law_executions_take_only_what_they_await(
    command: Seq<char>,
    id: u64,
    state: ExecuteView,
    event: EventView,
)
    requires
        !(state is Sending && event is Sent),
        !(state is Reading && event is Read),
    ensures
        crate::exchange::execute_next(command, id, state, event) == state,
{
}

/// What is read of a message is whether it is an event, the number under its id, its
/// error with class and description where these are strings, and its result.
pub proof fn law_replies_are_read_by_their_members(message: Json)
    ensures
        ({
            let reply = crate::qmp::reply_of(message);
            &&& reply.event <==> message.member("event"@) is Some
            &&& reply.id == (match message.member("id"@) {
                Some(Json::Number(JsonNumber::Unsigned(n))) => Some(n),
                _ => None,
            })
            &&& reply.error is Some <==> message.member("error"@) is Some
            &&& message.member("error"@) matches Some(error) ==> {
                &&& reply.error->0.class == (match error.member("class"@) {
                    Some(Json::Text(text)) => Some(text),
                    _ => None,
                })
                &&& reply.error->0.desc == (match error.member("desc"@) {
                    Some(Json::Text(text)) => Some(text),
                    _ => None,
                })
            }
            &&& reply.returned == message.member("return"@)
        }),
{
}

/// What was read of a message decides what it says of the request `id`: the error
/// where there is one, else the result, and nothing where it is an event, under
/// another id, or neither.
pub proof fn law_replies_are_judged(reply: ReplyView, command: Seq<char>, id: u64)
    ensures
        ({
            let answer = crate::qmp::answer_of(reply, command, id);
            &&& reply.event ==> answer is None
            &&& reply.id != Some(id) ==> answer is None
            &&& reply.error is None && reply.returned is None ==> answer is None
            &&& !reply.event && reply.id == Some(id) ==> {
                &&& reply.error matches Some(fault) ==> answer == Some(
                    Err::<Json, ErrorView>(crate::qmp::refusal(fault, command)),
                )
                &&& reply.error is None && reply.returned is Some ==> answer == Some(
                    Ok::<Json, ErrorView>(reply.returned->0),
                )
            }
        }),
{
}

/// A refusal is told by the class and the description that QEMU gave, with `unknown`
/// and nothing where it gave none.
pub proof fn law_refusals_are_told(
    class: Option<Seq<char>>,
    desc: Option<Seq<char>>,
    command: Seq<char>,
)
    ensures
        ({
            let told = crate::qmp::refusal(FaultView { class, desc }, command);
            let about = match desc {
                Some(desc) => desc,
                None => Seq::<char>::empty(),
            };
            match class {
                Some(class) => if class == "CommandNotFound"@ {
                    told == (ErrorView {
                        code: ErrorCode::MethodNotFound,
                        message: "QMP command not found: "@ + command,
                    })
                } else {
                    told == (ErrorView {
                        code: ErrorCode::InvalidParams,
                        message: "QMP error ("@ + class + "): "@ + about,
                    })
                },
                None => told == (ErrorView {
                    code: ErrorCode::InvalidParams,
                    message: "QMP error (unknown): "@ + about,
                }),
            }
        }),
{
    reveal_strlit("CommandNotFound");
    reveal_strlit("unknown");
    reveal_strlit("");
    reveal_strlit("QMP error (");
    reveal_strlit("): ");
    reveal_strlit("QMP error (unknown): ");
    assert("CommandNotFound"@.len() != "unknown"@.len());
    assert(""@ == Seq::<char>::empty());
    assert("QMP error ("@ + "unknown"@ + "): "@ == "QMP error (unknown): "@);
}

// ---------------------------------------------------------------------------
// Errors
// ---------------------------------------------------------------------------

/// A socket that cannot be connected to is a failure whose message gives the device,
/// the path, the reason and the QEMU flag that creates the socket.
pub proof fn law_connect_failures_are_told(
    device: Seq<char>,
    flag: Seq<char>,
    path: Seq<char>,
    reason: Seq<char>,
)
    ensures
        crate::error::connect_failure(device, flag, path, reason) == failure(
            "failed to connect to "@ + device + " socket "@ + path + ": "@ + reason
                + "; launch QEMU with `"@ + flag + " unix:"@ + path + ",server,nowait`"@,
        ),
{
    reveal_strlit(",server,nowait");
    reveal_strlit("`");
    reveal_strlit(",server,nowait`");
    assert(",server,nowait"@ + "`"@ == ",server,nowait`"@);
    let head = "failed to connect to "@ + device + " socket "@ + path + ": "@ + reason
        + "; launch QEMU with `"@;
    assert(head + (flag + " unix:"@ + path + ",server,nowait"@) + "`"@ == head + flag + " unix:"@
        + path + (",server,nowait"@ + "`"@));
}

/// A failure of the server is an internal error that says just its message.
pub proof fn law_failures_are_internal(message: Seq<char>)
    ensures
        crate::error::internal(message) == failure(message),
{
}

// ---------------------------------------------------------------------------
// What contracts see
// ---------------------------------------------------------------------------

/// Contracts see a line and a reason as they stand, and an optional JSON value as
/// what it holds, a null value no less than any other.
pub proof fn law_reads_are_seen_as_they_are(line: String, value: Value)
    ensures
        crate::qmp::read_view(Ok(line)) == Ok::<Seq<char>, Seq<char>>(line@),
        crate::qmp::read_view(Err(line)) == Err::<Seq<char>, Seq<char>>(line@),
        crate::qmp::option_content(Some(value)) == Some(crate::json::json_content(value)),
        crate::qmp::option_content(None) is None,
        crate::text::option_text(Some(line)) == Some(line@),
        crate::text::option_text(None) is None,
{
}

/// Contracts see what was read of a message, and what it says of a request, as they
/// stand.
pub proof fn law_replies_are_seen_as_they_are(
    reply: Reply,
    fault: Fault,
    value: Value,
    error: ServerError,
)
    ensures
        reply@.event == reply.event,
        reply@.id == reply.id,
        reply.error is None ==> reply@.error is None,
        reply.error matches Some(found) ==> reply@.error == Some(found@),
        reply.returned is None ==> reply@.returned is None,
        reply.returned matches Some(found) ==> reply@.returned == Some(
            crate::json::json_content(found),
        ),
        fault.class is None ==> fault@.class is None,
        fault.class matches Some(text) ==> fault@.class == Some(text@),
        fault.desc is None ==> fault@.desc is None,
        fault.desc matches Some(text) ==> fault@.desc == Some(text@),
        error@ == (ErrorView { code: error.code, message: error.message@ }),
        crate::qmp::outcome_view(Ok(value)) == Ok::<Json, ErrorView>(
            crate::json::json_content(value),
        ),
        crate::qmp::outcome_view(Err(error)) == Err::<Json, ErrorView>(error@),
        crate::qmp::option_outcome_view(None) is None,
        crate::qmp::option_outcome_view(Some(Ok(value))) == Some(
            Ok::<Json, ErrorView>(crate::json::json_content(value)),
        ),
        crate::qmp::option_outcome_view(Some(Err(error))) == Some(Err::<Json, ErrorView>(error@)),
        crate::exchange::unit_outcome_view(Ok(())) == Ok::<(), ErrorView>(()),
        crate::exchange::unit_outcome_view(Err(error)) == Err::<(), ErrorView>(error@),
{
}

} // verus!
