//! The messages of the QEMU Machine Protocol: requests, replies, and what a
//! reply says of a request.
use serde_json::Value;
use vstd::prelude::*;
use vstd::string::*;

use crate::error::{ErrorCode, ErrorView, ServerError};
use crate::json::{Json, JsonNumber};

verus! {

// ---------------------------------------------------------------------------
// Requests
// ---------------------------------------------------------------------------

/// What an optional JSON value holds.
pub open spec fn option_content(value: Option<Value>) -> Option<Json> {
    match value {
        Some(value) => Some(crate::json::json_content(value)),
        None => None,
    }
}

/// The wire request for one QMP command.
pub open spec fn request_of(command: Seq<char>, arguments: Option<Json>, id: u64) -> Json {
    let bare = Map::<Seq<char>, Json>::empty().insert("execute"@, Json::Text(command)).insert(
        "id"@,
        Json::Number(JsonNumber::Unsigned(id)),
    );
    match arguments {
        Some(arguments) => Json::Object(bare.insert("arguments"@, arguments)),
        None => Json::Object(bare),
    }
}

/// Build the JSON wire request for one QMP command.
pub fn qmp_request(command: &str, arguments: Option<&Value>, id: u64) -> (request: Value)
    ensures
        crate::json::json_content(request) == request_of(
            command@,
            match arguments {
                Some(arguments) => Some(crate::json::json_content(*arguments)),
                None => None,
            },
            id,
        ),
{
    let mut request = crate::json::json_empty_object();
    crate::json::json_set(&mut request, "execute", crate::json::json_from_text(command));
    crate::json::json_set(&mut request, "id", crate::json::json_from_u64(id));
    if let Some(arguments) = arguments {
        crate::json::json_set(&mut request, "arguments", crate::json::json_clone(arguments));
    }
    request
}

/// `line` is a single line: it ends with its only newline.
pub open spec fn is_one_line(line: Seq<char>) -> bool {
    &&& line.len() > 0
    &&& line.last() == '\n'
    &&& !line.drop_last().contains('\n')
}

/// `line` is a single line, and what is read from it is `message`.
pub open spec fn carries(line: Seq<char>, message: Json) -> bool {
    &&& is_one_line(line)
    &&& message_of(Ok(line)) == Ok::<Json, ErrorView>(message)
}

/// A message as it goes over the socket: its compact text and a newline.
pub open spec fn message_line_of(message: Json) -> Seq<char> {
    crate::json::json_text(message) + "\n"@
}

/// The line for a message. Where the message is portable, it is what
/// [`qmp_read_message`] reads from the line.
pub fn qmp_message_line(message: &Value) -> (line: String)
    ensures
        line@ == message_line_of(crate::json::json_content(*message)),
        is_one_line(line@),
        crate::json::json_content(*message).is_portable() ==> carries(
            line@,
            crate::json::json_content(*message),
        ),
{
    let text = crate::json::json_to_string(message);
    let line = text.concat("\n");
    proof {
        reveal_strlit("\n");
        assert(line@.drop_last() == text@);
    }
    line
}

/// A request as it goes over the socket.
pub open spec fn request_line_of(
    command: Seq<char>,
    arguments: Option<Json>,
    id: u64,
) -> Seq<char> {
    message_line_of(request_of(command, arguments, id))
}

/// A request nests one level deeper than its arguments.
proof fn lemma_request_is_portable(command: Seq<char>, arguments: Option<Json>, id: u64)
    requires
        arguments matches Some(arguments) ==> arguments.is_exact_within(126),
    ensures
        request_of(command, arguments, id).is_portable(),
{
    let members = request_of(command, arguments, id)->Object_0;
    assert forall|key: Seq<char>| members.contains_key(key) implies (
    #[trigger] members[key]).is_exact_within(126) by {}
}

/// The line that asks QEMU to execute one command. Where its arguments leave the
/// request portable, the request is what is read from the line.
pub fn qmp_request_line(command: &str, arguments: Option<&Value>, id: u64) -> (line: String)
    ensures
        ({
            let arguments = match arguments {
                Some(arguments) => Some(crate::json::json_content(*arguments)),
                None => None,
            };
            &&& line@ == request_line_of(command@, arguments, id)
            &&& is_one_line(line@)
            &&& (arguments matches Some(arguments) ==> arguments.is_exact_within(126)) ==> carries(
                line@,
                request_of(command@, arguments, id),
            )
        }),
{
    let request = qmp_request(command, arguments, id);
    proof {
        let arguments = match arguments {
            Some(arguments) => Some(crate::json::json_content(*arguments)),
            None => None,
        };
        if arguments matches Some(arguments) ==> arguments.is_exact_within(126) {
            lemma_request_is_portable(command@, arguments, id);
        }
    }
    qmp_message_line(&request)
}

// ---------------------------------------------------------------------------
// Replies
// ---------------------------------------------------------------------------

/// The error member of a QMP message.
pub struct Fault {
    pub class: Option<String>,
    pub desc: Option<String>,
}

/// What is read of a QMP message.
pub struct Reply {
    /// Whether it is an asynchronous event.
    pub event: bool,
    /// The request that it answers.
    pub id: Option<u64>,
    pub error: Option<Fault>,
    pub returned: Option<Value>,
}

pub struct FaultView {
    pub class: Option<Seq<char>>,
    pub desc: Option<Seq<char>>,
}

pub struct ReplyView {
    pub event: bool,
    pub id: Option<u64>,
    pub error: Option<FaultView>,
    pub returned: Option<Json>,
}

impl View for Fault {
    type V = FaultView;

    open spec fn view(&self) -> FaultView {
        FaultView {
            class: crate::text::option_text(self.class),
            desc: crate::text::option_text(self.desc),
        }
    }
}

impl View for Reply {
    type V = ReplyView;

    open spec fn view(&self) -> ReplyView {
        ReplyView {
            event: self.event,
            id: self.id,
            error: match self.error {
                Some(fault) => Some(fault@),
                None => None,
            },
            returned: option_content(self.returned),
        }
    }
}

/// The member of `json` under `key`, where that is a string.
pub open spec fn text_member(json: Json, key: Seq<char>) -> Option<Seq<char>> {
    match json.member(key) {
        Some(member) => member.as_str(),
        None => None,
    }
}

/// What is read of a message.
pub open spec fn reply_of(message: Json) -> ReplyView {
    ReplyView {
        event: message.member("event"@) is Some,
        id: match message.member("id"@) {
            Some(id) => id.as_u64(),
            None => None,
        },
        error: match message.member("error"@) {
            Some(error) => Some(
                FaultView {
                    class: text_member(error, "class"@),
                    desc: text_member(error, "desc"@),
                },
            ),
            None => None,
        },
        returned: message.member("return"@),
    }
}

fn read_text_member(value: &Value, key: &str) -> (text: Option<String>)
    ensures
        crate::text::option_text(text) == text_member(crate::json::json_content(*value), key@),
{
    match crate::json::json_get(value, key) {
        Some(member) => match crate::json::json_as_str(member) {
            Some(text) => Some(text.to_owned()),
            None => None,
        },
        None => None,
    }
}

/// Read the members of a message that decide what it means.
pub fn read_reply(message: &Value) -> (reply: Reply)
    ensures
        reply@ == reply_of(crate::json::json_content(*message)),
{
    let event = crate::json::json_get(message, "event").is_some();
    let id = match crate::json::json_get(message, "id") {
        Some(id) => crate::json::json_as_u64(id),
        None => None,
    };
    let error = match crate::json::json_get(message, "error") {
        Some(error) => Some(
            Fault {
                class: read_text_member(error, "class"),
                desc: read_text_member(error, "desc"),
            },
        ),
        None => None,
    };
    let returned = match crate::json::json_get(message, "return") {
        Some(value) => Some(crate::json::json_clone(value)),
        None => None,
    };
    Reply { event, id, error, returned }
}

/// The error that a command ends with where QEMU refuses it.
pub open spec fn refusal(fault: FaultView, command: Seq<char>) -> ErrorView {
    let class = match fault.class {
        Some(class) => class,
        None => "unknown"@,
    };
    let desc = match fault.desc {
        Some(desc) => desc,
        None => ""@,
    };
    if class == "CommandNotFound"@ {
        ErrorView {
            code: ErrorCode::MethodNotFound,
            message: "QMP command not found: "@ + command,
        }
    } else {
        ErrorView {
            code: ErrorCode::InvalidParams,
            message: "QMP error ("@ + class + "): "@ + desc,
        }
    }
}

/// What a message says of the request `id` for `command`. An event, a reply to
/// another request, and a reply with neither an error nor a result say nothing.
pub open spec fn answer_of(reply: ReplyView, command: Seq<char>, id: u64) -> Option<
    Result<Json, ErrorView>,
> {
    if reply.event || reply.id != Some(id) {
        None
    } else {
        match (reply.error, reply.returned) {
            (Some(fault), _) => Some(Err(refusal(fault, command))),
            (None, Some(value)) => Some(Ok(value)),
            (None, None) => None,
        }
    }
}

/// What the outcome of a command holds.
pub open spec fn outcome_view(outcome: Result<Value, ServerError>) -> Result<Json, ErrorView> {
    match outcome {
        Ok(value) => Ok(crate::json::json_content(value)),
        Err(error) => Err(error@),
    }
}

pub open spec fn option_outcome_view(answer: Option<Result<Value, ServerError>>) -> Option<
    Result<Json, ErrorView>,
> {
    match answer {
        Some(outcome) => Some(outcome_view(outcome)),
        None => None,
    }
}

/// The error for a refused command.
pub fn refuse(fault: Fault, command: &str) -> (error: ServerError)
    ensures
        error@ == refusal(fault@, command@),
{
    let class = match fault.class {
        Some(class) => class,
        None => "unknown".to_owned(),
    };
    let desc = match fault.desc {
        Some(desc) => desc,
        None => "".to_owned(),
    };
    if class == "CommandNotFound".to_owned() {
        ServerError {
            code: ErrorCode::MethodNotFound,
            message: "QMP command not found: ".to_owned().concat(command),
        }
    } else {
        ServerError {
            code: ErrorCode::InvalidParams,
            message: "QMP error (".to_owned().concat(class.as_str()).concat("): ").concat(
                desc.as_str(),
            ),
        }
    }
}

/// Decide what a message says of the request `id` for `command`.
pub fn judge_reply(reply: Reply, command: &str, id: u64) -> (answer: Option<
    Result<Value, ServerError>,
>)
    ensures
        option_outcome_view(answer) == answer_of(reply@, command@, id),
{
    if reply.event {
        return None;
    }
    match reply.id {
        Some(found) => {
            if found != id {
                return None;
            }
        },
        None => {
            return None;
        },
    }
    match reply.error {
        Some(fault) => Some(Err(refuse(fault, command))),
        None => match reply.returned {
            Some(value) => Some(Ok(value)),
            None => None,
        },
    }
}

// ---------------------------------------------------------------------------
// Reading one message
// ---------------------------------------------------------------------------

/// What reading a line came to: the line, empty at the end of the stream, or
/// the reason why it failed.
pub open spec fn read_view(read: Result<String, String>) -> Result<Seq<char>, Seq<char>> {
    match read {
        Ok(line) => Ok(line@),
        Err(reason) => Err(reason@),
    }
}

/// The message that was read, or the error that ends the exchange.
pub open spec fn message_of(read: Result<Seq<char>, Seq<char>>) -> Result<Json, ErrorView> {
    match read {
        Err(reason) => Err(crate::error::internal("QMP connection error"@ + ": "@ + reason)),
        Ok(line) => if line.len() == 0 {
            Err(crate::error::internal("QMP connection closed by QEMU"@))
        } else {
            match crate::json::parsed_json(line) {
                Ok(message) => Ok(message),
                Err(reason) => Err(
                    crate::error::internal("malformed QMP message"@ + ": "@ + reason),
                ),
            }
        },
    }
}

/// Parse a line that was read from the QMP socket as JSON.
pub fn qmp_read_message(read: Result<String, String>) -> (message: Result<Value, ServerError>)
    ensures
        outcome_view(message) == message_of(read_view(read)),
        match (read, message) {
            (Ok(line), Ok(value)) => line@.len() > 0 && crate::json::parsed_json(line@) == Ok::<
                Json,
                Seq<char>,
            >(crate::json::json_content(value)),
            (Ok(line), Err(_)) => line@.len() == 0 || crate::json::parsed_json(line@) is Err,
            (Err(_), _) => message is Err,
        },
{
    match read {
        Err(reason) => Err(ServerError::caused("QMP connection error", reason.as_str())),
        Ok(line) => {
            if line.as_str().is_empty() {
                return Err(
                    ServerError::internal_error("QMP connection closed by QEMU".to_owned()),
                );
            }
            match crate::json::json_from_str(line.as_str()) {
                Ok(message) => Ok(message),
                Err(reason) => Err(
                    ServerError::caused("malformed QMP message", reason.as_str()),
                ),
            }
        },
    }
}

} // verus!
