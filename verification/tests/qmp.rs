use qemu_mcp_server::error::{ErrorCode, ServerError};
use qemu_mcp_server::exchange::{
    check_greeting, next_action, qmp_execute, qmp_negotiate, run_command, time_left, Action, Call,
    Event, ExecuteState, NegotiateState, RunState, DEFAULT_QMP_TIMEOUT_MS,
};
use qemu_mcp_server::qmp::{
    judge_reply, qmp_message_line, qmp_read_message, qmp_request, qmp_request_line, read_reply,
    Fault, Reply,
};
use serde_json::Value;
use std::io::{BufRead, Read};

fn parse(text: &str) -> Value {
    serde_json::from_str(text).unwrap()
}

/// One scripted fake-QEMU server action: either push an unsolicited event, or
/// read one request and answer with a canned response (the request's `id` is
/// filled in automatically).
enum Step {
    Event(Value),
    Respond(Value),
}

const GREETING: &str = "{\"QMP\": {\"version\": {\"qemu\": {\"micro\": 0, \"minor\": 0, \"major\": 0}, \"package\": \"fake\"}}, \"capabilities\": []}\n";

fn call(command: &str, arguments: Option<Value>) -> Call {
    Call {
        socket_path: "/tmp/test-sock".to_owned(),
        command: command.to_owned(),
        arguments,
        started: 7,
    }
}

/// What a round trip came to, with the lines that were sent and the number of
/// times that the connection was shut down.
struct Trace {
    outcome: Result<Value, ServerError>,
    sent: Vec<String>,
    shutdowns: usize,
}

/// Fake QEMU: greeting, then scripted steps, then the end of the stream.
fn serve(call: &Call, greeting: &str, steps: Vec<Step>) -> Trace {
    let mut state = RunState::Connecting;
    let mut sent: Vec<String> = Vec::new();
    let mut answered = 0;
    let mut shutdowns = 0;
    let mut steps = steps.into_iter();
    let mut greeting = Some(greeting.to_owned());
    loop {
        let event = match next_action(call, &state) {
            Action::Connect => Event::Connected(Ok(())),
            Action::Send(line) => {
                sent.push(line);
                Event::Sent(Ok(()))
            }
            Action::ReadLine => match greeting.take() {
                Some(line) => Event::Read(Ok(line)),
                None => match steps.next() {
                    Some(Step::Event(event)) => Event::Read(Ok(format!("{event}\n"))),
                    Some(Step::Respond(mut response)) => {
                        let request = parse(&sent[answered]);
                        answered += 1;
                        response["id"] = request["id"].clone();
                        Event::Read(Ok(format!("{response}\n")))
                    }
                    None => Event::Read(Ok(String::new())),
                },
            },
            Action::ShutDown => {
                shutdowns += 1;
                Event::ShutDown
            }
            Action::Finish => match state {
                RunState::Finished(outcome) => return Trace { outcome, sent, shutdowns },
                _ => panic!("nothing left to do before the end"),
            },
        };
        state = run_command(call, state, event);
    }
}

#[test]
fn request_without_arguments_omits_the_field() {
    assert_eq!(
        qmp_request("query-status", None, 7),
        parse("{ \"execute\": \"query-status\", \"id\": 7 }")
    );
}

#[test]
fn request_embeds_arguments() {
    let args = parse("{ \"device\": \"ide-cd0\" }");
    assert_eq!(
        qmp_request("eject", Some(&args), 1),
        parse("{ \"execute\": \"eject\", \"id\": 1, \"arguments\": { \"device\": \"ide-cd0\" } }")
    );
}

#[test]
fn request_line_is_compact_json_and_a_newline() {
    let args = parse("{ \"text\": \"a\\nb\" }");
    assert_eq!(
        qmp_request_line("type", Some(&args), 18446744073709551615),
        "{\"arguments\":{\"text\":\"a\\nb\"},\"execute\":\"type\",\"id\":18446744073709551615}\n"
    );
    assert_eq!(qmp_request_line("stop", None, 0), "{\"execute\":\"stop\",\"id\":0}\n");
}

/// Values that nest no deeper than is read, and that hold no floating point number.
fn portable_values() -> Vec<Value> {
    vec![
        Value::Null,
        Value::from(true),
        Value::from(0u64),
        Value::from(u64::MAX),
        Value::from(-1i64),
        Value::from(i64::MIN),
        Value::from(""),
        Value::from("a\nb\r\t\u{8}\u{c}\u{0}\u{1f}\u{7f}\"\\/\u{e9}\u{2028}\u{1f980}"),
        parse("[]"),
        parse("{}"),
        parse("{ \"\": [1, { \"z\\n\": null, \"a\": [false, -7] }], \"id\": 3 }"),
        parse(&("[".repeat(127) + &"]".repeat(127))),
        parse(&("{\"k\":".repeat(127) + "1" + &"}".repeat(127))),
    ]
}

#[test]
fn printed_messages_are_read_back() {
    for value in portable_values() {
        let line = qmp_message_line(&value);
        assert_eq!(line, format!("{value}\n"));
        assert_eq!(line.matches('\n').count(), 1);
        assert_eq!(qmp_read_message(Ok(line)).unwrap(), value);
    }
}

#[test]
fn deeper_messages_are_not_read_back() {
    let mut value = parse(&("[".repeat(127) + &"]".repeat(127)));
    value = Value::Array(vec![value]);
    let line = qmp_message_line(&value);
    assert_eq!(
        qmp_read_message(Ok(line)).unwrap_err().message,
        "malformed QMP message: recursion limit exceeded at line 1 column 128"
    );
}

#[test]
fn sent_requests_are_read_back() {
    let args = parse("{ \"device\": \"ide\\ncd0\" }");
    let line = qmp_request_line("eject", Some(&args), 9);
    assert_eq!(
        qmp_read_message(Ok(line)).unwrap(),
        qmp_request("eject", Some(&args), 9)
    );
}

#[test]
fn messages_on_a_stream_are_read_in_turn() {
    let values = portable_values();
    let mut stream: Vec<u8> = Vec::new();
    for value in &values {
        stream.extend_from_slice(qmp_message_line(value).as_bytes());
    }
    stream.extend_from_slice(&[0xff, b'\n', 0x00]);
    let mut reader = stream.as_slice();
    for value in &values {
        let mut line = String::new();
        reader.read_line(&mut line).unwrap();
        assert_eq!(qmp_read_message(Ok(line)).unwrap(), *value);
    }
    let mut rest: Vec<u8> = Vec::new();
    reader.read_to_end(&mut rest).unwrap();
    assert_eq!(rest, vec![0xff, b'\n', 0x00]);
}

#[test]
fn passthrough_roundtrip_with_negotiation() {
    let trace = serve(
        &call("query-status", None),
        GREETING,
        vec![
            Step::Respond(parse("{ \"return\": {} }")),
            Step::Respond(parse("{ \"return\": { \"running\": true, \"status\": \"running\" } }")),
        ],
    );
    assert_eq!(
        trace.outcome.unwrap(),
        parse("{ \"running\": true, \"status\": \"running\" }")
    );
    assert_eq!(
        trace.sent,
        vec![
            "{\"execute\":\"qmp_capabilities\",\"id\":0}\n".to_owned(),
            "{\"execute\":\"query-status\",\"id\":1}\n".to_owned(),
        ]
    );
    assert_eq!(trace.shutdowns, 1);
}

#[test]
fn asynchronous_events_are_skipped() {
    let trace = serve(
        &call("query-status", None),
        GREETING,
        vec![
            Step::Respond(parse("{ \"return\": {} }")),
            Step::Event(parse("{ \"event\": \"RESET\", \"data\": {} }")),
            Step::Respond(parse("{ \"return\": { \"status\": \"paused\" } }")),
        ],
    );
    assert_eq!(trace.outcome.unwrap(), parse("{ \"status\": \"paused\" }"));
}

#[test]
fn command_not_found_maps_to_method_not_found() {
    let trace = serve(
        &call("frobnicate", None),
        GREETING,
        vec![
            Step::Respond(parse("{ \"return\": {} }")),
            Step::Respond(parse(
                "{ \"error\": { \"class\": \"CommandNotFound\", \"desc\": \"The command frobnicate has not been found\" } }",
            )),
        ],
    );
    let err = trace.outcome.unwrap_err();
    assert_eq!(err.code, ErrorCode::MethodNotFound);
    assert!(err.message.contains("frobnicate"));
    assert_eq!(err.message, "QMP command not found: frobnicate");
    assert_eq!(trace.shutdowns, 1);
}

#[test]
fn qmp_error_maps_to_invalid_params() {
    let trace = serve(
        &call("eject", Some(parse("{ \"device\": \"ide-cd0\" }"))),
        GREETING,
        vec![
            Step::Respond(parse("{ \"return\": {} }")),
            Step::Respond(parse(
                "{ \"error\": { \"class\": \"DeviceNotFound\", \"desc\": \"Device 'ide-cd0' not found\" } }",
            )),
        ],
    );
    let err = trace.outcome.unwrap_err();
    assert_eq!(err.code, ErrorCode::InvalidParams);
    assert!(err.message.contains("DeviceNotFound"));
    assert!(err.message.contains("ide-cd0"));
    assert_eq!(err.message, "QMP error (DeviceNotFound): Device 'ide-cd0' not found");
    assert_eq!(
        trace.sent[1],
        "{\"arguments\":{\"device\":\"ide-cd0\"},\"execute\":\"eject\",\"id\":1}\n"
    );
}

#[test]
fn negotiate_rejects_a_bad_greeting() {
    let state = qmp_negotiate(
        NegotiateState::Greeting,
        Event::Read(Ok("{\"hello\": true}\n".to_owned())),
    );
    match state {
        NegotiateState::Done(Err(err)) => {
            assert!(err.message.contains("expected QMP greeting"));
            assert_eq!(err.message, "expected QMP greeting, got: {\"hello\":true}");
            assert_eq!(err.code, ErrorCode::InternalError);
        }
        _ => panic!("the greeting was taken"),
    }
    let trace = serve(&call("stop", None), "{\"hello\": true}\n", Vec::new());
    assert!(trace.outcome.unwrap_err().message.contains("expected QMP greeting"));
    assert!(trace.sent.is_empty());
    assert_eq!(trace.shutdowns, 1);
}

#[test]
fn greeting_needs_the_member_and_no_more() {
    assert!(check_greeting(&parse("{ \"QMP\": null }")).is_ok());
    assert!(check_greeting(&parse("[ \"QMP\" ]")).is_err());
}

#[test]
fn responses_to_other_requests_are_skipped() {
    let lines = [
        "{\"return\": 1, \"id\": 4}\n",
        "{\"return\": 2}\n",
        "{\"return\": 3, \"id\": \"5\"}\n",
        "{\"return\": 4, \"id\": 5.0}\n",
        "{\"return\": 5, \"id\": -5}\n",
        "{\"event\": \"STOP\", \"return\": 6, \"id\": 5}\n",
        "{\"id\": 5}\n",
        "[5]\n",
    ];
    let mut state = qmp_execute("stop", 5, ExecuteState::Sending, Event::Sent(Ok(())));
    for line in lines {
        state = qmp_execute("stop", 5, state, Event::Read(Ok(line.to_owned())));
        assert!(matches!(state, ExecuteState::Reading));
    }
    state = qmp_execute("stop", 5, state, Event::Read(Ok("{\"return\": 7, \"id\": 5}\n".to_owned())));
    match state {
        ExecuteState::Done(Ok(value)) => assert_eq!(value, parse("7")),
        _ => panic!("the response was not taken"),
    }
}

#[test]
fn first_answer_stays() {
    let done = qmp_execute(
        "stop",
        5,
        ExecuteState::Reading,
        Event::Read(Ok("{\"return\": 7, \"id\": 5}\n".to_owned())),
    );
    let later = qmp_execute(
        "stop",
        5,
        done,
        Event::Read(Ok("{\"return\": 8, \"id\": 5}\n".to_owned())),
    );
    match later {
        ExecuteState::Done(Ok(value)) => assert_eq!(value, parse("7")),
        _ => panic!("the first response was dropped"),
    }
}

#[test]
fn errors_without_details_have_defaults() {
    let reply = read_reply(&parse("{ \"id\": 1, \"error\": null, \"return\": {} }"));
    let err = judge_reply(reply, "stop", 1).unwrap().unwrap_err();
    assert_eq!(err.code, ErrorCode::InvalidParams);
    assert_eq!(err.message, "QMP error (unknown): ");
}

#[test]
fn reply_is_read_member_by_member() {
    let reply = read_reply(&parse(
        "{ \"id\": 3, \"error\": { \"class\": \"GenericError\", \"desc\": 4 }, \"return\": [1] }",
    ));
    assert!(!reply.event);
    assert_eq!(reply.id, Some(3));
    let fault = reply.error.unwrap();
    assert_eq!(fault.class, Some("GenericError".to_owned()));
    assert_eq!(fault.desc, None);
    assert_eq!(reply.returned, Some(parse("[1]")));
}

#[test]
fn error_goes_before_result() {
    let reply = Reply {
        event: false,
        id: Some(1),
        error: Some(Fault { class: Some("X".to_owned()), desc: Some("y".to_owned()) }),
        returned: Some(parse("1")),
    };
    let err = judge_reply(reply, "stop", 1).unwrap().unwrap_err();
    assert_eq!(err.message, "QMP error (X): y");
}

#[test]
fn reading_fails_in_three_ways() {
    let err = qmp_read_message(Err("reset by peer".to_owned())).unwrap_err();
    assert_eq!(err.message, "QMP connection error: reset by peer");
    let err = qmp_read_message(Ok(String::new())).unwrap_err();
    assert_eq!(err.message, "QMP connection closed by QEMU");
    let err = qmp_read_message(Ok("{oops}\n".to_owned())).unwrap_err();
    assert_eq!(
        err.message,
        "malformed QMP message: key must be a string at line 1 column 2"
    );
    assert_eq!(err.code, ErrorCode::InternalError);
}

#[test]
fn closed_connection_ends_the_round_trip() {
    let trace = serve(&call("stop", None), GREETING, Vec::new());
    assert_eq!(trace.outcome.unwrap_err().message, "QMP connection closed by QEMU");
    assert_eq!(trace.shutdowns, 1);
}

#[test]
fn failed_send_ends_the_round_trip() {
    let call = call("stop", None);
    let state = RunState::Executing(ExecuteState::Sending);
    let state = run_command(&call, state, Event::Sent(Err("broken pipe".to_owned())));
    assert!(matches!(next_action(&call, &state), Action::ShutDown));
    match run_command(&call, state, Event::ShutDown) {
        RunState::Finished(Err(err)) => {
            assert_eq!(err.message, "failed to send QMP command: broken pipe")
        }
        _ => panic!("the round trip went on"),
    }
}

#[test]
fn failed_connection_names_the_flag() {
    let call = call("stop", None);
    let state = run_command(
        &call,
        RunState::Connecting,
        Event::Connected(Err("no such file".to_owned())),
    );
    match state {
        RunState::Finished(Err(err)) => assert_eq!(
            err.message,
            "failed to connect to QMP socket /tmp/test-sock: no such file; launch QEMU with `-qmp unix:/tmp/test-sock,server,nowait`"
        ),
        _ => panic!("the round trip went on"),
    }
}

#[test]
fn silent_qemu_times_out() {
    assert_eq!(DEFAULT_QMP_TIMEOUT_MS, 30_000);
    let call = call("stop", None);
    let early = 30_000_000_006;
    let late = 30_000_000_007;
    assert_eq!(time_left(&call, 7), Some(30_000_000_000));
    assert_eq!(time_left(&call, early), Some(1));
    assert_eq!(time_left(&call, late), None);

    let expected = "timed out waiting for QEMU on QMP socket /tmp/test-sock; its process may be paused, the VM overloaded or its monitor stuck";
    match run_command(&call, RunState::Connecting, Event::Clock(late)) {
        RunState::Finished(Err(err)) => assert_eq!(err.message, expected),
        _ => panic!("a connection that was never made is to be shut down"),
    }
    let state = run_command(&call, RunState::Connecting, Event::Connected(Ok(())));
    let state = run_command(&call, state, Event::Clock(early));
    assert!(matches!(next_action(&call, &state), Action::ReadLine));
    let state = run_command(&call, state, Event::Clock(late));
    assert!(matches!(next_action(&call, &state), Action::ShutDown));
    let state = run_command(&call, state, Event::Clock(u64::MAX));
    match run_command(&call, state, Event::ShutDown) {
        RunState::Finished(Err(err)) => assert_eq!(err.message, expected),
        _ => panic!("the round trip went on"),
    }
}

#[test]
fn known_outcome_outlasts_the_deadline() {
    let call = call("stop", None);
    let line = "{\"return\": 7, \"id\": 1}\n".to_owned();
    let state = RunState::Executing(ExecuteState::Reading);
    let state = run_command(&call, state, Event::Read(Ok(line)));
    let state = run_command(&call, state, Event::Clock(u64::MAX));
    match run_command(&call, state, Event::ShutDown) {
        RunState::Finished(Ok(value)) => assert_eq!(value, parse("7")),
        _ => panic!("the outcome was lost"),
    }
}

#[test]
fn noise_anywhere_after_the_greeting_is_skipped() {
    let event = || Step::Event(parse("{ \"event\": \"STOP\", \"id\": 1, \"return\": 5 }"));
    let other = || Step::Event(parse("{ \"id\": 9, \"error\": {} }"));
    let trace = serve(
        &call("query-status", None),
        GREETING,
        vec![
            event(),
            other(),
            Step::Respond(parse("{ \"return\": {} }")),
            other(),
            event(),
            Step::Respond(parse("{ \"return\": 3 }")),
            event(),
        ],
    );
    assert_eq!(trace.outcome.unwrap(), parse("3"));
    assert_eq!(trace.sent.len(), 2);
    assert_eq!(trace.shutdowns, 1);
}

#[test]
fn events_out_of_turn_change_nothing() {
    let call = call("stop", None);
    let state = run_command(&call, RunState::Connecting, Event::ShutDown);
    assert!(matches!(state, RunState::Connecting));
    let state = qmp_execute("stop", 1, ExecuteState::Sending, Event::Read(Ok("{}".to_owned())));
    assert!(matches!(state, ExecuteState::Sending));
}
