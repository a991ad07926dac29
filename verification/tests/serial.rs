use qemu_mcp_server::console::{
    ConnectAction, ConnectEvent, ReadAction, ReadEvent, ReadState, SerialRead, WriteAction,
    WriteEvent, WriteState,
};
use qemu_mcp_server::error::ServerError;
use qemu_mcp_server::serial::{select_output, SerialState, SERIAL_BUFFER_LIMIT};
use qemu_mcp_server::text::text_tail;
use qemu_mcp_server::{QMPSocket, SerialReadRequest, SerialWriteRequest};

/// The write half of a connection to the fake guest: what was written to it.
type Written = Vec<u8>;

fn server() -> QMPSocket {
    QMPSocket::new(Some("/tmp/q".to_owned()), Some("/tmp/s".to_owned()))
}

fn serial_read_request(wait_for: Option<&str>) -> SerialReadRequest {
    SerialReadRequest {
        wait_for: wait_for.map(str::to_owned),
        timeout_ms: Some(2000),
        max_chars: None,
        clear: None,
    }
}

/// Connect to the fake guest unless connected; returns whether that was needed.
fn connect(server: &QMPSocket, serial: &mut SerialState<Written>) -> bool {
    match server.ensure_serial_connected(ConnectEvent::Requested, serial) {
        ConnectAction::Done(outcome) => {
            outcome.unwrap();
            false
        }
        ConnectAction::Open => {
            let action = server.ensure_serial_connected(ConnectEvent::Opened(Vec::new()), serial);
            assert!(matches!(action, ConnectAction::StartReader));
            true
        }
        ConnectAction::StartReader => panic!("there is no connection to read from"),
    }
}

/// Read, with a guest that prints one of `chunks` whenever it is given time, and
/// ends the connection after the last. Every sleep takes its time on the clock.
fn read(
    server: &QMPSocket,
    serial: &mut SerialState<Written>,
    request: SerialReadRequest,
    chunks: Vec<&[u8]>,
) -> (Result<String, ServerError>, u64) {
    let read: SerialRead = request.resolve();
    let mut state = ReadState::Starting;
    let mut chunks = chunks.into_iter();
    let mut now: u64 = 17;
    let mut slept: u64 = 0;
    loop {
        let event = match state.action() {
            ReadAction::Inspect => ReadEvent::Inspected,
            ReadAction::Connect => {
                assert!(connect(server, serial));
                ReadEvent::Connected(Ok(()))
            }
            ReadAction::ReadClock => ReadEvent::Clock(now),
            ReadAction::Sleep(ms) => {
                assert_eq!(ms, 50);
                now += ms * 1_000_000;
                slept += ms;
                match chunks.next() {
                    Some(chunk) => assert!(serial.read_chunk(Some(chunk))),
                    None => assert!(!serial.read_chunk(None)),
                }
                ReadEvent::Woke
            }
            ReadAction::Finish => match state {
                ReadState::Done(outcome) => return (outcome, slept),
                _ => panic!("nothing left to do before the end"),
            },
        };
        state = server.read_serial(&read, state, event, serial);
    }
}

fn write(
    server: &QMPSocket,
    serial: &mut SerialState<Written>,
    request: SerialWriteRequest,
) -> Result<String, ServerError> {
    let mut state = WriteState::Connecting;
    loop {
        let event = match state.action(&request) {
            WriteAction::Connect => {
                connect(server, serial);
                WriteEvent::Connected(Ok(()))
            }
            WriteAction::Inspect => WriteEvent::Inspected,
            WriteAction::Write(bytes) => {
                serial.writer().unwrap().extend(bytes);
                WriteEvent::Written(Ok(()))
            }
            WriteAction::Finish => match state {
                WriteState::Done(outcome) => return outcome,
                _ => panic!("nothing left to do before the end"),
            },
        };
        state = server.write_serial(state, event, serial);
    }
}

#[test]
fn serial_output_is_buffered_and_writable() {
    let server = server();
    let mut serial: SerialState<Written> = SerialState::new();

    let (result, _) = read(
        &server,
        &mut serial,
        serial_read_request(Some("Boot OK")),
        vec![b"Booting ESP32...\nBoot OK\n"],
    );
    let text = result.unwrap();
    assert!(text.contains("Booting ESP32..."));
    assert!(text.contains("Boot OK"));

    let request = SerialWriteRequest { data: "help".to_owned(), newline: None };
    assert_eq!(write(&server, &mut serial, request).unwrap(), "ok");
    assert_eq!(serial.writer().unwrap().as_slice(), b"help\n");

    let (result, _) = read(
        &server,
        &mut serial,
        serial_read_request(Some("echo: hi")),
        vec![b"echo: hi\n"],
    );
    assert!(result.unwrap().contains("echo: hi"));
}

#[test]
fn serial_read_times_out_without_a_match() {
    let server = server();
    let mut serial: SerialState<Written> = SerialState::new();
    let (result, slept) = read(
        &server,
        &mut serial,
        serial_read_request(Some("never printed")),
        vec![b"nothing relevant\n"],
    );
    let err = result.unwrap_err();
    assert!(err.message.contains("timed out"));
    assert_eq!(
        err.message,
        "timed out waiting for serial output containing Some(\"never printed\"); call again without `wait_for` to see the raw buffer"
    );
    assert_eq!(slept, 2000);

    // The connection is gone, and the buffer is served without a new one.
    assert!(!serial.is_connected());
    let (result, slept) = read(&server, &mut serial, serial_read_request(None), Vec::new());
    assert_eq!(result.unwrap(), "nothing relevant\n");
    assert_eq!(slept, 0);
    assert!(!serial.is_connected());
}

#[test]
fn serial_clear_drops_the_buffer() {
    let server = server();
    let mut serial: SerialState<Written> = SerialState::new();
    let mut request = serial_read_request(Some("one two"));
    request.clear = Some(true);
    let (result, _) = read(&server, &mut serial, request, vec![b"one two\n"]);
    assert_eq!(result.unwrap(), "one two\n");

    let (result, _) = read(&server, &mut serial, serial_read_request(None), Vec::new());
    assert_eq!(result.unwrap(), "");
}

#[test]
fn read_of_no_characters_returns_none() {
    let server = server();
    let mut serial: SerialState<Written> = SerialState::default();
    assert!(serial.read_chunk(Some(b"abc")));
    let request = SerialReadRequest {
        wait_for: None,
        timeout_ms: None,
        max_chars: Some(0),
        clear: None,
    };
    let (result, _) = read(&server, &mut serial, request, Vec::new());
    assert_eq!(result.unwrap(), "");
    let mut request = serial_read_request(None);
    request.max_chars = Some(1);
    let (result, _) = read(&server, &mut serial, request, Vec::new());
    assert_eq!(result.unwrap(), "c");
}

#[test]
fn missed_read_discards_nothing() {
    let mut serial: SerialState<Written> = SerialState::new();
    assert!(serial.read_chunk(Some(b"abc")));
    assert_eq!(serial.take_serial_output(Some("x"), 10, true), None);
    assert_eq!(serial.take_serial_output(Some("bc"), 10, false), Some("abc".to_owned()));
    assert_eq!(serial.take_serial_output(Some("bc"), 2, true), Some("bc".to_owned()));
    assert_eq!(serial.take_serial_output(None, 10, false), Some(String::new()));
}

#[test]
fn output_is_lossy_text() {
    let mut serial: SerialState<Written> = SerialState::new();
    assert!(serial.read_chunk(Some(&[0x61, 0xff, 0x62])));
    assert_eq!(serial.take_serial_output(None, 10, false), Some("a\u{fffd}b".to_owned()));
    // The cap counts the bytes of the text, not those of the buffer.
    assert_eq!(serial.take_serial_output(None, 3, false), Some("b".to_owned()));
}

#[test]
fn output_is_the_end_of_the_text() {
    let mut serial: SerialState<Written> = SerialState::new();
    let mut text = String::new();
    for i in 0..1000 {
        text.push_str(&format!("{i:05}\n"));
    }
    assert!(serial.read_chunk(Some(text.as_bytes())));
    let read = serial_read_request(None).resolve();
    assert_eq!(read.max_chars, 4000);
    let output = serial.take_serial_output(None, read.max_chars, false).unwrap();
    assert_eq!(output, text[2000..]);
}

#[test]
fn tail_starts_at_a_character() {
    assert_eq!(text_tail("a\u{e9}b", 4), "a\u{e9}b");
    assert_eq!(text_tail("a\u{e9}b", 3), "\u{e9}b");
    assert_eq!(text_tail("a\u{e9}b", 2), "b");
    assert_eq!(text_tail("a\u{e9}b", 0), "");
    assert_eq!(text_tail("\u{1f600}", 3), "");
    assert_eq!(text_tail("", 3), "");
}

#[test]
fn wait_for_gates_the_output() {
    assert_eq!(select_output("login: ", Some("login:"), 100), Some("login: ".to_owned()));
    assert_eq!(select_output("login: ", Some("password"), 100), None);
    assert_eq!(select_output("login: ", Some(""), 100), Some("login: ".to_owned()));
    assert_eq!(select_output("login: ", Some("login"), 1), Some(" ".to_owned()));
    assert_eq!(select_output("", None, 1), Some(String::new()));
}

#[test]
fn buffer_keeps_the_newest_bytes() {
    let mut serial: SerialState<Written> = SerialState::new();
    let old = vec![b'o'; SERIAL_BUFFER_LIMIT];
    assert!(serial.read_chunk(Some(&old)));
    assert!(serial.read_chunk(Some(b"new")));
    let output = serial.take_serial_output(None, usize::MAX, false).unwrap();
    assert_eq!(output.len(), SERIAL_BUFFER_LIMIT);
    assert_eq!(SERIAL_BUFFER_LIMIT, 262144);
    assert!(output.ends_with("ooonew"));

    let mut whole: SerialState<Written> = SerialState::new();
    let mut bytes = old.clone();
    bytes.extend(b"new");
    assert!(whole.read_chunk(Some(&bytes)));
    assert_eq!(whole.take_serial_output(None, usize::MAX, false).unwrap(), output);
}

#[test]
fn end_of_stream_and_failure_end_the_connection() {
    let server = server();
    let mut serial: SerialState<Written> = SerialState::new();
    assert!(serial.is_idle());
    assert!(connect(&server, &mut serial));
    assert!(!serial.is_idle());
    assert!(serial.writer().is_some());
    assert!(!serial.read_chunk(Some(&[])));
    assert!(!serial.is_connected());
    assert!(serial.writer().is_none());
    assert!(connect(&server, &mut serial));
    assert!(!connect(&server, &mut serial));
    assert!(!serial.read_chunk(None));
    assert!(!serial.is_connected());
}

#[test]
fn refused_connection_names_the_flag() {
    let server = server();
    let mut serial: SerialState<Written> = SerialState::new();
    let action =
        server.ensure_serial_connected(ConnectEvent::Refused("refused".to_owned()), &mut serial);
    let expected = "failed to connect to serial socket /tmp/s: refused; launch QEMU with `-serial unix:/tmp/s,server,nowait`";
    let error = match action {
        ConnectAction::Done(Err(error)) => error,
        _ => panic!("the connection was refused"),
    };
    assert_eq!(error.message, expected);
    assert!(!serial.is_connected());

    let read = serial_read_request(None).resolve();
    let state =
        server.read_serial(&read, ReadState::Connecting, ReadEvent::Connected(Err(error)), &mut serial);
    match state {
        ReadState::Done(Err(error)) => assert_eq!(error.message, expected),
        _ => panic!("the read went on"),
    }
}

#[test]
fn write_reports_what_went_wrong() {
    let server = server();
    let serial: SerialState<Written> = SerialState::new();
    match server.write_serial(WriteState::Checking, WriteEvent::Inspected, &serial) {
        WriteState::Done(Err(error)) => {
            assert_eq!(error.message, "serial connection lost, retry the call")
        }
        _ => panic!("there is nothing to write to"),
    }
    let event = WriteEvent::Written(Err("broken pipe".to_owned()));
    match server.write_serial(WriteState::Writing, event, &serial) {
        WriteState::Done(Err(error)) => {
            assert_eq!(error.message, "failed to write to serial socket: broken pipe")
        }
        _ => panic!("the write failed"),
    }
}

#[test]
fn write_sends_the_typed_bytes() {
    let request = SerialWriteRequest { data: "reboot".to_owned(), newline: None };
    match WriteState::Writing.action(&request) {
        WriteAction::Write(bytes) => assert_eq!(bytes, b"reboot\n"),
        _ => panic!("nothing is sent"),
    }
    assert!(matches!(WriteState::Connecting.action(&request), WriteAction::Connect));
    assert!(matches!(WriteState::Checking.action(&request), WriteAction::Inspect));
}

#[test]
fn newline_is_appended_unless_declined() {
    let payload = |data: &str, newline: Option<bool>| {
        SerialWriteRequest { data: data.to_owned(), newline }.payload()
    };
    assert_eq!(payload("ls", None), b"ls\n");
    assert_eq!(payload("ls", Some(true)), b"ls\n");
    assert_eq!(payload("ls", Some(false)), b"ls");
    assert_eq!(payload("", None), b"\n");
    assert_eq!(payload("\u{e9}", None), [0xc3, 0xa9, 0x0a]);
}

#[test]
fn read_parameters_have_defaults() {
    let request =
        SerialReadRequest { wait_for: None, timeout_ms: None, max_chars: None, clear: None };
    let read = request.resolve();
    assert_eq!(read.wait_for, None);
    assert_eq!(read.timeout_ms, 5000);
    assert_eq!(read.max_chars, 4000);
    assert!(!read.clear);
    let request = SerialReadRequest {
        wait_for: Some("$ ".to_owned()),
        timeout_ms: Some(0),
        max_chars: Some(0),
        clear: Some(true),
    };
    let read = request.resolve();
    assert_eq!(read.wait_for, Some("$ ".to_owned()));
    assert_eq!(read.timeout_ms, 0);
    assert_eq!(read.max_chars, 0);
    assert!(read.clear);
}

#[test]
fn deadline_is_the_timeout_after_the_start() {
    let server = server();
    let mut serial: SerialState<Written> = SerialState::new();
    let read = serial_read_request(Some("x")).resolve();
    let state = server.read_serial(&read, ReadState::Arming, ReadEvent::Clock(5), &mut serial);
    match state {
        ReadState::Polling { deadline } => assert_eq!(deadline, 2_000_000_005),
        _ => panic!("the read did not start"),
    }
    let missed = ReadState::Missed { deadline: 2_000_000_005 };
    let state = server.read_serial(&read, missed, ReadEvent::Clock(2_000_000_004), &mut serial);
    assert_eq!(state.action(), ReadAction::Sleep(50));
    let missed = ReadState::Missed { deadline: 2_000_000_005 };
    let state = server.read_serial(&read, missed, ReadEvent::Clock(2_000_000_005), &mut serial);
    assert_eq!(state.action(), ReadAction::Finish);
}
