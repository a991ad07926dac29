//! The server: its sockets, and the tools that it offers.
use serde_json::Value;
use vstd::prelude::*;

use crate::console::{ConnectAction, ConnectEvent, ReadEvent, ReadState, SerialRead, WriteEvent, WriteState};
use crate::error::ServerError;
use crate::exchange::Call;
use crate::serial::SerialState;

verus! {

/// The QMP socket where the environment does not name one.
pub const DEFAULT_QMP_SOCKET_PATH: &'static str = "/tmp/qmp-sock";

/// The serial socket where the environment does not name one.
pub const DEFAULT_SERIAL_SOCKET_PATH: &'static str = "/tmp/serial-sock";

/// MCP server exposing a QEMU instance's QMP socket and serial console.
pub struct QMPSocket {
    pub socket_path: String,
    pub serial_socket_path: String,
}

impl Clone for QMPSocket {
    fn clone(&self) -> (copy: Self)
        ensures
            copy == *self,
    {
        QMPSocket {
            socket_path: self.socket_path.clone(),
            serial_socket_path: self.serial_socket_path.clone(),
        }
    }
}

/// Parameters of the tool that executes a QMP command.
#[derive(Debug)]
pub struct QmpRequest {
    /// The QMP command name, e.g. `query-status` or `query-block`.
    pub qmp_command: String,
    /// The command arguments as a JSON object; omit for commands that take no
    /// arguments.
    pub qmp_arguments: Option<Value>,
}

/// The tools that the server offers.
#[derive(Debug, Clone, Copy, PartialEq, Eq, Structural)]
pub enum Tool {
    ExecuteQmp,
    ReadSerial,
    WriteSerial,
}

/// What an agent may assume of a tool.
#[derive(Debug, Clone, Copy, PartialEq, Eq, Structural)]
pub struct ToolHints {
    pub read_only: bool,
    pub destructive: bool,
    pub idempotent: bool,
    pub open_world: bool,
}

impl Tool {
    /// The name of the tool. The prefix tells it from the tools of other servers.
    pub fn name(self) -> (name: &'static str)
        ensures
            name@ == (match self {
                Tool::ExecuteQmp => "qemu_execute_qmp"@,
                Tool::ReadSerial => "qemu_read_serial"@,
                Tool::WriteSerial => "qemu_write_serial"@,
            }),
    {
        match self {
            Tool::ExecuteQmp => "qemu_execute_qmp",
            Tool::ReadSerial => "qemu_read_serial",
            Tool::WriteSerial => "qemu_write_serial",
        }
    }

    /// Only the tool that reads leaves the guest alone. None of them destroys
    /// anything, does the same when called twice, or reaches beyond its socket.
    pub fn hints(self) -> (hints: ToolHints)
        ensures
            hints == (ToolHints {
                read_only: self is ReadSerial,
                destructive: false,
                idempotent: false,
                open_world: false,
            }),
    {
        ToolHints {
            read_only: match self {
                Tool::ReadSerial => true,
                _ => false,
            },
            destructive: false,
            idempotent: false,
            open_world: false,
        }
    }
}

/// What the server says of itself.
pub struct Info {
    pub name: String,
    pub version: String,
    pub instructions: String,
    /// Whether it offers tools.
    pub tools: bool,
}

impl QMPSocket {
    /// A server for the sockets that the environment names, or for the default
    /// ones.
    pub fn new(qmp: Option<String>, serial: Option<String>) -> (server: Self)
        ensures
            server.socket_path@ == (match qmp {
                Some(path) => path@,
                None => "/tmp/qmp-sock"@,
            }),
            server.serial_socket_path@ == (match serial {
                Some(path) => path@,
                None => "/tmp/serial-sock"@,
            }),
    {
        QMPSocket {
            socket_path: match qmp {
                Some(path) => path,
                None => DEFAULT_QMP_SOCKET_PATH.to_owned(),
            },
            serial_socket_path: match serial {
                Some(path) => path,
                None => DEFAULT_SERIAL_SOCKET_PATH.to_owned(),
            },
        }
    }

    /// The round trip that executes a QMP command on the QEMU instance, started
    /// at the clock `now`, in nanoseconds.
    pub fn execute_qmp(&self, request: QmpRequest, now: u64) -> (call: Call)
        ensures
            call@.started == now,
            call@.socket_path == self.socket_path@,
            call@.command == request.qmp_command@,
            call@.arguments == crate::qmp::option_content(request.qmp_arguments),
    {
        Call {
            socket_path: self.socket_path.clone(),
            command: request.qmp_command,
            arguments: request.qmp_arguments,
            started: now,
        }
    }

    /// One step of reading pending output from the guest's serial console.
    pub fn read_serial<W>(
        &self,
        read: &SerialRead,
        state: ReadState,
        event: ReadEvent,
        serial: &mut SerialState<W>,
    ) -> (next: ReadState)
        requires
            old(serial)@.wf(),
        ensures
            next@ == crate::console::read_next(read@, state@, event@, old(serial)@),
            final(serial)@ == crate::console::read_serial_state(
                read@,
                state@,
                event@,
                old(serial)@,
            ),
            final(serial)@.wf(),
    {
        match (state, event) {
            // Serve buffered output even if the connection has dropped; only
            // reconnect when there is nothing to report.
            (ReadState::Starting, ReadEvent::Inspected) => if serial.is_idle() {
                ReadState::Connecting
            } else {
                ReadState::Arming
            },
            (ReadState::Connecting, ReadEvent::Connected(Ok(_))) => ReadState::Arming,
            (ReadState::Connecting, ReadEvent::Connected(Err(error))) => ReadState::Done(
                Err(error),
            ),
            (ReadState::Arming, ReadEvent::Clock(now)) => {
                let deadline: u128 = now as u128 + read.timeout_ms as u128
                    * crate::exchange::NANOS_PER_MILLI;
                ReadState::Polling { deadline }
            },
            (ReadState::Polling { deadline }, ReadEvent::Inspected) => {
                let wait_for = match &read.wait_for {
                    Some(needle) => Some(needle.as_str()),
                    None => None,
                };
                match serial.take_serial_output(wait_for, read.max_chars, read.clear) {
                    Some(output) => ReadState::Done(Ok(output)),
                    None => ReadState::Missed { deadline },
                }
            },
            (ReadState::Missed { deadline }, ReadEvent::Clock(now)) => if now as u128
                >= deadline {
                ReadState::Done(Err(crate::console::read_timed_out(&read.wait_for)))
            } else {
                ReadState::Sleeping { deadline }
            },
            (ReadState::Sleeping { deadline }, ReadEvent::Woke) => ReadState::Polling { deadline },
            (state, _) => state,
        }
    }

    /// One step of writing to the guest's serial console.
    pub fn write_serial<W>(
        &self,
        state: WriteState,
        event: WriteEvent,
        serial: &SerialState<W>,
    ) -> (next: WriteState)
        requires
            serial@.wf(),
        ensures
            next@ == crate::console::write_next(state@, event@, serial@),
    {
        match (state, event) {
            (WriteState::Connecting, WriteEvent::Connected(Ok(_))) => WriteState::Checking,
            (WriteState::Connecting, WriteEvent::Connected(Err(error))) => WriteState::Done(
                Err(error),
            ),
            (WriteState::Checking, WriteEvent::Inspected) => if serial.is_connected() {
                WriteState::Writing
            } else {
                WriteState::Done(
                    Err(
                        ServerError::internal_error(
                            "serial connection lost, retry the call".to_owned(),
                        ),
                    ),
                )
            },
            (WriteState::Writing, WriteEvent::Written(Ok(_))) => WriteState::Done(
                Ok("ok".to_owned()),
            ),
            (WriteState::Writing, WriteEvent::Written(Err(reason))) => WriteState::Done(
                Err(ServerError::caused("failed to write to serial socket", reason.as_str())),
            ),
            (state, _) => state,
        }
    }

    /// Connect to the serial socket and start a buffering reader, unless one is
    /// already running.
    pub fn ensure_serial_connected<W>(
        &self,
        event: ConnectEvent<W>,
        serial: &mut SerialState<W>,
    ) -> (action: ConnectAction)
        requires
            old(serial)@.wf(),
        ensures
            action@ == crate::console::connect_action(
                self.serial_socket_path@,
                old(serial)@,
                event@,
            ),
            final(serial)@ == crate::console::connect_state(old(serial)@, event@),
            final(serial)@.wf(),
    {
        match event {
            ConnectEvent::Requested => if serial.is_connected() {
                ConnectAction::Done(Ok(()))
            } else {
                ConnectAction::Open
            },
            ConnectEvent::Opened(writer) => {
                serial.connect(writer);
                ConnectAction::StartReader
            },
            ConnectEvent::Refused(reason) => ConnectAction::Done(
                Err(
                    crate::error::connect_failed(
                        "serial",
                        "-serial",
                        self.serial_socket_path.as_str(),
                        reason.as_str(),
                    ),
                ),
            ),
        }
    }

    /// What the server says of itself, in its given version.
    pub fn get_info(&self, version: &str) -> (info: Info)
        ensures
            info.name@ == "qemu-mcp-server"@,
            info.version@ == version@,
            info.instructions@
                == "Manage a QEMU virtual machine over its QMP socket and drive its serial console. Launch QEMU with `-qmp unix:/tmp/qmp-sock,server,nowait` and, for the serial tools, `-serial unix:/tmp/serial-sock,server,nowait`. Socket paths can be overridden with QMP_SOCKET_PATH and SERIAL_SOCKET_PATH."@,
            info.tools,
    {
        Info {
            name: "qemu-mcp-server".to_owned(),
            version: version.to_owned(),
            instructions:
                "Manage a QEMU virtual machine over its QMP socket and drive its serial console. Launch QEMU with `-qmp unix:/tmp/qmp-sock,server,nowait` and, for the serial tools, `-serial unix:/tmp/serial-sock,server,nowait`. Socket paths can be overridden with QMP_SOCKET_PATH and SERIAL_SOCKET_PATH.".to_owned(),
            tools: true,
        }
    }
}

} // verus!
