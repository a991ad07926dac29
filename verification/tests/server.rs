use qemu_mcp_server::server::{Tool, ToolHints};
use qemu_mcp_server::{QMPSocket, QmpRequest};

#[test]
fn sockets_default() {
    let server = QMPSocket::new(None, None);
    assert_eq!(server.socket_path, "/tmp/qmp-sock");
    assert_eq!(server.serial_socket_path, "/tmp/serial-sock");
    let server = QMPSocket::new(Some("/run/qmp".to_owned()), None).clone();
    assert_eq!(server.socket_path, "/run/qmp");
    assert_eq!(server.serial_socket_path, "/tmp/serial-sock");
}

#[test]
fn command_goes_to_the_qmp_socket() {
    let server = QMPSocket::new(Some("/run/qmp".to_owned()), None);
    let arguments: serde_json::Value = serde_json::from_str("{\"device\": \"ide-cd0\"}").unwrap();
    let request = QmpRequest {
        qmp_command: "eject".to_owned(),
        qmp_arguments: Some(arguments.clone()),
    };
    assert!(format!("{request:?}").contains("eject"));
    let call = server.execute_qmp(request, 99);
    assert_eq!(call.started, 99);
    assert_eq!(call.socket_path, "/run/qmp");
    assert_eq!(call.command, "eject");
    assert_eq!(call.arguments, Some(arguments));
}

#[test]
fn server_introduces_itself() {
    let info = QMPSocket::new(None, None).get_info("1.2.3");
    assert_eq!(info.name, "qemu-mcp-server");
    assert_eq!(info.version, "1.2.3");
    assert!(info.instructions.starts_with("Manage a QEMU virtual machine"));
    assert!(info.tools);
}

#[test]
fn tools_are_prefixed_and_annotated() {
    assert_eq!(Tool::ExecuteQmp.name(), "qemu_execute_qmp");
    assert_eq!(Tool::ReadSerial.name(), "qemu_read_serial");
    assert_eq!(Tool::WriteSerial.name(), "qemu_write_serial");
    for tool in [Tool::ExecuteQmp, Tool::ReadSerial, Tool::WriteSerial] {
        assert_eq!(
            tool.hints(),
            ToolHints {
                read_only: tool == Tool::ReadSerial,
                destructive: false,
                idempotent: false,
                open_world: false,
            }
        );
    }
}
