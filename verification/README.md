# qemu-mcp-server

An MCP server that manages a QEMU virtual machine over its QMP socket and drives
its serial console.

- `src/` is the library, verified with Verus: the messages of QMP (`qmp`), a round
  trip on its socket (`exchange`), the buffered serial console (`serial`,
  `console`), and the server with its tools (`server`). What holds of them as a
  whole is proved in `exchange_laws`, `stream_laws` and `serial_laws`. The trusted
  calls into `serde_json` stand in `json`, those into the standard library in
  `text`.
- `app/` runs the state machines of the library on unix sockets and offers the
  tools over MCP on standard input and output.
- `tests/` runs the library.

Launch QEMU with `-qmp unix:/tmp/qmp-sock,server,nowait` and, for the serial tools,
`-serial unix:/tmp/serial-sock,server,nowait`. `QMP_SOCKET_PATH` and
`SERIAL_SOCKET_PATH` override the socket paths.
