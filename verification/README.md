# tokimo-package-mcp

The core of an MCP (Model Context Protocol) client, verified with Verus.

- `src/` is the library. It decides what to send, what each incoming message means and who is to
  be told of it, and performs no input or output itself. Every function states what it does, and
  Verus proves it. Reading and writing JSON text, reading addresses and looking for programs is
  left to `serde_json`, `reqwest` and `which`; what is relied on of them is stated where they are
  called.
- `app/` is the client over tokio: child processes, HTTP, timers and logging around the library.
- `tests/` run the library on examples.

A message of a server is handed to `McpClient::dispatch`, which says what is to be done about it:
wake a caller, tell listeners, send an answer, or nothing. A connection is made by carrying a
`Handshake` on until it is done. Names of tools are built and parsed by `tool_name`.
