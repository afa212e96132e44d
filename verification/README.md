# mcp-proxy

A proxy between an MCP client on stdin and stdout and an MCP server behind HTTP. It
answers the client before the server has come up, keeps what the client sends while the
server is gone, reconnects, and remembers the server's tools in a file.

- `src/` is the library: the proxy's decisions, verified with Verus.
  - `message.rs`: the messages, and `outside.rs`: what is taken from other crates.
  - `cache.rs`: the file that keeps the tools of a server.
  - `cli.rs`: the arguments.
  - `model.rs`: the proxy as a mathematical state machine, and `laws.rs`: what holds of it.
  - `state.rs`: the state of the proxy and its handlers, and `relay.rs`: the way of a
    client's messages to the server.
- `tests/` are its tests.
- `app/` is the program: it sends, receives, waits and reads files as the library decides.
