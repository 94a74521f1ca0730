# base

A byte-stream toolkit for a WebSocket server.

- `src/buf`: `BufferedStream`, a byte stream over contiguous storage that moves
  its readable bytes to the front, or to storage grown by doubling up to a size
  limit, when a write reaches the end; its abstract state is `StreamModel`, and
  `buf/laws.rs` proves what writes and reads do to the readable bytes.
  `MemoryStream` is the buffer handed through a codec chain.
- `src/net/codec`: the `Codec` trait and `Processor`, which decodes inbound data
  through its stages front to back and encodes outbound data back to front;
  `codec/laws.rs` proves how chains compose and that decoding undoes encoding.
- `src/net/websocket_listener.rs`, `src/tnmt`: listener configuration and the
  per-event decisions of a connection.
- `src/error.rs`: error codes.
- `app/`: the server program (sockets, tasks, channels) around the library.
