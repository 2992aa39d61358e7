# polymarket_ws

A WebSocket client for Polymarket's real-time market data and user updates, with
its logic verified by [Verus](https://github.com/verus-lang/verus).

- `src/` is the verified library. It performs no I/O: it reads the texts that the
  server sends, keeps track of connections, heartbeats and subscriptions, and
  says what is to be sent, handed to subscribers or tried again.
- `app/` is ordinary Rust around it: the sockets, the clock and the async
  streams.
- `tests/` runs the library.

What the library takes from `serde_json`, `rust_decimal` and `dashmap` is stated
in `src/json.rs`, `src/decimal.rs` and `src/collections.rs`, next to the calls.
