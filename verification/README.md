# streamline_wasm_sdk

Browser client library for the Streamline streaming platform, written in
Verus: every function of the library carries a contract that Verus proves.

## Layout

- `src/` — the library.
  - `protocol.rs`, `json.rs`, `text.rs` — the JSON messages exchanged with the
    server and the string helpers they are built from.
  - `decode.rs` — a reader for the exact text the client messages are
    written as, and the proof that every message reads back as itself.
  - `validation.rs` — topic-name rules.
  - `websocket.rs` — the connection manager: connection states, replay of
    subscriptions on (re)connection, per-topic message routing and the
    reconnection plan with exponential backoff.
  - `client.rs` — `StreamlineClient` and `TopicAdmin` over a connection.
  - `producer.rs`, `consumer.rs` — batching, flushing and transactions;
    offset tracking, seeking and (refused) commits.
  - `circuit_breaker.rs` — the circuit breaker, on a clock the caller reads.
  - `http.rs`, `admin.rs`, `schema_registry.rs`, `moonshot.rs` — the HTTP
    requests of the REST clients, and client-side JSON Schema checks.
  - `telemetry.rs` — span naming and W3C `traceparent` headers.
  - `registry.rs` — the keyed list behind subscriptions and callbacks.
  - `error.rs` — error codes, messages and hints.
- `tests/` — tests of the library.
- `app/` — the browser bindings: `wasm-bindgen` exports, WebSocket event
  handlers and timers, `fetch`, `serde` response types, the console and the
  performance timeline.

## Sending

Nothing in `src/` writes to a socket. Each operation that sends returns the
exact text to write (or its refusal); a flush and the replay of
subscriptions go one message at a time (`next_send`, then `record_send`
with the socket's answer), so the contracts fix which texts go out, in
which order, and when sending stops.
