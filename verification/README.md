# codex_sdk

The core of an SDK for embedding Codex in a Rust program. The library decides
everything that does not wait: which stream an app-server event belongs to, what
is kept, replayed or dropped, which requests are sent with which parameters, how
an attachment is reserved, claimed and given back, and what becomes of a
shutdown. It is written in Verus, and what it decides is stated in contracts and
proved.

- `src/runtime/` routes events. `route_model.rs` says what the router does as
  functions from state to state, `events.rs` does it, and `route_laws.rs`,
  `route_life.rs` and `mailbox_laws.rs` hold what users can rely on.
- `src/client.rs`, `thread.rs` and `turn.rs` make requests and take responses. A
  request that needs its response comes in two parts.
- `src/builder.rs`, `thread_defaults.rs` and `config.rs` turn builder calls and a
  resolved configuration into start parameters.
- `src/warmup.rs` is the sequence of warmup requests, `src/observability.rs` the
  telemetry settings.
- `app/` is the asynchronous side: the event loop, streams and handles that can
  be awaited. `app/native*.rs` needs the Codex crates, which are not published.
- `tests/` runs the library.
