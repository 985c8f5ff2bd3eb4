# Avinet

A simple server-authoritative template for networked Rust projects, with a
real-time chat as its example: an `axum` server and an `egui` client that runs
in the browser.

- `src/` is the library, verified with Verus: the messages, the server's chat
  history, registry and sessions, the client's state and screen, and the laws
  that hold of them together.
- `app/` is the server program and the browser client around the library:
  sockets, channels, JSON and drawing. The client compiles for the browser
  without the server; there the crates that only the server needs (`axum`,
  `tokio`, `tower-http`, `tracing`, `dotenvy`, `anyhow`) have to be left out of
  the dependencies, as `tokio` has no sockets in a browser.
- `tests/` runs the library on concrete values.

The settings are read from the environment: `PORT` (3000 if unset or no port
number) and `RUST_LOG`.
