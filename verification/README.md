# async-lsp

An asynchronous Language Server Protocol (LSP) framework, for Language Servers and Language Clients.
Its decisions are verified with Verus.

`src/` is the library. Its functions state in their contracts what they return and change, and the
proof functions whose names start with `law_` state what holds across several of them.

- `framing`: messages on a byte stream.
- `message`, `error`, `event`: what is exchanged, what can fail, and events of any type.
- `service`: the core service abstraction. Each operation of a service is a relation, so that a
  middleware can be stated in terms of the service that it wraps.
- `server`: the lifecycle of a Language Server.
- `concurrency`: limits on concurrent requests, and their cancellation.
- `panic`: what becomes of panics.
- `router`: dispatch to handlers.
- `omni_trait`, `language`: the standard methods, and the traits whose methods handle them.
- `socket`, `main_loop`: sockets to the peer, and the main loop as a state machine.
- `table`, `text`: a small map, and operations on texts.
- `outside`: the types and functions of other crates that the library uses, and what it takes them
  to do. The other trusted functions stand beside their callers in `error`, `framing`, `event`
  and `concurrency`.

`app/` is ordinary Rust around the library: it waits, reads and writes, turns documents into values,
catches panics, and fits the middlewares into `tower`.

`tests/` runs the library with the real crates.
