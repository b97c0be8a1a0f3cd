# bitcoind_async_client

A JSON-RPC client for `bitcoind`, in two parts.

- `src/` is a library verified with Verus. It makes a client from its settings and credentials,
  builds requests, tells what replies and transport errors mean, and decides when to try again. It
  does no I/O.
- `app/` is the `async` client around it. It reads cookie files, sends requests with `bitreq`, waits
  with `tokio`, and parses replies with `serde_json`.

A call is a state machine (`src/client/call.rs`): `Client::start` and `Client::step` say what to do
next, and the driver reports what came of it. `src/client/laws.rs` states what holds of every call:
how often a request is sent at most, when it is sent again, and what a call can end in.
`src/client/limits.rs` states what a request limit means for calls that go on at the same time, and
`src/client/numbers.rs` what their request numbers are.

Numbers in the arguments of RPC methods are exact quotients in the library. The driver turns them
into floating-point numbers.
