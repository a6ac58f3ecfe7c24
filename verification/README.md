# mongo_script

The rules of a MongoDB shell script run, written and proved in Verus.

A script runs in an embedded JavaScript runtime. It prints, it asks a host for database operations,
and it ends with a value or an exception. The library decides what is let through and what becomes
of the run; it does no I/O.

- `src/error.rs`: error texts, their kinds, and how uncaught exceptions are classified
- `src/limits.rs`, `src/request.rs`: limits and requests, and how long a run may take
- `src/shape.rs`, `src/json.rs`: how deep and how large a JSON value may be
- `src/operation.rs`, `src/output.rs`: host operations, and what is kept of a script's output
- `src/execution.rs`: interruption and the operation budget
- `src/host_call.rs`: a host call on its way out and back, and printing
- `src/worker.rs`: what the end of a script comes to
- `src/coordinator.rs`: how a run reacts to requests, replies, cancellation and its deadline
- `src/text.rs`: white space, decimal numbers, substring search

`app/` drives the library: it holds the JavaScript runtime, the channels between worker and host,
and the JSON forms of the library's types.

JSON values are `serde_json` values. What the proofs take from that crate and from `std` without
proof stands in `src/json.rs` and at the top of `src/limits.rs`.
