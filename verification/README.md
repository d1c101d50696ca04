# af_swarm

The decisions of a runtime for virtual actor agents, written in Verus and proved against their
contracts.

Agents live in a key-value state store and are brought into memory when they have work. The library
says under which keys their records stand, how an agent is hydrated and frozen, what happens after a
write that was torn in two, which checkpoint an agent is recovered from, how payloads are encrypted,
how old schemas are migrated, what a sweep or an erasure deletes, how much of a token budget is left,
how cache blocks of tenants are kept apart, when a request is tried again and when the runtime takes
no more work.

- `src/` is the verified library. It does no I/O. Where a run alternates between reading, writing and
  deciding, each decision is a function from what has happened to what comes next.
- `tests/` runs the library on concrete values, with the real crates behind it.
- `app/` is ordinary Rust around the library: the state store over a transport, gRPC, timers,
  serialisation, histograms, and the traits that agents implement.

A few functions call crates whose code is not verified: AES-GCM, SHA-256, hexadecimal notation,
UUIDs, Prometheus, DashMap, tonic and the clocks of the standard library. What is believed of each
of them stands in the contract and the doc comment of the function that makes the call.
