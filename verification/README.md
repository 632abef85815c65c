# foreign_protocol

A verified implementation of the trap/reply protocol that a kernel and an
unprivileged broker of foreign AArch64 tasks speak. Contracts and proofs are
written in [Verus](https://github.com/verus-lang/verus).

- `src/foreign.rs`: the protocol's constants, error type and wire tables.
- `src/foreign/message.rs`: the 976-byte exit/reply frame, its constructors,
  validators, replies and codec.
- `src/foreign/wait.rs`: the 64-byte atomic wait/wake request.
- `src/foreign/aarch64.rs`: the 896-byte register state, snapshot validation
  and what a resumed task may change.
- `src/foreign/domain_op.rs`: control opcodes.
- `src/foreign/endian.rs`, `src/foreign/wire.rs`: little-endian integers as byte
  sequences, and the writer and reader of records.
- `src/foreign/layout.rs`: the layout tables, proved of the encodings.
- `src/foreign/laws.rs`: properties that span several operations.

Nothing in the library is trusted beyond Verus and its standard library. The
records are defined by their wire form; their layout in memory is unspecified,
so bytes cross a boundary through `to_wire_bytes` and `from_wire_bytes` only.
