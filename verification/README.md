# aetheris-protocol

The wire contracts of the Aetheris engine as a verified library: identifiers
and replicated component types, protocol events and their wire forms, error
types, fragment reassembly, the network-id allocator, and the framing used by
the MessagePack encoder. The library's own logic in `src/` is verified by
Verus against its contracts. The few calls into std that it needs (the
clock, `io::Error`, an atomic counter) sit behind small
trusted wrappers whose contracts are believed, not proved; each says in its
doc comment what it claims.

Layout:

- `src/types.rs`, `src/allocator.rs` — identifiers, component types,
  validated workspace strings, input-command validation, the id allocator.
- `src/events.rs` — events, their views, and the laws of the wire conversions.
- `src/reassembly.rs` — the model of fragment reassembly and its laws
  (among them: any arrival order gives back the message).
- `src/reassembler.rs` — the reassembler, proved against that model.
- `src/serde_encoder.rs` — event mapping and payload framing of the encoder.
- `src/error.rs`, `src/text.rs` — error types and their messages.
- `src/clock.rs` — the clock the reassembler reads.
- `app/` — serde/thiserror copies of the wire types (positions as `f32`), the
  async transport, world and encoder traits, and the `rmp-serde` calls.

Positions and rotations are carried in the library as the bit patterns of
their `f32` values.
