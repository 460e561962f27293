# meshcore_companion

Frames of the MeshCore companion protocol — the commands a host sends to a
companion radio and the responses the radio sends back — with their byte
layouts proved in Verus.

- `src/lib.rs`: the `CompanionSer` trait (size, bytes, decoding) and the
  nil-padded text and byte fields.
- `src/wire.rs`: little-endian integers, byte runs, UTF-8 text, the reader
  cursor, and the byte search used to split fields.
- `src/mesh.rs`: the mesh values frames carry: decode errors, text types,
  routing paths and their header byte, advert flags, permissions.
- `src/commands.rs`: host commands, and `HostCommand`, which tags each with
  its command code.
- `src/responses.rs`: responses and pushes, statistics frames, contacts and
  custom variables.

Each frame type states the exact bytes it is written as, which error or value
decoding any input yields, and, as a proof function `lemma_roundtrip`, when
decoding its own bytes gives the value back.
