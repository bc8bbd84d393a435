# ycrdt

A verified library for collaborative documents built on the yrs CRDT
library, with R bindings around it.

- `src/` is the library, verified with Verus:
  - `state.rs`: state vectors (clocks per client, with their partial
    order), delete sets (deleted clock ranges per client, squash and merge)
    and snapshots, with their encodings;
  - `message.rs`: the messages of the sync protocol, their steps, payloads
    and version 1 framing;
  - `doc.rs`, `text.rs`, `array.rs`, `map.rs`: documents, transactions, and
    texts and arrays edited inside a transaction;
  - `prelim.rs`: values waiting to be inserted into a shared type;
  - `event.rs`: the events handed to observers of arrays and texts, readable
    while the observer runs;
  - `scan.rs`: checks on encoded bytes, made before the decoders of yrs see
    them, that follow each decoder far enough to tell whether it would panic;
  - `wire.rs`: variable-length integers and decimal digits.
  Calls into yrs go through small trusted wrappers whose contracts are
  stated in their doc comments.
- `tests/` runs the library against the real yrs.
- `app/` holds the R bindings (extendr): R classes that convert R values and
  call the library.
