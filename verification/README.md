# pgjson

PostgreSQL's `json` and `jsonb` as Rust values, verified with Verus.

- `src/` is the verified library. `Json`, `JsonB` and `JsonString` are made from datums
  and turned into datums. The library never touches backend memory: a conversion answers
  with the next request (detoast, print, free) and the state in which it waits for the
  reply. `src/laws.rs` states what holds across calls: a stored `json` is read back, and so
  is a stored `jsonb` where the backend prints the same JSON value that it was handed.
- `app/` runs those conversions against a backend, hands the values to serializers and
  times the two forms of a value.
- `tests/` holds the tests.

A `jsonb` travels as text: PostgreSQL's `jsonb_out` prints it and `jsonb_in` makes it. The
binary form of the `jsonb` crate, in `src/codec.rs`, is not the form that PostgreSQL
stores. `JsonB::into_binary_datum` and `JsonBState::resume_binary` use it for datums of
this library's own; `resume_binary` must only be given data that the decoder turns away by
their header (`is_turned_away` tells) or that were written in that form, with every string,
key and inner container shorter than 2^28 bytes.

What is trusted: the functions of `serde_json`, `jsonb` and `std` that the functions
marked `external_body` in `src/codec.rs` and `src/make.rs` call, as their doc comments
say.
