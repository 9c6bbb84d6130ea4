# frost_ffi

FROST threshold Schnorr signatures (secp256k1, Taproot) over a C interface:
distributed key generation in three parts, nonce commitments, signature
shares and their aggregation, with every package passed as JSON text and keys
and signatures as hex.

- `src/` is the verified library. Each operation takes and returns plain
  strings and reports failures through `FrostError`, whose status codes are
  those of the C interface. `bindings.rs` holds the trusted calls into
  `frost-secp256k1-tr`, `serde_json`, `hex` and `rand`; `origin.rs` models
  each FROST value by how it was made, so that every output is tied to the
  texts and numbers it came from.
- `app/` is the C interface itself: null checks, C strings and output
  parameters around the library.
- `tests/` runs the library, including a full key generation and signing run.
