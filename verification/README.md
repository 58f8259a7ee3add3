# asimov

A verified library for running ASIMOV program patterns: the JSONL line model
and its framing, the options of every pattern and the command line each
program receives, lister validation and its local line cap, resolver output
parsing, process-completion error precedence, pipeline wiring and supervision
decisions, and the remote fetch/list request plans.

- `src/` is the library, verified with Verus. Every public function states its
  result in its contract; laws that relate several functions are proof
  functions beside them (for example, the uniqueness of a JSONL split, the
  round trip of the wire encoding, and the independence of lister arguments
  from capabilities other than limit support).
- `tests/` runs the library on concrete values.
- `app/` holds the Tokio process plumbing, the HTTP client and the keyring
  access. Arguments, stream policies, validation, limits, error precedence,
  pipeline wiring, failure selection and the service's base and endpoint URLs
  are decided by the library.

Calls into outside crates (`bytes`, `memchr`, `url`) and into `std::str::from_utf8`
go through a few trusted wrappers in `buffers.rs`, `search.rs`, `uri.rs` and
`utf8.rs`; their contracts are what the rest of the proofs rely on.
