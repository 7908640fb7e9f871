# context_inspector

A verified library that projects a conversation history and the model
requests built from it into bounded, metadata-only inspection snapshots.

- `src/` is the library, written in Verus. Every function carries a contract
  stated over mathematical views (`Seq`, `Multiset`, `nat`), and the public
  `lemma_*` proof functions state the laws that hold across calls: what a
  fingerprint depends on, how limits compose, how the normalization summary
  partitions both collections, and which request attempt counts as the last
  actual one.
- `tests/` exercises the library on concrete values.
- `app/` holds what the verifier does not see: serde and JSON Schema copies of
  the wire types, the mutex around the request observer, the clock, logging,
  and the terminal rendering of styled lines.

SHA-256 comes from `sha2` and JSON string encoding from `serde_json`; both are
called from `src/` through small trusted wrappers whose contracts name their
results.
