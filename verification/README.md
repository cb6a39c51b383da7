# flag_kit

Feature flags with deterministic percentage rollout, verified with Verus.

- `src/` is the verified library:
  - `flag.rs` — `FlagName` (validated against `^[a-z][a-z0-9_]*$`), `Flag`,
    `FlagChange`.
  - `eval.rs` — the SipHash bucket of a (flag, user) pair, reduced modulo
    100 without bias (digests in the top 16 of the `u64` range are rejected
    and rehashed), and the rules for
    the global check, the per-user rollout check and the bulk check.
  - `store.rs` — `MemoryFlagStore`, a `DashMap` keyed by flag name, whose
    contracts describe the stored flags as a map from name to flag.
  - `record.rs` — the rows in which flags and changes are persisted, and the
    conversions between rows and values.
  - `error.rs`, `text.rs` — the error type and string helpers.
- `app/` is ordinary Rust around it: the asynchronous `FlagStore` trait, a
  lock-guarded shared memory store, the SQLite store, the `Evaluator` over any
  store, and serde / `std::error::Error` forms of the library's types.
- `tests/` exercises the library, including an equivalence sweep of the name
  rule against the `regex` crate.
