# mdbx4rs

C-aligned handles over [libmdbx-rs](https://github.com/vorot93/libmdbx-rs)
(`Env`, `Dbi`, `Transaction`, `Cursor`, `TransactedDbi`) and the operations
that the Rust binding leaves out (`mdbx_dbi_sequence`, `mdbx_replace`,
`mdbx_txn_reset/renew`, `mdbx_env_copy`, `mdbx_cursor_count/renew`,
`mdbx_txn_commit_ex`, `mdbx_txn_info`, environment introspection), made by
calling the C library directly.

## Layout

- `src/` is the verified library: the decisions taken on what the C library
  returns, with their contracts (`sequence_result` and
  `commit_latency_result` for the calls where `MDBX_RESULT_TRUE` is a failure).
  - `error.rs`: return codes, `mdbx_result`, and the check of an
    out-parameter's return code (`checked_value`, and `checked_value_strict`
    for calls where `MDBX_RESULT_TRUE` reports a failure).
  - `env.rs`: the destination of an environment copy, the maximum key size,
    and the collection of named-database names from the catalogue's keys.
  - `transaction.rs`: the buffer protocol of `replace` (first call, at most
    one retry, where the previous value lies, a null previous value meaning
    none), `CommitLatency` (converted from 1/65536 s to milliseconds), `TxnInfo`.
- `app/` holds the handles and the calls into libmdbx and the C library,
  which hand their raw results to `src/`.
- `tests/` runs the library's decisions on concrete values.
