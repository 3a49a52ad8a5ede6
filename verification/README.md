# ferrisync

One-way folder sync with streamed BLAKE3 verification, a SQLite state store and a
conservative retention cleanup, written as a Verus-verified library with a thin
command-line program around it.

- `src/` — the verified library: configuration and its validation, copy
  classification, relative-path handling, the state store (SQLite through
  `rusqlite`), BLAKE3 and hex helpers, retention rules and their store updates, sync
  decisions (jobs, copy verdicts, retries, commits), compare results and audit lines.
- `app/` — the `ferrisync` CLI: TOML loading, directory walking, file copying and
  hashing, worker threads, the audit log file, and the loops that run the library's
  decisions.
- `tests/` — tests of the library.
