# diesel_sqlite

The SQLite connection layer of an ORM, split in two.

- `src/` is a library verified with Verus. It holds what the connection
  decides: the file name a URL opens, the decoding of authorizer and trace
  callbacks, resource limits and the hardened values, `sqlite3_db_config`
  options, the SQL text of pragmas, `VACUUM`, `ATTACH` and `DETACH` (with
  identifiers quoted so that a name can never close its quote), the cursor of
  a read-only blob, bind collections and the `sqlite3_bind_*` call of each
  bind, the release of bound buffers, the iteration over a statement's rows,
  owned rows, serialized databases, SQL function arguments and results, and
  the messages auto-extensions report. Every public function states in its
  `ensures` what it returns; the laws that relate several functions are
  public proof functions (`lemma_*`).
- `app/` is ordinary Rust: the connection over `libsqlite3-sys` (handles,
  statements, callbacks and their trampolines, blobs as `Read` and `Seek`,
  aggregate functions, the process-wide auto-extension list), which asks the
  library for every decision.
- `tests/` runs the library on concrete values.

Constants of the SQLite C API and SQLite's English text for result codes are
read from `libsqlite3-sys` through small trusted wrappers in `src/codes.rs`.
