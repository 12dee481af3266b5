# pgx_pg_sys

Support types for writing Postgres extensions in Rust, verified with Verus.

- `src/` is the verified library: the `Datum` word and `NullableDatum`, object
  identifiers (`PgOid`, `PgBuiltInOids`), log levels and SQLSTATE error codes,
  range bounds, attribute rows and `NameData` text, error reports and how a
  caught panic is classified, reported or rethrown, the choice of catch
  handler in a try block, and the single-thread check.
- `app/` is the Postgres-facing glue: FFI declarations, `sigsetjmp`, panics
  and `catch_unwind`, thread-locals, atomics and raw pointers.  It hands the
  library plain values and carries out what the library decides.
- `tests/` exercises the library on concrete values.
