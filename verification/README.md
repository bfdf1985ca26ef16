# mssql_tiberius_bridge

A SQL Server client facade with a tiberius-compatible surface over Microsoft's
native `mssql-tds` driver, whose decisions are verified with Verus.

## Layout

- `src/` — the verified library. Its functions have contracts that Verus
  proves, except the small `#[verifier::external_body]` wrappers around
  calls into `mssql-tds`, `encoding_rs` and `std`: their contracts are
  assumed, and each one's doc comment says what it claims of the call.
  The modules:
  - `config` — the connection builder and the login parameters it hands the
    driver (authentication, TLS mode, application intent, datasource string);
  - `column` — column metadata, wire type codes and the facade's column types;
  - `prepared` — parameter names and the `sp_prepare` declaration of a
    statement, string parameter encoding, prepared-handle and session checks;
  - `query` — buffered result sets, row counts, decimal parameter precision;
  - `compat` — result-set collection, column lookup by name, typed nulls;
  - `bulk`, `bulk_arrow` — bulk-load settings, compatibility row-width rules,
    bulk input error classification and the Arrow cell to TDS value mapping;
  - `arrow` — the Arrow schema of each column, batch limits, byte accounting,
    text decoding and value conversions of the Arrow row writer;
  - `transcode` — the driver's incremental text decoder, driven in fixed
    4096-byte output chunks;
  - `driver_value` — driver `DATE` and decimal values with the parts the
    contracts speak of, read back from the driver;
  - `temporal` — calendar and clock arithmetic of SQL Server date/time values;
  - `health`, `pool` — connection liveness, session resets and the
    recycling policy;
  - `text`, `error` — decimal rendering, text helpers and the error type.
- `app/` — the async client, streams, pools, driver callbacks, Arrow array
  builders, serde support and the trait impls of outside crates, calling into
  the library for every decision.
- `tests/` — tests of the library on concrete values.
