# revenuecat_fdw

The verified core of a PostgreSQL foreign data wrapper (Supabase Wrappers,
WebAssembly) for the RevenueCat REST API v2.

- `src/` is checked by Verus:
  - `text.rs`: character-level string helpers (comparison, prefixes, joining, splitting).
  - `json.rs`: the library's model of a JSON value and its member lookups; the
    syntax check it borrows from `serde_json`.
  - `cell.rs`: turning a field of a RevenueCat record into a PostgreSQL cell.
  - `body.rs`: turning a row into the JSON body of a create request.
  - `fdw.rs`: the wrapper's state and decisions — which endpoint a scan or a
    write calls (ID pushdown, customer-scoped lists, cursors), what a response
    does to the scan, which row comes next.
  - `laws.rs`: properties that span several functions (pagination, pushdown,
    timestamp round trip, grant and revoke).
- `app/` holds the host glue: the `Host` trait standing for the Wrappers host
  interface, the callbacks that drive the library, and the conversions between
  JSON text and the library's model.
- `tests/` runs the library on concrete inputs.
