# better_auth_rs_core

Framework-agnostic primitives of an authentication library, written in Verus: the error-code
set, the database vocabulary (values, fields, schemas, the adapter query model), schema name
resolution, JSON deep merging, the PostgreSQL statement builder, the logger's decisions, random
ids, secrets, and configuration types.

Layout:

- `src/` — the verified library. Each public function states its result in its contract;
  `strmap` is a string-keyed map kept in key order (the order of `BTreeMap<String, _>`);
  `postgres` builds parameterized statements whose meaning is a token sequence (text characters
  and bound values), and renders them with `$n` placeholders.
- `app/` — the asynchronous interfaces (database adapter, secondary storage, OAuth providers,
  plugins, rate-limit storage), the SQLx adapter that executes the library's statements, console
  logging, serde forms of the records, and the options that hold application code (closures).
- `tests/` — tests of the library on concrete values.
