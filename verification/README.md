# wups_macros

The logic behind the macros of a Wii U plugin (WUPS): which `.wups.meta`
entries (`key=value\0`) and `.wups.hooks` entries a plugin carries, the
symbols they are stored under, and how the macro inputs are read.

- `src/` — the verified library (Verus): `input` (raw macro input as syn
  reads it), `tokens` (the shapes of the macro inputs),
  `meta` (metadata entries), `hooks` (hook entries and lifecycle attributes),
  `plugin` (everything `WUPS_PLUGIN_NAME` defines), `clock` (system clock
  and build time via chrono), `bytes` (byte helpers and UTF-8 facts).
- `app/` — the token-level front end: converts `proc_macro2` streams into the
  library's raw tokens and writes its plans out as Rust items with `quote`.
- `tests/` — tests of the library on concrete inputs.
