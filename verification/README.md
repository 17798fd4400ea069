# ts_function

The planning logic of the `#[ts]` attribute, which turns Rust structs,
unit-only enums, `fn(..)` type aliases and `call` impl blocks into
TypeScript declarations and `wasm-bindgen` glue, verified with Verus.

- `src/` is the verified library. It works on plain models of the syntax
  (`syntax.rs`) and returns plans: the TypeScript text, the names of the
  generated items, the conversions of each argument and result, the checks
  of the fallible `try_parse`, and every error with its site and message.
  `laws.rs` holds the properties that span several functions.
- `app/` reads the compiler's tokens with `syn`, hands them to the library,
  and writes the returned plan back out as tokens with `quote`.
- `tests/` runs the library on concrete inputs.
