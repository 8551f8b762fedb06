# wasm_tools

A verified library for WebAssembly binaries: it takes modules and components
apart, validates them, and writes function and element sections.

- `src/reader` reads bytes, LEB128 numbers, types, operators and the items of
  sections. Each reading function is stated over a `Cursor`: the bytes, and a
  place in them.
- `src/parser.rs` splits a binary, and the binaries nested in it, into payloads.
- `src/validator` decides whether the payloads make a valid module or component.
  `ValidatorView` says what each payload does to the state of a validator;
  `laws.rs` states what holds of every validator.
- `src/encoder` writes sections. Its `laws.rs` states that what is written can be
  read back.

```rust
let types = wasm_tools::validate(&bytes)?;
println!("{} functions", types.function_count());
```

One function is trusted: `str_from_utf8` in `src/reader/binary_reader.rs`, which
calls `std::str::from_utf8`.
