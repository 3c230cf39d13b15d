# deflect

Reflection over Rust values, driven by DWARF debug info, with its logic
verified by Verus.

Given the bytes of a value and the debug info that describes its type, the
library reads the value: primitives, structs and their fields by name,
enums and the variant their discriminant selects, arrays, slices, strings,
boxes and trait objects.

## Layout

- `src/` — the verified library.
  - `dwarf.rs`: a plain model of a compilation unit's debug info
    (entries, attributes, children, file table).
  - `reader.rs`, `load.rs`: reading a unit's sections into that model with
    the `gimli` parser; `read_unit` states that the model is the parser's
    walk of the unit.
  - `locate.rs`: reading an object file's debug info sections (decompressed
    where compressed) and finding the unit and entry of a function in it
    (`object`, `addr2line`).
  - `lookup.rs`, `schema/`: interpreting entries as Rust types.
  - `value/`: decoding the bytes of a value by such a type.
  - `describe.rs`, `text.rs`: names of DWARF constants, string conversions.
  - `properties.rs`: laws of the library, as proof functions.
- `tests/`: tests on constructed units and on units written with
  `gimli::write`.
- `app/`: what is not verified: mapping the running program's executable,
  caches, pretty-printing, `serde` serialisation and the error type with
  `std::error::Error`.
