//! Reflections of Rust values: the bytes of a value, read by its type.
//!
//! A value is a slice of bytes together with the address at which those
//! bytes lie. Where a value refers to memory elsewhere (a pointer, a box, a
//! slice), it says which bytes it refers to ([`Target`]); whoever holds that
//! memory reads them, and [`Value::with_type`] interprets them.

pub mod scalar;
pub mod atom;
pub mod holders;
pub mod value;
pub mod fields;
pub mod enums;
pub mod pointers;
pub mod sequences;

pub use atom::{unit, Atom};
pub use holders::{Array, Box, BoxedDyn, BoxedSlice, Enum, Function, Pointer, Slice, Str, Struct, Target};
pub use scalar::Scalar;
pub use value::{kept_len, reads_ok, Value};
pub use enums::Variant;
pub use fields::{Field, Fields, FieldsIter};
pub use sequences::{Elements, Iter};
