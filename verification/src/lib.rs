//! Reflection over Rust values, driven by DWARF debug info.
//!
//! The debug info of a compilation unit is read into a plain model
//! ([`dwarf::Unit`]); [`schema`] interprets its entries as Rust types, and
//! [`value`] interprets the bytes of a value by such a type.

pub mod err;

pub use err::{ErrorKind, ReflectError};
pub mod reader;
pub mod dwarf;
pub mod text;
pub mod lookup;
pub mod schema;
pub mod value;
pub mod load;
pub mod describe;
pub mod locate;
pub mod properties;
