//! Reflections of Rust types.

pub mod name;

pub use name::Name;
pub mod atom;
pub use atom::{unit, Atom, Primitive};
pub mod offset;
pub use offset::Offset;
pub mod field;
pub mod fields;
pub mod struct_type;
pub use field::Field;
pub use fields::{Fields, FieldsIter};
pub use struct_type::Struct;
pub mod bytes;
pub mod children;
pub mod array;
pub mod boxed;
pub mod enum_type;
pub mod function;
pub mod pointer;
pub mod slice;
pub mod types;
pub use array::Array;
pub use boxed::{BoxedDyn, BoxedSlice};
pub use enum_type::Enum;
pub use function::Function;
pub use pointer::{BoxPtr, Const, Mut, Pointer, Reference, Sealed, Shared, Unique};
pub use slice::{Slice, Str};
pub use types::{Type, TypeKind};
pub mod variant;
pub mod variants;
pub use variant::{Data, Variant};
pub use variants::{Variants, VariantsIter};
pub mod discriminant;
pub mod ref_type;
pub use discriminant::{Discriminant, DiscriminantValue};
pub use ref_type::Ref;
