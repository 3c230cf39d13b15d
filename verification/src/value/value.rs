//! The reflected value of any type.
use vstd::prelude::*;
use vstd::slice::slice_subrange;

use crate::dwarf::DW_AT_byte_size;
use crate::err::{ErrorKind, ReflectError};
use crate::lookup::{fail, outcome, spec_udata_req};
use crate::schema::array::spec_array_bytes;
use crate::schema::atom::{prim_align, prim_size};
use crate::schema::pointer::{Const, Mut, Shared, Unique};
use crate::dwarf::Unit;
use crate::schema::types::{Type, TypeKind};
use crate::value::atom::{unit, Atom};
use crate::value::holders::{Array, Box, BoxedDyn, BoxedSlice, Enum, Function, Pointer, Slice, Str, Struct};
use crate::value::scalar::{decode_scalar, spec_scalar, Scalar};

verus! {

broadcast use vstd::layout::layout_of_primitives, vstd::layout::align_nonzero;

/// A reflected value.
#[derive(Clone, Copy)]
pub enum Value<'v, 'd> {
    /// A primitive value.
    Atom(Atom<'v, 'd>),
    /// The unit value.
    Unit(unit<'v, 'd>),
    /// A string slice.
    Str(Str<'v, 'd>),
    /// An array.
    Array(Array<'v, 'd>),
    /// A box.
    Box(Box<'v, 'd>),
    /// A boxed slice.
    BoxedSlice(BoxedSlice<'v, 'd>),
    /// A boxed trait object.
    BoxedDyn(BoxedDyn<'v, 'd>),
    /// A slice.
    Slice(Slice<'v, 'd>),
    /// A struct.
    Struct(Struct<'v, 'd>),
    /// An enum.
    Enum(Enum<'v, 'd>),
    /// A function.
    Function(Function<'v, 'd>),
    /// A shared reference.
    SharedRef(Pointer<'v, 'd, Shared>),
    /// A unique reference.
    UniqueRef(Pointer<'v, 'd, Unique>),
    /// A `*const` pointer.
    ConstPtr(Pointer<'v, 'd, Const>),
    /// A `*mut` pointer.
    MutPtr(Pointer<'v, 'd, Mut>),
}

/// How many of the bytes it is given a value of a type of kind `kind`,
/// described by the entry at index `entry` of `dwarf`, keeps: the size of
/// the type for primitives, the unit type, arrays and enums (`Err` where
/// that size cannot be read); all of them (`None`) for the types whose parts
/// are read from the bytes where they lie.
pub open spec fn kept_len(kind: TypeKind, dwarf: Unit, entry: int) -> Result<Option<nat>, ()> {
    match kind {
        TypeKind::Atom(p) => Ok(Some(prim_size(p))),
        TypeKind::Unit => Ok(Some(0)),
        TypeKind::Array => match spec_array_bytes(dwarf, entry, (dwarf.entries.len() - 1) as nat) {
            Ok(n) => Ok(Some(n as nat)),
            Err(()) => Err(()),
        },
        TypeKind::Enum => match spec_udata_req(dwarf.entries[entry], DW_AT_byte_size) {
            Ok(n) => Ok(Some(n as nat)),
            Err(_) => Err(()),
        },
        _ => Ok(None),
    }
}

/// Whether `bytes`, which lie at `address`, can be read as a value of a
/// type of kind `kind`, described by the entry at index `entry` of `dwarf`:
/// they hold at least the bytes that the value keeps, and a primitive lies
/// at a multiple of its alignment and holds a valid value of its type.
pub open spec fn reads_ok(kind: TypeKind, dwarf: Unit, entry: int, bytes: Seq<u8>, address: u64) -> bool {
    match kept_len(kind, dwarf, entry) {
        Err(()) => false,
        Ok(None) => true,
        Ok(Some(n)) => n <= bytes.len() && match kind {
            TypeKind::Atom(p) => address % (prim_align(p) as u64) == 0 && spec_scalar(
                p,
                bytes.take(n as int),
                dwarf.big_endian,
            ) is Ok,
            _ => true,
        },
    }
}

impl<'v, 'd> Value<'v, 'd> {
    /// The type of this value.
    pub open spec fn ty_of(&self) -> Type<'d> {
        match *self {
            Value::Atom(v) => Type::Atom(v.schema),
            Value::Unit(v) => Type::Unit(v.schema),
            Value::Str(v) => Type::Str(v.schema),
            Value::Array(v) => Type::Array(v.schema),
            Value::Box(v) => Type::Box(v.schema),
            Value::BoxedSlice(v) => Type::BoxedSlice(v.schema),
            Value::BoxedDyn(v) => Type::BoxedDyn(v.schema),
            Value::Slice(v) => Type::Slice(v.schema),
            Value::Struct(v) => Type::Struct(v.schema),
            Value::Enum(v) => Type::Enum(v.schema),
            Value::Function(v) => Type::Function(v.schema),
            Value::SharedRef(v) => Type::SharedRef(v.schema),
            Value::UniqueRef(v) => Type::UniqueRef(v.schema),
            Value::ConstPtr(v) => Type::ConstPtr(v.schema),
            Value::MutPtr(v) => Type::MutPtr(v.schema),
        }
    }

    /// The bytes of this value.
    pub open spec fn bytes_of(&self) -> Seq<u8> {
        match *self {
            Value::Atom(v) => v.bytes@,
            Value::Unit(v) => v.bytes@,
            Value::Str(v) => v.bytes@,
            Value::Array(v) => v.bytes@,
            Value::Box(v) => v.bytes@,
            Value::BoxedSlice(v) => v.bytes@,
            Value::BoxedDyn(v) => v.bytes@,
            Value::Slice(v) => v.bytes@,
            Value::Struct(v) => v.bytes@,
            Value::Enum(v) => v.bytes@,
            Value::Function(v) => v.bytes@,
            Value::SharedRef(v) => v.bytes@,
            Value::UniqueRef(v) => v.bytes@,
            Value::ConstPtr(v) => v.bytes@,
            Value::MutPtr(v) => v.bytes@,
        }
    }

    /// The address of this value.
    pub open spec fn address_of(&self) -> u64 {
        match *self {
            Value::Atom(v) => v.address,
            Value::Unit(v) => v.address,
            Value::Str(v) => v.address,
            Value::Array(v) => v.address,
            Value::Box(v) => v.address,
            Value::BoxedSlice(v) => v.address,
            Value::BoxedDyn(v) => v.address,
            Value::Slice(v) => v.address,
            Value::Struct(v) => v.address,
            Value::Enum(v) => v.address,
            Value::Function(v) => v.address,
            Value::SharedRef(v) => v.address,
            Value::UniqueRef(v) => v.address,
            Value::ConstPtr(v) => v.address,
            Value::MutPtr(v) => v.address,
        }
    }

    /// Whether this value is the reading of `bytes` at `address` by `ty`:
    /// of that type and at that address, keeping the bytes that the type
    /// keeps, and for a primitive, holding the decoded value.
    pub open spec fn reads(&self, ty: Type<'d>, bytes: Seq<u8>, address: u64) -> bool {
        &&& self.ty_of() == ty
        &&& self.address_of() == address
        &&& match kept_len(ty.kind(), ty.unit_of(), ty.entry_index() as int) {
            Ok(Some(n)) => self.bytes_of() == bytes.take(n as int),
            _ => self.bytes_of() == bytes,
        }
        &&& (self matches Value::Atom(a) ==> Ok::<Scalar, ErrorKind>(a.value) == spec_scalar(
            a.schema.kind,
            self.bytes_of(),
            a.schema.dwarf.big_endian,
        ))
    }

    /// Reads `bytes`, which lie at `address`, as a value of type `ty`.
    ///
    /// A primitive must lie at an address that is a multiple of its
    /// alignment and hold a valid value of its type.
    pub fn with_type(ty: Type<'d>, bytes: &'v [u8], address: u64) -> (r: Result<Self, ReflectError>)
        requires
            ty.wf(),
        ensures
            r is Ok <==> reads_ok(ty.kind(), ty.unit_of(), ty.entry_index() as int, bytes@, address),
            kept_len(ty.kind(), ty.unit_of(), ty.entry_index() as int) matches Ok(Some(n)) && n
                > bytes@.len() ==> outcome(r) == Err::<Self, ErrorKind>(ErrorKind::OutOfBounds),
            match ty {
                Type::Atom(a) => prim_size(a.kind) <= bytes@.len() ==> (if address % (prim_align(a.kind) as u64)
                    != 0 {
                    outcome(r) == Err::<Self, ErrorKind>(ErrorKind::Misaligned)
                } else {
                    match spec_scalar(a.kind, bytes@.take(prim_size(a.kind) as int), a.dwarf.big_endian) {
                        Ok(_) => r is Ok,
                        Err(e) => outcome(r) == Err::<Self, ErrorKind>(e),
                    }
                }),
                _ => true,
            },
            r matches Ok(v) ==> v.reads(ty, bytes@, address),
    {
        match ty {
            Type::Atom(schema) => {
                let size = schema.size() as usize;
                if bytes.len() < size {
                    return fail(ErrorKind::OutOfBounds);
                }
                if address % schema.align() != 0 {
                    return fail(ErrorKind::Misaligned);
                }
                let own = slice_subrange(bytes, 0, size);
                let value = decode_scalar(schema.kind, own, schema.dwarf.big_endian)?;
                Ok(Value::Atom(Atom { schema, value, bytes: own, address }))
            },
            Type::Unit(schema) => {
                let own = slice_subrange(bytes, 0, 0);
                Ok(Value::Unit(unit { schema, bytes: own, address }))
            },
            Type::Array(schema) => {
                let size = schema.bytes()?;
                if (bytes.len() as u64) < size {
                    return fail(ErrorKind::OutOfBounds);
                }
                let own = slice_subrange(bytes, 0, size as usize);
                Ok(Value::Array(Array { schema, bytes: own, address }))
            },
            Type::Enum(schema) => {
                let size = schema.size()?;
                if (bytes.len() as u64) < size {
                    return fail(ErrorKind::OutOfBounds);
                }
                let own = slice_subrange(bytes, 0, size as usize);
                Ok(Value::Enum(Enum { schema, bytes: own, address }))
            },
            Type::Str(schema) => Ok(Value::Str(Str { schema, bytes, address })),
            Type::Box(schema) => Ok(Value::Box(Box { schema, bytes, address })),
            Type::BoxedSlice(schema) => Ok(Value::BoxedSlice(BoxedSlice { schema, bytes, address })),
            Type::BoxedDyn(schema) => Ok(Value::BoxedDyn(BoxedDyn { schema, bytes, address })),
            Type::Slice(schema) => Ok(Value::Slice(Slice { schema, bytes, address })),
            Type::Struct(schema) => Ok(Value::Struct(Struct { schema, bytes, address })),
            Type::Function(schema) => Ok(Value::Function(Function { schema, bytes, address })),
            Type::SharedRef(schema) => Ok(Value::SharedRef(Pointer { schema, bytes, address })),
            Type::UniqueRef(schema) => Ok(Value::UniqueRef(Pointer { schema, bytes, address })),
            Type::ConstPtr(schema) => Ok(Value::ConstPtr(Pointer { schema, bytes, address })),
            Type::MutPtr(schema) => Ok(Value::MutPtr(Pointer { schema, bytes, address })),
        }
    }
}

} // verus!
