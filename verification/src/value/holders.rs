//! Reflected values that hold their bytes for their parts to read.
use vstd::prelude::*;

use crate::schema;
use crate::schema::types::Type;

verus! {

/// Bytes of memory that a value refers to: `size` bytes at `address`, to be
/// read as a value of type `ty`.
pub struct Target<'d> {
    /// The address of the bytes.
    pub address: u64,
    /// The number of bytes.
    pub size: usize,
    /// The type by which the bytes are read.
    pub ty: Type<'d>,
}

/// A reflected value of a string slice, `&str`.
#[derive(Clone, Copy)]
pub struct Str<'v, 'd> {
    /// The type of this value.
    pub schema: schema::Str<'d>,
    /// The bytes of this value.
    pub bytes: &'v [u8],
    /// The address of this value.
    pub address: u64,
}

impl<'v, 'd> Str<'v, 'd> {
    /// The schema of this value.
    pub fn schema(&self) -> (r: &schema::Str<'d>)
        ensures
            *r == self.schema,
    {
        &self.schema
    }
}

/// A reflected value of an array, `[T; N]`.
#[derive(Clone, Copy)]
pub struct Array<'v, 'd> {
    /// The type of this value.
    pub schema: schema::Array<'d>,
    /// The bytes of this value.
    pub bytes: &'v [u8],
    /// The address of this value.
    pub address: u64,
}

impl<'v, 'd> Array<'v, 'd> {
    /// The schema of this value.
    pub fn schema(&self) -> (r: &schema::Array<'d>)
        ensures
            *r == self.schema,
    {
        &self.schema
    }
}

/// A reflected value of a box, `Box<T>`.
#[derive(Clone, Copy)]
pub struct Box<'v, 'd> {
    /// The type of this value.
    pub schema: schema::BoxPtr<'d>,
    /// The bytes of this value.
    pub bytes: &'v [u8],
    /// The address of this value.
    pub address: u64,
}

impl<'v, 'd> Box<'v, 'd> {
    /// The schema of this value.
    pub fn schema(&self) -> (r: &schema::BoxPtr<'d>)
        ensures
            *r == self.schema,
    {
        &self.schema
    }
}

/// A reflected value of a boxed slice, `Box<[T]>`.
#[derive(Clone, Copy)]
pub struct BoxedSlice<'v, 'd> {
    /// The type of this value.
    pub schema: schema::BoxedSlice<'d>,
    /// The bytes of this value.
    pub bytes: &'v [u8],
    /// The address of this value.
    pub address: u64,
}

impl<'v, 'd> BoxedSlice<'v, 'd> {
    /// The schema of this value.
    pub fn schema(&self) -> (r: &schema::BoxedSlice<'d>)
        ensures
            *r == self.schema,
    {
        &self.schema
    }
}

/// A reflected value of a boxed trait object, `Box<dyn Trait>`.
#[derive(Clone, Copy)]
pub struct BoxedDyn<'v, 'd> {
    /// The type of this value.
    pub schema: schema::BoxedDyn<'d>,
    /// The bytes of this value.
    pub bytes: &'v [u8],
    /// The address of this value.
    pub address: u64,
}

impl<'v, 'd> BoxedDyn<'v, 'd> {
    /// The schema of this value.
    pub fn schema(&self) -> (r: &schema::BoxedDyn<'d>)
        ensures
            *r == self.schema,
    {
        &self.schema
    }
}

/// A reflected value of a slice, `&[T]`.
#[derive(Clone, Copy)]
pub struct Slice<'v, 'd> {
    /// The type of this value.
    pub schema: schema::Slice<'d>,
    /// The bytes of this value.
    pub bytes: &'v [u8],
    /// The address of this value.
    pub address: u64,
}

impl<'v, 'd> Slice<'v, 'd> {
    /// The schema of this value.
    pub fn schema(&self) -> (r: &schema::Slice<'d>)
        ensures
            *r == self.schema,
    {
        &self.schema
    }
}

/// A reflected value of a struct.
#[derive(Clone, Copy)]
pub struct Struct<'v, 'd> {
    /// The type of this value.
    pub schema: schema::Struct<'d>,
    /// The bytes of this value.
    pub bytes: &'v [u8],
    /// The address of this value.
    pub address: u64,
}

impl<'v, 'd> Struct<'v, 'd> {
    /// The schema of this value.
    pub fn schema(&self) -> (r: &schema::Struct<'d>)
        ensures
            *r == self.schema,
    {
        &self.schema
    }
}

/// A reflected value of an enum.
#[derive(Clone, Copy)]
pub struct Enum<'v, 'd> {
    /// The type of this value.
    pub schema: schema::Enum<'d>,
    /// The bytes of this value.
    pub bytes: &'v [u8],
    /// The address of this value.
    pub address: u64,
}

impl<'v, 'd> Enum<'v, 'd> {
    /// The schema of this value.
    pub fn schema(&self) -> (r: &schema::Enum<'d>)
        ensures
            *r == self.schema,
    {
        &self.schema
    }
}

/// A reflected value of a function.
#[derive(Clone, Copy)]
pub struct Function<'v, 'd> {
    /// The type of this value.
    pub schema: schema::Function<'d>,
    /// The bytes of this value.
    pub bytes: &'v [u8],
    /// The address of this value.
    pub address: u64,
}

impl<'v, 'd> Function<'v, 'd> {
    /// The schema of this value.
    pub fn schema(&self) -> (r: &schema::Function<'d>)
        ensures
            *r == self.schema,
    {
        &self.schema
    }
}

/// A reflected pointer or reference value, `&T`, `&mut T`, `*const T` or
/// `*mut T`.
#[derive(Clone, Copy)]
pub struct Pointer<'v, 'd, K> {
    /// The type of this value.
    pub schema: schema::Pointer<'d, K>,
    /// The bytes of this value.
    pub bytes: &'v [u8],
    /// The address of this value.
    pub address: u64,
}

impl<'v, 'd, K> Pointer<'v, 'd, K> {
    /// The schema of this value.
    pub fn schema(&self) -> (r: &schema::Pointer<'d, K>)
        ensures
            *r == self.schema,
    {
        &self.schema
    }
}

} // verus!
