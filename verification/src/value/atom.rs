//! Reflected primitive values and the unit value.
use vstd::prelude::*;

use crate::schema;
use crate::value::scalar::Scalar;

verus! {

/// A reflected primitive value, like a `u8` or a `bool`.
#[derive(Clone, Copy)]
pub struct Atom<'v, 'd> {
    /// The type of this value.
    pub schema: schema::Atom<'d>,
    /// The decoded value.
    pub value: Scalar,
    /// The bytes of this value.
    pub bytes: &'v [u8],
    /// The address of this value.
    pub address: u64,
}

impl<'v, 'd> Atom<'v, 'd> {
    /// The decoded value.
    pub fn value(&self) -> (r: Scalar)
        ensures
            r == self.value,
    {
        self.value
    }

    /// The schema of this value.
    pub fn schema(&self) -> (r: &schema::Atom<'d>)
        ensures
            *r == self.schema,
    {
        &self.schema
    }
}

/// A reflected unit value, `()`.
#[allow(non_camel_case_types)]
#[derive(Clone, Copy)]
pub struct unit<'v, 'd> {
    /// The type of this value.
    pub schema: schema::unit<'d>,
    /// The bytes of this value (none).
    pub bytes: &'v [u8],
    /// The address of this value.
    pub address: u64,
}

impl<'v, 'd> unit<'v, 'd> {
    /// The Rust value of this reflected value.
    pub fn value(&self) -> (r: ())
        ensures
            r == (),
    {
    }

    /// The schema of this value.
    pub fn schema(&self) -> (r: &schema::unit<'d>)
        ensures
            *r == self.schema,
    {
        &self.schema
    }
}

} // verus!
