//! Reading the addresses that pointer values hold.
use vstd::prelude::*;
use vstd::slice::slice_subrange;

use crate::dwarf::Unit;
use crate::err::{ErrorKind, ReflectError};
use crate::lookup::{fail, outcome, spec_entry};
use crate::schema::types::{from_die_spec, lemma_size_of_entry, type_kind, type_ok, type_size, Type};
use crate::value::holders::{Box, Pointer, Target};
use crate::value::scalar::{decode_uint, uint_value};

verus! {

broadcast use vstd::layout::layout_of_primitives;

/// The size of an address, in bytes.
pub open spec fn ptr_size() -> nat {
    vstd::layout::size_of::<usize>()
}

/// The address that the first bytes of `bytes` store; an error if they are
/// fewer than an address takes.
pub open spec fn spec_pointee(bytes: Seq<u8>, big_endian: bool) -> Result<u64, ErrorKind> {
    if bytes.len() < ptr_size() {
        Err(ErrorKind::OutOfBounds)
    } else {
        Ok(uint_value(bytes.take(ptr_size() as int), big_endian) as u64)
    }
}

/// The address that the first bytes of `bytes` store.
pub fn read_address(bytes: &[u8], big_endian: bool) -> (r: Result<u64, ReflectError>)
    ensures
        outcome(r) == spec_pointee(bytes@, big_endian),
{
    let size = core::mem::size_of::<usize>();
    if bytes.len() < size {
        return fail(ErrorKind::OutOfBounds);
    }
    let v = decode_uint(slice_subrange(bytes, 0, size), big_endian);
    Ok(v as u64)
}

/// A `u64` as a `usize`; an error if it does not fit.
pub fn to_usize(n: u64) -> (r: Result<usize, ReflectError>)
    ensures
        r is Ok <==> n <= usize::MAX,
        r matches Ok(x) ==> x == n,
        r matches Err(e) ==> e.error is TryFromInt,
{
    match usize::try_from(n) {
        Ok(x) => Ok(x),
        Err(e) => fail(ErrorKind::try_from_int(e)),
    }
}

/// What following a pointer, whose bytes are `bytes`, to a referent whose
/// type entry is at unit offset `target` gives: the address that the
/// pointer holds, the referent's type, and its size. `r is Err` alone is
/// stated where the referent's type is not one that the library reads.
pub open spec fn target_spec<'d>(dwarf: Unit, target: usize, bytes: Seq<u8>, r: Result<Target<'d>, ReflectError>) -> bool {
    match spec_pointee(bytes, dwarf.big_endian) {
        Err(k) => outcome(r) == Err::<Target<'d>, ErrorKind>(k),
        Ok(a) => match spec_entry(dwarf, target) {
            Err(k) => outcome(r) == Err::<Target<'d>, ErrorKind>(k),
            Ok(ti) => if !type_ok(dwarf, ti as int) {
                r is Err
            } else {
                &&& r is Ok <==> (type_size(dwarf, ti as int, dwarf.entries.len() as nat) matches Ok(n) && n
                    <= usize::MAX)
                &&& r matches Ok(t) ==> t.address == a && from_die_spec(dwarf, ti as int, Ok::<Type<'d>, ReflectError>(t.ty))
                    && type_size(dwarf, ti as int, dwarf.entries.len() as nat) == Ok::<u64, ()>(t.size as u64)
            },
        },
    }
}

/// The referent of a pointer whose bytes are `bytes`, of type `ty`.
fn target_of<'d>(bytes: &[u8], big_endian: bool, ty: Result<Type<'d>, ReflectError>) -> (r: Result<
    Target<'d>,
    ReflectError,
>)
    requires
        ty matches Ok(t) ==> t.wf(),
    ensures
        match spec_pointee(bytes@, big_endian) {
            Err(k) => outcome(r) == Err::<Target<'d>, ErrorKind>(k),
            Ok(a) => match ty {
                Err(e) => r == Err::<Target<'d>, ReflectError>(e),
                Ok(t) => (r is Ok <==> (t.size_spec(t.unit_of().entries.len() as nat) matches Ok(n) && n
                    <= usize::MAX)) && (r matches Ok(x) ==> x.address == a && x.ty == t && t.size_spec(
                    t.unit_of().entries.len() as nat,
                ) == Ok::<u64, ()>(x.size as u64)),
            },
        },
{
    let address = read_address(bytes, big_endian)?;
    let ty = ty?;
    let size = ty.size()?;
    let size = to_usize(size)?;
    Ok(Target { address, size, ty })
}

impl<'v, 'd, K> Pointer<'v, 'd, K> {
    /// The address that this pointer holds.
    pub fn address_value(&self) -> (r: Result<u64, ReflectError>)
        ensures
            outcome(r) == spec_pointee(self.bytes@, self.schema.dwarf.big_endian),
    {
        read_address(self.bytes, self.schema.dwarf.big_endian)
    }

    /// The referent of this pointer: the bytes of its type's size at the
    /// address that the pointer holds.
    pub fn deref_target(&self) -> (r: Result<Target<'d>, ReflectError>)
        ensures
            target_spec(*self.schema.dwarf, self.schema.target, self.bytes@, r),
    {
        let ty = self.schema.ty();
        proof {
            if let Ok(t) = ty {
                if let Ok(ti) = spec_entry(*self.schema.dwarf, self.schema.target) {
                    lemma_size_of_entry(t, *self.schema.dwarf, ti as int, self.schema.dwarf.entries.len() as nat);
                }
            }
        }
        target_of(self.bytes, self.schema.dwarf.big_endian, ty)
    }
}

impl<'v, 'd> Box<'v, 'd> {
    /// The address that this box holds.
    pub fn address_value(&self) -> (r: Result<u64, ReflectError>)
        ensures
            outcome(r) == spec_pointee(self.bytes@, self.schema.dwarf.big_endian),
    {
        read_address(self.bytes, self.schema.dwarf.big_endian)
    }

    /// The boxed value's bytes: its type's size at the address that the box
    /// holds.
    pub fn deref_target(&self) -> (r: Result<Target<'d>, ReflectError>)
        ensures
            target_spec(*self.schema.dwarf, self.schema.target, self.bytes@, r),
    {
        let ty = self.schema.ty();
        proof {
            if let Ok(t) = ty {
                if let Ok(ti) = spec_entry(*self.schema.dwarf, self.schema.target) {
                    lemma_size_of_entry(t, *self.schema.dwarf, ti as int, self.schema.dwarf.entries.len() as nat);
                }
            }
        }
        target_of(self.bytes, self.schema.dwarf.big_endian, ty)
    }
}

} // verus!
