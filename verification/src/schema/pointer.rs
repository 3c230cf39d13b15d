//! Schemas of references, raw pointers and boxes.
use vstd::prelude::*;

use core::marker::PhantomData;

use crate::dwarf::{Unit, DW_AT_name};
use crate::err::{ErrorKind, ReflectError};
use crate::lookup::{outcome, spec_entry};
use crate::schema::name::{spec_attr_string_opt, Name};
use crate::schema::types::{from_die_spec, Type};

verus! {

/// The kind of unique references, `&mut T`.
#[derive(Clone, Copy)]
pub enum Unique {
    /// The only value of this marker.
    Kind,
}

/// The kind of shared references, `&T`.
#[derive(Clone, Copy)]
pub enum Shared {
    /// The only value of this marker.
    Kind,
}

/// The kind of `*mut T` pointers.
#[derive(Clone, Copy)]
pub enum Mut {
    /// The only value of this marker.
    Kind,
}

/// The kind of `*const T` pointers.
#[derive(Clone, Copy)]
pub enum Const {
    /// The only value of this marker.
    Kind,
}

/// Seals [`Reference`]: only the kinds of references implement it.
pub trait Sealed {}

impl Sealed for Unique {}

impl Sealed for Shared {}

/// The kinds of pointers that are references, and can be dereferenced.
pub trait Reference: Sealed {}

impl Reference for Unique {}

impl Reference for Shared {}

/// A schema for a pointer or reference of kind `K`.
pub struct Pointer<'d, K> {
    /// The unit that describes the pointer type.
    pub dwarf: &'d Unit,
    /// The index of the pointer type's entry in the unit.
    pub entry: usize,
    /// The unit offset of the referent's type entry.
    pub target: usize,
    /// The kind of pointer.
    pub kind: PhantomData<K>,
}

impl<'d, K> Clone for Pointer<'d, K> {
    fn clone(&self) -> (r: Self)
        ensures
            r == *self,
    {
        Pointer { dwarf: self.dwarf, entry: self.entry, target: self.target, kind: PhantomData }
    }
}

impl<'d, K> Copy for Pointer<'d, K> {

}

impl<'d, K> Pointer<'d, K> {
    /// Whether this designates an entry of its unit.
    pub open spec fn wf(&self) -> bool {
        self.entry < self.dwarf.entries.len()
    }

    /// Constructs a pointer schema for the pointer type entry at index
    /// `entry`, whose referent's type stands at unit offset `target`.
    pub fn new(dwarf: &'d Unit, entry: usize, target: usize) -> (r: Self)
        ensures
            r.dwarf == dwarf,
            r.entry == entry,
            r.target == target,
    {
        Pointer { dwarf, entry, target, kind: PhantomData }
    }

    /// The name of this pointer type, if it has one.
    pub fn name(&self) -> (r: Result<Option<Name>, ReflectError>)
        requires
            self.wf(),
        ensures
            match spec_attr_string_opt(self.dwarf.entries[self.entry as int], DW_AT_name) {
                Ok(Some(s)) => r matches Ok(Some(n)) && n.name@ == s,
                Ok(None) => r matches Ok(None),
                Err(e) => outcome(r) == Err::<Option<Name>, ErrorKind>(e),
            },
    {
        Name::from_die_opt(&self.dwarf.entries[self.entry])
    }

    /// The size of this type, in bytes: the size of an address.
    pub fn size(&self) -> (r: u64)
        ensures
            r == vstd::layout::size_of::<usize>(),
    {
        core::mem::size_of::<usize>() as u64
    }

    /// The type of the referent.
    pub fn ty(&self) -> (r: Result<Type<'d>, ReflectError>)
        ensures
            match spec_entry(*self.dwarf, self.target) {
                Ok(i) => from_die_spec(*self.dwarf, i as int, r),
                Err(e) => outcome(r) == Err::<Type<'d>, ErrorKind>(e),
            },
    {
        let entry = self.dwarf.entry(self.target)?;
        proof {
            crate::lookup::lemma_index_at_bound(*self.dwarf, self.target);
        }
        Type::from_die(self.dwarf, entry)
    }
}

/// A schema for a box, `Box<T>`.
#[derive(Clone, Copy)]
pub struct BoxPtr<'d> {
    /// The unit that describes the box type.
    pub dwarf: &'d Unit,
    /// The index of the box type's entry in the unit.
    pub entry: usize,
    /// The unit offset of the boxed value's type entry.
    pub target: usize,
}

impl<'d> BoxPtr<'d> {
    /// Whether this designates an entry of its unit.
    pub open spec fn wf(&self) -> bool {
        self.entry < self.dwarf.entries.len()
    }

    /// Constructs a box schema for the pointer type entry at index `entry`,
    /// whose boxed value's type stands at unit offset `target`.
    pub fn new(dwarf: &'d Unit, entry: usize, target: usize) -> (r: Self)
        ensures
            r.dwarf == dwarf,
            r.entry == entry,
            r.target == target,
    {
        BoxPtr { dwarf, entry, target }
    }

    /// The name of this box type, if it has one.
    pub fn name(&self) -> (r: Result<Option<Name>, ReflectError>)
        requires
            self.wf(),
        ensures
            match spec_attr_string_opt(self.dwarf.entries[self.entry as int], DW_AT_name) {
                Ok(Some(s)) => r matches Ok(Some(n)) && n.name@ == s,
                Ok(None) => r matches Ok(None),
                Err(e) => outcome(r) == Err::<Option<Name>, ErrorKind>(e),
            },
    {
        Name::from_die_opt(&self.dwarf.entries[self.entry])
    }

    /// The size of this type, in bytes: the size of an address.
    pub fn size(&self) -> (r: u64)
        ensures
            r == vstd::layout::size_of::<usize>(),
    {
        core::mem::size_of::<usize>() as u64
    }

    /// The type of the boxed value.
    pub fn ty(&self) -> (r: Result<Type<'d>, ReflectError>)
        ensures
            match spec_entry(*self.dwarf, self.target) {
                Ok(i) => from_die_spec(*self.dwarf, i as int, r),
                Err(e) => outcome(r) == Err::<Type<'d>, ErrorKind>(e),
            },
    {
        let entry = self.dwarf.entry(self.target)?;
        proof {
            crate::lookup::lemma_index_at_bound(*self.dwarf, self.target);
        }
        Type::from_die(self.dwarf, entry)
    }
}

} // verus!
