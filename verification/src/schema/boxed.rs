//! Schemas of boxed slices, `Box<[T]>`, and boxed trait objects,
//! `Box<dyn Trait>`.
use vstd::prelude::*;

use crate::dwarf::{DW_AT_alignment, DW_AT_byte_size};
use crate::err::ReflectError;
use crate::lookup::{get_align, get_size, outcome, spec_udata_opt, spec_udata_req};
use crate::schema::field::Field;
use crate::schema::slice::{elt_of, elt_of_ok};
use crate::schema::struct_type::Struct;
use crate::schema::types::Type;

verus! {

/// A schema for a boxed slice, `Box<[T]>`: a fat pointer of a data pointer
/// and a length.
#[derive(Clone, Copy)]
pub struct BoxedSlice<'d> {
    /// The fat pointer, as a struct.
    pub schema: Struct<'d>,
    /// The `data_ptr` field.
    pub data_ptr: Field<'d>,
    /// The `length` field.
    pub length: Field<'d>,
}

impl<'d> BoxedSlice<'d> {
    /// Whether the parts of this schema designate entries of their unit.
    pub open spec fn wf(&self) -> bool {
        &&& self.schema.wf()
        &&& self.data_ptr.wf()
        &&& self.length.wf()
        &&& self.data_ptr.dwarf == self.schema.dwarf
        &&& self.length.dwarf == self.schema.dwarf
        &&& crate::schema::children::first_two(*self.schema.dwarf, self.schema.entry as int, crate::dwarf::DW_TAG_member)
            == Some((self.data_ptr.entry, self.length.entry))
    }

    /// Constructs a `BoxedSlice` from its struct and fields.
    pub fn new(schema: Struct<'d>, data_ptr: Field<'d>, length: Field<'d>) -> (r: Result<Self, ReflectError>)
        ensures
            r matches Ok(b) && b.schema == schema && b.data_ptr == data_ptr && b.length == length,
    {
        Ok(BoxedSlice { schema, data_ptr, length })
    }

    /// The `data_ptr` field of this boxed slice.
    pub fn data_ptr(&self) -> (r: Field<'d>)
        ensures
            r == self.data_ptr,
            self.wf() ==> (crate::schema::children::first_two(
                *self.schema.dwarf,
                self.schema.entry as int,
                crate::dwarf::DW_TAG_member,
            ) matches Some(p) && r.entry == p.0),
    {
        self.data_ptr
    }

    /// The `length` field of this boxed slice.
    pub fn length(&self) -> (r: &Field<'d>)
        ensures
            *r == self.length,
            self.wf() ==> (crate::schema::children::first_two(
                *self.schema.dwarf,
                self.schema.entry as int,
                crate::dwarf::DW_TAG_member,
            ) matches Some(p) && r.entry == p.1),
    {
        &self.length
    }

    /// The element type of this boxed slice: the referent of its data
    /// pointer, which must be a `*mut` pointer.
    pub fn elt(&self) -> (r: Result<Type<'d>, ReflectError>)
        requires
            self.wf(),
        ensures
            crate::schema::slice::elt_spec(*self.schema.dwarf, self.data_ptr.entry as int, r),
            r is Ok <==> elt_of_ok(*self.schema.dwarf, self.data_ptr.entry as int),
            r matches Ok(t) ==> crate::schema::types::from_die_spec(
                *self.schema.dwarf,
                crate::schema::slice::elt_entry(*self.schema.dwarf, self.data_ptr.entry as int),
                Ok::<Type<'d>, ReflectError>(t),
            ),
    {
        elt_of(self.data_ptr)
    }

    /// The size of this fat pointer, in bytes.
    pub fn size(&self) -> (r: Result<u64, ReflectError>)
        requires
            self.wf(),
        ensures
            outcome(r) == spec_udata_req(self.schema.dwarf.entries[self.schema.entry as int], DW_AT_byte_size),
    {
        get_size(&self.schema.dwarf.entries[self.schema.entry])
    }

    /// The alignment of this fat pointer, in bytes, if it is given.
    pub fn align(&self) -> (r: Result<Option<u64>, ReflectError>)
        requires
            self.wf(),
        ensures
            outcome(r) == spec_udata_opt(self.schema.dwarf.entries[self.schema.entry as int], DW_AT_alignment),
    {
        get_align(&self.schema.dwarf.entries[self.schema.entry])
    }
}

/// A schema for a boxed trait object, `Box<dyn Trait>`: a fat pointer of a
/// data pointer and a vtable pointer.
#[derive(Clone, Copy)]
pub struct BoxedDyn<'d> {
    /// The fat pointer, as a struct.
    pub schema: Struct<'d>,
    /// The `pointer` field.
    pub pointer: Field<'d>,
    /// The `vtable` field.
    pub vtable: Field<'d>,
}

impl<'d> BoxedDyn<'d> {
    /// Whether the parts of this schema designate entries of their unit.
    pub open spec fn wf(&self) -> bool {
        &&& self.schema.wf()
        &&& self.pointer.wf()
        &&& self.vtable.wf()
        &&& self.pointer.dwarf == self.schema.dwarf
        &&& self.vtable.dwarf == self.schema.dwarf
        &&& crate::schema::children::first_two(*self.schema.dwarf, self.schema.entry as int, crate::dwarf::DW_TAG_member)
            == Some((self.pointer.entry, self.vtable.entry))
    }

    /// Constructs a `BoxedDyn` from its struct and fields.
    pub fn new(schema: Struct<'d>, pointer: Field<'d>, vtable: Field<'d>) -> (r: Result<Self, ReflectError>)
        ensures
            r matches Ok(b) && b.schema == schema && b.pointer == pointer && b.vtable == vtable,
    {
        Ok(BoxedDyn { schema, pointer, vtable })
    }

    /// This fat pointer, interpreted as a struct.
    pub fn as_struct(&self) -> (r: &Struct<'d>)
        ensures
            *r == self.schema,
    {
        &self.schema
    }

    /// The `pointer` field of this fat pointer.
    pub fn pointer(&self) -> (r: &Field<'d>)
        ensures
            *r == self.pointer,
            self.wf() ==> (crate::schema::children::first_two(
                *self.schema.dwarf,
                self.schema.entry as int,
                crate::dwarf::DW_TAG_member,
            ) matches Some(p) && r.entry == p.0),
    {
        &self.pointer
    }

    /// The `vtable` field of this fat pointer.
    pub fn vtable(&self) -> (r: &Field<'d>)
        ensures
            *r == self.vtable,
            self.wf() ==> (crate::schema::children::first_two(
                *self.schema.dwarf,
                self.schema.entry as int,
                crate::dwarf::DW_TAG_member,
            ) matches Some(p) && r.entry == p.1),
    {
        &self.vtable
    }

    /// The size of this fat pointer, in bytes.
    pub fn size(&self) -> (r: Result<u64, ReflectError>)
        requires
            self.wf(),
        ensures
            outcome(r) == spec_udata_req(self.schema.dwarf.entries[self.schema.entry as int], DW_AT_byte_size),
    {
        get_size(&self.schema.dwarf.entries[self.schema.entry])
    }

    /// The alignment of this fat pointer, in bytes, if it is given.
    pub fn align(&self) -> (r: Result<Option<u64>, ReflectError>)
        requires
            self.wf(),
        ensures
            outcome(r) == spec_udata_opt(self.schema.dwarf.entries[self.schema.entry as int], DW_AT_alignment),
    {
        get_align(&self.schema.dwarf.entries[self.schema.entry])
    }
}

} // verus!
