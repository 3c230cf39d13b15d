//! Fields of structs and enum variants.
use vstd::prelude::*;

use crate::dwarf::{Unit, DW_AT_data_member_location, DW_AT_name, DW_TAG_member};
use crate::err::{ErrorKind, MissingAttr, ReflectError};
use crate::lookup::{check_tag, fail, get_align, get_size_opt, outcome, spec_check_tag, spec_udata_opt};
use crate::dwarf::{DW_AT_alignment, DW_AT_byte_size};
use crate::schema::name::{spec_attr_string, Name};
use crate::schema::offset::{same_inner, spec_member_location, Offset};
use crate::schema::types::{from_die_spec, Type};
use crate::lookup::spec_type_res;

verus! {

/// A field of a struct or variant.
#[derive(Clone, Copy)]
pub struct Field<'d> {
    /// The unit that describes the field.
    pub dwarf: &'d Unit,
    /// The index of the field's member entry in the unit.
    pub entry: usize,
}

impl<'d> Field<'d> {
    /// Whether this designates an entry of its unit.
    pub open spec fn wf(&self) -> bool {
        self.entry < self.dwarf.entries.len()
    }

    /// Constructs a `Field` from the member entry at index `entry`.
    pub fn from_dw_tag_member(dwarf: &'d Unit, entry: usize) -> (r: Result<Self, ReflectError>)
        requires
            entry < dwarf.entries.len(),
        ensures
            match spec_check_tag(dwarf.entries[entry as int], DW_TAG_member) {
                Ok(()) => r matches Ok(f) && f.dwarf == dwarf && f.entry == entry,
                Err(e) => outcome(r) == Err::<Self, ErrorKind>(e),
            },
    {
        check_tag(&dwarf.entries[entry], DW_TAG_member)?;
        Ok(Field { dwarf, entry })
    }

    /// The name of this field.
    pub fn name(&self) -> (r: Result<Name, ReflectError>)
        requires
            self.wf(),
        ensures
            match spec_attr_string(self.dwarf.entries[self.entry as int], DW_AT_name) {
                Ok(s) => r matches Ok(n) && n.name@ == s,
                Err(e) => outcome(r) == Err::<Name, ErrorKind>(e),
            },
    {
        Name::from_die(&self.dwarf.entries[self.entry])
    }

    /// The size of this field, in bytes, if it is given.
    pub fn size(&self) -> (r: Result<Option<u64>, ReflectError>)
        requires
            self.wf(),
        ensures
            outcome(r) == spec_udata_opt(self.dwarf.entries[self.entry as int], DW_AT_byte_size),
    {
        get_size_opt(&self.dwarf.entries[self.entry])
    }

    /// The alignment of this field, in bytes, if it is given.
    pub fn align(&self) -> (r: Result<Option<u64>, ReflectError>)
        requires
            self.wf(),
        ensures
            outcome(r) == spec_udata_opt(self.dwarf.entries[self.entry as int], DW_AT_alignment),
    {
        get_align(&self.dwarf.entries[self.entry])
    }

    /// The offset at which this field occurs; an error if it is not given.
    pub fn offset(&self) -> (r: Result<Offset<'d>, ReflectError>)
        requires
            self.wf(),
        ensures
            match spec_member_location(*self.dwarf, self.entry as int) {
                Ok(None) => outcome(r) == Err::<Offset<'d>, ErrorKind>(
                    ErrorKind::MissingAttr(MissingAttr { attr: DW_AT_data_member_location }),
                ),
                Ok(Some(inner)) => r matches Ok(o) && o.dwarf == self.dwarf && same_inner(o.inner, inner),
                Err(e) => outcome(r) == Err::<Offset<'d>, ErrorKind>(e),
            },
    {
        match Offset::from_die(self.dwarf, self.entry)? {
            Some(o) => Ok(o),
            None => fail(ErrorKind::missing_attr(DW_AT_data_member_location)),
        }
    }

    /// The type of this field.
    pub fn ty(&self) -> (r: Result<Type<'d>, ReflectError>)
        requires
            self.wf(),
        ensures
            match spec_type_res(*self.dwarf, self.dwarf.entries[self.entry as int]) {
                Ok(i) => from_die_spec(*self.dwarf, i as int, r),
                Err(e) => outcome(r) == Err::<Type<'d>, ErrorKind>(e),
            },
    {
        let ty = crate::lookup::get_type_res(self.dwarf, &self.dwarf.entries[self.entry])?;
        Type::from_die(self.dwarf, ty)
    }
}

} // verus!
