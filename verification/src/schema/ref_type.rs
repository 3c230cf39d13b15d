//! Schemas of pointer types, read directly from their entries.
use vstd::prelude::*;

use crate::dwarf::{Unit, DW_AT_byte_size, DW_AT_name, DW_TAG_pointer_type};
use crate::err::{ErrorKind, ReflectError};
use crate::lookup::{check_tag, get_size, get_type_res, outcome, spec_check_tag, spec_type_res, spec_udata_req};
use crate::schema::name::{spec_attr_string, Name};
use crate::schema::types::{from_die_spec, Type};

verus! {

/// A pointer type.
#[derive(Clone, Copy)]
pub struct Ref<'d> {
    /// The unit that describes the type.
    pub dwarf: &'d Unit,
    /// The index of the type's entry in the unit.
    pub entry: usize,
}

impl<'d> Ref<'d> {
    /// Whether this designates an entry of its unit.
    pub open spec fn wf(&self) -> bool {
        self.entry < self.dwarf.entries.len()
    }

    /// Constructs a `Ref` from the pointer type entry at index `entry`.
    pub fn from_dw_pointer_type(dwarf: &'d Unit, entry: usize) -> (r: Result<Self, ReflectError>)
        requires
            entry < dwarf.entries.len(),
        ensures
            match spec_check_tag(dwarf.entries[entry as int], DW_TAG_pointer_type) {
                Ok(()) => r matches Ok(p) && p.dwarf == dwarf && p.entry == entry,
                Err(e) => outcome(r) == Err::<Self, ErrorKind>(e),
            },
    {
        check_tag(&dwarf.entries[entry], DW_TAG_pointer_type)?;
        Ok(Ref { dwarf, entry })
    }

    /// The name of this pointer type.
    pub fn name(&self) -> (r: Result<Name, ReflectError>)
        requires
            self.wf(),
        ensures
            match spec_attr_string(self.dwarf.entries[self.entry as int], DW_AT_name) {
                Ok(s) => r matches Ok(n) && n.name@ == s,
                Err(e) => outcome(r) == Err::<Name, ErrorKind>(e),
            },
    {
        Name::from_die(&self.dwarf.entries[self.entry])
    }

    /// The size of this type, in bytes.
    pub fn size(&self) -> (r: Result<u64, ReflectError>)
        requires
            self.wf(),
        ensures
            outcome(r) == spec_udata_req(self.dwarf.entries[self.entry as int], DW_AT_byte_size),
    {
        get_size(&self.dwarf.entries[self.entry])
    }

    /// The type of the referent.
    pub fn ty(&self) -> (r: Result<Type<'d>, ReflectError>)
        requires
            self.wf(),
        ensures
            match spec_type_res(*self.dwarf, self.dwarf.entries[self.entry as int]) {
                Ok(i) => from_die_spec(*self.dwarf, i as int, r),
                Err(e) => outcome(r) == Err::<Type<'d>, ErrorKind>(e),
            },
    {
        let ty = get_type_res(self.dwarf, &self.dwarf.entries[self.entry])?;
        Type::from_die(self.dwarf, ty)
    }
}

} // verus!
