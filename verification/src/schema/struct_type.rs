//! Schemas of structs.
use vstd::prelude::*;

use crate::dwarf::{Unit, DW_AT_alignment, DW_AT_byte_size, DW_AT_name, DW_TAG_structure_type};
use crate::err::{ErrorKind, ReflectError};
use crate::lookup::{check_tag, get_align, get_size, outcome, spec_check_tag, spec_udata_opt, spec_udata_req};
use crate::schema::fields::Fields;
use crate::schema::name::{spec_attr_string, Name};

verus! {

/// A Rust-like `struct`.
#[derive(Clone, Copy)]
pub struct Struct<'d> {
    /// The unit that describes the struct.
    pub dwarf: &'d Unit,
    /// The index of the struct's entry in the unit.
    pub entry: usize,
}

impl<'d> Struct<'d> {
    /// Whether this designates an entry of its unit.
    pub open spec fn wf(&self) -> bool {
        self.entry < self.dwarf.entries.len()
    }

    /// Constructs a `Struct` from the structure type entry at index `entry`.
    pub fn from_dw_tag_structure_type(dwarf: &'d Unit, entry: usize) -> (r: Result<Self, ReflectError>)
        requires
            entry < dwarf.entries.len(),
        ensures
            match spec_check_tag(dwarf.entries[entry as int], DW_TAG_structure_type) {
                Ok(()) => r matches Ok(s) && s.dwarf == dwarf && s.entry == entry,
                Err(e) => outcome(r) == Err::<Self, ErrorKind>(e),
            },
    {
        check_tag(&dwarf.entries[entry], DW_TAG_structure_type)?;
        Ok(Struct { dwarf, entry })
    }

    /// The name of this struct.
    pub fn name(&self) -> (r: Result<Name, ReflectError>)
        requires
            self.wf(),
        ensures
            match spec_attr_string(self.dwarf.entries[self.entry as int], DW_AT_name) {
                Ok(s) => r matches Ok(n) && n.name@ == s,
                Err(e) => outcome(r) == Err::<Name, ErrorKind>(e),
            },
    {
        Name::from_die(&self.dwarf.entries[self.entry])
    }

    /// The size of this struct, in bytes.
    pub fn size(&self) -> (r: Result<u64, ReflectError>)
        requires
            self.wf(),
        ensures
            outcome(r) == spec_udata_req(self.dwarf.entries[self.entry as int], DW_AT_byte_size),
    {
        get_size(&self.dwarf.entries[self.entry])
    }

    /// The alignment of this struct, in bytes, if it is given.
    pub fn align(&self) -> (r: Result<Option<u64>, ReflectError>)
        requires
            self.wf(),
        ensures
            outcome(r) == spec_udata_opt(self.dwarf.entries[self.entry as int], DW_AT_alignment),
    {
        get_align(&self.dwarf.entries[self.entry])
    }

    /// The fields of this struct.
    pub fn fields(&self) -> (r: Result<Fields<'d>, ReflectError>)
        requires
            self.wf(),
        ensures
            r matches Ok(f) && f.dwarf == self.dwarf && f.entry == self.entry,
    {
        Ok(Fields::from_tree(self.dwarf, self.entry))
    }
}

} // verus!
