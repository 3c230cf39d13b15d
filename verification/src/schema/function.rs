//! Schemas of function types.
use vstd::prelude::*;

use crate::dwarf::{Unit, DW_AT_name, DW_TAG_subroutine_type};
use crate::err::{ErrorKind, ReflectError};
use crate::lookup::{check_tag, outcome, spec_check_tag};
use crate::schema::name::{spec_attr_string_opt, Name};

verus! {

/// A function type.
#[derive(Clone, Copy)]
pub struct Function<'d> {
    /// The unit that describes the function type.
    pub dwarf: &'d Unit,
    /// The index of the function type's entry in the unit.
    pub entry: usize,
}

impl<'d> Function<'d> {
    /// Whether this designates an entry of its unit.
    pub open spec fn wf(&self) -> bool {
        self.entry < self.dwarf.entries.len()
    }

    /// Constructs a `Function` from the subroutine type entry at index `entry`.
    pub fn from_dw_tag_subroutine_type(dwarf: &'d Unit, entry: usize) -> (r: Result<Self, ReflectError>)
        requires
            entry < dwarf.entries.len(),
        ensures
            match spec_check_tag(dwarf.entries[entry as int], DW_TAG_subroutine_type) {
                Ok(()) => r matches Ok(f) && f.dwarf == dwarf && f.entry == entry,
                Err(e) => outcome(r) == Err::<Self, ErrorKind>(e),
            },
    {
        check_tag(&dwarf.entries[entry], DW_TAG_subroutine_type)?;
        Ok(Function { dwarf, entry })
    }

    /// The name of this type, if it has one.
    pub fn name(&self) -> (r: Result<Option<Name>, ReflectError>)
        requires
            self.wf(),
        ensures
            match spec_attr_string_opt(self.dwarf.entries[self.entry as int], DW_AT_name) {
                Ok(Some(s)) => r matches Ok(Some(n)) && n.name@ == s,
                Ok(None) => r matches Ok(None),
                Err(e) => outcome(r) == Err::<Option<Name>, ErrorKind>(e),
            },
    {
        Name::from_die_opt(&self.dwarf.entries[self.entry])
    }
}

} // verus!
