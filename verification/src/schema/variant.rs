//! Variants of enums.
use vstd::prelude::*;

use crate::dwarf::{AttrValue, Unit, DW_AT_alignment, DW_AT_byte_size, DW_AT_decl_file, DW_AT_name};
use crate::err::{ErrorKind, ReflectError};
use crate::lookup::{get_align, get_file, get_size_opt, outcome, spec_file, spec_file_path, spec_get, spec_udata_opt};
use crate::schema::fields::Fields;
use crate::schema::name::{spec_attr_string, Name};

verus! {

/// A static value, such as the discriminant of an enum variant.
#[allow(non_camel_case_types)]
#[derive(Clone, Copy, PartialEq, Eq, Structural)]
pub enum Data {
    /// A byte of data.
    u8(u8),
    /// Two bytes of data.
    u16(u16),
    /// Four bytes of data.
    u32(u32),
    /// Eight bytes of data.
    u64(u64),
}

/// A variant of an enum.
#[derive(Clone, Copy)]
pub struct Variant<'d> {
    /// The unit that describes the variant.
    pub dwarf: &'d Unit,
    /// The index of the variant's entry in the unit.
    pub entry: usize,
    /// The discriminant value that selects this variant, if any; a variant
    /// without one is the default.
    pub discriminant_val: Option<Data>,
    /// The position of the variant among the enum's variants.
    pub index: usize,
}

impl<'d> Variant<'d> {
    /// Whether this designates an entry of its unit.
    pub open spec fn wf(&self) -> bool {
        self.entry < self.dwarf.entries.len()
    }

    /// Constructs a `Variant`.
    pub fn new(dwarf: &'d Unit, entry: usize, discriminant_val: Option<Data>, index: usize) -> (r: Self)
        ensures
            r.dwarf == dwarf,
            r.entry == entry,
            r.discriminant_val == discriminant_val,
            r.index == index,
    {
        Variant { dwarf, entry, discriminant_val, index }
    }

    /// The name of this variant.
    pub fn name(&self) -> (r: Result<Name, ReflectError>)
        requires
            self.wf(),
        ensures
            match spec_attr_string(self.dwarf.entries[self.entry as int], DW_AT_name) {
                Ok(s) => r matches Ok(n) && n.name@ == s,
                Err(e) => outcome(r) == Err::<Name, ErrorKind>(e),
            },
    {
        Name::from_die(&self.dwarf.entries[self.entry])
    }

    /// The size of this variant, in bytes, if it is given.
    pub fn size(&self) -> (r: Result<Option<u64>, ReflectError>)
        requires
            self.wf(),
        ensures
            outcome(r) == spec_udata_opt(self.dwarf.entries[self.entry as int], DW_AT_byte_size),
    {
        get_size_opt(&self.dwarf.entries[self.entry])
    }

    /// The alignment of this variant, in bytes, if it is given.
    pub fn align(&self) -> (r: Result<Option<u64>, ReflectError>)
        requires
            self.wf(),
        ensures
            outcome(r) == spec_udata_opt(self.dwarf.entries[self.entry as int], DW_AT_alignment),
    {
        get_align(&self.dwarf.entries[self.entry])
    }

    /// The file the variant was defined in, if available.
    pub fn file(&self) -> (r: Result<Option<String>, ReflectError>)
        requires
            self.wf(),
        ensures
            match spec_get(self.dwarf.entries[self.entry as int], DW_AT_decl_file) {
                Err(e) => outcome(r) == Err::<Option<String>, ErrorKind>(e),
                Ok(AttrValue::FileIndex(index)) => match spec_file(*self.dwarf, index) {
                    Some(f) => r matches Ok(Some(s)) && s@ == spec_file_path(f),
                    None => r matches Ok(None),
                },
                Ok(_) => r matches Ok(None),
            },
    {
        get_file(self.dwarf, &self.dwarf.entries[self.entry])
    }

    /// The discriminant value, if any.
    pub fn discriminant_value(&self) -> (r: &Option<Data>)
        ensures
            *r == self.discriminant_val,
    {
        &self.discriminant_val
    }

    /// The fields of this variant: the members among its entry's children.
    pub fn fields(&self) -> (r: Result<Fields<'d>, ReflectError>)
        requires
            self.wf(),
        ensures
            r matches Ok(f) && f.dwarf == self.dwarf && f.entry == self.entry,
    {
        Ok(Fields::from_tree(self.dwarf, self.entry))
    }

    /// The position of the variant among the enum's variants.
    pub fn index(&self) -> (r: usize)
        ensures
            r == self.index,
    {
        self.index
    }
}

} // verus!
