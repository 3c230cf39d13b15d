//! Schemas of arrays, `[T; N]`.
use vstd::prelude::*;

use crate::dwarf::{Unit, DW_AT_count, DW_TAG_array_type, DW_TAG_subrange_type};
use crate::err::{ErrorKind, MissingChild, ReflectError, TagMismatch};
use crate::lookup::{check_tag, fail, get_type, outcome, spec_check_tag, spec_type_res, spec_udata_req};
use crate::dwarf::spec_udata;
use crate::schema::children::children_of;
use crate::schema::types::{from_die_spec, size_error, type_error, type_ok, type_size, Type};

verus! {

/// A schema for an array, `[T; N]`.
#[derive(Clone, Copy)]
pub struct Array<'d> {
    /// The unit that describes the array type.
    pub dwarf: &'d Unit,
    /// The index of the array type's entry in the unit.
    pub entry: usize,
}

/// The length of the array type at index `entry`: the `DW_AT_count` of its
/// first child, which must be a subrange.
pub open spec fn spec_array_len(dwarf: Unit, entry: int) -> Result<u64, ErrorKind> {
    let children = children_of(dwarf, entry);
    if children.len() == 0 {
        Err(ErrorKind::MissingChild(MissingChild { tag: DW_TAG_subrange_type }))
    } else if children[0] >= dwarf.entries.len() {
        Err(ErrorKind::OutOfBounds)
    } else if dwarf.entries[children[0] as int].tag != DW_TAG_subrange_type {
        Err(ErrorKind::TagMismatch(TagMismatch {
            expected: DW_TAG_subrange_type,
            actual: dwarf.entries[children[0] as int].tag,
        }))
    } else {
        spec_udata_req(dwarf.entries[children[0] as int], DW_AT_count)
    }
}

/// The size in bytes of the array type at index `entry`, following at most
/// `fuel` nested array types: its length times the size of its element
/// type.
pub open spec fn spec_array_bytes(dwarf: Unit, entry: int, fuel: nat) -> Result<u64, ()>
    decreases fuel, 1nat,
{
    match (spec_array_len(dwarf, entry), spec_type_res(dwarf, dwarf.entries[entry])) {
        (Ok(len), Ok(elt)) => match type_size(dwarf, elt as int, fuel) {
            Ok(size) => if len * size <= u64::MAX {
                Ok((len * size) as u64)
            } else {
                Err(())
            },
            Err(()) => Err(()),
        },
        _ => Err(()),
    }
}

/// The error that computing the size of the array type at index `entry`
/// gives, following at most `fuel` nested array types: the length's error
/// where the length cannot be read; the element type's where the element
/// type cannot be found; the element size's where the element, a type that
/// the library handles, has no size; an arithmetic overflow where the
/// length times the element size does not fit in a `u64`. `None` where the
/// size can be computed, or where the element's entry does not describe a
/// type that the library handles (the error is then the one that reading
/// it as a type gives).
pub open spec fn array_error(dwarf: Unit, entry: int, fuel: nat) -> Option<ErrorKind>
    decreases fuel, 1nat,
{
    match spec_array_len(dwarf, entry) {
        Err(e) => Some(e),
        Ok(len) => match spec_type_res(dwarf, dwarf.entries[entry]) {
            Err(e) => Some(e),
            Ok(elt) => match type_size(dwarf, elt as int, fuel) {
                Ok(size) => if len * size > u64::MAX {
                    Some(ErrorKind::ArithmeticOverflow)
                } else {
                    None
                },
                Err(()) => if type_ok(dwarf, elt as int) {
                    size_error(dwarf, elt as int, fuel)
                } else {
                    None
                },
            },
        },
    }
}

/// What computing the size of the array type at index `entry` gives,
/// following at most `fuel` nested array types: the size where it can be
/// computed, else the error that `array_error` names, or, where the
/// element's entry does not describe a type that the library handles, the
/// error that reading it as a type gives.
pub open spec fn bytes_spec(dwarf: Unit, entry: int, fuel: nat, r: Result<u64, ReflectError>) -> bool {
    &&& r is Ok <==> spec_array_bytes(dwarf, entry, fuel) is Ok
    &&& r matches Ok(n) ==> spec_array_bytes(dwarf, entry, fuel) == Ok::<u64, ()>(n)
    &&& array_error(dwarf, entry, fuel) matches Some(e) ==> outcome(r) == Err::<u64, ErrorKind>(e)
    &&& match (spec_array_len(dwarf, entry), spec_type_res(dwarf, dwarf.entries[entry])) {
        (Ok(_), Ok(elt)) => !type_ok(dwarf, elt as int) ==> (r matches Err(x) && type_error(dwarf, elt as int, x.error)),
        _ => true,
    }
}

impl<'d> Array<'d> {
    /// Whether this designates an entry of its unit.
    pub open spec fn wf(&self) -> bool {
        self.entry < self.dwarf.entries.len()
    }

    /// Constructs an `Array` from the array type entry at index `entry`.
    pub fn from_dw_tag_array_type(dwarf: &'d Unit, entry: usize) -> (r: Result<Self, ReflectError>)
        requires
            entry < dwarf.entries.len(),
        ensures
            match spec_check_tag(dwarf.entries[entry as int], DW_TAG_array_type) {
                Ok(()) => r matches Ok(a) && a.dwarf == dwarf && a.entry == entry,
                Err(e) => outcome(r) == Err::<Self, ErrorKind>(e),
            },
    {
        check_tag(&dwarf.entries[entry], DW_TAG_array_type)?;
        Ok(Array { dwarf, entry })
    }

    /// The element type, `T`, of this array.
    pub fn elt_type(&self) -> (r: Result<Type<'d>, ReflectError>)
        requires
            self.wf(),
        ensures
            match spec_type_res(*self.dwarf, self.dwarf.entries[self.entry as int]) {
                Ok(i) => from_die_spec(*self.dwarf, i as int, r),
                Err(e) => outcome(r) == Err::<Type<'d>, ErrorKind>(e),
            },
    {
        let elt = crate::lookup::get_type_res(self.dwarf, &self.dwarf.entries[self.entry])?;
        Type::from_die(self.dwarf, elt)
    }

    /// The length, `N`, of this array.
    pub fn len(&self) -> (r: Result<u64, ReflectError>)
        requires
            self.wf(),
        ensures
            outcome(r) == spec_array_len(*self.dwarf, self.entry as int),
    {
        let children = &self.dwarf.entries[self.entry].children;
        if children.len() == 0 {
            return fail(ErrorKind::missing_child(DW_TAG_subrange_type));
        }
        let first = children[0];
        if first >= self.dwarf.entries.len() {
            return fail(ErrorKind::OutOfBounds);
        }
        let subrange = &self.dwarf.entries[first];
        check_tag(subrange, DW_TAG_subrange_type)?;
        crate::lookup::get_count(subrange)
    }

    /// The size of this array, in bytes. Arrays nested in it are followed as
    /// deep as the unit has entries besides this one.
    pub fn bytes(&self) -> (r: Result<u64, ReflectError>)
        requires
            self.wf(),
        ensures
            bytes_spec(*self.dwarf, self.entry as int, (self.dwarf.entries.len() - 1) as nat, r),
    {
        self.bytes_bounded(self.dwarf.entries.len() - 1)
    }

    /// The size of this array, in bytes, following at most `fuel` nested
    /// array types.
    pub fn bytes_bounded(&self, fuel: usize) -> (r: Result<u64, ReflectError>)
        requires
            self.wf(),
        ensures
            bytes_spec(*self.dwarf, self.entry as int, fuel as nat, r),
        decreases fuel, 1nat,
    {
        let len = self.len()?;
        let elt = crate::lookup::get_type_res(self.dwarf, &self.dwarf.entries[self.entry])?;
        let elt_type = Type::from_die(self.dwarf, elt)?;
        let elt_size = elt_type.size_bounded(fuel)?;
        match len.checked_mul(elt_size) {
            Some(n) => Ok(n),
            None => fail(ErrorKind::ArithmeticOverflow),
        }
    }
}

} // verus!
