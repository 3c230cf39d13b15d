//! Schemas of slices, `&[T]`, and of string slices, `&str`.
use vstd::prelude::*;

use crate::dwarf::{Unit, DW_AT_alignment, DW_AT_byte_size, DW_AT_name, DW_TAG_member, DW_TAG_structure_type};
use crate::err::{ErrorKind, MissingChild, ReflectError};
use crate::lookup::{fail, get_align, get_size, outcome, spec_entry, spec_ref, spec_udata_opt, spec_udata_req};
use crate::schema::bytes::{
    bytes_end_with, bytes_start_with, close_bracket, close_bracket_bytes, ends_with, slice_prefix,
    slice_prefix_bytes, starts_with, str_name, str_name_bytes,
};
use crate::schema::atom::bytes_eq;
use crate::text::utf8_lossy_chars;
use crate::schema::children::first_two;
use crate::schema::fields::lemma_scan_tag_bound;
use crate::schema::field::Field;
use crate::schema::name::{spec_attr_string, Name};
use crate::schema::pointer::{Mut, Pointer};
use crate::schema::struct_type::Struct;
use crate::schema::types::{from_die_spec, type_kind, type_ok, Type, TypeKind};

verus! {

/// The error that looking for the first two members among the children of
/// the entry at index `entry` gives: a missing member where it has fewer
/// than two; an index out of bounds where a child examined lies outside
/// the unit's entries.
pub open spec fn first_two_error(dwarf: Unit, entry: int) -> Option<ErrorKind> {
    let children = dwarf.entries[entry].children@;
    match crate::schema::fields::scan_tag(dwarf, children, 0, DW_TAG_member) {
        Err(()) => Some(ErrorKind::OutOfBounds),
        Ok(None) => Some(ErrorKind::MissingChild(MissingChild { tag: DW_TAG_member })),
        Ok(Some(k)) => match crate::schema::fields::scan_tag(dwarf, children, k + 1, DW_TAG_member) {
            Err(()) => Some(ErrorKind::OutOfBounds),
            Ok(None) => Some(ErrorKind::MissingChild(MissingChild { tag: DW_TAG_member })),
            Ok(Some(_)) => None,
        },
    }
}

/// The first two fields of the struct at index `entry`.
pub fn first_two_fields<'d>(dwarf: &'d Unit, entry: usize) -> (r: Result<(Field<'d>, Field<'d>), ReflectError>)
    requires
        entry < dwarf.entries.len(),
    ensures
        r matches Err(x) ==> first_two_error(*dwarf, entry as int) == Some(x.error),
        r is Ok <==> first_two(*dwarf, entry as int, DW_TAG_member) is Some,
        r matches Ok((a, b)) ==> first_two(*dwarf, entry as int, DW_TAG_member) == Some((a.entry, b.entry))
            && a.dwarf == dwarf && b.dwarf == dwarf && a.wf() && b.wf(),
{
    let fields = crate::schema::fields::Fields::from_tree(dwarf, entry);
    let mut iter = fields.iter()?;
    let first = iter.try_next()?;
    let Some(first) = first else { return fail(ErrorKind::missing_child(DW_TAG_member)) };
    proof {
        lemma_scan_tag_bound(*dwarf, dwarf.entries[entry as int].children@, 0, DW_TAG_member);
    }
    let ghost after_first = iter.next as int;
    let second = iter.try_next()?;
    let Some(second) = second else { return fail(ErrorKind::missing_child(DW_TAG_member)) };
    proof {
        lemma_scan_tag_bound(*dwarf, dwarf.entries[entry as int].children@, after_first, DW_TAG_member);
    }
    Ok((first, second))
}

/// Whether `k` is the error that reading the structure type at index
/// `entry` as a slice gives: its tag's, its name's, a name mismatch where
/// its name is not of the form `&[...]`, or the error of looking for its
/// first two members.
pub open spec fn slice_error(dwarf: Unit, entry: int, k: ErrorKind) -> bool {
    match crate::lookup::spec_check_tag(dwarf.entries[entry], DW_TAG_structure_type) {
        Err(e) => k == e,
        Ok(()) => match spec_attr_string(dwarf.entries[entry], DW_AT_name) {
            Err(e) => k == e,
            Ok(n) => if !(starts_with(n, slice_prefix()) && ends_with(n, close_bracket())) {
                &&& k matches ErrorKind::NameMismatch(x)
                &&& x.expected@ == "&[T]"@
                &&& x.actual@ == utf8_lossy_chars(n)
            } else {
                first_two_error(dwarf, entry) == Some(k)
            },
        },
    }
}

/// Whether `k` is the error that reading the structure type at index
/// `entry` as a string slice gives: its tag's, its name's, a name mismatch
/// where it is not named `&str`, or the error of looking for its first two
/// members.
pub open spec fn str_error(dwarf: Unit, entry: int, k: ErrorKind) -> bool {
    match crate::lookup::spec_check_tag(dwarf.entries[entry], DW_TAG_structure_type) {
        Err(e) => k == e,
        Ok(()) => match spec_attr_string(dwarf.entries[entry], DW_AT_name) {
            Err(e) => k == e,
            Ok(n) => if n != str_name() {
                &&& k matches ErrorKind::NameMismatch(x)
                &&& x.expected@ == "&str"@
                &&& x.actual@ == utf8_lossy_chars(n)
            } else {
                first_two_error(dwarf, entry) == Some(k)
            },
        },
    }
}

/// Whether the structure type at index `entry` describes a slice: it is
/// named `&[...]` and has two fields.
pub open spec fn slice_ok(dwarf: Unit, entry: int) -> bool {
    &&& dwarf.entries[entry].tag == DW_TAG_structure_type
    &&& spec_attr_string(dwarf.entries[entry], DW_AT_name) matches Ok(n)
    &&& starts_with(n, slice_prefix())
    &&& ends_with(n, close_bracket())
    &&& first_two(dwarf, entry, DW_TAG_member) is Some
}

/// Whether the structure type at index `entry` describes a string slice:
/// it is named `&str` and has two fields.
pub open spec fn str_ok(dwarf: Unit, entry: int) -> bool {
    &&& dwarf.entries[entry].tag == DW_TAG_structure_type
    &&& spec_attr_string(dwarf.entries[entry], DW_AT_name) == Ok::<Seq<u8>, ErrorKind>(str_name())
    &&& first_two(dwarf, entry, DW_TAG_member) is Some
}

/// A schema for a slice, `&[T]`: a struct of a data pointer and a length.
#[derive(Clone, Copy)]
pub struct Slice<'d> {
    /// The slice, as a struct.
    pub schema: Struct<'d>,
    /// The `data_ptr` field.
    pub data_ptr: Field<'d>,
    /// The `length` field.
    pub length: Field<'d>,
}

impl<'d> Slice<'d> {
    /// Whether the parts of this schema designate entries of their unit.
    pub open spec fn wf(&self) -> bool {
        &&& self.schema.wf()
        &&& self.data_ptr.wf()
        &&& self.length.wf()
        &&& self.data_ptr.dwarf == self.schema.dwarf
        &&& self.length.dwarf == self.schema.dwarf
        &&& crate::schema::children::first_two(*self.schema.dwarf, self.schema.entry as int, crate::dwarf::DW_TAG_member)
            == Some((self.data_ptr.entry, self.length.entry))
    }

    /// Constructs a `Slice` from the structure type entry at index `entry`,
    /// which must be named `&[...]` and have two fields.
    pub fn from_dw_tag_structure_type(dwarf: &'d Unit, entry: usize) -> (r: Result<Self, ReflectError>)
        requires
            entry < dwarf.entries.len(),
        ensures
            r is Ok <==> slice_ok(*dwarf, entry as int),
            r matches Err(x) ==> slice_error(*dwarf, entry as int, x.error),
            r matches Ok(s) ==> s.wf() && s.schema.dwarf == dwarf && s.schema.entry == entry
                && first_two(*dwarf, entry as int, DW_TAG_member) == Some((s.data_ptr.entry, s.length.entry)),
            dwarf.entries[entry as int].tag == DW_TAG_structure_type ==> match spec_attr_string(
                dwarf.entries[entry as int],
                DW_AT_name,
            ) {
                Ok(n) => !(starts_with(n, slice_prefix()) && ends_with(n, close_bracket())) ==> (outcome(r) matches Err(
                    ErrorKind::NameMismatch(x),
                ) && x.expected@ == "&[T]"@ && x.actual@ == utf8_lossy_chars(n)),
                Err(_) => true,
            },
    {
        let schema = Struct::from_dw_tag_structure_type(dwarf, entry)?;
        let name = Name::from_die(&dwarf.entries[entry])?;
        let n = name.name.as_slice();
        if !(bytes_start_with(n, slice_prefix_bytes().as_slice()) && bytes_end_with(n, close_bracket_bytes().as_slice())) {
            let actual = name.to_string_lossy()?;
            return fail(ErrorKind::name_mismatch("&[T]", actual));
        }
        let (data_ptr, length) = first_two_fields(dwarf, entry)?;
        Ok(Slice { schema, data_ptr, length })
    }

    /// The `data_ptr` field of this slice.
    pub fn data_ptr(&self) -> (r: Field<'d>)
        ensures
            r == self.data_ptr,
            self.wf() ==> (crate::schema::children::first_two(
                *self.schema.dwarf,
                self.schema.entry as int,
                crate::dwarf::DW_TAG_member,
            ) matches Some(p) && r.entry == p.0),
    {
        self.data_ptr
    }

    /// The `length` field of this slice.
    pub fn length(&self) -> (r: &Field<'d>)
        ensures
            *r == self.length,
            self.wf() ==> (crate::schema::children::first_two(
                *self.schema.dwarf,
                self.schema.entry as int,
                crate::dwarf::DW_TAG_member,
            ) matches Some(p) && r.entry == p.1),
    {
        &self.length
    }

    /// The element type of this slice: the referent of its data pointer,
    /// which must be a `*mut` pointer.
    pub fn elt(&self) -> (r: Result<Type<'d>, ReflectError>)
        requires
            self.wf(),
        ensures
            elt_spec(*self.schema.dwarf, self.data_ptr.entry as int, r),
            r is Ok <==> elt_of_ok(*self.schema.dwarf, self.data_ptr.entry as int),
            r matches Ok(t) ==> from_die_spec(
                *self.schema.dwarf,
                elt_entry(*self.schema.dwarf, self.data_ptr.entry as int),
                Ok::<Type<'d>, ReflectError>(t),
            ),
    {
        elt_of(self.data_ptr)
    }

    /// The size of this slice, in bytes.
    pub fn size(&self) -> (r: Result<u64, ReflectError>)
        requires
            self.wf(),
        ensures
            outcome(r) == spec_udata_req(self.schema.dwarf.entries[self.schema.entry as int], DW_AT_byte_size),
    {
        get_size(&self.schema.dwarf.entries[self.schema.entry])
    }

    /// The alignment of this slice, in bytes, if it is given.
    pub fn align(&self) -> (r: Result<Option<u64>, ReflectError>)
        requires
            self.wf(),
        ensures
            outcome(r) == spec_udata_opt(self.schema.dwarf.entries[self.schema.entry as int], DW_AT_alignment),
    {
        get_align(&self.schema.dwarf.entries[self.schema.entry])
    }
}

/// Whether the field at index `field` has a `*mut` pointer type whose
/// referent's type entry can be read.
pub open spec fn elt_of_ok(dwarf: Unit, field: int) -> bool {
    &&& crate::lookup::spec_type_res(dwarf, dwarf.entries[field]) matches Ok(p)
    &&& type_ok(dwarf, p as int)
    &&& type_kind(dwarf, p as int) == TypeKind::MutPtr
    &&& spec_ref(dwarf.entries[p as int], crate::dwarf::DW_AT_type) matches Ok(t)
    &&& spec_entry(dwarf, t) matches Ok(e)
    &&& type_ok(dwarf, e as int)
}

/// The index of the entry of the referent type of the data pointer field at
/// index `field`.
pub open spec fn elt_entry(dwarf: Unit, field: int) -> int {
    let p = crate::lookup::spec_type_res(dwarf, dwarf.entries[field])->Ok_0;
    let t = spec_ref(dwarf.entries[p as int], crate::dwarf::DW_AT_type)->Ok_0;
    spec_entry(dwarf, t)->Ok_0 as int
}

/// What reading the element type through the data pointer field at index
/// `field` gives: where reading the field's type fails, what that read
/// gives, unchanged; where the field's type is not a `*mut` pointer, an
/// invalid `DW_AT_type`; else what reading the pointer's referent type gives.
pub open spec fn elt_spec<'d>(dwarf: Unit, field: int, r: Result<Type<'d>, ReflectError>) -> bool {
    match crate::lookup::spec_type_res(dwarf, dwarf.entries[field]) {
        Err(e) => outcome(r) == Err::<Type<'d>, ErrorKind>(e),
        Ok(p) => if !type_ok(dwarf, p as int) {
            from_die_spec(dwarf, p as int, r)
        } else if type_kind(dwarf, p as int) != TypeKind::MutPtr {
            outcome(r) == Err::<Type<'d>, ErrorKind>(
                ErrorKind::InvalidAttr(crate::err::InvalidAttr { attr: crate::dwarf::DW_AT_type }),
            )
        } else {
            match spec_entry(dwarf, spec_ref(dwarf.entries[p as int], crate::dwarf::DW_AT_type)->Ok_0) {
                Ok(e) => from_die_spec(dwarf, e as int, r),
                Err(x) => outcome(r) == Err::<Type<'d>, ErrorKind>(x),
            }
        },
    }
}

/// The referent type of a data pointer field, which must be a `*mut` pointer.
pub fn elt_of<'d>(data_ptr: Field<'d>) -> (r: Result<Type<'d>, ReflectError>)
    requires
        data_ptr.wf(),
    ensures
        elt_spec(*data_ptr.dwarf, data_ptr.entry as int, r),
        r is Ok <==> elt_of_ok(*data_ptr.dwarf, data_ptr.entry as int),
        r matches Ok(t) ==> from_die_spec(
            *data_ptr.dwarf,
            elt_entry(*data_ptr.dwarf, data_ptr.entry as int),
            Ok::<Type<'d>, ReflectError>(t),
        ),
{
    let ty = data_ptr.ty()?;
    if let Type::MutPtr(p) = ty {
        p.ty()
    } else {
        fail(ErrorKind::invalid_attr(crate::dwarf::DW_AT_type))
    }
}

/// A schema for a string slice, `&str`: a struct of a data pointer and a
/// length.
#[derive(Clone, Copy)]
pub struct Str<'d> {
    /// The string slice, as a struct.
    pub schema: Struct<'d>,
    /// The `data_ptr` field.
    pub data_ptr: Field<'d>,
    /// The `length` field.
    pub length: Field<'d>,
}

impl<'d> Str<'d> {
    /// Whether the parts of this schema designate entries of their unit.
    pub open spec fn wf(&self) -> bool {
        &&& self.schema.wf()
        &&& self.data_ptr.wf()
        &&& self.length.wf()
        &&& self.data_ptr.dwarf == self.schema.dwarf
        &&& self.length.dwarf == self.schema.dwarf
        &&& crate::schema::children::first_two(*self.schema.dwarf, self.schema.entry as int, crate::dwarf::DW_TAG_member)
            == Some((self.data_ptr.entry, self.length.entry))
    }

    /// Constructs a `Str` from the structure type entry at index `entry`,
    /// which must be named `&str` and have two fields.
    pub fn from_dw_tag_structure_type(dwarf: &'d Unit, entry: usize) -> (r: Result<Self, ReflectError>)
        requires
            entry < dwarf.entries.len(),
        ensures
            r is Ok <==> str_ok(*dwarf, entry as int),
            r matches Err(x) ==> str_error(*dwarf, entry as int, x.error),
            r matches Ok(s) ==> s.wf() && s.schema.dwarf == dwarf && s.schema.entry == entry
                && first_two(*dwarf, entry as int, DW_TAG_member) == Some((s.data_ptr.entry, s.length.entry)),
    {
        let schema = Struct::from_dw_tag_structure_type(dwarf, entry)?;
        let name = Name::from_die(&dwarf.entries[entry])?;
        if !bytes_eq(name.name.as_slice(), str_name_bytes().as_slice()) {
            let actual = name.to_string_lossy()?;
            return fail(ErrorKind::name_mismatch("&str", actual));
        }
        let (data_ptr, length) = first_two_fields(dwarf, entry)?;
        Ok(Str { schema, data_ptr, length })
    }

    /// The `data_ptr` field of this string slice.
    pub fn data_ptr(&self) -> (r: Field<'d>)
        ensures
            r == self.data_ptr,
            self.wf() ==> (crate::schema::children::first_two(
                *self.schema.dwarf,
                self.schema.entry as int,
                crate::dwarf::DW_TAG_member,
            ) matches Some(p) && r.entry == p.0),
    {
        self.data_ptr
    }

    /// The `length` field of this string slice.
    pub fn length(&self) -> (r: &Field<'d>)
        ensures
            *r == self.length,
            self.wf() ==> (crate::schema::children::first_two(
                *self.schema.dwarf,
                self.schema.entry as int,
                crate::dwarf::DW_TAG_member,
            ) matches Some(p) && r.entry == p.1),
    {
        &self.length
    }

    /// The size of this string slice, in bytes.
    pub fn size(&self) -> (r: Result<u64, ReflectError>)
        requires
            self.wf(),
        ensures
            outcome(r) == spec_udata_req(self.schema.dwarf.entries[self.schema.entry as int], DW_AT_byte_size),
    {
        get_size(&self.schema.dwarf.entries[self.schema.entry])
    }
}

} // verus!
