//! Schemas of enums.
use vstd::prelude::*;

use crate::dwarf::{
    AttrValue, Unit, DW_AT_alignment, DW_AT_byte_size, DW_AT_data_member_location, DW_AT_discr,
    DW_AT_name, DW_AT_type, DW_TAG_enumeration_type, DW_TAG_structure_type, DW_TAG_variant_part,
};
use crate::err::{ErrorKind, MissingAttr, MissingChild, MissingEntry, ReflectError};
use crate::lookup::{
    check_tag, fail, get_align, get_attr_ref, get_size, get_type, outcome, spec_entry, spec_ref,
    spec_udata_opt, spec_udata_req,
};
use crate::schema::children::{find_last_child, last_child};
use crate::schema::name::{spec_attr_string, Name};
use crate::schema::offset::{same_inner, spec_member_location, Offset, OffsetInner};
use crate::schema::types::{from_die_spec, Type};
use crate::schema::variants::Variants;

verus! {

/// A schema for an enum.
#[derive(Clone, Copy)]
pub struct Enum<'d> {
    /// The unit that describes the enum.
    pub dwarf: &'d Unit,
    /// The index of the enum's entry in the unit.
    pub entry: usize,
    /// The unit offset of the entry of the discriminant's type.
    pub discr_type_offset: usize,
    /// The index of the member entry that holds the discriminant, if the
    /// discriminant is not at offset zero.
    pub discr_member: Option<usize>,
    /// The index of the entry whose children are the variants.
    pub variants_root: usize,
}

/// Whether the enumeration type at index `entry` describes an enum.
pub open spec fn enumeration_ok(dwarf: Unit, entry: int) -> bool {
    &&& dwarf.entries[entry].tag == DW_TAG_enumeration_type
    &&& spec_attr_string(dwarf.entries[entry], DW_AT_name) is Ok
    &&& spec_ref(dwarf.entries[entry], DW_AT_type) is Ok
}

/// The variant part and the discriminant member of the structure type at
/// index `entry`: its last variant part child, and the entry that its
/// `DW_AT_discr` refers to.
pub open spec fn variant_part_of(dwarf: Unit, entry: int) -> Option<(usize, usize)> {
    match last_child(dwarf, entry, DW_TAG_variant_part) {
        Ok(Some(vp)) => match dwarf.entries[vp as int].attr(DW_AT_discr) {
            Some(AttrValue::UnitRef(offset)) => match dwarf.index_at(offset) {
                Some(m) => Some((vp, m as usize)),
                None => None,
            },
            _ => None,
        },
        _ => None,
    }
}

/// Whether the structure type at index `entry` describes an enum: it has a
/// variant part whose discriminant member has a type and an offset.
pub open spec fn enum_struct_ok(dwarf: Unit, entry: int) -> bool {
    &&& dwarf.entries[entry].tag == DW_TAG_structure_type
    &&& spec_attr_string(dwarf.entries[entry], DW_AT_name) is Ok
    &&& variant_part_of(dwarf, entry) matches Some((vp, m))
    &&& spec_ref(dwarf.entries[m as int], DW_AT_type) is Ok
    &&& spec_member_location(dwarf, m as int) matches Ok(Some(_))
}

/// Whether `k` is the error that reading the enumeration type at index
/// `entry` as an enum gives: its tag's, its name's, or its `DW_AT_type`'s.
pub open spec fn enumeration_error(dwarf: Unit, entry: int, k: ErrorKind) -> bool {
    match crate::lookup::spec_check_tag(dwarf.entries[entry], DW_TAG_enumeration_type) {
        Err(e) => k == e,
        Ok(()) => match spec_attr_string(dwarf.entries[entry], DW_AT_name) {
            Err(e) => k == e,
            Ok(_) => spec_ref(dwarf.entries[entry], DW_AT_type) == Err::<usize, ErrorKind>(k),
        },
    }
}

/// Whether `k` is the error that reading the structure type at index
/// `entry` as an enum gives: its tag's; its name's; an index out of bounds
/// where a child lies outside the unit; a missing variant part; a missing
/// `DW_AT_discr` where the variant part does not refer to its discriminant
/// member; a missing entry where no entry lies at that offset; the error
/// of the discriminant member's type, or of its location, or a missing
/// location.
pub open spec fn enum_struct_error(dwarf: Unit, entry: int, k: ErrorKind) -> bool {
    match crate::lookup::spec_check_tag(dwarf.entries[entry], DW_TAG_structure_type) {
        Err(e) => k == e,
        Ok(()) => match spec_attr_string(dwarf.entries[entry], DW_AT_name) {
            Err(e) => k == e,
            Ok(_) => match last_child(dwarf, entry, DW_TAG_variant_part) {
                Err(()) => k == ErrorKind::OutOfBounds,
                Ok(None) => k == ErrorKind::MissingChild(MissingChild { tag: DW_TAG_variant_part }),
                Ok(Some(vp)) => match dwarf.entries[vp as int].attr(DW_AT_discr) {
                    Some(AttrValue::UnitRef(offset)) => match dwarf.index_at(offset) {
                        None => k == ErrorKind::MissingEntry(MissingEntry { offset }),
                        Some(m) => match spec_ref(dwarf.entries[m], DW_AT_type) {
                            Err(e) => k == e,
                            Ok(_) => match spec_member_location(dwarf, m) {
                                Err(e) => k == e,
                                Ok(None) => k == ErrorKind::MissingAttr(
                                    MissingAttr { attr: DW_AT_data_member_location },
                                ),
                                Ok(Some(_)) => false,
                            },
                        },
                    },
                    _ => k == ErrorKind::MissingAttr(MissingAttr { attr: DW_AT_discr }),
                },
            },
        },
    }
}

impl<'d> Enum<'d> {
    /// Whether this designates entries of its unit.
    pub open spec fn wf(&self) -> bool {
        &&& self.entry < self.dwarf.entries.len()
        &&& self.variants_root < self.dwarf.entries.len()
        &&& self.discr_member matches Some(m) ==> m < self.dwarf.entries.len()
    }

    /// Constructs an `Enum` from the enumeration type entry (a C-like enum)
    /// at index `entry`, whose discriminant is at offset zero.
    pub fn from_dw_tag_enumeration_type(dwarf: &'d Unit, entry: usize) -> (r: Result<Self, ReflectError>)
        requires
            entry < dwarf.entries.len(),
        ensures
            r is Ok <==> enumeration_ok(*dwarf, entry as int),
            r matches Err(x) ==> enumeration_error(*dwarf, entry as int, x.error),
            r matches Ok(e) ==> e.wf() && e.dwarf == dwarf && e.entry == entry && e.variants_root == entry
                && e.discr_member is None && spec_ref(dwarf.entries[entry as int], DW_AT_type)
                == Ok::<usize, ErrorKind>(e.discr_type_offset),
    {
        let die = &dwarf.entries[entry];
        check_tag(die, DW_TAG_enumeration_type)?;
        let _name = Name::from_die(die)?;
        let discr_type_offset = get_type(die)?;
        Ok(Enum { dwarf, entry, discr_type_offset, discr_member: None, variants_root: entry })
    }

    /// Constructs an `Enum` from the structure type entry (a Rust enum) at
    /// index `entry`, which must have a variant part.
    pub fn from_dw_tag_structure_type(dwarf: &'d Unit, entry: usize) -> (r: Result<Self, ReflectError>)
        requires
            entry < dwarf.entries.len(),
        ensures
            r is Ok <==> enum_struct_ok(*dwarf, entry as int),
            r matches Err(x) ==> enum_struct_error(*dwarf, entry as int, x.error),
            r matches Ok(e) ==> e.wf() && e.dwarf == dwarf && e.entry == entry && variant_part_of(
                *dwarf,
                entry as int,
            ) == Some((e.variants_root, e.discr_member->0)) && e.discr_member is Some && spec_ref(
                dwarf.entries[e.discr_member->0 as int],
                DW_AT_type,
            ) == Ok::<usize, ErrorKind>(e.discr_type_offset),
    {
        let die = &dwarf.entries[entry];
        check_tag(die, DW_TAG_structure_type)?;
        let _name = Name::from_die(die)?;
        let variant_part = find_last_child(dwarf, entry, DW_TAG_variant_part)?;
        let Some(variant_part) = variant_part else {
            return fail(ErrorKind::missing_child(DW_TAG_variant_part));
        };
        let Some(dw_at_discr) = get_attr_ref(&dwarf.entries[variant_part], DW_AT_discr) else {
            return fail(ErrorKind::missing_attr(DW_AT_discr));
        };
        let member = dwarf.entry(dw_at_discr)?;
        proof {
            crate::lookup::lemma_index_at_bound(*dwarf, dw_at_discr);
        }
        let discr_type_offset = get_type(&dwarf.entries[member])?;
        let location = Offset::from_die(dwarf, member)?;
        if location.is_none() {
            return fail(ErrorKind::missing_attr(DW_AT_data_member_location));
        }
        Ok(Enum { dwarf, entry, discr_type_offset, discr_member: Some(member), variants_root: variant_part })
    }

    /// The name of this enum.
    pub fn name(&self) -> (r: Result<Name, ReflectError>)
        requires
            self.wf(),
        ensures
            match spec_attr_string(self.dwarf.entries[self.entry as int], DW_AT_name) {
                Ok(s) => r matches Ok(n) && n.name@ == s,
                Err(e) => outcome(r) == Err::<Name, ErrorKind>(e),
            },
    {
        Name::from_die(&self.dwarf.entries[self.entry])
    }

    /// The type of this enum's discriminant.
    pub fn discriminant_type(&self) -> (r: Result<Type<'d>, ReflectError>)
        ensures
            match spec_entry(*self.dwarf, self.discr_type_offset) {
                Ok(i) => from_die_spec(*self.dwarf, i as int, r),
                Err(e) => outcome(r) == Err::<Type<'d>, ErrorKind>(e),
            },
    {
        let entry = self.dwarf.entry(self.discr_type_offset)?;
        proof {
            crate::lookup::lemma_index_at_bound(*self.dwarf, self.discr_type_offset);
        }
        Type::from_die(self.dwarf, entry)
    }

    /// The location of this enum's discriminant: offset zero for C-like
    /// enums, else the offset of the discriminant member.
    pub fn discriminant_location(&self) -> (r: Result<Offset<'d>, ReflectError>)
        requires
            self.wf(),
        ensures
            match self.discr_member {
                None => r matches Ok(o) && o.dwarf == self.dwarf && o.inner == OffsetInner::Udata(0),
                Some(m) => match spec_member_location(*self.dwarf, m as int) {
                    Ok(Some(inner)) => r matches Ok(o) && o.dwarf == self.dwarf && same_inner(o.inner, inner),
                    Ok(None) => outcome(r) == Err::<Offset<'d>, ErrorKind>(
                        ErrorKind::MissingAttr(crate::err::MissingAttr { attr: DW_AT_data_member_location }),
                    ),
                    Err(e) => outcome(r) == Err::<Offset<'d>, ErrorKind>(e),
                },
            },
    {
        match self.discr_member {
            None => Ok(Offset::zero(self.dwarf)),
            Some(m) => match Offset::from_die(self.dwarf, m)? {
                Some(o) => Ok(o),
                None => fail(ErrorKind::missing_attr(DW_AT_data_member_location)),
            },
        }
    }

    /// The variants of this enum.
    pub fn variants(&self) -> (r: Result<Variants<'d>, ReflectError>)
        requires
            self.wf(),
        ensures
            match spec_entry(*self.dwarf, self.discr_type_offset) {
                Ok(i) => (r is Ok <==> crate::schema::types::type_ok(*self.dwarf, i as int)),
                Err(e) => outcome(r) == Err::<Variants<'d>, ErrorKind>(e),
            },
            r matches Ok(v) ==> v.dwarf == self.dwarf && v.root == self.variants_root && v.wf()
                && v.discriminant_type.kind() == crate::schema::types::type_kind(
                *self.dwarf,
                spec_entry(*self.dwarf, self.discr_type_offset)->Ok_0 as int,
            ),
    {
        let discriminant_type = self.discriminant_type()?;
        Ok(Variants::from_tree(self.dwarf, self.variants_root, discriminant_type))
    }

    /// The size of this enum, in bytes.
    pub fn size(&self) -> (r: Result<u64, ReflectError>)
        requires
            self.wf(),
        ensures
            outcome(r) == spec_udata_req(self.dwarf.entries[self.entry as int], DW_AT_byte_size),
    {
        get_size(&self.dwarf.entries[self.entry])
    }

    /// The alignment of this enum, in bytes, if it is given.
    pub fn align(&self) -> (r: Result<Option<u64>, ReflectError>)
        requires
            self.wf(),
        ensures
            outcome(r) == spec_udata_opt(self.dwarf.entries[self.entry as int], DW_AT_alignment),
    {
        get_align(&self.dwarf.entries[self.entry])
    }
}

} // verus!
