//! The discriminants of enums, and the values that select their variants.
use vstd::prelude::*;

use crate::dwarf::{
    AttrValue, Unit, DW_AT_alignment, DW_AT_data_member_location, DW_AT_discr, DW_TAG_enumeration_type,
    DW_TAG_variant_part,
};
use crate::err::{ErrorKind, MissingAttr, ReflectError};
use crate::lookup::{check_tag, fail, get_align, get_attr_ref, get_type, outcome, spec_check_tag, spec_entry, spec_ref, spec_udata_opt};
use crate::schema::offset::{same_inner, spec_member_location, Offset, OffsetInner};
use crate::schema::types::{from_die_spec, Type};
use crate::value::pointers::to_usize;

verus! {

/// The discriminant of an enum: its type, its alignment and its location.
pub struct Discriminant<'d> {
    /// The type of the discriminant.
    pub ty: Type<'d>,
    /// The alignment of the discriminant, in bytes.
    pub align: usize,
    /// The location of the discriminant within a value of the enum.
    pub location: Offset<'d>,
}

/// Whether `d` is the discriminant that the variant part entry at index
/// `entry` describes: of the type and at the location of the member that its
/// `DW_AT_discr` refers to, of the alignment it gives (one where it gives
/// none).
pub open spec fn part_discriminant<'d>(dwarf: Unit, entry: int, d: Discriminant<'d>) -> bool {
    match dwarf.entries[entry].attr(DW_AT_discr) {
        Some(AttrValue::UnitRef(m)) => match spec_entry(dwarf, m) {
            Ok(mi) => match spec_ref(dwarf.entries[mi as int], crate::dwarf::DW_AT_type) {
                Ok(t) => match spec_entry(dwarf, t) {
                    Ok(ti) => {
                        &&& from_die_spec(dwarf, ti as int, Ok::<Type<'d>, ReflectError>(d.ty))
                        &&& match spec_udata_opt(dwarf.entries[entry], DW_AT_alignment) {
                            Ok(Some(a)) => d.align as u64 == a,
                            Ok(None) => d.align == 1,
                            Err(_) => false,
                        }
                        &&& spec_member_location(dwarf, mi as int) matches Ok(Some(inner))
                        &&& same_inner(d.location.inner, inner)
                        &&& *d.location.dwarf == dwarf
                    },
                    Err(_) => false,
                },
                Err(_) => false,
            },
            Err(_) => false,
        },
        _ => false,
    }
}

impl<'d> Discriminant<'d> {
    /// The discriminant of the C-like enum whose enumeration type entry is at
    /// index `entry`: of the enumeration's underlying type and alignment, at
    /// offset zero.
    pub fn from_dw_tag_enumeration_type(dwarf: &'d Unit, entry: usize) -> (r: Result<Self, ReflectError>)
        requires
            entry < dwarf.entries.len(),
        ensures
            spec_check_tag(dwarf.entries[entry as int], DW_TAG_enumeration_type) matches Err(e) ==> outcome(r)
                == Err::<Self, ErrorKind>(e),
            r matches Ok(d) ==> spec_ref(dwarf.entries[entry as int], crate::dwarf::DW_AT_type) matches Ok(t)
                && spec_entry(*dwarf, t) matches Ok(i) && from_die_spec(*dwarf, i as int, Ok::<Type<'d>, ReflectError>(d.ty))
                && spec_udata_opt(dwarf.entries[entry as int], DW_AT_alignment) == Ok::<Option<u64>, ErrorKind>(
                Some(d.align as u64),
            ) && d.location.dwarf == dwarf && d.location.inner == OffsetInner::Udata(0),
            spec_udata_opt(dwarf.entries[entry as int], DW_AT_alignment) == Ok::<Option<u64>, ErrorKind>(None)
                && spec_check_tag(dwarf.entries[entry as int], DW_TAG_enumeration_type) is Ok
                ==> r is Err,
    {
        check_tag(&dwarf.entries[entry], DW_TAG_enumeration_type)?;
        let offset = get_type(&dwarf.entries[entry])?;
        let ty_entry = dwarf.entry(offset)?;
        proof {
            crate::lookup::lemma_index_at_bound(*dwarf, offset);
        }
        let ty = Type::from_die(dwarf, ty_entry)?;
        let align = match get_align(&dwarf.entries[entry])? {
            Some(a) => to_usize(a)?,
            None => return fail(ErrorKind::missing_attr(DW_AT_alignment)),
        };
        Ok(Discriminant { ty, align, location: Offset::zero(dwarf) })
    }

    /// The discriminant of the enum whose variant part entry is at index
    /// `entry`: the member that its `DW_AT_discr` refers to gives the type
    /// and the location; the variant part gives the alignment, one where it
    /// gives none.
    pub fn from_dw_tag_variant_part(dwarf: &'d Unit, entry: usize) -> (r: Result<Self, ReflectError>)
        requires
            entry < dwarf.entries.len(),
        ensures
            spec_check_tag(dwarf.entries[entry as int], DW_TAG_variant_part) matches Err(e) ==> outcome(r)
                == Err::<Self, ErrorKind>(e),
            r matches Ok(d) ==> part_discriminant(*dwarf, entry as int, d),
    {
        check_tag(&dwarf.entries[entry], DW_TAG_variant_part)?;
        let member_offset = match get_attr_ref(&dwarf.entries[entry], DW_AT_discr) {
            Some(m) => m,
            None => return fail(ErrorKind::missing_attr(DW_AT_discr)),
        };
        let member = dwarf.entry(member_offset)?;
        proof {
            crate::lookup::lemma_index_at_bound(*dwarf, member_offset);
        }
        let offset = get_type(&dwarf.entries[member])?;
        let ty_entry = dwarf.entry(offset)?;
        proof {
            crate::lookup::lemma_index_at_bound(*dwarf, offset);
        }
        let ty = Type::from_die(dwarf, ty_entry)?;
        let align = match get_align(&dwarf.entries[entry])? {
            Some(a) => to_usize(a)?,
            None => 1,
        };
        let location = match Offset::from_die(dwarf, member)? {
            Some(o) => o,
            None => return fail(ErrorKind::missing_attr(DW_AT_data_member_location)),
        };
        Ok(Discriminant { ty, align, location })
    }

    /// The type of this discriminant.
    pub fn ty(&self) -> (r: &Type<'d>)
        ensures
            *r == self.ty,
    {
        &self.ty
    }

    /// The alignment of this discriminant, in bytes.
    pub fn alignment(&self) -> (r: usize)
        ensures
            r == self.align,
    {
        self.align
    }

    /// The location of this discriminant.
    pub fn location(&self) -> (r: &Offset<'d>)
        ensures
            r.dwarf == self.location.dwarf,
            same_inner(r.inner, self.location.inner),
    {
        &self.location
    }
}

/// The value of a discriminant, by its width.
#[derive(Clone, Copy, PartialEq, Eq, Structural)]
pub enum DiscriminantValue {
    /// A one-byte value.
    U8(u8),
    /// A two-byte value.
    U16(u16),
    /// A four-byte value.
    U32(u32),
    /// An eight-byte value.
    U64(u64),
}

/// The discriminant value that an attribute value of a data form gives: one
/// of its width, a `u8` for an unsigned LEB128 constant (truncated); `None`
/// for the other forms.
pub open spec fn spec_discriminant_of(v: AttrValue) -> Option<DiscriminantValue> {
    match v {
        AttrValue::Data1(x) => Some(DiscriminantValue::U8(x)),
        AttrValue::Data2(x) => Some(DiscriminantValue::U16(x)),
        AttrValue::Data4(x) => Some(DiscriminantValue::U32(x)),
        AttrValue::Data8(x) => Some(DiscriminantValue::U64(x)),
        AttrValue::Udata(x) => Some(DiscriminantValue::U8(x as u8)),
        _ => None,
    }
}

impl DiscriminantValue {
    /// The discriminant value that an attribute value gives.
    pub fn from_attr(value: &AttrValue) -> (r: Option<Self>)
        ensures
            r == spec_discriminant_of(*value),
    {
        match value {
            AttrValue::Data1(x) => Some(DiscriminantValue::U8(*x)),
            AttrValue::Data2(x) => Some(DiscriminantValue::U16(*x)),
            AttrValue::Data4(x) => Some(DiscriminantValue::U32(*x)),
            AttrValue::Data8(x) => Some(DiscriminantValue::U64(*x)),
            AttrValue::Udata(x) => Some(DiscriminantValue::U8(*x as u8)),
            _ => None,
        }
    }
}

} // verus!
