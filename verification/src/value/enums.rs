//! Reflected enum values and their variants.
use vstd::prelude::*;
use vstd::slice::slice_subrange;

use crate::dwarf::{Unit, DW_AT_data_member_location};
use crate::err::{ErrorKind, MissingAttr, ReflectError};
use crate::lookup::{fail, outcome, spec_entry};
use crate::schema;
use crate::schema::offset::{parser_fails, spec_address, spec_member_location, OffsetInner};
use crate::schema::types::{type_kind, type_ok, TypeKind};
use crate::schema::variant::Data;
use crate::schema::variants::{scan_non_member, spec_variant_at};
use crate::value::fields::Fields;
use crate::value::holders::Enum;
use crate::value::scalar::{decode_uint, uint_value};

verus! {

/// The number of bytes of a discriminant value.
pub open spec fn data_width(d: Data) -> nat {
    match d {
        Data::u8(_) => 1,
        Data::u16(_) => 2,
        Data::u32(_) => 4,
        Data::u64(_) => 8,
    }
}

/// The integer that a discriminant value holds.
pub open spec fn data_value(d: Data) -> nat {
    match d {
        Data::u8(v) => v as nat,
        Data::u16(v) => v as nat,
        Data::u32(v) => v as nat,
        Data::u64(v) => v as nat,
    }
}

/// Whether the integer of `d`'s width at position `off` of `bytes` equals
/// `d`; an error if those bytes do not all lie within `bytes`.
pub open spec fn discr_matches(d: Data, bytes: Seq<u8>, off: int, big_endian: bool) -> Result<bool, ErrorKind> {
    if off < 0 || off + data_width(d) > bytes.len() {
        Err(ErrorKind::OutOfBounds)
    } else {
        Ok(uint_value(bytes.subrange(off, off + data_width(d)), big_endian) == data_value(d))
    }
}

/// A chosen variant: its entry, its discriminant value and its position.
pub type Choice = (usize, Option<Data>, nat);

/// Walks the variants among `children` from position `next` (the one at
/// position `index` among the variants first), as the iterator over
/// variants produces them, comparing the discriminant at position `off` of
/// `bytes` with each variant's discriminant value: the last variant that
/// matches is chosen, else the last variant without a discriminant value.
pub open spec fn select_variant(
    dwarf: Unit,
    children: Seq<usize>,
    kind: TypeKind,
    next: int,
    index: nat,
    bytes: Seq<u8>,
    off: int,
    big_endian: bool,
    matched: Option<Choice>,
    default: Option<Choice>,
) -> Result<Option<Choice>, ErrorKind>
    decreases children.len() - next,
{
    match scan_non_member(dwarf, children, next) {
        Err(()) => Err(ErrorKind::OutOfBounds),
        Ok(None) => Ok(
            if matched is Some {
                matched
            } else {
                default
            },
        ),
        Ok(Some(k)) => if k < next || k >= children.len() {
            Ok(None)
        } else {
            match spec_variant_at(dwarf, children[k] as int, kind) {
                Err(e) => Err(e),
                Ok((e, d)) => match d {
                    Some(dv) => match discr_matches(dv, bytes, off, big_endian) {
                        Err(err) => Err(err),
                        Ok(true) => select_variant(
                            dwarf,
                            children,
                            kind,
                            k + 1,
                            index + 1,
                            bytes,
                            off,
                            big_endian,
                            Some((e, d, index)),
                            default,
                        ),
                        Ok(false) => select_variant(
                            dwarf,
                            children,
                            kind,
                            k + 1,
                            index + 1,
                            bytes,
                            off,
                            big_endian,
                            matched,
                            default,
                        ),
                    },
                    None => select_variant(
                        dwarf,
                        children,
                        kind,
                        k + 1,
                        index + 1,
                        bytes,
                        off,
                        big_endian,
                        matched,
                        Some((e, None, index)),
                    ),
                },
            }
        },
    }
}

/// A position that `scan_non_member` finds lies in range, at or after `pos`.
pub proof fn lemma_scan_non_member_bound(dwarf: Unit, children: Seq<usize>, pos: int)
    requires
        0 <= pos,
    ensures
        scan_non_member(dwarf, children, pos) matches Ok(Some(k)) ==> pos <= k < children.len(),
    decreases children.len() - pos,
{
    if pos < children.len() && children[pos] < dwarf.entries.len() && dwarf.entries[children[pos] as int].tag
        == crate::dwarf::DW_TAG_member {
        lemma_scan_non_member_bound(dwarf, children, pos + 1);
    }
}

/// The form in which the discriminant's location of the enum `e` is given;
/// an error if the discriminant member gives none.
pub open spec fn discr_location(e: schema::Enum) -> Result<OffsetInner, ErrorKind> {
    match e.discr_member {
        None => Ok(OffsetInner::Udata(0)),
        Some(m) => match spec_member_location(*e.dwarf, m as int) {
            Ok(Some(inner)) => Ok(inner),
            Ok(None) => Err(ErrorKind::MissingAttr(MissingAttr { attr: DW_AT_data_member_location })),
            Err(k) => Err(k),
        },
    }
}

/// The variant that a value of the enum `e`, whose bytes are `bytes` at
/// `address`, holds: the one that its discriminant selects. `Err(None)`
/// stands for an error whose kind is not stated: the DWARF parser fails on
/// the discriminant's location, or the discriminant's type is not one that
/// the library reads.
pub open spec fn spec_variant(e: schema::Enum, bytes: Seq<u8>, address: u64) -> Result<Choice, Option<ErrorKind>> {
    let dwarf = *e.dwarf;
    match discr_location(e) {
        Err(k) => Err(Some(k)),
        Ok(inner) => if parser_fails(dwarf, inner, address) {
            Err(None)
        } else {
            match spec_address(dwarf, inner, address) {
                Err(k) => Err(Some(k)),
                Ok(discr_address) => if discr_address < address {
                    Err(Some(ErrorKind::OutOfBounds))
                } else {
                    match spec_entry(dwarf, e.discr_type_offset) {
                        Err(k) => Err(Some(k)),
                        Ok(ti) => if !type_ok(dwarf, ti as int) {
                            Err(None)
                        } else {
                            match select_variant(
                                dwarf,
                                dwarf.entries[e.variants_root as int].children@,
                                type_kind(dwarf, ti as int),
                                0,
                                0,
                                bytes,
                                discr_address - address,
                                dwarf.big_endian,
                                None,
                                None,
                            ) {
                                Err(k) => Err(Some(k)),
                                Ok(None) => Err(Some(ErrorKind::EnumDestructure)),
                                Ok(Some(c)) => Ok(c),
                            }
                        },
                    }
                },
            }
        },
    }
}

/// The choice that a variant stands for.
pub open spec fn choice_of(v: Option<schema::Variant>) -> Option<Choice> {
    match v {
        Some(v) => Some((v.entry, v.discriminant_val, v.index as nat)),
        None => None,
    }
}

/// Whether the integer of `d`'s width at position `off` of `bytes` equals
/// `d`.
fn discr_equals(d: Data, bytes: &[u8], off: u64, big_endian: bool) -> (r: Result<bool, ReflectError>)
    ensures
        outcome(r) == discr_matches(d, bytes@, off as int, big_endian),
{
    let width: usize = match d {
        Data::u8(_) => 1,
        Data::u16(_) => 2,
        Data::u32(_) => 4,
        Data::u64(_) => 8,
    };
    if off > bytes.len() as u64 || (bytes.len() - off as usize) < width {
        return fail(ErrorKind::OutOfBounds);
    }
    let start = off as usize;
    let v = decode_uint(slice_subrange(bytes, start, start + width), big_endian);
    let equal = match d {
        Data::u8(x) => v == x as u128,
        Data::u16(x) => v == x as u128,
        Data::u32(x) => v == x as u128,
        Data::u64(x) => v == x as u128,
    };
    Ok(equal)
}

/// A variant of a reflected enum value.
#[derive(Clone, Copy)]
pub struct Variant<'v, 'd> {
    /// The schema of the variant.
    pub schema: schema::Variant<'d>,
    /// The bytes of the enum value.
    pub bytes: &'v [u8],
    /// The address of the enum value.
    pub address: u64,
}

impl<'v, 'd> Variant<'v, 'd> {
    /// The schema of this variant.
    pub fn schema(&self) -> (r: &schema::Variant<'d>)
        ensures
            *r == self.schema,
    {
        &self.schema
    }

    /// The fields of this variant.
    pub fn fields(&self) -> (r: Result<Fields<'v, 'd>, ReflectError>)
        requires
            self.schema.wf(),
        ensures
            r matches Ok(f) && f.schema.dwarf == self.schema.dwarf && f.schema.entry == self.schema.entry
                && f.bytes@ == self.bytes@ && f.address == self.address,
    {
        let fields = self.schema.fields()?;
        Ok(Fields::new(fields, self.bytes, self.address))
    }
}

impl<'v, 'd> Enum<'v, 'd> {
    /// The variant that this value holds: the last variant whose
    /// discriminant value equals the discriminant that the value stores,
    /// else the last variant without a discriminant value.
    pub fn variant(&self) -> (r: Result<Variant<'v, 'd>, ReflectError>)
        requires
            self.schema.wf(),
        ensures
            match spec_variant(self.schema, self.bytes@, self.address) {
                Err(None) => r is Err,
                Err(Some(k)) => outcome(r) == Err::<Variant<'v, 'd>, ErrorKind>(k),
                Ok((entry, d, index)) => r matches Ok(v) && v.schema.dwarf == self.schema.dwarf
                    && v.schema.entry == entry && v.schema.discriminant_val == d && v.schema.index == index
                    && v.schema.wf() && v.bytes@ == self.bytes@ && v.address == self.address,
            },
    {
        let location = self.schema.discriminant_location()?;
        proof {
            crate::schema::offset::lemma_same_inner_address(*self.schema.dwarf, location.inner, self.address);
        }
        let discr_address = location.address(self.address)?;
        if discr_address < self.address {
            return fail(ErrorKind::OutOfBounds);
        }
        let off = discr_address - self.address;
        let variants = self.schema.variants()?;
        let mut iter = variants.iter()?;
        let ghost dwarf = *self.schema.dwarf;
        let ghost children = dwarf.entries[self.schema.variants_root as int].children@;
        let ghost kind = iter.discriminant_type.kind();
        let big_endian = self.schema.dwarf.big_endian;
        let mut matched: Option<schema::Variant<'d>> = None;
        let mut default: Option<schema::Variant<'d>> = None;
        loop
            invariant_except_break
                select_variant(dwarf, children, kind, 0, 0, self.bytes@, off as int, big_endian, None, None)
                    == select_variant(
                    dwarf,
                    children,
                    kind,
                    iter.next as int,
                    iter.index as nat,
                    self.bytes@,
                    off as int,
                    big_endian,
                    choice_of(matched),
                    choice_of(default),
                ),
            invariant
                iter.wf(),
                iter.dwarf == self.schema.dwarf,
                iter.root == self.schema.variants_root,
                iter.discriminant_type.kind() == kind,
                dwarf == *self.schema.dwarf,
                children == iter.children(),
                big_endian == dwarf.big_endian,
                matched matches Some(v) ==> v.wf() && v.dwarf == self.schema.dwarf,
                default matches Some(v) ==> v.wf() && v.dwarf == self.schema.dwarf,
                spec_variant(self.schema, self.bytes@, self.address) == match select_variant(
                    dwarf,
                    children,
                    kind,
                    0,
                    0,
                    self.bytes@,
                    off as int,
                    big_endian,
                    None,
                    None,
                ) {
                    Err(k) => Err(Some(k)),
                    Ok(None) => Err(Some(ErrorKind::EnumDestructure)),
                    Ok(Some(c)) => Ok::<Choice, Option<ErrorKind>>(c),
                },
            ensures
                select_variant(dwarf, children, kind, 0, 0, self.bytes@, off as int, big_endian, None, None)
                    == Ok::<Option<Choice>, ErrorKind>(
                    if matched is Some {
                        choice_of(matched)
                    } else {
                        choice_of(default)
                    },
                ),
            decreases children.len() - iter.next,
        {
            proof {
                lemma_scan_non_member_bound(dwarf, children, iter.next as int);
            }
            let next = iter.try_next()?;
            match next {
                None => break,
                Some(variant) => match variant.discriminant_val {
                    Some(d) => {
                        if discr_equals(d, self.bytes, off, big_endian)? {
                            matched = Some(variant);
                        }
                    },
                    None => {
                        default = Some(variant);
                    },
                },
            }
        }
        let chosen = match matched {
            Some(v) => v,
            None => match default {
                Some(v) => v,
                None => return fail(ErrorKind::EnumDestructure),
            },
        };
        Ok(Variant { schema: chosen, bytes: self.bytes, address: self.address })
    }
}

} // verus!
