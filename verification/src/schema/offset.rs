//! The offsets of fields and data members.
use vstd::prelude::*;

use crate::dwarf::{spec_exprloc, spec_udata, AttrValue, Unit, DW_AT_data_member_location};
use crate::err::{ErrorKind, InvalidAttr, ReflectError};
use crate::lookup::{fail, outcome};
use crate::reader::{evaluate, spec_evaluate, Piece};

verus! {

/// How an offset is given.
pub enum OffsetInner {
    /// As a constant number of bytes.
    Udata(u64),
    /// As a DWARF expression that computes an address from the start
    /// address of the enclosing value.
    Expression(Vec<u8>),
}

/// The offset of a field or data member.
pub struct Offset<'d> {
    /// The unit that describes the member.
    pub dwarf: &'d Unit,
    /// How the offset is given.
    pub inner: OffsetInner,
}

/// How the `DW_AT_data_member_location` attribute of the entry at `entry`
/// gives an offset: `Ok(None)` where it is absent.
pub open spec fn spec_member_location(dwarf: Unit, entry: int) -> Result<Option<OffsetInner>, ErrorKind> {
    match dwarf.entries[entry].attr(DW_AT_data_member_location) {
        None => Ok(None),
        Some(v) => match spec_udata(v) {
            Some(o) => Ok(Some(OffsetInner::Udata(o))),
            None => match v {
                AttrValue::Block(b) => Ok(Some(OffsetInner::Expression(b))),
                AttrValue::Exprloc(b) => Ok(Some(OffsetInner::Expression(b))),
                _ => Err(ErrorKind::InvalidAttr(InvalidAttr { attr: DW_AT_data_member_location })),
            },
        },
    }
}

/// Whether two offset forms are the same, comparing expressions by their bytes.
pub open spec fn same_inner(a: OffsetInner, b: OffsetInner) -> bool {
    match (a, b) {
        (OffsetInner::Udata(x), OffsetInner::Udata(y)) => x == y,
        (OffsetInner::Expression(x), OffsetInner::Expression(y)) => x@ == y@,
        _ => false,
    }
}

/// The address that a single piece designates, if it designates a whole
/// address.
pub open spec fn single_address(pieces: Seq<Piece>) -> Option<u64> {
    if pieces.len() == 1 && pieces[0].size_in_bits is None && pieces[0].bit_offset is None
        && pieces[0].address is Some {
        pieces[0].address
    } else {
        None
    }
}

/// The most steps that the evaluation of a location expression may take.
pub const EVALUATION_LIMIT: u32 = 10000;

/// Whether the DWARF expression evaluator handles addresses of `n` bytes.
pub open spec fn address_size_ok(n: u8) -> bool {
    n == 1 || n == 2 || n == 4 || n == 8
}

/// The address that an offset gives from the start address `start`.
pub open spec fn spec_address(dwarf: Unit, inner: OffsetInner, start: u64) -> Result<u64, ErrorKind> {
    match inner {
        OffsetInner::Udata(o) => if start + o <= u64::MAX {
            Ok((start + o) as u64)
        } else {
            Err(ErrorKind::ArithmeticOverflow)
        },
        OffsetInner::Expression(e) => if !address_size_ok(dwarf.address_size) {
            Err(ErrorKind::UnsupportedLocation)
        } else {
            match spec_evaluate(
                e@,
                dwarf.big_endian,
                dwarf.address_size,
                dwarf.offset_size,
                dwarf.version,
                EVALUATION_LIMIT,
                start,
            ) {
                None => Err(ErrorKind::UnsupportedLocation),
                Some(None) => Err(ErrorKind::UnsupportedLocation),
                Some(Some(p)) => match single_address(p) {
                    Some(a) => Ok(a),
                    None => Err(ErrorKind::UnsupportedLocation),
                },
            }
        },
    }
}

/// Whether the DWARF parser fails to evaluate the expression of an offset.
pub open spec fn parser_fails(dwarf: Unit, inner: OffsetInner, start: u64) -> bool {
    match inner {
        OffsetInner::Udata(_) => false,
        OffsetInner::Expression(e) => address_size_ok(dwarf.address_size) && spec_evaluate(
            e@,
            dwarf.big_endian,
            dwarf.address_size,
            dwarf.offset_size,
            dwarf.version,
            EVALUATION_LIMIT,
            start,
        ) is None,
    }
}

/// Offset forms that are the same give the same addresses.
pub proof fn lemma_same_inner_address(dwarf: Unit, a: OffsetInner, start: u64)
    ensures
        forall|b: OffsetInner|
            same_inner(a, b) ==> spec_address(dwarf, a, start) == spec_address(dwarf, b, start)
                && parser_fails(dwarf, a, start) == parser_fails(dwarf, b, start),
{
}

impl<'d> Offset<'d> {
    /// The offset given by the `DW_AT_data_member_location` attribute of the
    /// entry at index `entry`, if it has one.
    pub fn from_die(dwarf: &'d Unit, entry: usize) -> (r: Result<Option<Self>, ReflectError>)
        requires
            entry < dwarf.entries.len(),
        ensures
            match spec_member_location(*dwarf, entry as int) {
                Ok(None) => r matches Ok(None),
                Ok(Some(inner)) => r matches Ok(Some(o)) && o.dwarf == dwarf && same_inner(o.inner, inner),
                Err(e) => outcome(r) == Err::<Option<Self>, ErrorKind>(e),
            },
    {
        let maybe_location = dwarf.entries[entry].attr_value(DW_AT_data_member_location);
        if let Some(location) = maybe_location {
            let inner = if let Some(offset) = location.udata_value() {
                OffsetInner::Udata(offset)
            } else if let Some(expression) = location.exprloc_value() {
                OffsetInner::Expression(expression.clone())
            } else {
                return fail(ErrorKind::invalid_attr(DW_AT_data_member_location));
            };
            Ok(Some(Offset { dwarf, inner }))
        } else {
            Ok(None)
        }
    }

    /// The offset zero.
    pub fn zero(dwarf: &'d Unit) -> (r: Self)
        ensures
            r.dwarf == dwarf,
            r.inner == OffsetInner::Udata(0),
    {
        Offset { dwarf, inner: OffsetInner::Udata(0) }
    }

    /// The address of the member of a value that starts at address `start`.
    /// An expression must evaluate to a single whole address.
    pub fn address(&self, start: u64) -> (r: Result<u64, ReflectError>)
        ensures
            parser_fails(*self.dwarf, self.inner, start) ==> (r matches Err(e) && e.error is Gimli),
            !parser_fails(*self.dwarf, self.inner, start) ==> outcome(r) == spec_address(
                *self.dwarf,
                self.inner,
                start,
            ),
    {
        match &self.inner {
            OffsetInner::Udata(offset) => match start.checked_add(*offset) {
                Some(a) => Ok(a),
                None => fail(ErrorKind::ArithmeticOverflow),
            },
            OffsetInner::Expression(expression) => {
                let size = self.dwarf.address_size;
                if !(size == 1 || size == 2 || size == 4 || size == 8) {
                    return fail(ErrorKind::UnsupportedLocation);
                }
                let result = evaluate(
                    expression.as_slice(),
                    self.dwarf.big_endian,
                    self.dwarf.address_size,
                    self.dwarf.offset_size,
                    self.dwarf.version,
                    EVALUATION_LIMIT,
                    start,
                );
                match result {
                    Ok(Some(pieces)) => {
                        if pieces.len() == 1 && pieces[0].size_in_bits.is_none()
                            && pieces[0].bit_offset.is_none() {
                            if let Some(address) = pieces[0].address {
                                return Ok(address);
                            }
                        }
                        fail(ErrorKind::UnsupportedLocation)
                    },
                    Ok(None) => fail(ErrorKind::UnsupportedLocation),
                    Err(e) => fail(ErrorKind::gimli(e)),
                }
            },
        }
    }
}

} // verus!
