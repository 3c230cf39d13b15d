//! Reflected fields of struct and variant values.
use vstd::prelude::*;
use vstd::slice::slice_subrange;

use crate::dwarf::{Unit, DW_AT_data_member_location, DW_AT_name, DW_AT_type, DW_TAG_member};
use crate::err::{ErrorKind, MissingAttr, ReflectError};
use crate::lookup::{fail, outcome, spec_ref, spec_type_res};
use crate::schema;
use crate::schema::atom::bytes_eq;
use crate::schema::fields::{lemma_scan_tag_bound, scan_tag};
use crate::schema::name::spec_attr_string;
use crate::schema::offset::{parser_fails, spec_address, spec_member_location, OffsetInner};
use crate::schema::types::{type_kind, type_ok};
use crate::value::holders::Struct;
use crate::value::value::{reads_ok, Value};

verus! {

/// Whether `v` is the reading of `bytes` at `address` by the type that the
/// entry at index `entry` of `dwarf` describes.
pub open spec fn reads_entry<'v, 'd>(v: Value<'v, 'd>, dwarf: Unit, entry: int, bytes: Seq<u8>, address: u64) -> bool {
    &&& v.ty_of().unit_of() == dwarf
    &&& v.ty_of().entry_index() == entry
    &&& v.ty_of().kind() == type_kind(dwarf, entry)
    &&& v.ty_of().wf()
    &&& v.reads(v.ty_of(), bytes, address)
    &&& v.ty_of().pointer_target() matches Some(t) ==> spec_ref(dwarf.entries[entry], DW_AT_type) == Ok::<
        usize,
        ErrorKind,
    >(t)
}

/// The offset, from the start of the enclosing value, that the offset form
/// `inner` gives; `Err(None)` where the DWARF parser fails on it.
pub open spec fn relative_offset(dwarf: Unit, inner: OffsetInner) -> Result<u64, Option<ErrorKind>> {
    if parser_fails(dwarf, inner, 0) {
        Err(None)
    } else {
        match spec_address(dwarf, inner, 0) {
            Ok(o) => Ok(o),
            Err(e) => Err(Some(e)),
        }
    }
}

/// What reading the field whose member entry is at index `entry`, of a
/// value whose bytes are `bytes` at `address`, gives, up to reading the
/// field's own bytes: the field's type and offset are read first, and the
/// bytes from that offset on, at the address that far along, go to `then`
/// together with the index of the type's entry. `r is Err` alone is stated
/// where the field's type is not one that the library reads, or the DWARF
/// parser fails on its offset.
pub open spec fn field_step<T>(
    dwarf: Unit,
    entry: int,
    bytes: Seq<u8>,
    address: u64,
    r: Result<T, ReflectError>,
    then: spec_fn(int, Seq<u8>, u64) -> bool,
) -> bool {
    match spec_type_res(dwarf, dwarf.entries[entry]) {
        Err(e) => outcome(r) == Err::<T, ErrorKind>(e),
        Ok(ti) => if !type_ok(dwarf, ti as int) {
            r is Err
        } else {
            match spec_member_location(dwarf, entry) {
                Err(e) => outcome(r) == Err::<T, ErrorKind>(e),
                Ok(None) => outcome(r) == Err::<T, ErrorKind>(
                    ErrorKind::MissingAttr(MissingAttr { attr: DW_AT_data_member_location }),
                ),
                Ok(Some(inner)) => match relative_offset(dwarf, inner) {
                    Err(None) => r is Err,
                    Err(Some(e)) => outcome(r) == Err::<T, ErrorKind>(e),
                    Ok(off) => if off > bytes.len() {
                        outcome(r) == Err::<T, ErrorKind>(ErrorKind::OutOfBounds)
                    } else if address + off > u64::MAX {
                        outcome(r) == Err::<T, ErrorKind>(ErrorKind::ArithmeticOverflow)
                    } else {
                        then(ti as int, bytes.skip(off as int), (address + off) as u64)
                    },
                },
            }
        },
    }
}

/// What reading the field whose member entry is at index `entry`, of a value
/// whose bytes are `bytes` at `address`, gives: the value of the field's
/// type at the field's offset.
pub open spec fn field_value_spec<'v, 'd>(
    dwarf: Unit,
    entry: int,
    bytes: Seq<u8>,
    address: u64,
    r: Result<Value<'v, 'd>, ReflectError>,
) -> bool {
    field_step(
        dwarf,
        entry,
        bytes,
        address,
        r,
        |ti: int, rest: Seq<u8>, at: u64|
            {
                &&& r is Ok <==> reads_ok(type_kind(dwarf, ti), dwarf, ti, rest, at)
                &&& r matches Ok(v) ==> reads_entry(v, dwarf, ti, rest, at)
            },
    )
}

/// A field of a reflected struct or variant value.
#[derive(Clone, Copy)]
pub struct Field<'v, 'd> {
    /// The schema of the field.
    pub schema: schema::Field<'d>,
    /// The bytes of the enclosing value.
    pub bytes: &'v [u8],
    /// The address of the enclosing value.
    pub address: u64,
}

impl<'v, 'd> Field<'v, 'd> {
    /// The field described by `schema` of the value whose bytes are `bytes`,
    /// at `address`.
    pub fn new(schema: schema::Field<'d>, bytes: &'v [u8], address: u64) -> (r: Self)
        ensures
            r.schema == schema,
            r.bytes@ == bytes@,
            r.address == address,
    {
        Field { schema, bytes, address }
    }

    /// The schema of this field.
    pub fn schema(&self) -> (r: &schema::Field<'d>)
        ensures
            *r == self.schema,
    {
        &self.schema
    }

    /// The value of this field: the bytes of the enclosing value from the
    /// field's offset on, read by the field's type.
    pub fn value(&self) -> (r: Result<Value<'v, 'd>, ReflectError>)
        requires
            self.schema.wf(),
        ensures
            field_value_spec(*self.schema.dwarf, self.schema.entry as int, self.bytes@, self.address, r),
    {
        let ty = self.schema.ty()?;
        let location = self.schema.offset()?;
        proof {
            crate::schema::offset::lemma_same_inner_address(*self.schema.dwarf, location.inner, 0);
        }
        let offset = location.address(0)?;
        if offset > self.bytes.len() as u64 {
            return fail(ErrorKind::OutOfBounds);
        }
        let address = match self.address.checked_add(offset) {
            Some(a) => a,
            None => return fail(ErrorKind::ArithmeticOverflow),
        };
        let rest = slice_subrange(self.bytes, offset as usize, self.bytes.len());
        Value::with_type(ty, rest, address)
    }
}

/// The position, at or after `pos`, of the first member among `children`
/// whose name is `target`: reading each member's name on the way, and
/// failing where a child lies outside the unit or a name cannot be read.
pub open spec fn find_field(dwarf: Unit, children: Seq<usize>, pos: int, target: Seq<u8>) -> Result<Option<int>, ErrorKind>
    decreases children.len() - pos,
{
    match scan_tag(dwarf, children, pos, DW_TAG_member) {
        Err(()) => Err(ErrorKind::OutOfBounds),
        Ok(None) => Ok(None),
        Ok(Some(k)) => if k < pos || k >= children.len() {
            Ok(None)
        } else {
            match spec_attr_string(dwarf.entries[children[k] as int], DW_AT_name) {
                Err(e) => Err(e),
                Ok(n) => if n == target {
                    Ok(Some(k))
                } else {
                    find_field(dwarf, children, k + 1, target)
                },
            }
        },
    }
}

/// The fields of a reflected struct or variant value.
#[derive(Clone, Copy)]
pub struct Fields<'v, 'd> {
    /// The schema of the fields.
    pub schema: schema::Fields<'d>,
    /// The bytes of the enclosing value.
    pub bytes: &'v [u8],
    /// The address of the enclosing value.
    pub address: u64,
}

impl<'v, 'd> Fields<'v, 'd> {
    /// The fields described by `schema` of the value whose bytes are `bytes`,
    /// at `address`.
    pub fn new(schema: schema::Fields<'d>, bytes: &'v [u8], address: u64) -> (r: Self)
        ensures
            r.schema == schema,
            r.bytes@ == bytes@,
            r.address == address,
    {
        Fields { schema, bytes, address }
    }

    /// Produces an iterator over the fields.
    pub fn iter(&self) -> (r: Result<FieldsIter<'v, 'd>, ReflectError>)
        requires
            self.schema.wf(),
        ensures
            r matches Ok(it) && it.schema.dwarf == self.schema.dwarf && it.schema.entry == self.schema.entry
                && it.schema.next == 0 && it.bytes@ == self.bytes@ && it.address == self.address,
    {
        let schema = self.schema.iter()?;
        Ok(FieldsIter { schema, bytes: self.bytes, address: self.address })
    }
}

/// An iterator over the fields of a reflected struct or variant value.
pub struct FieldsIter<'v, 'd> {
    /// The iterator over the schemas of the fields.
    pub schema: schema::FieldsIter<'d>,
    /// The bytes of the enclosing value.
    pub bytes: &'v [u8],
    /// The address of the enclosing value.
    pub address: u64,
}

impl<'v, 'd> FieldsIter<'v, 'd> {
    /// Produces the next field, if any.
    pub fn try_next(&mut self) -> (r: Result<Option<Field<'v, 'd>>, ReflectError>)
        requires
            old(self).schema.wf(),
        ensures
            final(self).schema.wf(),
            final(self).schema.dwarf == old(self).schema.dwarf,
            final(self).schema.entry == old(self).schema.entry,
            final(self).bytes@ == old(self).bytes@,
            final(self).address == old(self).address,
            match scan_tag(
                *old(self).schema.dwarf,
                old(self).schema.children(),
                old(self).schema.next as int,
                DW_TAG_member,
            ) {
                Ok(None) => r matches Ok(None) && final(self).schema.next == old(self).schema.children().len(),
                Ok(Some(k)) => r matches Ok(Some(f)) && f.schema.dwarf == old(self).schema.dwarf
                    && f.schema.entry == old(self).schema.children()[k] && f.bytes@ == old(self).bytes@
                    && f.address == old(self).address && final(self).schema.next == k + 1,
                Err(()) => outcome(r) == Err::<Option<Field<'v, 'd>>, ErrorKind>(ErrorKind::OutOfBounds),
            },
    {
        let next = self.schema.try_next()?;
        match next {
            None => Ok(None),
            Some(schema) => Ok(Some(Field::new(schema, self.bytes, self.address))),
        }
    }
}

impl<'v, 'd> Struct<'v, 'd> {
    /// The fields of this struct.
    pub fn fields(&self) -> (r: Result<Fields<'v, 'd>, ReflectError>)
        requires
            self.schema.wf(),
        ensures
            r matches Ok(f) && f.schema.dwarf == self.schema.dwarf && f.schema.entry == self.schema.entry
                && f.bytes@ == self.bytes@ && f.address == self.address,
    {
        let fields = self.schema.fields()?;
        Ok(Fields::new(fields, self.bytes, self.address))
    }

    /// The first field of this struct named `field_name`, if any.
    pub fn field(&self, field_name: &[u8]) -> (r: Result<Option<Field<'v, 'd>>, ReflectError>)
        requires
            self.schema.wf(),
        ensures
            match find_field(
                *self.schema.dwarf,
                self.schema.dwarf.entries[self.schema.entry as int].children@,
                0,
                field_name@,
            ) {
                Err(e) => outcome(r) == Err::<Option<Field<'v, 'd>>, ErrorKind>(e),
                Ok(None) => r matches Ok(None),
                Ok(Some(k)) => r matches Ok(Some(f)) && f.schema.dwarf == self.schema.dwarf && f.schema.entry
                    == self.schema.dwarf.entries[self.schema.entry as int].children@[k] && f.bytes@
                    == self.bytes@ && f.address == self.address,
            },
    {
        let fields = self.fields()?;
        let mut iter = fields.iter()?;
        let ghost dwarf = *self.schema.dwarf;
        let ghost children = dwarf.entries[self.schema.entry as int].children@;
        loop
            invariant
                iter.schema.wf(),
                iter.schema.dwarf == self.schema.dwarf,
                iter.schema.entry == self.schema.entry,
                iter.bytes@ == self.bytes@,
                iter.address == self.address,
                children == iter.schema.children(),
                dwarf == *self.schema.dwarf,
                find_field(dwarf, children, 0, field_name@) == find_field(
                    dwarf,
                    children,
                    iter.schema.next as int,
                    field_name@,
                ),
            decreases children.len() - iter.schema.next,
        {
            let ghost pos = iter.schema.next as int;
            proof {
                lemma_scan_tag_bound(dwarf, children, pos, DW_TAG_member);
            }
            let next = iter.try_next()?;
            match next {
                None => return Ok(None),
                Some(field) => {
                    let name = field.schema.name()?;
                    let name = name.to_slice()?;
                    if bytes_eq(field_name, name) {
                        return Ok(Some(field));
                    }
                },
            }
        }
    }
}

} // verus!
