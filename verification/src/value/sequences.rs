//! Iterating over the elements of arrays and slices, and reading the parts
//! of fat pointers.
use vstd::prelude::*;
use vstd::slice::slice_subrange;
use vstd::utf8::{decode_utf8, valid_utf8};

use crate::dwarf::{Unit, DW_AT_type};
use crate::err::{Downcast, ErrorKind, ReflectError};
use crate::lookup::{fail, outcome, spec_ref, spec_type_res};
use crate::schema;
use crate::schema::array::spec_array_len;
use crate::schema::atom::Primitive;
use crate::schema::slice::{elt_entry, elt_of, elt_of_ok};
use crate::schema::types::{from_die_spec, type_kind, type_size, Type, TypeKind};
use crate::value::fields::{field_step, Field};
use crate::value::holders::{Array, BoxedDyn, BoxedSlice, Slice, Str, Target};
use crate::value::pointers::{ptr_size, target_spec, to_usize};
use crate::value::scalar::{uint_value, Scalar};
use crate::text::utf8_strict;
use crate::value::value::{reads_ok, Value};

verus! {

broadcast use vstd::layout::layout_of_primitives;

/// An iterator over the elements of an array or slice: `length` values of
/// type `elt_type`, each `elt_size` bytes, one after another in `bytes`,
/// which lie at `address`.
pub struct Iter<'v, 'd> {
    /// The bytes of the elements not yet produced.
    pub bytes: &'v [u8],
    /// The address of `bytes`.
    pub address: u64,
    /// The size of an element, in bytes.
    pub elt_size: usize,
    /// The type of the elements.
    pub elt_type: Type<'d>,
    /// The number of elements not yet produced.
    pub length: usize,
}

impl<'v, 'd> Iter<'v, 'd> {
    /// An iterator over `length` elements of type `elt_type` and size
    /// `elt_size`, in `bytes`, which lie at `address`.
    pub fn new(bytes: &'v [u8], address: u64, elt_size: usize, elt_type: Type<'d>, length: usize) -> (r: Self)
        ensures
            r.bytes@ == bytes@,
            r.address == address,
            r.elt_size == elt_size,
            r.elt_type == elt_type,
            r.length == length,
    {
        Iter { bytes, address, elt_size, elt_type, length }
    }

    /// Produces the next element, if any: the first `elt_size` bytes, read
    /// by the element type. If fewer bytes remain, or the next address
    /// overflows, the iterator ends with an error.
    pub fn next(&mut self) -> (r: Option<Result<Value<'v, 'd>, ReflectError>>)
        requires
            old(self).elt_type.wf(),
        ensures
            final(self).elt_type == old(self).elt_type,
            final(self).elt_size == old(self).elt_size,
            old(self).length == 0 ==> r is None && final(self).length == 0,
            old(self).length > 0 && old(self).elt_size > old(self).bytes@.len() ==> (r matches Some(x)
                && outcome(x) == Err::<Value<'v, 'd>, ErrorKind>(ErrorKind::OutOfBounds)
                && final(self).length == 0),
            old(self).length > 0 && old(self).elt_size <= old(self).bytes@.len() && old(self).address
                + old(self).elt_size > u64::MAX ==> (r matches Some(x) && outcome(x) == Err::<
                Value<'v, 'd>,
                ErrorKind,
            >(ErrorKind::ArithmeticOverflow) && final(self).length == 0),
            old(self).length > 0 && old(self).elt_size <= old(self).bytes@.len() && old(self).address
                + old(self).elt_size <= u64::MAX ==> {
                let ty = old(self).elt_type;
                let elt = old(self).bytes@.take(old(self).elt_size as int);
                &&& final(self).length == old(self).length - 1
                &&& final(self).bytes@ == old(self).bytes@.skip(old(self).elt_size as int)
                &&& final(self).address == old(self).address + old(self).elt_size
                &&& r matches Some(x)
                &&& x is Ok <==> reads_ok(ty.kind(), ty.unit_of(), ty.entry_index() as int, elt, old(self).address)
                &&& x matches Ok(v) ==> v.reads(ty, elt, old(self).address)
            },
    {
        if self.length == 0 {
            return None;
        }
        if self.elt_size > self.bytes.len() {
            self.length = 0;
            return Some(fail(ErrorKind::OutOfBounds));
        }
        let next_address = match self.address.checked_add(self.elt_size as u64) {
            Some(a) => a,
            None => {
                self.length = 0;
                return Some(fail(ErrorKind::ArithmeticOverflow));
            },
        };
        let (elt, rest) = self.bytes.split_at(self.elt_size);
        let address = self.address;
        self.bytes = rest;
        self.address = next_address;
        self.length = self.length - 1;
        Some(Value::with_type(self.elt_type, elt, address))
    }
}

impl<'v, 'd> Array<'v, 'd> {
    /// An iterator over the elements of this array.
    pub fn iter(&self) -> (r: Result<Iter<'v, 'd>, ReflectError>)
        requires
            self.schema.wf(),
        ensures
            ({
                let dwarf = *self.schema.dwarf;
                let entry = self.schema.entry as int;
                match spec_type_res(dwarf, dwarf.entries[entry]) {
                    Err(e) => outcome(r) == Err::<Iter<'v, 'd>, ErrorKind>(e),
                    Ok(ei) => if !crate::schema::types::type_ok(dwarf, ei as int) {
                        r is Err
                    } else {
                        match type_size(dwarf, ei as int, dwarf.entries.len() as nat) {
                            Err(()) => r is Err,
                            Ok(n) => if n > usize::MAX {
                                r matches Err(e) && e.error is TryFromInt
                            } else {
                                match spec_array_len(dwarf, entry) {
                                    Err(e) => outcome(r) == Err::<Iter<'v, 'd>, ErrorKind>(e),
                                    Ok(len) => if len > usize::MAX {
                                        r matches Err(e) && e.error is TryFromInt
                                    } else {
                                        r matches Ok(it) && it.bytes@ == self.bytes@ && it.address
                                            == self.address && it.elt_size == n && it.length == len
                                            && from_die_spec(dwarf, ei as int, Ok::<Type<'d>, ReflectError>(it.elt_type))
                                    },
                                }
                            },
                        }
                    },
                }
            }),
    {
        let elt_type = self.schema.elt_type();
        proof {
            let dwarf = *self.schema.dwarf;
            if let Ok(t) = elt_type {
                if let Ok(ei) = spec_type_res(dwarf, dwarf.entries[self.schema.entry as int]) {
                    crate::schema::types::lemma_size_of_entry(t, dwarf, ei as int, dwarf.entries.len() as nat);
                }
            }
        }
        let elt_type = elt_type?;
        let elt_size = elt_type.size()?;
        let elt_size = to_usize(elt_size)?;
        let length = self.schema.len()?;
        let length = to_usize(length)?;
        Ok(Iter::new(self.bytes, self.address, elt_size, elt_type, length))
    }
}

/// The elements of a slice: `length` values of type `elt_type`, each
/// `elt_size` bytes, one after another from `address`, `size` bytes in all.
pub struct Elements<'d> {
    /// The address of the first element.
    pub address: u64,
    /// The size of all the elements, in bytes.
    pub size: usize,
    /// The size of an element, in bytes.
    pub elt_size: usize,
    /// The type of the elements.
    pub elt_type: Type<'d>,
    /// The number of elements.
    pub length: usize,
}

/// The name of the kind of the value `v`: the name of its variant, or
/// `unit` for the unit value.
pub open spec fn value_kind_name<'v, 'd>(v: Value<'v, 'd>) -> Seq<char> {
    match v {
        Value::Atom(_) => "Atom"@,
        Value::Unit(_) => "unit"@,
        Value::Str(_) => "Str"@,
        Value::Array(_) => "Array"@,
        Value::Box(_) => "Box"@,
        Value::BoxedSlice(_) => "BoxedSlice"@,
        Value::BoxedDyn(_) => "BoxedDyn"@,
        Value::Slice(_) => "Slice"@,
        Value::Struct(_) => "Struct"@,
        Value::Enum(_) => "Enum"@,
        Value::Function(_) => "Function"@,
        Value::SharedRef(_) => "SharedRef"@,
        Value::UniqueRef(_) => "UniqueRef"@,
        Value::ConstPtr(_) => "ConstPtr"@,
        Value::MutPtr(_) => "MutPtr"@,
    }
}

/// The kind of a value, by name.
fn kind_name(v: &Value) -> (r: &'static str)
    ensures
        r@ == value_kind_name(*v),
{
    match v {
        Value::Atom(_) => "Atom",
        Value::Unit(_) => "unit",
        Value::Str(_) => "Str",
        Value::Array(_) => "Array",
        Value::Box(_) => "Box",
        Value::BoxedSlice(_) => "BoxedSlice",
        Value::BoxedDyn(_) => "BoxedDyn",
        Value::Slice(_) => "Slice",
        Value::Struct(_) => "Struct",
        Value::Enum(_) => "Enum",
        Value::Function(_) => "Function",
        Value::SharedRef(_) => "SharedRef",
        Value::UniqueRef(_) => "UniqueRef",
        Value::ConstPtr(_) => "ConstPtr",
        Value::MutPtr(_) => "MutPtr",
    }
}

/// The error of a value that is not of the kind `target`.
fn downcast<T>(v: &Value, target: &'static str) -> (r: Result<T, ReflectError>)
    ensures
        r matches Err(e) && e.error matches ErrorKind::Downcast(d) && d.value@ == value_kind_name(*v)
            && d.target == target,
{
    fail(ErrorKind::Downcast(Downcast { value: kind_name(v).to_owned(), target }))
}

/// What reading a fat pointer's data pointer field, whose member entry is at
/// index `field`, of a value whose bytes are `bytes` at `address`, gives:
/// the referent of the `*mut` pointer that the field holds.
pub open spec fn data_ptr_spec<'d>(dwarf: Unit, field: int, bytes: Seq<u8>, address: u64, r: Result<Target<'d>, ReflectError>) -> bool {
    field_step(
        dwarf,
        field,
        bytes,
        address,
        r,
        |ti: int, rest: Seq<u8>, at: u64|
            if type_kind(dwarf, ti) == TypeKind::MutPtr {
                target_spec(dwarf, spec_ref(dwarf.entries[ti], DW_AT_type)->Ok_0, rest, r)
            } else {
                r is Err
            },
    )
}

/// What reading a fat pointer's length field, whose member entry is at index
/// `field`, of a value whose bytes are `bytes` at `address`, gives: the
/// `usize` that the field holds.
pub open spec fn length_spec(dwarf: Unit, field: int, bytes: Seq<u8>, address: u64, r: Result<usize, ReflectError>) -> bool {
    field_step(
        dwarf,
        field,
        bytes,
        address,
        r,
        |ti: int, rest: Seq<u8>, at: u64|
            if type_kind(dwarf, ti) == TypeKind::Atom(Primitive::Usize) {
                &&& r is Ok <==> reads_ok(type_kind(dwarf, ti), dwarf, ti, rest, at)
                &&& r matches Ok(n) ==> n == uint_value(rest.take(ptr_size() as int), dwarf.big_endian)
            } else {
                r is Err
            },
    )
}

/// The length field of a value gives at most one length: where it gives
/// `n`, any outcome that its contract allows is `n`.
proof fn lemma_length_unique(dwarf: Unit, field: int, bytes: Seq<u8>, address: u64, r: Result<usize, ReflectError>, n: usize)
    requires
        length_spec(dwarf, field, bytes, address, r),
        length_spec(dwarf, field, bytes, address, Ok::<usize, ReflectError>(n)),
    ensures
        r == Ok::<usize, ReflectError>(n),
{
}

/// The data pointer field of a value gives at most one address: where it
/// gives a target, any outcome that its contract allows is a target at the
/// same address.
proof fn lemma_data_ptr_unique<'d>(
    dwarf: Unit,
    field: int,
    bytes: Seq<u8>,
    address: u64,
    r: Result<Target<'d>, ReflectError>,
    t: Target<'d>,
)
    requires
        data_ptr_spec(dwarf, field, bytes, address, r),
        data_ptr_spec(dwarf, field, bytes, address, Ok::<Target<'d>, ReflectError>(t)),
    ensures
        r matches Ok(x) && x.address == t.address,
{
}

/// The referent of the `*mut` pointer that the field `data_ptr` of a value
/// whose bytes are `bytes` at `address` holds.
fn data_ptr_of<'v, 'd>(data_ptr: schema::Field<'d>, bytes: &'v [u8], address: u64) -> (r: Result<Target<'d>, ReflectError>)
    requires
        data_ptr.wf(),
    ensures
        data_ptr_spec(*data_ptr.dwarf, data_ptr.entry as int, bytes@, address, r),
{
    let value = Field::new(data_ptr, bytes, address).value()?;
    match value {
        Value::MutPtr(p) => p.deref_target(),
        _ => downcast(&value, "MutPtr"),
    }
}

/// The `usize` that the field `length` of a value whose bytes are `bytes` at
/// `address` holds.
fn length_of<'v, 'd>(length: schema::Field<'d>, bytes: &'v [u8], address: u64) -> (r: Result<usize, ReflectError>)
    requires
        length.wf(),
    ensures
        length_spec(*length.dwarf, length.entry as int, bytes@, address, r),
{
    let value = Field::new(length, bytes, address).value()?;
    match value {
        Value::Atom(a) => match a.value {
            Scalar::Usize(n) => {
                proof {
                    crate::value::scalar::lemma_usize_value(a.bytes@, a.schema.dwarf.big_endian);
                }
                Ok(n)
            },
            _ => downcast(&value, "usize"),
        },
        _ => downcast(&value, "usize"),
    }
}

/// Whether the elements of a fat pointer with the fields `data_ptr` and
/// `length`, of a value whose bytes are `bytes` at `address`, can be read:
/// the element type and its size can be read, the size fits in a `usize`,
/// the length field gives a length whose product with the size fits in a
/// `usize`, and the data pointer field gives a referent.
pub open spec fn elements_ok<'d>(data_ptr: schema::Field<'d>, length: schema::Field<'d>, bytes: Seq<u8>, address: u64) -> bool {
    let dwarf = *data_ptr.dwarf;
    let ei = elt_entry(dwarf, data_ptr.entry as int);
    &&& elt_of_ok(dwarf, data_ptr.entry as int)
    &&& match type_size(dwarf, ei, dwarf.entries.len() as nat) {
        Ok(n) => {
            &&& n <= usize::MAX
            &&& exists|l: usize|
                #[trigger] length_spec(dwarf, length.entry as int, bytes, address, Ok::<usize, ReflectError>(l)) && n
                    * l <= usize::MAX
            &&& exists|t: Target<'d>|
                #[trigger] data_ptr_spec(dwarf, data_ptr.entry as int, bytes, address, Ok::<Target<'d>, ReflectError>(t))
        },
        Err(()) => false,
    }
}

/// What reading the elements of a fat pointer with the fields `data_ptr`
/// and `length`, of a value whose bytes are `bytes` at `address`, gives, as
/// far as it succeeds.
pub open spec fn elements_spec<'d>(
    data_ptr: schema::Field<'d>,
    length: schema::Field<'d>,
    bytes: Seq<u8>,
    address: u64,
    r: Result<Elements<'d>, ReflectError>,
) -> bool {
    let dwarf = *data_ptr.dwarf;
    let ei = elt_entry(dwarf, data_ptr.entry as int);
    &&& !elt_of_ok(dwarf, data_ptr.entry as int) ==> r is Err
    &&& elt_of_ok(dwarf, data_ptr.entry as int) ==> match type_size(dwarf, ei, dwarf.entries.len() as nat) {
        Err(()) => r is Err,
        Ok(n) => n > usize::MAX ==> (r matches Err(e) && e.error is TryFromInt),
    }
    &&& elements_ok(data_ptr, length, bytes, address) ==> r is Ok
    &&& r matches Ok(el) ==> {
        &&& elt_of_ok(dwarf, data_ptr.entry as int)
        &&& from_die_spec(dwarf, ei, Ok::<Type<'d>, ReflectError>(el.elt_type))
        &&& type_size(dwarf, ei, dwarf.entries.len() as nat) == Ok::<u64, ()>(el.elt_size as u64)
        &&& length_spec(dwarf, length.entry as int, bytes, address, Ok::<usize, ReflectError>(el.length))
        &&& el.size == el.elt_size * el.length
        &&& exists|t: Target<'d>|
            t.address == el.address && #[trigger] data_ptr_spec(
                dwarf,
                data_ptr.entry as int,
                bytes,
                address,
                Ok::<Target<'d>, ReflectError>(t),
            )
    }
}

/// The elements of a fat pointer with the fields `data_ptr` and `length`,
/// of a value whose bytes are `bytes` at `address`.
fn elements_of<'v, 'd>(data_ptr: schema::Field<'d>, length: schema::Field<'d>, bytes: &'v [u8], address: u64) -> (r: Result<
    Elements<'d>,
    ReflectError,
>)
    requires
        data_ptr.wf(),
        length.wf(),
        data_ptr.dwarf == length.dwarf,
    ensures
        elements_spec(data_ptr, length, bytes@, address, r),
{
    let elt_type = elt_of(data_ptr);
    proof {
        if let Ok(t) = elt_type {
            crate::schema::types::lemma_size_of_entry(
                t,
                *data_ptr.dwarf,
                elt_entry(*data_ptr.dwarf, data_ptr.entry as int),
                data_ptr.dwarf.entries.len() as nat,
            );
        }
    }
    let elt_type = elt_type?;
    let elt_size = elt_type.size()?;
    let elt_size = to_usize(elt_size)?;
    let ghost length_entry = length.entry as int;
    let len = length_of(length, bytes, address);
    let len = match len {
        Ok(l) => l,
        Err(e) => {
            proof {
                if exists|l: usize|
                    #[trigger] length_spec(*data_ptr.dwarf, length_entry, bytes@, address, Ok::<usize, ReflectError>(l)) {
                    let l = choose|l: usize|
                        #[trigger] length_spec(*data_ptr.dwarf, length_entry, bytes@, address, Ok::<usize, ReflectError>(l));
                    lemma_length_unique(*data_ptr.dwarf, length_entry, bytes@, address, Err(e), l);
                }
            }
            return Err(e);
        },
    };
    proof {
        assert forall|l: usize|
            #[trigger] length_spec(*data_ptr.dwarf, length_entry, bytes@, address, Ok::<usize, ReflectError>(l))
            implies l == len by {
            lemma_length_unique(*data_ptr.dwarf, length_entry, bytes@, address, Ok(len), l);
        }
    }
    let length = len;
    let size = match elt_size.checked_mul(length) {
        Some(n) => n,
        None => return fail(ErrorKind::ArithmeticOverflow),
    };
    let data = data_ptr_of(data_ptr, bytes, address);
    let data = match data {
        Ok(t) => t,
        Err(e) => {
            proof {
                if exists|t: Target<'d>|
                    #[trigger] data_ptr_spec(*data_ptr.dwarf, data_ptr.entry as int, bytes@, address, Ok::<Target<'d>, ReflectError>(t)) {
                    let t = choose|t: Target<'d>|
                        #[trigger] data_ptr_spec(*data_ptr.dwarf, data_ptr.entry as int, bytes@, address, Ok::<Target<'d>, ReflectError>(t));
                    lemma_data_ptr_unique(*data_ptr.dwarf, data_ptr.entry as int, bytes@, address, Err(e), t);
                }
            }
            return Err(e);
        },
    };
    Ok(Elements { address: data.address, size, elt_size, elt_type, length })
}

impl<'v, 'd> Slice<'v, 'd> {
    /// The referent of this slice's data pointer: its first element.
    pub fn data_ptr(&self) -> (r: Result<Target<'d>, ReflectError>)
        requires
            self.schema.wf(),
        ensures
            data_ptr_spec(*self.schema.schema.dwarf, self.schema.data_ptr.entry as int, self.bytes@, self.address, r),
    {
        data_ptr_of(self.schema.data_ptr, self.bytes, self.address)
    }

    /// The length of this slice.
    pub fn length(&self) -> (r: Result<usize, ReflectError>)
        requires
            self.schema.wf(),
        ensures
            length_spec(*self.schema.schema.dwarf, self.schema.length.entry as int, self.bytes@, self.address, r),
    {
        length_of(self.schema.length, self.bytes, self.address)
    }

    /// The elements of this slice; [`Iter::new`] iterates over their bytes.
    pub fn elements(&self) -> (r: Result<Elements<'d>, ReflectError>)
        requires
            self.schema.wf(),
        ensures
            elements_spec(self.schema.data_ptr, self.schema.length, self.bytes@, self.address, r),
    {
        elements_of(self.schema.data_ptr, self.schema.length, self.bytes, self.address)
    }
}

impl<'v, 'd> BoxedSlice<'v, 'd> {
    /// The referent of this boxed slice's data pointer: its first element.
    pub fn data_ptr(&self) -> (r: Result<Target<'d>, ReflectError>)
        requires
            self.schema.wf(),
        ensures
            data_ptr_spec(*self.schema.schema.dwarf, self.schema.data_ptr.entry as int, self.bytes@, self.address, r),
    {
        data_ptr_of(self.schema.data_ptr, self.bytes, self.address)
    }

    /// The length of this boxed slice.
    pub fn length(&self) -> (r: Result<usize, ReflectError>)
        requires
            self.schema.wf(),
        ensures
            length_spec(*self.schema.schema.dwarf, self.schema.length.entry as int, self.bytes@, self.address, r),
    {
        length_of(self.schema.length, self.bytes, self.address)
    }

    /// The elements of this boxed slice; [`Iter::new`] iterates over their
    /// bytes.
    pub fn elements(&self) -> (r: Result<Elements<'d>, ReflectError>)
        requires
            self.schema.wf(),
        ensures
            elements_spec(self.schema.data_ptr, self.schema.length, self.bytes@, self.address, r),
    {
        elements_of(self.schema.data_ptr, self.schema.length, self.bytes, self.address)
    }
}

impl<'v, 'd> Str<'v, 'd> {
    /// The referent of this string's data pointer: its first byte.
    pub fn data_ptr(&self) -> (r: Result<Target<'d>, ReflectError>)
        requires
            self.schema.wf(),
        ensures
            data_ptr_spec(*self.schema.schema.dwarf, self.schema.data_ptr.entry as int, self.bytes@, self.address, r),
    {
        data_ptr_of(self.schema.data_ptr, self.bytes, self.address)
    }

    /// The length of this string, in bytes.
    pub fn length(&self) -> (r: Result<usize, ReflectError>)
        requires
            self.schema.wf(),
        ensures
            length_spec(*self.schema.schema.dwarf, self.schema.length.entry as int, self.bytes@, self.address, r),
    {
        length_of(self.schema.length, self.bytes, self.address)
    }

    /// The string whose bytes, `length` of them from the address of the data
    /// pointer, are `data`; an error if they are not valid UTF-8.
    pub fn value(&self, data: &[u8]) -> (r: Result<String, ReflectError>)
        ensures
            valid_utf8(data@) ==> (r matches Ok(s) && s@ == decode_utf8(data@)),
            !valid_utf8(data@) ==> outcome(r) == Err::<String, ErrorKind>(ErrorKind::InvalidUtf8),
    {
        match utf8_strict(data) {
            Some(s) => Ok(s),
            None => fail(ErrorKind::InvalidUtf8),
        }
    }
}

/// Whether `vtable` is a vtable whose first two entries can be read: an
/// array of at least two `usize`, whose bytes hold them, each at an address
/// that is a multiple of the alignment of a `usize`.
pub open spec fn vtable_ok<'v, 'd>(vtable: Value<'v, 'd>) -> bool {
    match vtable {
        Value::Array(a) => {
            let dwarf = *a.schema.dwarf;
            let entry = a.schema.entry as int;
            &&& spec_type_res(dwarf, dwarf.entries[entry]) matches Ok(ei)
            &&& crate::schema::types::type_ok(dwarf, ei as int)
            &&& type_kind(dwarf, ei as int) == TypeKind::Atom(Primitive::Usize)
            &&& spec_array_len(dwarf, entry) matches Ok(len)
            &&& 2 <= len <= usize::MAX
            &&& a.bytes@.len() >= 2 * ptr_size()
            &&& a.address + 2 * ptr_size() <= u64::MAX
            &&& a.address % (vstd::layout::align_of::<usize>() as u64) == 0
            &&& ((a.address + ptr_size()) as u64) % (vstd::layout::align_of::<usize>() as u64) == 0
        },
        _ => false,
    }
}

/// The `usize` that a reflected value holds.
fn usize_of(v: &Value) -> (r: Result<usize, ReflectError>)
    ensures
        match *v {
            Value::Atom(a) => match a.value {
                Scalar::Usize(n) => r == Ok::<usize, ReflectError>(n),
                _ => r matches Err(e) && e.error is Downcast,
            },
            _ => r matches Err(e) && e.error is Downcast,
        },
{
    match v {
        Value::Atom(a) => match a.value {
            Scalar::Usize(n) => Ok(n),
            _ => downcast(v, "usize"),
        },
        _ => downcast(v, "usize"),
    }
}

impl<'v, 'd> BoxedDyn<'v, 'd> {
    /// The value of this box's `vtable` field: a reference to the vtable.
    pub fn vtable(&self) -> (r: Result<Value<'v, 'd>, ReflectError>)
        requires
            self.schema.wf(),
        ensures
            crate::value::fields::field_value_spec(
                *self.schema.schema.dwarf,
                self.schema.vtable.entry as int,
                self.bytes@,
                self.address,
                r,
            ),
    {
        Field::new(self.schema.vtable, self.bytes, self.address).value()
    }

    /// The vtable of the boxed value: the referent of the shared reference
    /// in this box's `vtable` field.
    pub fn vtable_target(&self) -> (r: Result<Target<'d>, ReflectError>)
        requires
            self.schema.wf(),
        ensures
            ({
                let dwarf = *self.schema.schema.dwarf;
                field_step(
                    dwarf,
                    self.schema.vtable.entry as int,
                    self.bytes@,
                    self.address,
                    r,
                    |ti: int, rest: Seq<u8>, at: u64|
                        if type_kind(dwarf, ti) == TypeKind::SharedRef {
                            target_spec(dwarf, spec_ref(dwarf.entries[ti], DW_AT_type)->Ok_0, rest, r)
                        } else {
                            r is Err
                        },
                )
            }),
    {
        let value = self.vtable()?;
        match value {
            Value::SharedRef(p) => p.deref_target(),
            _ => downcast(&value, "SharedRef"),
        }
    }

    /// The first two entries of the vtable `vtable`, an array of `usize`:
    /// the address of the boxed value's drop glue, and the boxed value's
    /// size.
    pub fn vtable_entries(vtable: &Value<'v, 'd>) -> (r: Result<(usize, usize), ReflectError>)
        requires
            vtable.ty_of().wf(),
        ensures
            !(vtable is Array) ==> (r matches Err(e) && e.error is Downcast),
            vtable_ok(*vtable) ==> r is Ok,
            r matches Ok((drop_glue, size)) ==> vtable matches Value::Array(a) && a.bytes@.len() >= 2
                * ptr_size() && drop_glue == uint_value(
                a.bytes@.take(ptr_size() as int),
                a.schema.dwarf.big_endian,
            ) && size == uint_value(
                a.bytes@.subrange(ptr_size() as int, 2 * ptr_size() as int),
                a.schema.dwarf.big_endian,
            ),
    {
        let array = match vtable {
            Value::Array(a) => a,
            _ => return downcast(vtable, "Array"),
        };
        let mut entries = array.iter()?;
        let first = match entries.next() {
            Some(x) => x?,
            None => return fail(ErrorKind::OutOfBounds),
        };
        let drop_glue = usize_of(&first)?;
        let second = match entries.next() {
            Some(x) => x?,
            None => return fail(ErrorKind::OutOfBounds),
        };
        let size = usize_of(&second)?;
        proof {
            let dwarf = *array.schema.dwarf;
            let ei = spec_type_res(dwarf, dwarf.entries[array.schema.entry as int])->Ok_0 as int;
            assert(first matches Value::Atom(x) && x.schema.kind == Primitive::Usize);
            assert(entries.elt_type.kind() == TypeKind::Atom(Primitive::Usize));
            assert(type_kind(dwarf, ei) == TypeKind::Atom(Primitive::Usize));
            assert(type_size(dwarf, ei, dwarf.entries.len() as nat) == Ok::<u64, ()>(ptr_size() as u64));
            assert(entries.elt_size == ptr_size());
            let p = ptr_size() as int;
            let b = array.bytes@;
            assert(b.take(p).take(p) =~= b.take(p));
            assert(b.skip(p).take(p).take(p) =~= b.skip(p).take(p));
            assert(first.bytes_of() == b.take(p));
            assert(second.bytes_of() == b.skip(p).take(p));
            crate::value::scalar::lemma_usize_value(b.take(p), dwarf.big_endian);
            crate::value::scalar::lemma_usize_value(b.skip(p).take(p), dwarf.big_endian);
            assert(array.bytes@.skip(ptr_size() as int).take(ptr_size() as int) =~= array.bytes@.subrange(
                ptr_size() as int,
                2 * ptr_size() as int,
            ));
        }
        Ok((drop_glue, size))
    }

    /// The address of the boxed value: the address that the `*mut` pointer
    /// in this box's `pointer` field holds.
    pub fn data_address(&self) -> (r: Result<u64, ReflectError>)
        requires
            self.schema.wf(),
        ensures
            ({
                let dwarf = *self.schema.schema.dwarf;
                field_step(
                    dwarf,
                    self.schema.pointer.entry as int,
                    self.bytes@,
                    self.address,
                    r,
                    |ti: int, rest: Seq<u8>, at: u64|
                        if type_kind(dwarf, ti) == TypeKind::MutPtr {
                            outcome(r) == crate::value::pointers::spec_pointee(rest, dwarf.big_endian)
                        } else {
                            r is Err
                        },
                )
            }),
    {
        let value = Field::new(self.schema.pointer, self.bytes, self.address).value()?;
        match value {
            Value::MutPtr(p) => p.address_value(),
            _ => downcast(&value, "MutPtr"),
        }
    }
}

} // verus!
