//! Properties of reflection that hold across the library's functions.
use vstd::prelude::*;

use crate::dwarf::Unit;
use crate::err::ErrorKind;
use crate::schema;
use crate::schema::variants::{scan_non_member, spec_variant_at};
use crate::value::enums::{discr_matches, lemma_scan_non_member_bound, select_variant, Choice};
use crate::schema::atom::{prim_align, prim_size, Primitive};
use crate::schema::types::{type_kind, type_ok, type_size, Type, TypeKind};
use crate::schema::array::{spec_array_bytes, spec_array_len};
use crate::lookup::spec_type_res;
use crate::value::scalar::{be_value, byte_power, le_value, spec_scalar, uint_value, Scalar};
use crate::value::value::{kept_len, reads_ok, Value};

verus! {

broadcast use vstd::layout::layout_of_primitives;

/// The `n` bytes that store the unsigned integer `x`, in the given byte
/// order.
pub open spec fn stored_uint(x: nat, n: nat, big_endian: bool) -> Seq<u8>
    decreases n,
{
    if n == 0 {
        seq![]
    } else if big_endian {
        stored_uint(x / 256, (n - 1) as nat, true).push((x % 256) as u8)
    } else {
        seq![(x % 256) as u8] + stored_uint(x / 256, (n - 1) as nat, false)
    }
}

/// The primitive type of a decoded value.
pub open spec fn scalar_kind(s: Scalar) -> Primitive {
    match s {
        Scalar::Bool(_) => Primitive::Bool,
        Scalar::Char(_) => Primitive::Char,
        Scalar::F32(_) => Primitive::F32,
        Scalar::F64(_) => Primitive::F64,
        Scalar::I8(_) => Primitive::I8,
        Scalar::I16(_) => Primitive::I16,
        Scalar::I32(_) => Primitive::I32,
        Scalar::I64(_) => Primitive::I64,
        Scalar::I128(_) => Primitive::I128,
        Scalar::Isize(_) => Primitive::Isize,
        Scalar::U8(_) => Primitive::U8,
        Scalar::U16(_) => Primitive::U16,
        Scalar::U32(_) => Primitive::U32,
        Scalar::U64(_) => Primitive::U64,
        Scalar::U128(_) => Primitive::U128,
        Scalar::Usize(_) => Primitive::Usize,
    }
}

/// The bytes that store the value `s` in memory, in the given byte order:
/// `false` and `true` as 0 and 1, a `char` as its code point, a
/// floating-point value as its bits, signed integers in two's complement.
pub open spec fn stored_scalar(s: Scalar, big_endian: bool) -> Seq<u8> {
    let n = prim_size(scalar_kind(s));
    match s {
        Scalar::Bool(b) => stored_uint(if b { 1 } else { 0 }, n, big_endian),
        Scalar::Char(c) => stored_uint(c as nat, n, big_endian),
        Scalar::F32(v) => stored_uint(v as nat, n, big_endian),
        Scalar::F64(v) => stored_uint(v as nat, n, big_endian),
        Scalar::I8(v) => stored_uint(v as u8 as nat, n, big_endian),
        Scalar::I16(v) => stored_uint(v as u16 as nat, n, big_endian),
        Scalar::I32(v) => stored_uint(v as u32 as nat, n, big_endian),
        Scalar::I64(v) => stored_uint(v as u64 as nat, n, big_endian),
        Scalar::I128(v) => stored_uint(v as u128 as nat, n, big_endian),
        Scalar::Isize(v) => stored_uint(v as usize as nat, n, big_endian),
        Scalar::U8(v) => stored_uint(v as nat, n, big_endian),
        Scalar::U16(v) => stored_uint(v as nat, n, big_endian),
        Scalar::U32(v) => stored_uint(v as nat, n, big_endian),
        Scalar::U64(v) => stored_uint(v as nat, n, big_endian),
        Scalar::U128(v) => stored_uint(v as nat, n, big_endian),
        Scalar::Usize(v) => stored_uint(v as nat, n, big_endian),
    }
}

proof fn lemma_div_256(x: nat, n: nat)
    requires
        n > 0,
        x < byte_power(n),
    ensures
        x / 256 < byte_power((n - 1) as nat),
        x % 256 + 256 * (x / 256) == x,
{
    let p = byte_power((n - 1) as nat);
    assert(byte_power(n) == 256 * p);
    assert(x / 256 < p) by (nonlinear_arith)
        requires
            x < 256 * p,
    ;
    assert(x % 256 + 256 * (x / 256) == x) by (nonlinear_arith);
}

/// Decoding the bytes that store an unsigned integer gives that integer
/// back, in either byte order.
pub proof fn law_uint_roundtrip(x: nat, n: nat, big_endian: bool)
    requires
        x < byte_power(n),
    ensures
        stored_uint(x, n, big_endian).len() == n,
        uint_value(stored_uint(x, n, big_endian), big_endian) == x,
    decreases n,
{
    if n > 0 {
        lemma_div_256(x, n);
        law_uint_roundtrip(x / 256, (n - 1) as nat, big_endian);
        let rest = stored_uint(x / 256, (n - 1) as nat, big_endian);
        if big_endian {
            assert(rest.push((x % 256) as u8).drop_last() =~= rest);
        } else {
            assert((seq![(x % 256) as u8] + rest).drop_first() =~= rest);
        }
    }
}

/// Reading the bytes that store a value of a primitive type, by that type,
/// gives the value back: integers of every width and signedness, `bool`,
/// `char`, and the bits of floating-point values, in either byte order.
pub proof fn law_scalar_roundtrip(s: Scalar, big_endian: bool)
    ensures
        stored_scalar(s, big_endian).len() == prim_size(scalar_kind(s)),
        spec_scalar(scalar_kind(s), stored_scalar(s, big_endian), big_endian) == Ok::<Scalar, crate::err::ErrorKind>(s),
{
    reveal_with_fuel(byte_power, 17);
    let n = prim_size(scalar_kind(s));
    assert(usize::BITS == 32 || usize::BITS == 64);
    match s {
        Scalar::Bool(b) => law_uint_roundtrip(if b { 1 } else { 0 }, n, big_endian),
        Scalar::Char(c) => law_uint_roundtrip(c as nat, n, big_endian),
        Scalar::F32(v) => law_uint_roundtrip(v as nat, n, big_endian),
        Scalar::F64(v) => law_uint_roundtrip(v as nat, n, big_endian),
        Scalar::I8(v) => {
            law_uint_roundtrip(v as u8 as nat, n, big_endian);
            assert(v as u8 as i8 == v) by (bit_vector);
        },
        Scalar::I16(v) => {
            law_uint_roundtrip(v as u16 as nat, n, big_endian);
            assert(v as u16 as i16 == v) by (bit_vector);
        },
        Scalar::I32(v) => {
            law_uint_roundtrip(v as u32 as nat, n, big_endian);
            assert(v as u32 as i32 == v) by (bit_vector);
        },
        Scalar::I64(v) => {
            law_uint_roundtrip(v as u64 as nat, n, big_endian);
            assert(v as u64 as i64 == v) by (bit_vector);
        },
        Scalar::I128(v) => {
            law_uint_roundtrip(v as u128 as nat, n, big_endian);
            assert(v as u128 as i128 == v) by (bit_vector);
        },
        Scalar::Isize(v) => {
            law_uint_roundtrip(v as usize as nat, n, big_endian);
            assert(v as usize as isize == v) by (bit_vector);
        },
        Scalar::U8(v) => law_uint_roundtrip(v as nat, n, big_endian),
        Scalar::U16(v) => law_uint_roundtrip(v as nat, n, big_endian),
        Scalar::U32(v) => law_uint_roundtrip(v as nat, n, big_endian),
        Scalar::U64(v) => law_uint_roundtrip(v as nat, n, big_endian),
        Scalar::U128(v) => law_uint_roundtrip(v as nat, n, big_endian),
        Scalar::Usize(v) => law_uint_roundtrip(v as nat, n, big_endian),
    }
}

/// Reading memory that stores a value of a primitive type, at an address
/// that is a multiple of the type's alignment, by that type succeeds, and
/// every value it can give holds that value: what was written is read back.
pub proof fn law_atom_read<'v, 'd>(a: schema::Atom<'d>, s: Scalar, rest: Seq<u8>, address: u64)
    requires
        scalar_kind(s) == a.kind,
        address % (prim_align(a.kind) as u64) == 0,
    ensures
        ({
            let ty = Type::Atom(a);
            let bytes = stored_scalar(s, a.dwarf.big_endian) + rest;
            &&& reads_ok(ty.kind(), ty.unit_of(), ty.entry_index() as int, bytes, address)
            &&& forall|v: Value<'v, 'd>| #[trigger] v.reads(ty, bytes, address) ==> (v matches Value::Atom(x) && x.value == s)
        }),
{
    law_scalar_roundtrip(s, a.dwarf.big_endian);
    let stored = stored_scalar(s, a.dwarf.big_endian);
    let bytes = stored + rest;
    assert(bytes.take(prim_size(a.kind) as int) =~= stored);
}

/// The elements that an iterator produces are successive: after it has
/// produced `k` elements of `size` bytes, the bytes that remain are those of
/// `bytes` from `k * size` on, and the next element's bytes are those from
/// `k * size` to `(k + 1) * size`.
pub proof fn law_successive_elements(bytes: Seq<u8>, size: int, k: int)
    requires
        0 <= size,
        0 <= k,
        (k + 1) * size <= bytes.len(),
    ensures
        bytes.skip(k * size).take(size) == bytes.subrange(k * size, (k + 1) * size),
        bytes.skip(k * size).skip(size) == bytes.skip((k + 1) * size),
{
    assert((k + 1) * size == k * size + size) by (nonlinear_arith);
    assert(0 <= k * size) by (nonlinear_arith)
        requires
            0 <= k,
            0 <= size,
    ;
    assert(bytes.skip(k * size).take(size) =~= bytes.subrange(k * size, (k + 1) * size));
    assert(bytes.skip(k * size).skip(size) =~= bytes.skip((k + 1) * size));
}

/// The variants that the iterator over the variants among `children`
/// produces from position `next` on (the first at position `index` among
/// the variants), with their discriminant values and positions.
pub open spec fn variant_list(dwarf: Unit, children: Seq<usize>, kind: TypeKind, next: int, index: nat) -> Result<
    Seq<Choice>,
    ErrorKind,
>
    decreases children.len() - next,
{
    match scan_non_member(dwarf, children, next) {
        Err(()) => Err(ErrorKind::OutOfBounds),
        Ok(None) => Ok(seq![]),
        Ok(Some(k)) => if k < next || k >= children.len() {
            Ok(seq![])
        } else {
            match spec_variant_at(dwarf, children[k] as int, kind) {
                Err(e) => Err(e),
                Ok((e, d)) => match variant_list(dwarf, children, kind, k + 1, index + 1) {
                    Err(x) => Err(x),
                    Ok(rest) => Ok(seq![(e, d, index)] + rest),
                },
            }
        },
    }
}

/// The last of `vs` whose discriminant value equals the discriminant at
/// position `off` of `bytes`.
pub open spec fn last_matching(vs: Seq<Choice>, bytes: Seq<u8>, off: int, big_endian: bool) -> Option<Choice>
    decreases vs.len(),
{
    if vs.len() == 0 {
        None
    } else {
        match last_matching(vs.drop_first(), bytes, off, big_endian) {
            Some(c) => Some(c),
            None => if vs[0].1 matches Some(d) && discr_matches(d, bytes, off, big_endian) == Ok::<bool, ErrorKind>(true) {
                Some(vs[0])
            } else {
                None
            },
        }
    }
}

/// The last of `vs` without a discriminant value.
pub open spec fn last_default(vs: Seq<Choice>) -> Option<Choice>
    decreases vs.len(),
{
    if vs.len() == 0 {
        None
    } else {
        match last_default(vs.drop_first()) {
            Some(c) => Some(c),
            None => if vs[0].1 is None {
                Some(vs[0])
            } else {
                None
            },
        }
    }
}

/// Whether comparing the discriminant at position `off` of `bytes` with the
/// discriminant value of each of `vs` succeeds: the bytes compared lie
/// within `bytes`.
pub open spec fn comparable(vs: Seq<Choice>, bytes: Seq<u8>, off: int, big_endian: bool) -> bool {
    forall|i: int|
        0 <= i < vs.len() ==> ((#[trigger] vs[i]).1 matches Some(d) ==> discr_matches(d, bytes, off, big_endian) is Ok)
}

/// The first of two choices that is one.
pub open spec fn either(a: Option<Choice>, b: Option<Choice>) -> Option<Choice> {
    if a is Some {
        a
    } else {
        b
    }
}

proof fn lemma_select_list(
    dwarf: Unit,
    children: Seq<usize>,
    kind: TypeKind,
    next: int,
    index: nat,
    bytes: Seq<u8>,
    off: int,
    big_endian: bool,
    matched: Option<Choice>,
    default: Option<Choice>,
    vs: Seq<Choice>,
)
    requires
        0 <= next,
        variant_list(dwarf, children, kind, next, index) == Ok::<Seq<Choice>, ErrorKind>(vs),
        comparable(vs, bytes, off, big_endian),
    ensures
        select_variant(dwarf, children, kind, next, index, bytes, off, big_endian, matched, default) == Ok::<
            Option<Choice>,
            ErrorKind,
        >(
            either(
                either(last_matching(vs, bytes, off, big_endian), matched),
                either(last_default(vs), default),
            ),
        ),
    decreases children.len() - next,
{
    lemma_scan_non_member_bound(dwarf, children, next);
    match scan_non_member(dwarf, children, next) {
        Ok(Some(k)) => {
            if k >= next && k < children.len() {
                let (e, d) = spec_variant_at(dwarf, children[k] as int, kind)->Ok_0;
                let rest = variant_list(dwarf, children, kind, k + 1, index + 1)->Ok_0;
                assert(vs == seq![(e, d, index)] + rest);
                assert(vs.drop_first() =~= rest);
                assert(vs[0] == (e, d, index));
                assert(comparable(rest, bytes, off, big_endian)) by {
                    assert forall|i: int| 0 <= i < rest.len() implies ((#[trigger] rest[i]).1 matches Some(dv)
                        ==> discr_matches(dv, bytes, off, big_endian) is Ok) by {
                        assert(rest[i] == vs[i + 1]);
                    }
                }
                match d {
                    Some(dv) => {
                        assert(vs[0].1 == Some(dv));
                        if discr_matches(dv, bytes, off, big_endian) == Ok::<bool, ErrorKind>(true) {
                            lemma_select_list(
                                dwarf,
                                children,
                                kind,
                                k + 1,
                                index + 1,
                                bytes,
                                off,
                                big_endian,
                                Some((e, d, index)),
                                default,
                                rest,
                            );
                        } else {
                            lemma_select_list(
                                dwarf,
                                children,
                                kind,
                                k + 1,
                                index + 1,
                                bytes,
                                off,
                                big_endian,
                                matched,
                                default,
                                rest,
                            );
                        }
                    },
                    None => {
                        lemma_select_list(
                            dwarf,
                            children,
                            kind,
                            k + 1,
                            index + 1,
                            bytes,
                            off,
                            big_endian,
                            matched,
                            Some((e, None, index)),
                            rest,
                        );
                    },
                }
            }
        },
        _ => {},
    }
}

/// The variant that a value of an enum holds is the last variant whose
/// discriminant value equals the discriminant that the value stores, or,
/// where none does, the last variant without a discriminant value (none
/// where there is no such variant): provided that the variants can be read
/// and the stored discriminant lies within the value's bytes.
pub proof fn law_variant_selection(
    dwarf: Unit,
    children: Seq<usize>,
    kind: TypeKind,
    bytes: Seq<u8>,
    off: int,
    big_endian: bool,
    vs: Seq<Choice>,
)
    requires
        variant_list(dwarf, children, kind, 0, 0) == Ok::<Seq<Choice>, ErrorKind>(vs),
        comparable(vs, bytes, off, big_endian),
    ensures
        select_variant(dwarf, children, kind, 0, 0, bytes, off, big_endian, None, None) == Ok::<
            Option<Choice>,
            ErrorKind,
        >(either(last_matching(vs, bytes, off, big_endian), last_default(vs))),
{
    lemma_select_list(dwarf, children, kind, 0, 0, bytes, off, big_endian, None, None, vs);
}

/// Iterating over the variants of an enum restarts each time: every
/// iterator that `Variants::iter` gives starts at the first child and the
/// first variant, so, drained, it yields the variants of the whole list,
/// whatever iterators were taken and drained before.
pub proof fn law_variants_restart<'d>(vs: schema::variants::Variants<'d>, it: schema::variants::VariantsIter<'d>)
    requires
        it.dwarf == vs.dwarf,
        it.root == vs.root,
        it.next == 0,
        it.index == 0,
        it.discriminant_type == vs.discriminant_type,
    ensures
        it.drained() == variant_list(
            *vs.dwarf,
            vs.dwarf.entries[vs.root as int].children@,
            vs.discriminant_type.kind(),
            0,
            0,
        ),
{
}

/// The variants that an iterator over variants yields have successive
/// positions among the variants, from the iterator's own on; so no two of
/// them share a position.
pub proof fn law_variant_indices(dwarf: Unit, children: Seq<usize>, kind: TypeKind, next: int, index: nat)
    requires
        0 <= next,
    ensures
        variant_list(dwarf, children, kind, next, index) matches Ok(l) ==> forall|k: int|
            0 <= k < l.len() ==> (#[trigger] l[k]).2 == index + k,
    decreases children.len() - next,
{
    lemma_scan_non_member_bound(dwarf, children, next);
    match scan_non_member(dwarf, children, next) {
        Ok(Some(k)) => if next <= k < children.len() {
            law_variant_indices(dwarf, children, kind, k + 1, index + 1);
            match variant_list(dwarf, children, kind, next, index) {
                Ok(l) => {
                    let rest = variant_list(dwarf, children, kind, k + 1, index + 1)->Ok_0;
                    assert forall|m: int| 0 <= m < l.len() implies (#[trigger] l[m]).2 == index + m by {
                        if m > 0 {
                            assert(l[m] == rest[m - 1]);
                        }
                    }
                },
                Err(_) => {},
            }
        },
        _ => {},
    }
}

/// Draining the fields of an entry yields each of its member children
/// once, in order: every iterator that `Fields::iter` gives starts at the
/// first child, and each step of `FieldsIter::try_next` yields the next
/// member and leaves the rest.
pub proof fn law_fields_in_order<'d>(fields: schema::Fields<'d>, it: schema::FieldsIter<'d>)
    requires
        it.dwarf == fields.dwarf,
        it.entry == fields.entry,
        it.next == 0,
    ensures
        it.drained() == schema::fields::members_from(
            *fields.dwarf,
            fields.dwarf.entries[fields.entry as int].children@,
            0,
        ),
{
}

/// A size that can be computed following at most `fuel` nested arrays is
/// the size computed following more.
proof fn lemma_size_fuel(dwarf: Unit, entry: int, fuel: nat)
    ensures
        type_size(dwarf, entry, fuel) is Ok ==> type_size(dwarf, entry, fuel + 1) == type_size(dwarf, entry, fuel),
    decreases fuel,
{
    if fuel > 0 && type_ok(dwarf, entry) && type_kind(dwarf, entry) == TypeKind::Array {
        match (spec_array_len(dwarf, entry), spec_type_res(dwarf, dwarf.entries[entry])) {
            (Ok(_), Ok(elt)) => lemma_size_fuel(dwarf, elt as int, (fuel - 1) as nat),
            _ => {},
        }
    }
}

/// The size of an array is its length times the size of its element type,
/// as `Array::len`, `Array::elt_type` and `Type::size` give them: where
/// `Array::bytes` gives a size, the length and the element size can be
/// read and it is their product; where the length, the element type or
/// the element size cannot be read, it gives none.
pub proof fn law_array_bytes(dwarf: Unit, entry: int)
    requires
        0 <= entry < dwarf.entries.len(),
    ensures
        spec_array_bytes(dwarf, entry, (dwarf.entries.len() - 1) as nat) matches Ok(n) ==> {
            &&& spec_array_len(dwarf, entry) matches Ok(len)
            &&& spec_type_res(dwarf, dwarf.entries[entry]) matches Ok(elt)
            &&& type_size(dwarf, elt as int, dwarf.entries.len() as nat) matches Ok(size)
            &&& n == len * size
        },
        (spec_array_len(dwarf, entry) is Err || spec_type_res(dwarf, dwarf.entries[entry]) is Err || type_size(
            dwarf,
            spec_type_res(dwarf, dwarf.entries[entry])->Ok_0 as int,
            dwarf.entries.len() as nat,
        ) is Err) ==> spec_array_bytes(dwarf, entry, (dwarf.entries.len() - 1) as nat) is Err,
{
    match spec_type_res(dwarf, dwarf.entries[entry]) {
        Ok(elt) => lemma_size_fuel(dwarf, elt as int, (dwarf.entries.len() - 1) as nat),
        Err(_) => {},
    }
}

/// Whether each entry's children are listed in increasing order of index,
/// so that no entry is listed twice among one entry's children.
pub open spec fn children_increasing(u: Unit) -> bool {
    forall|i: int, a: int, b: int|
        0 <= i < u.entries.len() && 0 <= a < b < u.entries[i].children.len() ==> #[trigger] u.entries[i].children@[a]
            < #[trigger] u.entries[i].children@[b]
}

/// A unit that `read_unit` reads lists each entry's children in increasing
/// order of index.
pub proof fn law_read_children_increasing(s: crate::load::Sections, unit: usize, u: Unit)
    requires
        crate::load::unit_read(s, unit, u),
    ensures
        children_increasing(u),
{
    assert forall|i: int, a: int, b: int|
        0 <= i < u.entries.len() && 0 <= a < b < u.entries[i].children.len() implies #[trigger] u.entries[i].children@[a]
            < #[trigger] u.entries[i].children@[b] by {
        let shapes = crate::load::unit_shapes(s, unit)->Some_0;
        assert(u.entries@[i].children@ == crate::load::kids(shapes, i as usize));
        crate::load::lemma_kids_increasing(shapes, i as usize);
    }
}

/// In a unit whose children are listed in increasing order, the two
/// members that a fat pointer's schema designates (data pointer and length,
/// or pointer and vtable) are different entries.
pub proof fn law_distinct_members(dwarf: Unit, entry: int, tag: u16)
    requires
        children_increasing(dwarf),
        0 <= entry < dwarf.entries.len(),
    ensures
        schema::children::first_two(dwarf, entry, tag) matches Some((a, b)) ==> a < b,
{
    let children = schema::children::children_of(dwarf, entry);
    schema::fields::lemma_scan_tag_bound(dwarf, children, 0, tag);
    match schema::fields::scan_tag(dwarf, children, 0, tag) {
        Ok(Some(k1)) => {
            schema::fields::lemma_scan_tag_bound(dwarf, children, k1 + 1, tag);
        },
        _ => {},
    }
}

/// Whether the discriminant value of the variant `v` equals the
/// discriminant at position `off` of `bytes`.
pub open spec fn variant_matches(v: Choice, bytes: Seq<u8>, off: int, big_endian: bool) -> bool {
    v.1 matches Some(d) && discr_matches(d, bytes, off, big_endian) == Ok::<bool, ErrorKind>(true)
}

/// Whether no variant among `vs` has a discriminant value equal to the
/// discriminant at position `off` of `bytes`.
pub open spec fn no_variant_matches(vs: Seq<Choice>, bytes: Seq<u8>, off: int, big_endian: bool) -> bool {
    forall|j: int| 0 <= j < vs.len() ==> !variant_matches(#[trigger] vs[j], bytes, off, big_endian)
}

/// Where no variant's discriminant value matches, none is the last
/// matching one.
proof fn lemma_no_match(vs: Seq<Choice>, bytes: Seq<u8>, off: int, big_endian: bool)
    requires
        no_variant_matches(vs, bytes, off, big_endian),
    ensures
        last_matching(vs, bytes, off, big_endian) is None,
    decreases vs.len(),
{
    if vs.len() > 0 {
        assert forall|j: int| 0 <= j < vs.drop_first().len() implies !variant_matches(
            #[trigger] vs.drop_first()[j],
            bytes,
            off,
            big_endian,
        ) by {
            assert(vs.drop_first()[j] == vs[j + 1]);
        }
        lemma_no_match(vs.drop_first(), bytes, off, big_endian);
        assert(!variant_matches(vs[0], bytes, off, big_endian));
    }
}

/// Where some variant has no discriminant value, the last such variant is
/// one without a discriminant value, and one of the variants.
proof fn lemma_some_default(vs: Seq<Choice>, j: int)
    requires
        0 <= j < vs.len(),
        vs[j].1 is None,
    ensures
        last_default(vs) matches Some(c) && c.1 is None && vs.contains(c),
    decreases vs.len(),
{
    if j > 0 {
        assert(vs.drop_first()[j - 1] == vs[j]);
        lemma_some_default(vs.drop_first(), j - 1);
        let c = last_default(vs)->Some_0;
        assert(vs.drop_first().contains(c));
        let w = choose|w: int| 0 <= w < vs.drop_first().len() && vs.drop_first()[w] == c;
        assert(vs[w + 1] == c);
    } else {
        match last_default(vs.drop_first()) {
            Some(c) => {
                lemma_default_member(vs.drop_first());
                let w = choose|w: int| 0 <= w < vs.drop_first().len() && vs.drop_first()[w] == c;
                assert(vs[w + 1] == c);
            },
            None => {
                assert(vs[0] == vs[j]);
            },
        }
    }
}

/// The last variant without a discriminant value is one of the variants,
/// and has none.
proof fn lemma_default_member(vs: Seq<Choice>)
    ensures
        last_default(vs) matches Some(c) ==> c.1 is None && vs.contains(c),
    decreases vs.len(),
{
    if vs.len() > 0 {
        lemma_default_member(vs.drop_first());
        match last_default(vs.drop_first()) {
            Some(c) => {
                let w = choose|w: int| 0 <= w < vs.drop_first().len() && vs.drop_first()[w] == c;
                assert(vs[w + 1] == c);
            },
            None => {
                if vs[0].1 is None {
                    assert(vs[0] == vs[0]);
                }
            },
        }
    }
}

/// The variant that a value of an enum holds, as `Enum::variant` reads it:
/// where the discriminant's location and type can be read, the variants can
/// be read, and the discriminant lies within the value's bytes, it is the
/// last variant whose discriminant value equals the stored discriminant;
/// where none does, the last variant without a discriminant value (the
/// dataful variant of a niche-encoded enum); and only where there is no
/// such variant either, an error that the enum cannot be destructured.
pub proof fn law_enum_variant(
    e: schema::Enum,
    bytes: Seq<u8>,
    address: u64,
    inner: crate::schema::offset::OffsetInner,
    discr_address: u64,
    ti: usize,
    vs: Seq<Choice>,
)
    requires
        crate::value::enums::discr_location(e) == Ok::<crate::schema::offset::OffsetInner, ErrorKind>(inner),
        !crate::schema::offset::parser_fails(*e.dwarf, inner, address),
        crate::schema::offset::spec_address(*e.dwarf, inner, address) == Ok::<u64, ErrorKind>(discr_address),
        address <= discr_address,
        crate::lookup::spec_entry(*e.dwarf, e.discr_type_offset) == Ok::<usize, ErrorKind>(ti),
        type_ok(*e.dwarf, ti as int),
        variant_list(
            *e.dwarf,
            e.dwarf.entries[e.variants_root as int].children@,
            type_kind(*e.dwarf, ti as int),
            0,
            0,
        ) == Ok::<Seq<Choice>, ErrorKind>(vs),
        comparable(vs, bytes, discr_address - address, e.dwarf.big_endian),
    ensures
        crate::value::enums::spec_variant(e, bytes, address) == match either(
            last_matching(vs, bytes, discr_address - address, e.dwarf.big_endian),
            last_default(vs),
        ) {
            Some(c) => Ok(c),
            None => Err::<Choice, Option<ErrorKind>>(Some(ErrorKind::EnumDestructure)),
        },
        (no_variant_matches(vs, bytes, discr_address - address, e.dwarf.big_endian) && exists|j: int|
            0 <= j < vs.len() && (#[trigger] vs[j]).1 is None) ==> (crate::value::enums::spec_variant(e, bytes, address)
            matches Ok(c) && c.1 is None && vs.contains(c)),
{
    law_variant_selection(
        *e.dwarf,
        e.dwarf.entries[e.variants_root as int].children@,
        type_kind(*e.dwarf, ti as int),
        bytes,
        discr_address - address,
        e.dwarf.big_endian,
        vs,
    );
    let off = discr_address - address;
    if no_variant_matches(vs, bytes, off, e.dwarf.big_endian) && exists|j: int|
        0 <= j < vs.len() && (#[trigger] vs[j]).1 is None {
        lemma_no_match(vs, bytes, off, e.dwarf.big_endian);
        let j = choose|j: int| 0 <= j < vs.len() && (#[trigger] vs[j]).1 is None;
        lemma_some_default(vs, j);
    }
}

/// The positions before `k` that a search for tag `tag` from `pos` skips
/// hold entries of the unit of other tags, where it finds `k`.
proof fn lemma_scan_skips(dwarf: Unit, children: Seq<usize>, pos: int, tag: u16)
    requires
        0 <= pos,
    ensures
        schema::fields::scan_tag(dwarf, children, pos, tag) matches Ok(Some(k)) ==> forall|j: int|
            pos <= j < k ==> (#[trigger] children[j]) < dwarf.entries.len() && dwarf.entries[children[j] as int].tag
                != tag,
    decreases children.len() - pos,
{
    if pos < children.len() && children[pos] < dwarf.entries.len() && dwarf.entries[children[pos] as int].tag != tag {
        lemma_scan_skips(dwarf, children, pos + 1, tag);
    }
}

/// A search for tag `tag` from `pos` finds the first position at or after
/// `pos` whose entry has that tag, where every position before it holds an
/// entry of the unit.
proof fn lemma_scan_finds(dwarf: Unit, children: Seq<usize>, pos: int, tag: u16, k: int)
    requires
        0 <= pos <= k < children.len(),
        children[k] < dwarf.entries.len(),
        dwarf.entries[children[k] as int].tag == tag,
        forall|j: int|
            pos <= j < k ==> (#[trigger] children[j]) < dwarf.entries.len() && dwarf.entries[children[j] as int].tag
                != tag,
    ensures
        schema::fields::scan_tag(dwarf, children, pos, tag) == Ok::<Option<int>, ()>(Some(k)),
    decreases k - pos,
{
    if pos < k {
        lemma_scan_finds(dwarf, children, pos + 1, tag, k);
    }
}

/// The type of the value that a function instance is instantiated with is
/// the `DW_AT_type` of its first template type parameter: whatever children
/// of other tags (formal parameters, lexical blocks, ...) come before it;
/// and where it has no template type parameter, a missing child.
pub proof fn law_instance_type(unit: Unit, die_offset: usize, i: usize, k: int)
    requires
        crate::lookup::spec_entry(unit, die_offset) == Ok::<usize, ErrorKind>(i),
        i < unit.entries.len(),
    ensures
        ({
            let children = unit.entries[i as int].children@;
            (0 <= k < children.len() && children[k] < unit.entries.len()
                && unit.entries[children[k] as int].tag == crate::dwarf::DW_TAG_template_type_parameter && forall|j: int|
                0 <= j < k ==> (#[trigger] children[j]) < unit.entries.len() && unit.entries[children[j] as int].tag
                    != crate::dwarf::DW_TAG_template_type_parameter) ==> crate::lookup::spec_instance_type(
                unit,
                die_offset,
            ) == crate::lookup::spec_ref(unit.entries[children[k] as int], crate::dwarf::DW_AT_type)
        }),
        ({
            let children = unit.entries[i as int].children@;
            (forall|j: int|
                0 <= j < children.len() ==> (#[trigger] children[j]) < unit.entries.len() && unit.entries[children[j] as int].tag
                    != crate::dwarf::DW_TAG_template_type_parameter) ==> crate::lookup::spec_instance_type(unit, die_offset)
                == Err::<usize, ErrorKind>(
                ErrorKind::MissingChild(crate::err::MissingChild { tag: crate::dwarf::DW_TAG_template_type_parameter }),
            )
        }),
{
    let children = unit.entries[i as int].children@;
    let tag = crate::dwarf::DW_TAG_template_type_parameter;
    if 0 <= k < children.len() && children[k] < unit.entries.len() && unit.entries[children[k] as int].tag == tag
        && forall|j: int| 0 <= j < k ==> (#[trigger] children[j]) < unit.entries.len() && unit.entries[children[j] as int].tag != tag {
        lemma_scan_finds(unit, children, 0, tag, k);
    }
    lemma_scan_skips(unit, children, 0, tag);
    schema::fields::lemma_scan_tag_bound(unit, children, 0, tag);
    if forall|j: int| 0 <= j < children.len() ==> (#[trigger] children[j]) < unit.entries.len() && unit.entries[children[j] as int].tag != tag {
        lemma_scan_none(unit, children, 0, tag);
    }
}

/// A search for tag `tag` from `pos` finds nothing where every position
/// from `pos` on holds an entry of the unit of another tag.
proof fn lemma_scan_none(dwarf: Unit, children: Seq<usize>, pos: int, tag: u16)
    requires
        0 <= pos,
        forall|j: int|
            0 <= j < children.len() ==> (#[trigger] children[j]) < dwarf.entries.len() && dwarf.entries[children[j] as int].tag
                != tag,
    ensures
        schema::fields::scan_tag(dwarf, children, pos, tag) == Ok::<Option<int>, ()>(None),
    decreases children.len() - pos,
{
    if pos < children.len() {
        lemma_scan_none(dwarf, children, pos + 1, tag);
    }
}

/// A pointer type entry whose name starts with `alloc::boxed::Box<` and
/// that names its referent's type reads as a box of that referent.
pub proof fn law_box_pointer<'d>(dwarf: Unit, entry: int, n: Seq<u8>, target: usize, r: Result<Type<'d>, crate::err::ReflectError>)
    requires
        0 <= entry < dwarf.entries.len(),
        dwarf.entries[entry].tag == crate::dwarf::DW_TAG_pointer_type,
        schema::name::spec_attr_string_opt(dwarf.entries[entry], crate::dwarf::DW_AT_name) == Ok::<Option<Seq<u8>>, ErrorKind>(
            Some(n),
        ),
        n.len() >= 18,
        n.subrange(0, 18) == seq![
            97u8, 108u8, 108u8, 111u8, 99u8, 58u8, 58u8, 98u8, 111u8, 120u8, 101u8, 100u8, 58u8, 58u8, 66u8, 111u8, 120u8, 60u8,
        ],
        crate::lookup::spec_ref(dwarf.entries[entry], crate::dwarf::DW_AT_type) == Ok::<usize, ErrorKind>(target),
        schema::types::from_die_spec(dwarf, entry, r),
    ensures
        r matches Ok(Type::Box(b)) && b.target == target,
{
    assert(n[0] == n.subrange(0, 18)[0]);
    assert(n.subrange(0, 18) =~= schema::bytes::box_prefix());
}

/// The names of the primitive types are their Rust names: a base type name
/// is read as primitive `p` exactly where it is the ASCII text of `p`'s
/// name.
pub proof fn law_primitive_names(p: Primitive, n: Seq<u8>)
    ensures
        (n.len() == schema::atom::prim_name(p).len() && forall|i: int|
            0 <= i < n.len() ==> (#[trigger] n[i]) as char == schema::atom::prim_name(p)[i])
            <==> schema::atom::prim_of_name(n) == Some(p),
{
    let c = schema::atom::prim_name(p);
    if n.len() == c.len() && forall|i: int| 0 <= i < n.len() ==> (#[trigger] n[i]) as char == c[i] {
        assert forall|i: int| 0 <= i < n.len() implies n[i] == schema::atom::prim_name_bytes(p)[i] by {
            assert(n[i] as char == c[i]);
        }
        assert(n =~= schema::atom::prim_name_bytes(p));
    }
}

/// A field that `Struct::field` finds has exactly the name asked for: it
/// is a member whose name equals `target`, and no member before it has
/// that name; where it finds none, no member has that name.
pub proof fn law_field_name(dwarf: Unit, children: Seq<usize>, pos: int, target: Seq<u8>)
    requires
        0 <= pos,
    ensures
        crate::value::fields::find_field(dwarf, children, pos, target) matches Ok(Some(k)) ==> {
            &&& pos <= k < children.len()
            &&& children[k] < dwarf.entries.len()
            &&& dwarf.entries[children[k] as int].tag == crate::dwarf::DW_TAG_member
            &&& schema::name::spec_attr_string(dwarf.entries[children[k] as int], crate::dwarf::DW_AT_name)
                == Ok::<Seq<u8>, ErrorKind>(target)
            &&& forall|j: int|
                pos <= j < k && (#[trigger] children[j]) < dwarf.entries.len() && dwarf.entries[children[j] as int].tag
                    == crate::dwarf::DW_TAG_member ==> schema::name::spec_attr_string(
                    dwarf.entries[children[j] as int],
                    crate::dwarf::DW_AT_name,
                ) != Ok::<Seq<u8>, ErrorKind>(target)
        },
        crate::value::fields::find_field(dwarf, children, pos, target) == Ok::<Option<int>, ErrorKind>(None) ==> forall|j: int|
            pos <= j < children.len() && (#[trigger] children[j]) < dwarf.entries.len() && dwarf.entries[children[j] as int].tag
                == crate::dwarf::DW_TAG_member ==> schema::name::spec_attr_string(
                dwarf.entries[children[j] as int],
                crate::dwarf::DW_AT_name,
            ) != Ok::<Seq<u8>, ErrorKind>(target),
    decreases children.len() - pos,
{
    let tag = crate::dwarf::DW_TAG_member;
    schema::fields::lemma_scan_tag_bound(dwarf, children, pos, tag);
    lemma_scan_skips(dwarf, children, pos, tag);
    match schema::fields::scan_tag(dwarf, children, pos, tag) {
        Ok(Some(k1)) => if pos <= k1 < children.len() {
            law_field_name(dwarf, children, k1 + 1, target);
        },
        Ok(None) => {
            lemma_scan_finds_none(dwarf, children, pos, tag);
        },
        _ => {},
    }
}

/// Where a search for tag `tag` from `pos` finds nothing, no position from
/// `pos` on holds an entry of the unit of that tag.
proof fn lemma_scan_finds_none(dwarf: Unit, children: Seq<usize>, pos: int, tag: u16)
    requires
        0 <= pos,
        schema::fields::scan_tag(dwarf, children, pos, tag) == Ok::<Option<int>, ()>(None),
    ensures
        forall|j: int|
            pos <= j < children.len() && (#[trigger] children[j]) < dwarf.entries.len() ==> dwarf.entries[children[j] as int].tag
                != tag,
    decreases children.len() - pos,
{
    if pos < children.len() {
        lemma_scan_finds_none(dwarf, children, pos + 1, tag);
    }
}

} // verus!
