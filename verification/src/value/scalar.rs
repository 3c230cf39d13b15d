//! Decoding the bytes of primitive values.
use vstd::prelude::*;

use crate::err::{ErrorKind, ReflectError};
use crate::lookup::fail;
use crate::schema::atom::{prim_size, Primitive};

verus! {

broadcast use vstd::layout::layout_of_primitives;

/// The unsigned integer that `s` stores, least significant byte first.
pub open spec fn le_value(s: Seq<u8>) -> nat
    decreases s.len(),
{
    if s.len() == 0 {
        0
    } else {
        s[0] as nat + 256 * le_value(s.drop_first())
    }
}

/// The unsigned integer that `s` stores, most significant byte first.
pub open spec fn be_value(s: Seq<u8>) -> nat
    decreases s.len(),
{
    if s.len() == 0 {
        0
    } else {
        be_value(s.drop_last()) * 256 + s.last() as nat
    }
}

/// The unsigned integer that `s` stores in the given byte order.
pub open spec fn uint_value(s: Seq<u8>, big_endian: bool) -> nat {
    if big_endian {
        be_value(s)
    } else {
        le_value(s)
    }
}

/// `256` to the power `n`.
pub open spec fn byte_power(n: nat) -> nat
    decreases n,
{
    if n == 0 {
        1
    } else {
        256 * byte_power((n - 1) as nat)
    }
}

proof fn lemma_le_bound(s: Seq<u8>)
    ensures
        le_value(s) < byte_power(s.len()),
    decreases s.len(),
{
    if s.len() > 0 {
        lemma_le_bound(s.drop_first());
    }
}

proof fn lemma_be_bound(s: Seq<u8>)
    ensures
        be_value(s) < byte_power(s.len()),
    decreases s.len(),
{
    if s.len() > 0 {
        lemma_be_bound(s.drop_last());
    }
}

proof fn lemma_byte_power_mono(a: nat, b: nat)
    requires
        a <= b,
    ensures
        byte_power(a) <= byte_power(b),
    decreases b,
{
    if a < b {
        lemma_byte_power_mono(a, (b - 1) as nat);
    }
}

proof fn lemma_byte_power_16()
    ensures
        byte_power(16) == 0x1_0000_0000_0000_0000_0000_0000_0000_0000,
{
    reveal_with_fuel(byte_power, 17);
}

/// An integer stored in the bytes of a `usize` fits in a `usize`.
pub proof fn lemma_usize_value(s: Seq<u8>, big_endian: bool)
    requires
        s.len() == vstd::layout::size_of::<usize>(),
    ensures
        uint_value(s, big_endian) <= usize::MAX,
{
    if big_endian {
        lemma_be_bound(s);
    } else {
        lemma_le_bound(s);
    }
    reveal_with_fuel(byte_power, 9);
    assert(usize::BITS == 32 || usize::BITS == 64);
}

/// The unsigned integer that `s` stores in the given byte order; at most
/// sixteen bytes.
pub fn decode_uint(s: &[u8], big_endian: bool) -> (r: u128)
    requires
        s@.len() <= 16,
    ensures
        r == uint_value(s@, big_endian),
{
    let mut acc: u128 = 0;
    if big_endian {
        let mut i: usize = 0;
        while i < s.len()
            invariant
                i <= s@.len(),
                s@.len() <= 16,
                acc == be_value(s@.take(i as int)),
            decreases s@.len() - i,
        {
            proof {
                let next = s@.take(i as int + 1);
                assert(next.drop_last() =~= s@.take(i as int));
                lemma_be_bound(next);
                lemma_byte_power_mono((i + 1) as nat, 16);
                lemma_byte_power_16();
            }
            acc = acc * 256 + s[i] as u128;
            i = i + 1;
        }
        assert(s@.take(s@.len() as int) =~= s@);
    } else {
        let mut i: usize = s.len();
        while i > 0
            invariant
                i <= s@.len(),
                s@.len() <= 16,
                acc == le_value(s@.skip(i as int)),
            decreases i,
        {
            proof {
                let next = s@.skip(i - 1);
                assert(next.drop_first() =~= s@.skip(i as int));
                lemma_le_bound(next);
                lemma_byte_power_mono((s@.len() - i + 1) as nat, 16);
                lemma_byte_power_16();
            }
            acc = acc * 256 + s[i - 1] as u128;
            i = i - 1;
        }
        assert(s@.skip(0) =~= s@);
    }
    acc
}

/// A decoded primitive value. Floating-point values are kept as their bits.
#[derive(Clone, Copy, PartialEq, Eq, Structural)]
pub enum Scalar {
    /// A `bool`.
    Bool(bool),
    /// A `char`.
    Char(char),
    /// The bits of an `f32`.
    F32(u32),
    /// The bits of an `f64`.
    F64(u64),
    /// An `i8`.
    I8(i8),
    /// An `i16`.
    I16(i16),
    /// An `i32`.
    I32(i32),
    /// An `i64`.
    I64(i64),
    /// An `i128`.
    I128(i128),
    /// An `isize`.
    Isize(isize),
    /// A `u8`.
    U8(u8),
    /// A `u16`.
    U16(u16),
    /// A `u32`.
    U32(u32),
    /// A `u64`.
    U64(u64),
    /// A `u128`.
    U128(u128),
    /// A `usize`.
    Usize(usize),
}

/// The `char` whose code point is `v`, if `v` is a Unicode scalar value.
pub open spec fn spec_char(v: nat) -> Option<char> {
    if v <= 0xD7FF || (0xE000 <= v && v <= 0x10FFFF) {
        Some(v as char)
    } else {
        None
    }
}

/// The value of primitive type `p` that the bytes `s` store in the given
/// byte order; signed integers in two's complement.
pub open spec fn spec_scalar(p: Primitive, s: Seq<u8>, big_endian: bool) -> Result<Scalar, ErrorKind> {
    let v = uint_value(s, big_endian);
    match p {
        Primitive::Bool => if v == 0 {
            Ok(Scalar::Bool(false))
        } else if v == 1 {
            Ok(Scalar::Bool(true))
        } else {
            Err(ErrorKind::InvalidValue)
        },
        Primitive::Char => match spec_char(v) {
            Some(c) => Ok(Scalar::Char(c)),
            None => Err(ErrorKind::InvalidValue),
        },
        Primitive::F32 => Ok(Scalar::F32(v as u32)),
        Primitive::F64 => Ok(Scalar::F64(v as u64)),
        Primitive::I8 => Ok(Scalar::I8(v as u8 as i8)),
        Primitive::I16 => Ok(Scalar::I16(v as u16 as i16)),
        Primitive::I32 => Ok(Scalar::I32(v as u32 as i32)),
        Primitive::I64 => Ok(Scalar::I64(v as u64 as i64)),
        Primitive::I128 => Ok(Scalar::I128(v as u128 as i128)),
        Primitive::Isize => Ok(Scalar::Isize(v as usize as isize)),
        Primitive::U8 => Ok(Scalar::U8(v as u8)),
        Primitive::U16 => Ok(Scalar::U16(v as u16)),
        Primitive::U32 => Ok(Scalar::U32(v as u32)),
        Primitive::U64 => Ok(Scalar::U64(v as u64)),
        Primitive::U128 => Ok(Scalar::U128(v as u128)),
        Primitive::Usize => Ok(Scalar::Usize(v as usize)),
    }
}

/// `char::from_u32`: the `char` of code point `v`. Claimed, as its
/// documentation says: `Some` exactly where `v` is a Unicode scalar value,
/// holding that value.
#[verifier::external_body]
fn char_from_u32(v: u32) -> (r: Option<char>)
    ensures
        r == spec_char(v as nat),
{
    char::from_u32(v)
}

/// Decodes the bytes `s` of a value of primitive type `p`.
pub fn decode_scalar(p: Primitive, s: &[u8], big_endian: bool) -> (r: Result<Scalar, ReflectError>)
    requires
        s@.len() == prim_size(p),
    ensures
        crate::lookup::outcome(r) == spec_scalar(p, s@, big_endian),
{
    proof {
        if s@.len() > 0 {
            if big_endian {
                lemma_be_bound(s@);
            } else {
                lemma_le_bound(s@);
            }
        }
        reveal_with_fuel(byte_power, 5);
    }
    let v = decode_uint(s, big_endian);
    match p {
        Primitive::Bool => if v == 0 {
            Ok(Scalar::Bool(false))
        } else if v == 1 {
            Ok(Scalar::Bool(true))
        } else {
            fail(ErrorKind::InvalidValue)
        },
        Primitive::Char => match char_from_u32(v as u32) {
            Some(c) => Ok(Scalar::Char(c)),
            None => fail(ErrorKind::InvalidValue),
        },
        Primitive::F32 => Ok(Scalar::F32(v as u32)),
        Primitive::F64 => Ok(Scalar::F64(v as u64)),
        Primitive::I8 => Ok(Scalar::I8(v as u8 as i8)),
        Primitive::I16 => Ok(Scalar::I16(v as u16 as i16)),
        Primitive::I32 => Ok(Scalar::I32(v as u32 as i32)),
        Primitive::I64 => Ok(Scalar::I64(v as u64 as i64)),
        Primitive::I128 => Ok(Scalar::I128(v as i128)),
        Primitive::Isize => Ok(Scalar::Isize(v as usize as isize)),
        Primitive::U8 => Ok(Scalar::U8(v as u8)),
        Primitive::U16 => Ok(Scalar::U16(v as u16)),
        Primitive::U32 => Ok(Scalar::U32(v as u32)),
        Primitive::U64 => Ok(Scalar::U64(v as u64)),
        Primitive::U128 => Ok(Scalar::U128(v)),
        Primitive::Usize => Ok(Scalar::Usize(v as usize)),
    }
}

} // verus!
