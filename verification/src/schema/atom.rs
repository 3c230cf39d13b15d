//! Schemas of primitive, non-compound ("atomic") types, like `u8` or `bool`,
//! and of the unit type `()`.
use vstd::prelude::*;

use crate::dwarf::{Die, Unit, DW_AT_byte_size, DW_AT_name, DW_TAG_base_type};
use crate::err::{ErrorKind, ReflectError, SizeMismatch, TagMismatch};
use crate::lookup::{check_tag, fail, get_size, outcome, spec_udata_req};
use crate::schema::name::{spec_attr_string, Name};
use crate::text::utf8_lossy_chars;

verus! {

broadcast use vstd::layout::layout_of_primitives, vstd::layout::layout_of_unit_tuple;

/// The primitive types that a base type entry can describe.
#[derive(Clone, Copy, PartialEq, Eq, Structural)]
pub enum Primitive {
    /// `bool`.
    Bool,
    /// `char`.
    Char,
    /// `f32`.
    F32,
    /// `f64`.
    F64,
    /// `i8`.
    I8,
    /// `i16`.
    I16,
    /// `i32`.
    I32,
    /// `i64`.
    I64,
    /// `i128`.
    I128,
    /// `isize`.
    Isize,
    /// `u8`.
    U8,
    /// `u16`.
    U16,
    /// `u32`.
    U32,
    /// `u64`.
    U64,
    /// `u128`.
    U128,
    /// `usize`.
    Usize,
}

/// The name of a primitive type, as Rust spells it.
pub open spec fn prim_name(p: Primitive) -> Seq<char> {
    match p {
        Primitive::Bool => seq!['b', 'o', 'o', 'l'],
        Primitive::Char => seq!['c', 'h', 'a', 'r'],
        Primitive::F32 => seq!['f', '3', '2'],
        Primitive::F64 => seq!['f', '6', '4'],
        Primitive::I8 => seq!['i', '8'],
        Primitive::I16 => seq!['i', '1', '6'],
        Primitive::I32 => seq!['i', '3', '2'],
        Primitive::I64 => seq!['i', '6', '4'],
        Primitive::I128 => seq!['i', '1', '2', '8'],
        Primitive::Isize => seq!['i', 's', 'i', 'z', 'e'],
        Primitive::U8 => seq!['u', '8'],
        Primitive::U16 => seq!['u', '1', '6'],
        Primitive::U32 => seq!['u', '3', '2'],
        Primitive::U64 => seq!['u', '6', '4'],
        Primitive::U128 => seq!['u', '1', '2', '8'],
        Primitive::Usize => seq!['u', 's', 'i', 'z', 'e'],
    }
}

/// The bytes of the name of a primitive type.
pub open spec fn prim_name_bytes(p: Primitive) -> Seq<u8> {
    match p {
        Primitive::Bool => seq![98u8, 111u8, 111u8, 108u8],
        Primitive::Char => seq![99u8, 104u8, 97u8, 114u8],
        Primitive::F32 => seq![102u8, 51u8, 50u8],
        Primitive::F64 => seq![102u8, 54u8, 52u8],
        Primitive::I8 => seq![105u8, 56u8],
        Primitive::I16 => seq![105u8, 49u8, 54u8],
        Primitive::I32 => seq![105u8, 51u8, 50u8],
        Primitive::I64 => seq![105u8, 54u8, 52u8],
        Primitive::I128 => seq![105u8, 49u8, 50u8, 56u8],
        Primitive::Isize => seq![105u8, 115u8, 105u8, 122u8, 101u8],
        Primitive::U8 => seq![117u8, 56u8],
        Primitive::U16 => seq![117u8, 49u8, 54u8],
        Primitive::U32 => seq![117u8, 51u8, 50u8],
        Primitive::U64 => seq![117u8, 54u8, 52u8],
        Primitive::U128 => seq![117u8, 49u8, 50u8, 56u8],
        Primitive::Usize => seq![117u8, 115u8, 105u8, 122u8, 101u8],
    }
}

/// The size of a primitive type, in bytes.
pub open spec fn prim_size(p: Primitive) -> nat {
    match p {
        Primitive::Bool => vstd::layout::size_of::<bool>(),
        Primitive::Char => vstd::layout::size_of::<char>(),
        Primitive::F32 => 4,
        Primitive::F64 => 8,
        Primitive::I8 => vstd::layout::size_of::<i8>(),
        Primitive::I16 => vstd::layout::size_of::<i16>(),
        Primitive::I32 => vstd::layout::size_of::<i32>(),
        Primitive::I64 => vstd::layout::size_of::<i64>(),
        Primitive::I128 => vstd::layout::size_of::<i128>(),
        Primitive::Isize => vstd::layout::size_of::<isize>(),
        Primitive::U8 => vstd::layout::size_of::<u8>(),
        Primitive::U16 => vstd::layout::size_of::<u16>(),
        Primitive::U32 => vstd::layout::size_of::<u32>(),
        Primitive::U64 => vstd::layout::size_of::<u64>(),
        Primitive::U128 => vstd::layout::size_of::<u128>(),
        Primitive::Usize => vstd::layout::size_of::<usize>(),
    }
}

/// The alignment of a primitive type, in bytes (`f32` and `f64` are laid out
/// as `u32` and `u64` are).
pub open spec fn prim_align(p: Primitive) -> nat {
    match p {
        Primitive::Bool => vstd::layout::align_of::<bool>(),
        Primitive::Char => vstd::layout::align_of::<char>(),
        Primitive::F32 => vstd::layout::align_of::<u32>(),
        Primitive::F64 => vstd::layout::align_of::<u64>(),
        Primitive::I8 => vstd::layout::align_of::<i8>(),
        Primitive::I16 => vstd::layout::align_of::<i16>(),
        Primitive::I32 => vstd::layout::align_of::<i32>(),
        Primitive::I64 => vstd::layout::align_of::<i64>(),
        Primitive::I128 => vstd::layout::align_of::<i128>(),
        Primitive::Isize => vstd::layout::align_of::<isize>(),
        Primitive::U8 => vstd::layout::align_of::<u8>(),
        Primitive::U16 => vstd::layout::align_of::<u16>(),
        Primitive::U32 => vstd::layout::align_of::<u32>(),
        Primitive::U64 => vstd::layout::align_of::<u64>(),
        Primitive::U128 => vstd::layout::align_of::<u128>(),
        Primitive::Usize => vstd::layout::align_of::<usize>(),
    }
}

/// The bytes of the name of the unit type, `()`.
pub open spec fn unit_name_bytes() -> Seq<u8> {
    seq![40u8, 41u8]
}

/// The primitive type whose name is `name`, if any.
pub open spec fn prim_of_name(name: Seq<u8>) -> Option<Primitive> {
    if name == seq![98u8, 111u8, 111u8, 108u8] {
        Some(Primitive::Bool)
    } else if name == seq![99u8, 104u8, 97u8, 114u8] {
        Some(Primitive::Char)
    } else if name == seq![102u8, 51u8, 50u8] {
        Some(Primitive::F32)
    } else if name == seq![102u8, 54u8, 52u8] {
        Some(Primitive::F64)
    } else if name == seq![105u8, 56u8] {
        Some(Primitive::I8)
    } else if name == seq![105u8, 49u8, 54u8] {
        Some(Primitive::I16)
    } else if name == seq![105u8, 51u8, 50u8] {
        Some(Primitive::I32)
    } else if name == seq![105u8, 54u8, 52u8] {
        Some(Primitive::I64)
    } else if name == seq![105u8, 49u8, 50u8, 56u8] {
        Some(Primitive::I128)
    } else if name == seq![105u8, 115u8, 105u8, 122u8, 101u8] {
        Some(Primitive::Isize)
    } else if name == seq![117u8, 56u8] {
        Some(Primitive::U8)
    } else if name == seq![117u8, 49u8, 54u8] {
        Some(Primitive::U16)
    } else if name == seq![117u8, 51u8, 50u8] {
        Some(Primitive::U32)
    } else if name == seq![117u8, 54u8, 52u8] {
        Some(Primitive::U64)
    } else if name == seq![117u8, 49u8, 50u8, 56u8] {
        Some(Primitive::U128)
    } else if name == seq![117u8, 115u8, 105u8, 122u8, 101u8] {
        Some(Primitive::Usize)
    } else {
        None
    }
}

/// Why checking a base type entry against an expected name and size fails,
/// if it does: the kind of error it reports is `kind`.
pub open spec fn base_type_error(
    entry: Die,
    name_bytes: Seq<u8>,
    name_chars: Seq<char>,
    size: nat,
    kind: ErrorKind,
) -> bool {
    if entry.tag != DW_TAG_base_type {
        kind == ErrorKind::TagMismatch(TagMismatch { expected: DW_TAG_base_type, actual: entry.tag })
    } else {
        match spec_attr_string(entry, DW_AT_name) {
            Err(e) => kind == e,
            Ok(n) => if n != name_bytes {
                &&& kind matches ErrorKind::NameMismatch(m)
                &&& m.expected@ == name_chars
                &&& m.actual@ == utf8_lossy_chars(n)
            } else {
                match spec_udata_req(entry, DW_AT_byte_size) {
                    Err(e) => kind == e,
                    Ok(s) => if s > usize::MAX {
                        kind is TryFromInt
                    } else {
                        kind == ErrorKind::SizeMismatch(
                            SizeMismatch { expected: size as usize, actual: s as usize },
                        )
                    },
                }
            },
        }
    }
}

/// Whether a base type entry has the expected tag, name and size.
pub open spec fn base_type_ok(entry: Die, name_bytes: Seq<u8>, size: nat) -> bool {
    &&& entry.tag == DW_TAG_base_type
    &&& spec_attr_string(entry, DW_AT_name) == Ok::<Seq<u8>, ErrorKind>(name_bytes)
    &&& spec_udata_req(entry, DW_AT_byte_size) == Ok::<u64, ErrorKind>(size as u64)
}

/// Checks a base type entry against an expected name and size.
fn check_base_type(entry: &Die, expected_name: &'static str, name_bytes: &Vec<u8>, size: usize) -> (r: Result<(), ReflectError>)
    ensures
        r is Ok <==> base_type_ok(*entry, name_bytes@, size as nat),
        r matches Err(e) ==> base_type_error(*entry, name_bytes@, expected_name@, size as nat, e.error),
{
    check_tag(entry, DW_TAG_base_type)?;
    let name = Name::from_die(entry)?;
    if !bytes_eq(name.name.as_slice(), name_bytes.as_slice()) {
        let actual = name.to_string_lossy()?;
        return fail(ErrorKind::name_mismatch(expected_name, actual));
    }
    let size_attr = get_size(entry)?;
    let actual = match usize::try_from(size_attr) {
        Ok(s) => s,
        Err(e) => return fail(ErrorKind::try_from_int(e)),
    };
    if actual != size {
        return fail(ErrorKind::size_mismatch(size, actual));
    }
    Ok(())
}

/// Whether two byte strings are equal.
pub fn bytes_eq(a: &[u8], b: &[u8]) -> (r: bool)
    ensures
        r == (a@ == b@),
{
    if a.len() != b.len() {
        return false;
    }
    let mut i: usize = 0;
    while i < a.len()
        invariant
            i <= a.len(),
            a.len() == b.len(),
            forall|j: int| 0 <= j < i ==> a@[j] == b@[j],
        decreases a.len() - i,
    {
        if a[i] != b[i] {
            return false;
        }
        i = i + 1;
    }
    assert(a@ =~= b@);
    true
}

impl Primitive {
    /// The name of this primitive type.
    pub fn name(self) -> (r: &'static str)
        ensures
            r@ == prim_name(self),
    {
        match self {
            Primitive::Bool => {
                proof {
                    reveal_strlit("bool");
                }
                "bool"
            },
            Primitive::Char => {
                proof {
                    reveal_strlit("char");
                }
                "char"
            },
            Primitive::F32 => {
                proof {
                    reveal_strlit("f32");
                }
                "f32"
            },
            Primitive::F64 => {
                proof {
                    reveal_strlit("f64");
                }
                "f64"
            },
            Primitive::I8 => {
                proof {
                    reveal_strlit("i8");
                }
                "i8"
            },
            Primitive::I16 => {
                proof {
                    reveal_strlit("i16");
                }
                "i16"
            },
            Primitive::I32 => {
                proof {
                    reveal_strlit("i32");
                }
                "i32"
            },
            Primitive::I64 => {
                proof {
                    reveal_strlit("i64");
                }
                "i64"
            },
            Primitive::I128 => {
                proof {
                    reveal_strlit("i128");
                }
                "i128"
            },
            Primitive::Isize => {
                proof {
                    reveal_strlit("isize");
                }
                "isize"
            },
            Primitive::U8 => {
                proof {
                    reveal_strlit("u8");
                }
                "u8"
            },
            Primitive::U16 => {
                proof {
                    reveal_strlit("u16");
                }
                "u16"
            },
            Primitive::U32 => {
                proof {
                    reveal_strlit("u32");
                }
                "u32"
            },
            Primitive::U64 => {
                proof {
                    reveal_strlit("u64");
                }
                "u64"
            },
            Primitive::U128 => {
                proof {
                    reveal_strlit("u128");
                }
                "u128"
            },
            Primitive::Usize => {
                proof {
                    reveal_strlit("usize");
                }
                "usize"
            },
        }
    }

    /// The bytes of the name of this primitive type.
    pub fn name_bytes(self) -> (r: Vec<u8>)
        ensures
            r@ == prim_name_bytes(self),
    {
        match self {
            Primitive::Bool => vec![98u8, 111u8, 111u8, 108u8],
            Primitive::Char => vec![99u8, 104u8, 97u8, 114u8],
            Primitive::F32 => vec![102u8, 51u8, 50u8],
            Primitive::F64 => vec![102u8, 54u8, 52u8],
            Primitive::I8 => vec![105u8, 56u8],
            Primitive::I16 => vec![105u8, 49u8, 54u8],
            Primitive::I32 => vec![105u8, 51u8, 50u8],
            Primitive::I64 => vec![105u8, 54u8, 52u8],
            Primitive::I128 => vec![105u8, 49u8, 50u8, 56u8],
            Primitive::Isize => vec![105u8, 115u8, 105u8, 122u8, 101u8],
            Primitive::U8 => vec![117u8, 56u8],
            Primitive::U16 => vec![117u8, 49u8, 54u8],
            Primitive::U32 => vec![117u8, 51u8, 50u8],
            Primitive::U64 => vec![117u8, 54u8, 52u8],
            Primitive::U128 => vec![117u8, 49u8, 50u8, 56u8],
            Primitive::Usize => vec![117u8, 115u8, 105u8, 122u8, 101u8],
        }
    }

    /// The size of this primitive type, in bytes.
    pub fn size(self) -> (r: u64)
        ensures
            r == prim_size(self),
    {
        match self {
            Primitive::Bool => core::mem::size_of::<bool>() as u64,
            Primitive::Char => core::mem::size_of::<char>() as u64,
            Primitive::F32 => 4,
            Primitive::F64 => 8,
            Primitive::I8 => core::mem::size_of::<i8>() as u64,
            Primitive::I16 => core::mem::size_of::<i16>() as u64,
            Primitive::I32 => core::mem::size_of::<i32>() as u64,
            Primitive::I64 => core::mem::size_of::<i64>() as u64,
            Primitive::I128 => core::mem::size_of::<i128>() as u64,
            Primitive::Isize => core::mem::size_of::<isize>() as u64,
            Primitive::U8 => core::mem::size_of::<u8>() as u64,
            Primitive::U16 => core::mem::size_of::<u16>() as u64,
            Primitive::U32 => core::mem::size_of::<u32>() as u64,
            Primitive::U64 => core::mem::size_of::<u64>() as u64,
            Primitive::U128 => core::mem::size_of::<u128>() as u64,
            Primitive::Usize => core::mem::size_of::<usize>() as u64,
        }
    }

    /// The alignment of this primitive type, in bytes.
    pub fn align(self) -> (r: u64)
        ensures
            r == prim_align(self),
    {
        match self {
            Primitive::Bool => core::mem::align_of::<bool>() as u64,
            Primitive::Char => core::mem::align_of::<char>() as u64,
            Primitive::F32 => core::mem::align_of::<u32>() as u64,
            Primitive::F64 => core::mem::align_of::<u64>() as u64,
            Primitive::I8 => core::mem::align_of::<i8>() as u64,
            Primitive::I16 => core::mem::align_of::<i16>() as u64,
            Primitive::I32 => core::mem::align_of::<i32>() as u64,
            Primitive::I64 => core::mem::align_of::<i64>() as u64,
            Primitive::I128 => core::mem::align_of::<i128>() as u64,
            Primitive::Isize => core::mem::align_of::<isize>() as u64,
            Primitive::U8 => core::mem::align_of::<u8>() as u64,
            Primitive::U16 => core::mem::align_of::<u16>() as u64,
            Primitive::U32 => core::mem::align_of::<u32>() as u64,
            Primitive::U64 => core::mem::align_of::<u64>() as u64,
            Primitive::U128 => core::mem::align_of::<u128>() as u64,
            Primitive::Usize => core::mem::align_of::<usize>() as u64,
        }
    }

    /// The primitive type whose name is `name`, if any.
    pub fn from_name(name: &[u8]) -> (r: Option<Primitive>)
        ensures
            r == prim_of_name(name@),
    {
        let candidate = vec![98u8, 111u8, 111u8, 108u8];
        if bytes_eq(name, candidate.as_slice()) {
            return Some(Primitive::Bool);
        }
        let candidate = vec![99u8, 104u8, 97u8, 114u8];
        if bytes_eq(name, candidate.as_slice()) {
            return Some(Primitive::Char);
        }
        let candidate = vec![102u8, 51u8, 50u8];
        if bytes_eq(name, candidate.as_slice()) {
            return Some(Primitive::F32);
        }
        let candidate = vec![102u8, 54u8, 52u8];
        if bytes_eq(name, candidate.as_slice()) {
            return Some(Primitive::F64);
        }
        let candidate = vec![105u8, 56u8];
        if bytes_eq(name, candidate.as_slice()) {
            return Some(Primitive::I8);
        }
        let candidate = vec![105u8, 49u8, 54u8];
        if bytes_eq(name, candidate.as_slice()) {
            return Some(Primitive::I16);
        }
        let candidate = vec![105u8, 51u8, 50u8];
        if bytes_eq(name, candidate.as_slice()) {
            return Some(Primitive::I32);
        }
        let candidate = vec![105u8, 54u8, 52u8];
        if bytes_eq(name, candidate.as_slice()) {
            return Some(Primitive::I64);
        }
        let candidate = vec![105u8, 49u8, 50u8, 56u8];
        if bytes_eq(name, candidate.as_slice()) {
            return Some(Primitive::I128);
        }
        let candidate = vec![105u8, 115u8, 105u8, 122u8, 101u8];
        if bytes_eq(name, candidate.as_slice()) {
            return Some(Primitive::Isize);
        }
        let candidate = vec![117u8, 56u8];
        if bytes_eq(name, candidate.as_slice()) {
            return Some(Primitive::U8);
        }
        let candidate = vec![117u8, 49u8, 54u8];
        if bytes_eq(name, candidate.as_slice()) {
            return Some(Primitive::U16);
        }
        let candidate = vec![117u8, 51u8, 50u8];
        if bytes_eq(name, candidate.as_slice()) {
            return Some(Primitive::U32);
        }
        let candidate = vec![117u8, 54u8, 52u8];
        if bytes_eq(name, candidate.as_slice()) {
            return Some(Primitive::U64);
        }
        let candidate = vec![117u8, 49u8, 50u8, 56u8];
        if bytes_eq(name, candidate.as_slice()) {
            return Some(Primitive::U128);
        }
        let candidate = vec![117u8, 115u8, 105u8, 122u8, 101u8];
        if bytes_eq(name, candidate.as_slice()) {
            return Some(Primitive::Usize);
        }
        None
    }
}

/// A schema for a primitive type, like `u8` or `bool`.
#[derive(Clone, Copy)]
pub struct Atom<'d> {
    /// The unit that describes the type.
    pub dwarf: &'d Unit,
    /// The index of the type's entry in the unit.
    pub entry: usize,
    /// Which primitive type this is.
    pub kind: Primitive,
}

impl<'d> Atom<'d> {
    /// Whether this schema designates an entry of its unit.
    pub open spec fn wf(&self) -> bool {
        self.entry < self.dwarf.entries.len()
    }

    /// Constructs an `Atom` of primitive type `kind` from the base type entry
    /// at index `entry`, which must have the name and size of `kind`.
    pub fn from_dw_tag_base_type(dwarf: &'d Unit, entry: usize, kind: Primitive) -> (r: Result<Self, ReflectError>)
        requires
            entry < dwarf.entries.len(),
        ensures
            r is Ok <==> base_type_ok(dwarf.entries[entry as int], prim_name_bytes(kind), prim_size(kind)),
            r matches Ok(a) ==> a.dwarf == dwarf && a.entry == entry && a.kind == kind,
            r matches Err(e) ==> base_type_error(
                dwarf.entries[entry as int],
                prim_name_bytes(kind),
                prim_name(kind),
                prim_size(kind),
                e.error,
            ),
    {
        let expected = kind.name_bytes();
        let size = kind.size() as usize;
        check_base_type(&dwarf.entries[entry], kind.name(), &expected, size)?;
        Ok(Atom { dwarf, entry, kind })
    }

    /// The name of this primitive type.
    pub fn name(&self) -> (r: &'static str)
        ensures
            r@ == prim_name(self.kind),
    {
        self.kind.name()
    }

    /// The size of this type, in bytes.
    pub fn size(&self) -> (r: u64)
        ensures
            r == prim_size(self.kind),
    {
        self.kind.size()
    }

    /// The alignment of this type, in bytes.
    pub fn align(&self) -> (r: u64)
        ensures
            r == prim_align(self.kind),
    {
        self.kind.align()
    }
}

/// A schema for the unit type, `()`.
#[allow(non_camel_case_types)]
#[derive(Clone, Copy)]
pub struct unit<'d> {
    /// The unit that describes the type.
    pub dwarf: &'d Unit,
    /// The index of the type's entry in the unit.
    pub entry: usize,
}

impl<'d> unit<'d> {
    /// Whether this schema designates an entry of its unit.
    pub open spec fn wf(&self) -> bool {
        self.entry < self.dwarf.entries.len()
    }

    /// Constructs a `unit` from the base type entry at index `entry`, which
    /// must be named `()` and have size zero.
    pub fn from_dw_tag_base_type(dwarf: &'d Unit, entry: usize) -> (r: Result<Self, ReflectError>)
        requires
            entry < dwarf.entries.len(),
        ensures
            r is Ok <==> base_type_ok(dwarf.entries[entry as int], unit_name_bytes(), 0),
            r matches Ok(a) ==> a.dwarf == dwarf && a.entry == entry,
            r matches Err(e) ==> base_type_error(
                dwarf.entries[entry as int],
                unit_name_bytes(),
                seq!['(', ')'],
                0,
                e.error,
            ),
    {
        let expected = vec![40u8, 41u8];
        let size = core::mem::size_of::<()>();
        let name = "()";
        proof {
            reveal_strlit("()");
            assert(name@ =~= seq!['(', ')']);
        }
        check_base_type(&dwarf.entries[entry], name, &expected, size)?;
        Ok(unit { dwarf, entry })
    }

    /// The name of this type.
    pub fn name(&self) -> (r: &'static str)
        ensures
            r@ == seq!['(', ')'],
    {
        proof {
            reveal_strlit("()");
        }
        "()"
    }

    /// The size of this type, in bytes.
    pub fn size(&self) -> (r: u64)
        ensures
            r == 0,
    {
        core::mem::size_of::<()>() as u64
    }

    /// The alignment of this type, in bytes.
    pub fn align(&self) -> (r: u64)
        ensures
            r == 1,
    {
        core::mem::align_of::<()>() as u64
    }
}

} // verus!
