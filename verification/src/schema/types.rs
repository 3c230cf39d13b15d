//! Classifying debugging information entries as Rust types.
use vstd::prelude::*;

use crate::dwarf::{
    Unit, DW_AT_byte_size, DW_AT_name, DW_AT_type, DW_TAG_array_type, DW_TAG_base_type,
    DW_TAG_enumeration_type, DW_TAG_member, DW_TAG_pointer_type, DW_TAG_structure_type,
    DW_TAG_subroutine_type, DW_TAG_variant_part,
};
use crate::err::{ErrorKind, InvalidAttr, ReflectError};
use crate::text::utf8_lossy_chars;
use crate::lookup::{fail, get_size, get_type_ref, outcome, spec_ref, spec_udata_req};
use crate::schema::array::{spec_array_bytes, Array};
use crate::schema::atom::{base_type_error, base_type_ok, bytes_eq, prim_name, prim_name_bytes, prim_of_name, prim_size, unit, unit_name_bytes, Atom, Primitive};
use crate::schema::boxed::{BoxedDyn, BoxedSlice};
use crate::schema::bytes::{
    close_bracket, ends_with, box_prefix, box_prefix_bytes, bytes_start_with, const_ptr_prefix, const_ptr_prefix_bytes,
    fn_prefix, fn_prefix_bytes, length_name, length_name_bytes, mut_ptr_prefix,
    mut_ptr_prefix_bytes, shared_ref_prefix, shared_ref_prefix_bytes, slice_prefix,
    slice_prefix_bytes, starts_with, str_name, str_name_bytes, unique_ref_prefix,
    unique_ref_prefix_bytes, vtable_name, vtable_name_bytes,
};
use crate::schema::children::{find_child, first_child, first_two};
use crate::schema::enum_type::{enum_struct_ok, enumeration_ok, Enum};
use crate::schema::function::Function;
use crate::schema::name::{spec_attr_string, spec_attr_string_opt, Name};
use crate::schema::pointer::{BoxPtr, Const, Mut, Pointer, Shared, Unique};
use crate::schema::slice::{first_two_fields, slice_ok, str_ok, Slice, Str};
use crate::schema::struct_type::Struct;

verus! {

/// A reflected type.
#[derive(Clone, Copy)]
pub enum Type<'d> {
    /// A primitive type, like `u8` or `bool`.
    Atom(Atom<'d>),
    /// The unit type, `()`.
    Unit(unit<'d>),
    /// A string slice, `&str`.
    Str(Str<'d>),
    /// An array, `[T; N]`.
    Array(Array<'d>),
    /// A box, `Box<T>`.
    Box(BoxPtr<'d>),
    /// A boxed slice, `Box<[T]>`.
    BoxedSlice(BoxedSlice<'d>),
    /// A boxed trait object, `Box<dyn Trait>`.
    BoxedDyn(BoxedDyn<'d>),
    /// A slice, `&[T]`.
    Slice(Slice<'d>),
    /// A struct.
    Struct(Struct<'d>),
    /// An enum.
    Enum(Enum<'d>),
    /// A function type.
    Function(Function<'d>),
    /// A shared reference, `&T`.
    SharedRef(Pointer<'d, Shared>),
    /// A unique reference, `&mut T`.
    UniqueRef(Pointer<'d, Unique>),
    /// A `*const T` pointer.
    ConstPtr(Pointer<'d, Const>),
    /// A `*mut T` pointer.
    MutPtr(Pointer<'d, Mut>),
}

/// The kinds of types.
#[derive(Clone, Copy, PartialEq, Eq, Structural)]
pub enum TypeKind {
    /// A primitive type.
    Atom(Primitive),
    /// The unit type.
    Unit,
    /// A string slice.
    Str,
    /// An array.
    Array,
    /// A box.
    Box,
    /// A boxed slice.
    BoxedSlice,
    /// A boxed trait object.
    BoxedDyn,
    /// A slice.
    Slice,
    /// A struct.
    Struct,
    /// An enum.
    Enum,
    /// A function type.
    Function,
    /// A shared reference.
    SharedRef,
    /// A unique reference.
    UniqueRef,
    /// A `*const` pointer.
    ConstPtr,
    /// A `*mut` pointer.
    MutPtr,
}

/// The kind of pointer type that a pointer type entry of name `name` is.
pub open spec fn pointer_kind(name: Option<Seq<u8>>) -> Option<TypeKind> {
    match name {
        None => Some(TypeKind::MutPtr),
        Some(n) => if starts_with(n, mut_ptr_prefix()) {
            Some(TypeKind::MutPtr)
        } else if starts_with(n, const_ptr_prefix()) {
            Some(TypeKind::ConstPtr)
        } else if starts_with(n, unique_ref_prefix()) {
            Some(TypeKind::UniqueRef)
        } else if starts_with(n, shared_ref_prefix()) {
            Some(TypeKind::SharedRef)
        } else if starts_with(n, fn_prefix()) {
            Some(TypeKind::SharedRef)
        } else if starts_with(n, box_prefix()) {
            Some(TypeKind::Box)
        } else {
            None
        },
    }
}

/// The name of the second field of the structure type at `entry`.
pub open spec fn second_field_name(dwarf: Unit, entry: int) -> Result<Seq<u8>, ()> {
    match first_two(dwarf, entry, DW_TAG_member) {
        Some((_, b)) => match spec_attr_string(dwarf.entries[b as int], DW_AT_name) {
            Ok(n) => Ok(n),
            Err(_) => Err(()),
        },
        None => Err(()),
    }
}

/// The kind of type that the entry at index `entry` describes, where it
/// describes one.
pub open spec fn type_kind(dwarf: Unit, entry: int) -> TypeKind {
    let die = dwarf.entries[entry];
    let name = spec_attr_string(die, DW_AT_name);
    if die.tag == DW_TAG_base_type {
        match name {
            Ok(n) => match prim_of_name(n) {
                Some(p) => TypeKind::Atom(p),
                None => TypeKind::Unit,
            },
            Err(_) => TypeKind::Unit,
        }
    } else if die.tag == DW_TAG_structure_type {
        match name {
            Ok(n) => if starts_with(n, slice_prefix()) {
                TypeKind::Slice
            } else if n == str_name() {
                TypeKind::Str
            } else if starts_with(n, box_prefix()) {
                if second_field_name(dwarf, entry) == Ok::<Seq<u8>, ()>(length_name()) {
                    TypeKind::BoxedSlice
                } else {
                    TypeKind::BoxedDyn
                }
            } else if first_child(dwarf, entry, DW_TAG_variant_part) matches Ok(Some(_)) {
                TypeKind::Enum
            } else {
                TypeKind::Struct
            },
            Err(_) => TypeKind::Struct,
        }
    } else if die.tag == DW_TAG_enumeration_type {
        TypeKind::Enum
    } else if die.tag == DW_TAG_pointer_type {
        match spec_attr_string_opt(die, DW_AT_name) {
            Ok(n) => match pointer_kind(n) {
                Some(k) => k,
                None => TypeKind::MutPtr,
            },
            Err(_) => TypeKind::MutPtr,
        }
    } else if die.tag == DW_TAG_subroutine_type {
        TypeKind::Function
    } else {
        TypeKind::Array
    }
}

/// Whether the entry at index `entry` describes a type that the library
/// handles, with all that its schema needs.
pub open spec fn type_ok(dwarf: Unit, entry: int) -> bool {
    let die = dwarf.entries[entry];
    let name = spec_attr_string(die, DW_AT_name);
    if die.tag == DW_TAG_base_type {
        match name {
            Ok(n) => match prim_of_name(n) {
                Some(p) => base_type_ok(die, prim_name_bytes(p), prim_size(p)),
                None => n == unit_name_bytes() && base_type_ok(die, unit_name_bytes(), 0),
            },
            Err(_) => false,
        }
    } else if die.tag == DW_TAG_structure_type {
        match name {
            Ok(n) => if starts_with(n, slice_prefix()) {
                slice_ok(dwarf, entry)
            } else if n == str_name() {
                str_ok(dwarf, entry)
            } else if starts_with(n, box_prefix()) {
                second_field_name(dwarf, entry) == Ok::<Seq<u8>, ()>(length_name())
                    || second_field_name(dwarf, entry) == Ok::<Seq<u8>, ()>(vtable_name())
            } else {
                match first_child(dwarf, entry, DW_TAG_variant_part) {
                    Ok(Some(_)) => enum_struct_ok(dwarf, entry),
                    Ok(None) => true,
                    Err(()) => false,
                }
            },
            Err(_) => false,
        }
    } else if die.tag == DW_TAG_enumeration_type {
        enumeration_ok(dwarf, entry)
    } else if die.tag == DW_TAG_pointer_type {
        &&& spec_attr_string_opt(die, DW_AT_name) matches Ok(n)
        &&& pointer_kind(n) is Some
        &&& spec_ref(die, DW_AT_type) is Ok
    } else {
        die.tag == DW_TAG_subroutine_type || die.tag == DW_TAG_array_type
    }
}

impl<'d> Type<'d> {
    /// The kind of this type.
    pub open spec fn kind(&self) -> TypeKind {
        match *self {
            Type::Atom(a) => TypeKind::Atom(a.kind),
            Type::Unit(_) => TypeKind::Unit,
            Type::Str(_) => TypeKind::Str,
            Type::Array(_) => TypeKind::Array,
            Type::Box(_) => TypeKind::Box,
            Type::BoxedSlice(_) => TypeKind::BoxedSlice,
            Type::BoxedDyn(_) => TypeKind::BoxedDyn,
            Type::Slice(_) => TypeKind::Slice,
            Type::Struct(_) => TypeKind::Struct,
            Type::Enum(_) => TypeKind::Enum,
            Type::Function(_) => TypeKind::Function,
            Type::SharedRef(_) => TypeKind::SharedRef,
            Type::UniqueRef(_) => TypeKind::UniqueRef,
            Type::ConstPtr(_) => TypeKind::ConstPtr,
            Type::MutPtr(_) => TypeKind::MutPtr,
        }
    }

    /// The index of the entry that describes this type.
    pub open spec fn entry_index(&self) -> usize {
        match *self {
            Type::Atom(a) => a.entry,
            Type::Unit(u) => u.entry,
            Type::Str(s) => s.schema.entry,
            Type::Array(a) => a.entry,
            Type::Box(b) => b.entry,
            Type::BoxedSlice(b) => b.schema.entry,
            Type::BoxedDyn(b) => b.schema.entry,
            Type::Slice(s) => s.schema.entry,
            Type::Struct(s) => s.entry,
            Type::Enum(e) => e.entry,
            Type::Function(f) => f.entry,
            Type::SharedRef(p) => p.entry,
            Type::UniqueRef(p) => p.entry,
            Type::ConstPtr(p) => p.entry,
            Type::MutPtr(p) => p.entry,
        }
    }

    /// The unit that describes this type.
    pub open spec fn unit_of(&self) -> Unit {
        match *self {
            Type::Atom(a) => *a.dwarf,
            Type::Unit(u) => *u.dwarf,
            Type::Str(s) => *s.schema.dwarf,
            Type::Array(a) => *a.dwarf,
            Type::Box(b) => *b.dwarf,
            Type::BoxedSlice(b) => *b.schema.dwarf,
            Type::BoxedDyn(b) => *b.schema.dwarf,
            Type::Slice(s) => *s.schema.dwarf,
            Type::Struct(s) => *s.dwarf,
            Type::Enum(e) => *e.dwarf,
            Type::Function(f) => *f.dwarf,
            Type::SharedRef(p) => *p.dwarf,
            Type::UniqueRef(p) => *p.dwarf,
            Type::ConstPtr(p) => *p.dwarf,
            Type::MutPtr(p) => *p.dwarf,
        }
    }

    /// The unit offset of the referent's type, for pointers and boxes.
    pub open spec fn pointer_target(&self) -> Option<usize> {
        match *self {
            Type::Box(b) => Some(b.target),
            Type::SharedRef(p) => Some(p.target),
            Type::UniqueRef(p) => Some(p.target),
            Type::ConstPtr(p) => Some(p.target),
            Type::MutPtr(p) => Some(p.target),
            _ => None,
        }
    }

    /// Whether this schema designates entries of its unit.
    pub open spec fn wf(&self) -> bool {
        match *self {
            Type::Atom(a) => a.wf(),
            Type::Unit(u) => u.wf(),
            Type::Str(s) => s.wf(),
            Type::Array(a) => a.wf(),
            Type::Box(b) => b.wf(),
            Type::BoxedSlice(b) => b.wf(),
            Type::BoxedDyn(b) => b.wf(),
            Type::Slice(s) => s.wf(),
            Type::Struct(s) => s.wf(),
            Type::Enum(e) => e.wf(),
            Type::Function(f) => f.wf(),
            Type::SharedRef(p) => p.wf(),
            Type::UniqueRef(p) => p.wf(),
            Type::ConstPtr(p) => p.wf(),
            Type::MutPtr(p) => p.wf(),
        }
    }
}

/// Which member entries the fields of the type `t`, read from the entry at
/// index `entry`, designate: for slices, string slices and boxed slices,
/// the data pointer and the length are the first and second
/// `DW_TAG_member` children; for boxed trait objects, the pointer and the
/// vtable are. The second member of a boxed slice is named `length`, that
/// of a boxed trait object `vtable`.
pub open spec fn members_designated<'d>(dwarf: Unit, entry: int, t: Type<'d>) -> bool {
    match t {
        Type::Slice(s) => first_two(dwarf, entry, DW_TAG_member) == Some((s.data_ptr.entry, s.length.entry)),
        Type::Str(s) => first_two(dwarf, entry, DW_TAG_member) == Some((s.data_ptr.entry, s.length.entry)),
        Type::BoxedSlice(b) => first_two(dwarf, entry, DW_TAG_member) == Some((b.data_ptr.entry, b.length.entry))
            && second_field_name(dwarf, entry) == Ok::<Seq<u8>, ()>(length_name()),
        Type::BoxedDyn(b) => first_two(dwarf, entry, DW_TAG_member) == Some((b.pointer.entry, b.vtable.entry))
            && second_field_name(dwarf, entry) == Ok::<Seq<u8>, ()>(vtable_name()),
        _ => true,
    }
}

/// The errors that reading the entry at index `entry` as a type gives by
/// its name: a boxed type whose second member is named neither `length`
/// nor `vtable` gives a name mismatch that names that member; a structure
/// named `&[` that does not end in `]` gives a name mismatch that names the
/// structure; a pointer type whose name has none of the known prefixes, and
/// that names its referent's type, gives an invalid `DW_AT_name`.
pub open spec fn name_errors<'d>(dwarf: Unit, entry: int, r: Result<Type<'d>, ReflectError>) -> bool {
    let die = dwarf.entries[entry];
    &&& match spec_attr_string(die, DW_AT_name) {
        Ok(n) => {
            &&& (die.tag == DW_TAG_structure_type && !starts_with(n, slice_prefix()) && n != str_name()
                && starts_with(n, box_prefix())) ==> match second_field_name(dwarf, entry) {
                Ok(m) => (m != length_name() && m != vtable_name()) ==> (outcome(r) matches Err(
                    ErrorKind::NameMismatch(x),
                ) && x.expected@ == "`length` or `vtable`"@ && x.actual@ == utf8_lossy_chars(m)),
                Err(_) => true,
            }
            &&& (die.tag == DW_TAG_structure_type && starts_with(n, slice_prefix()) && !ends_with(
                n,
                close_bracket(),
            )) ==> (outcome(r) matches Err(ErrorKind::NameMismatch(x)) && x.expected@ == "&[T]"@ && x.actual@
                == utf8_lossy_chars(n))
        },
        Err(_) => true,
    }
    &&& (die.tag == DW_TAG_pointer_type && spec_ref(die, DW_AT_type) is Ok) ==> match spec_attr_string_opt(
        die,
        DW_AT_name,
    ) {
        Ok(Some(n)) => pointer_kind(Some(n)) is None ==> outcome(r) == Err::<Type<'d>, ErrorKind>(
            ErrorKind::InvalidAttr(InvalidAttr { attr: DW_AT_name }),
        ),
        _ => true,
    }
}

/// Whether `k` is the error that reading the structure type at index
/// `entry`, whose name starts with `alloc::boxed::Box<`, as a fat pointer
/// gives: the error of looking for its first two members, the second
/// member's name's, or a name mismatch naming the second member where it is
/// named neither `length` nor `vtable`.
pub open spec fn box_error(dwarf: Unit, entry: int, k: ErrorKind) -> bool {
    match first_two(dwarf, entry, DW_TAG_member) {
        None => crate::schema::slice::first_two_error(dwarf, entry) == Some(k),
        Some((_, b)) => match spec_attr_string(dwarf.entries[b as int], DW_AT_name) {
            Err(e) => k == e,
            Ok(m) => {
                &&& m != length_name() && m != vtable_name()
                &&& k matches ErrorKind::NameMismatch(x)
                &&& x.expected@ == "`length` or `vtable`"@
                &&& x.actual@ == utf8_lossy_chars(m)
            },
        },
    }
}

/// Whether `k` is the error that reading the entry at index `entry` as a
/// type gives, by its tag: for a base type, its name's, an unhandled base
/// type where the name is no primitive's, or the error that checking the
/// entry against that primitive gives; for a structure type, its name's, or
/// the error of reading it as the slice, string slice, fat pointer or enum
/// that its name and children make it; for an enumeration type, the error
/// of reading it as an enum; for a pointer type, its name's, its
/// `DW_AT_type`'s, or an invalid `DW_AT_name` where its name has no known
/// prefix; for an entry of a tag that the library does not read as a type,
/// an unhandled tag.
pub open spec fn type_error(dwarf: Unit, entry: int, k: ErrorKind) -> bool {
    let die = dwarf.entries[entry];
    if die.tag == DW_TAG_base_type {
        match spec_attr_string(die, DW_AT_name) {
            Err(e) => k == e,
            Ok(n) => match prim_of_name(n) {
                Some(p) => base_type_error(die, prim_name_bytes(p), prim_name(p), prim_size(p), k),
                None => if n == unit_name_bytes() {
                    base_type_error(die, unit_name_bytes(), seq!['(', ')'], 0, k)
                } else {
                    k == ErrorKind::Unhandled(DW_TAG_base_type)
                },
            },
        }
    } else if die.tag == DW_TAG_structure_type {
        match spec_attr_string(die, DW_AT_name) {
            Err(e) => k == e,
            Ok(n) => if starts_with(n, slice_prefix()) {
                crate::schema::slice::slice_error(dwarf, entry, k)
            } else if n == str_name() {
                crate::schema::slice::str_error(dwarf, entry, k)
            } else if starts_with(n, box_prefix()) {
                box_error(dwarf, entry, k)
            } else {
                match first_child(dwarf, entry, DW_TAG_variant_part) {
                    Err(()) => k == ErrorKind::OutOfBounds,
                    Ok(Some(_)) => crate::schema::enum_type::enum_struct_error(dwarf, entry, k),
                    Ok(None) => false,
                }
            },
        }
    } else if die.tag == DW_TAG_enumeration_type {
        crate::schema::enum_type::enumeration_error(dwarf, entry, k)
    } else if die.tag == DW_TAG_pointer_type {
        match spec_attr_string_opt(die, DW_AT_name) {
            Err(e) => k == e,
            Ok(n) => match spec_ref(die, DW_AT_type) {
                Err(e) => k == e,
                Ok(_) => pointer_kind(n) is None && k == ErrorKind::InvalidAttr(InvalidAttr { attr: DW_AT_name }),
            },
        }
    } else if die.tag == DW_TAG_subroutine_type || die.tag == DW_TAG_array_type {
        false
    } else {
        k == ErrorKind::Unhandled(die.tag)
    }
}

/// What reading the entry at index `entry` as a type gives: a type exactly
/// where the entry describes one that the library handles, of the kind it
/// describes, designating that entry; for an entry of any other tag, an
/// error that names the tag.
pub open spec fn from_die_spec<'d>(dwarf: Unit, entry: int, r: Result<Type<'d>, ReflectError>) -> bool {
    &&& r is Ok <==> type_ok(dwarf, entry)
    &&& r matches Ok(t) ==> t.kind() == type_kind(dwarf, entry) && t.entry_index() == entry && t.unit_of()
        == dwarf && t.wf()
    &&& r matches Ok(t) ==> (t.pointer_target() matches Some(target) ==> spec_ref(
        dwarf.entries[entry],
        DW_AT_type,
    ) == Ok::<usize, ErrorKind>(target))
    &&& !known_tag(dwarf.entries[entry].tag) ==> outcome(r) == Err::<Type<'d>, ErrorKind>(
        ErrorKind::Unhandled(dwarf.entries[entry].tag),
    )
    &&& r matches Ok(t) ==> members_designated(dwarf, entry, t)
    &&& name_errors(dwarf, entry, r)
    &&& r matches Err(x) ==> type_error(dwarf, entry, x.error)
}

/// Whether the library reads entries of tag `tag` as types.
pub open spec fn known_tag(tag: u16) -> bool {
    tag == DW_TAG_base_type || tag == DW_TAG_structure_type || tag == DW_TAG_enumeration_type || tag
        == DW_TAG_pointer_type || tag == DW_TAG_subroutine_type || tag == DW_TAG_array_type
}

/// The size in bytes of the type that the entry at index `entry` describes,
/// following at most `fuel` nested array types.
pub open spec fn type_size(dwarf: Unit, entry: int, fuel: nat) -> Result<u64, ()>
    decreases fuel, 0nat,
{
    if !type_ok(dwarf, entry) {
        Err(())
    } else {
        match type_kind(dwarf, entry) {
            TypeKind::Atom(p) => Ok(prim_size(p) as u64),
            TypeKind::Unit => Ok(0),
            TypeKind::Function => Ok(0),
            TypeKind::Box => Ok(vstd::layout::size_of::<usize>() as u64),
            TypeKind::SharedRef => Ok(vstd::layout::size_of::<usize>() as u64),
            TypeKind::UniqueRef => Ok(vstd::layout::size_of::<usize>() as u64),
            TypeKind::ConstPtr => Ok(vstd::layout::size_of::<usize>() as u64),
            TypeKind::MutPtr => Ok(vstd::layout::size_of::<usize>() as u64),
            TypeKind::Array => if fuel == 0 {
                Err(())
            } else {
                spec_array_bytes(dwarf, entry, (fuel - 1) as nat)
            },
            _ => match spec_udata_req(dwarf.entries[entry], DW_AT_byte_size) {
                Ok(n) => Ok(n),
                Err(_) => Err(()),
            },
        }
    }
}

/// The error that computing the size of the type that the entry at index
/// `entry` describes gives, following at most `fuel` nested array types:
/// for an array, the nesting limit where `fuel` is spent, else what
/// `array_error` names; for a type whose size its entry gives, the error of
/// its `DW_AT_byte_size`. `None` where the size can be computed, and for
/// types whose size is fixed.
pub open spec fn size_error(dwarf: Unit, entry: int, fuel: nat) -> Option<ErrorKind>
    decreases fuel, 0nat,
{
    match type_kind(dwarf, entry) {
        TypeKind::Array => if fuel == 0 {
            Some(ErrorKind::NestingTooDeep)
        } else {
            crate::schema::array::array_error(dwarf, entry, (fuel - 1) as nat)
        },
        TypeKind::Str | TypeKind::BoxedSlice | TypeKind::BoxedDyn | TypeKind::Slice | TypeKind::Struct
        | TypeKind::Enum => match spec_udata_req(dwarf.entries[entry], DW_AT_byte_size) {
            Err(e) => Some(e),
            Ok(_) => None,
        },
        _ => None,
    }
}

/// Reads the structure type at `entry`, whose name starts with
/// `alloc::boxed::Box<`, as a boxed slice or a boxed trait object, by the
/// name of its second field.
fn boxed_from_struct<'d>(dwarf: &'d Unit, entry: usize) -> (r: Result<Type<'d>, ReflectError>)
    requires
        entry < dwarf.entries.len(),
        dwarf.entries[entry as int].tag == DW_TAG_structure_type,
    ensures
        r is Ok <==> (second_field_name(*dwarf, entry as int) == Ok::<Seq<u8>, ()>(length_name())
            || second_field_name(*dwarf, entry as int) == Ok::<Seq<u8>, ()>(vtable_name())),
        r matches Ok(t) ==> t.entry_index() == entry && t.unit_of() == *dwarf && t.wf() && (if second_field_name(
            *dwarf,
            entry as int,
        ) == Ok::<Seq<u8>, ()>(length_name()) {
            t.kind() == TypeKind::BoxedSlice
        } else {
            t.kind() == TypeKind::BoxedDyn
        }) && members_designated(*dwarf, entry as int, t),
        r matches Err(x) ==> box_error(*dwarf, entry as int, x.error),
        match second_field_name(*dwarf, entry as int) {
            Ok(m) => (m != length_name() && m != vtable_name()) ==> (outcome(r) matches Err(
                ErrorKind::NameMismatch(x),
            ) && x.expected@ == "`length` or `vtable`"@ && x.actual@ == utf8_lossy_chars(m)),
            Err(_) => true,
        },
{
    let schema = Struct::from_dw_tag_structure_type(dwarf, entry)?;
    let (pointer, metadata) = first_two_fields(dwarf, entry)?;
    let metadata_name = metadata.name()?;
    let n = metadata_name.name.as_slice();
    if bytes_eq(n, length_name_bytes().as_slice()) {
        Ok(Type::BoxedSlice(BoxedSlice { schema, data_ptr: pointer, length: metadata }))
    } else if bytes_eq(n, vtable_name_bytes().as_slice()) {
        Ok(Type::BoxedDyn(BoxedDyn { schema, pointer, vtable: metadata }))
    } else {
        let actual = metadata_name.to_string_lossy()?;
        fail(ErrorKind::name_mismatch("`length` or `vtable`", actual))
    }
}

/// Reads the pointer type entry at `entry`, by the prefix of its name.
fn pointer_from_die<'d>(dwarf: &'d Unit, entry: usize) -> (r: Result<Type<'d>, ReflectError>)
    requires
        entry < dwarf.entries.len(),
        dwarf.entries[entry as int].tag == DW_TAG_pointer_type,
    ensures
        from_die_spec(*dwarf, entry as int, r),
{
    let die = &dwarf.entries[entry];
    let name = Name::from_die_opt(die)?;
    let target = get_type_ref(die)?;
    match name {
        None => Ok(Type::MutPtr(Pointer::new(dwarf, entry, target))),
        Some(name) => {
            let n = name.name.as_slice();
            if bytes_start_with(n, mut_ptr_prefix_bytes().as_slice()) {
                Ok(Type::MutPtr(Pointer::new(dwarf, entry, target)))
            } else if bytes_start_with(n, const_ptr_prefix_bytes().as_slice()) {
                Ok(Type::ConstPtr(Pointer::new(dwarf, entry, target)))
            } else if bytes_start_with(n, unique_ref_prefix_bytes().as_slice()) {
                Ok(Type::UniqueRef(Pointer::new(dwarf, entry, target)))
            } else if bytes_start_with(n, shared_ref_prefix_bytes().as_slice()) {
                Ok(Type::SharedRef(Pointer::new(dwarf, entry, target)))
            } else if bytes_start_with(n, fn_prefix_bytes().as_slice()) {
                Ok(Type::SharedRef(Pointer::new(dwarf, entry, target)))
            } else if bytes_start_with(n, box_prefix_bytes().as_slice()) {
                Ok(Type::Box(BoxPtr::new(dwarf, entry, target)))
            } else {
                fail(ErrorKind::invalid_attr(DW_AT_name))
            }
        },
    }
}

/// Reads the structure type entry at `entry`, by its name and children.
fn structure_from_die<'d>(dwarf: &'d Unit, entry: usize) -> (r: Result<Type<'d>, ReflectError>)
    requires
        entry < dwarf.entries.len(),
        dwarf.entries[entry as int].tag == DW_TAG_structure_type,
    ensures
        from_die_spec(*dwarf, entry as int, r),
{
    let name = Name::from_die(&dwarf.entries[entry])?;
    let n = name.name.as_slice();
    if bytes_start_with(n, slice_prefix_bytes().as_slice()) {
        let s = Slice::from_dw_tag_structure_type(dwarf, entry)?;
        Ok(Type::Slice(s))
    } else if bytes_eq(n, str_name_bytes().as_slice()) {
        let s = Str::from_dw_tag_structure_type(dwarf, entry)?;
        Ok(Type::Str(s))
    } else if bytes_start_with(n, box_prefix_bytes().as_slice()) {
        boxed_from_struct(dwarf, entry)
    } else {
        let variant_part = find_child(dwarf, entry, DW_TAG_variant_part)?;
        if variant_part.is_some() {
            let e = Enum::from_dw_tag_structure_type(dwarf, entry)?;
            Ok(Type::Enum(e))
        } else {
            let s = Struct::from_dw_tag_structure_type(dwarf, entry)?;
            Ok(Type::Struct(s))
        }
    }
}

/// Reads the base type entry at `entry`, by its name.
fn base_from_die<'d>(dwarf: &'d Unit, entry: usize) -> (r: Result<Type<'d>, ReflectError>)
    requires
        entry < dwarf.entries.len(),
        dwarf.entries[entry as int].tag == DW_TAG_base_type,
    ensures
        from_die_spec(*dwarf, entry as int, r),
{
    let name = Name::from_die(&dwarf.entries[entry])?;
    if let Some(p) = Primitive::from_name(name.name.as_slice()) {
        let a = Atom::from_dw_tag_base_type(dwarf, entry, p)?;
        return Ok(Type::Atom(a));
    }
    let unit_name = vec![40u8, 41u8];
    if bytes_eq(name.name.as_slice(), unit_name.as_slice()) {
        let u = unit::from_dw_tag_base_type(dwarf, entry)?;
        return Ok(Type::Unit(u));
    }
    fail(ErrorKind::Unhandled(DW_TAG_base_type))
}

/// The size of a type read from an entry is the size that the entry gives.
pub proof fn lemma_size_of_entry<'d>(t: Type<'d>, dwarf: Unit, entry: int, fuel: nat)
    requires
        type_ok(dwarf, entry),
        t.kind() == type_kind(dwarf, entry),
        t.entry_index() == entry,
        t.unit_of() == dwarf,
    ensures
        t.size_spec(fuel) == type_size(dwarf, entry, fuel),
        t.size_error_spec(fuel) == size_error(dwarf, entry, fuel),
{
}

impl<'d> Type<'d> {
    /// Reads the entry at index `entry` of `dwarf` as a type.
    pub fn from_die(dwarf: &'d Unit, entry: usize) -> (r: Result<Self, ReflectError>)
        requires
            entry < dwarf.entries.len(),
        ensures
            from_die_spec(*dwarf, entry as int, r),
    {
        let tag = dwarf.entries[entry].tag;
        if tag == DW_TAG_base_type {
            base_from_die(dwarf, entry)
        } else if tag == DW_TAG_structure_type {
            structure_from_die(dwarf, entry)
        } else if tag == DW_TAG_enumeration_type {
            let e = Enum::from_dw_tag_enumeration_type(dwarf, entry)?;
            Ok(Type::Enum(e))
        } else if tag == DW_TAG_pointer_type {
            pointer_from_die(dwarf, entry)
        } else if tag == DW_TAG_subroutine_type {
            let f = Function::from_dw_tag_subroutine_type(dwarf, entry)?;
            Ok(Type::Function(f))
        } else if tag == DW_TAG_array_type {
            let a = Array::from_dw_tag_array_type(dwarf, entry)?;
            Ok(Type::Array(a))
        } else {
            fail(ErrorKind::Unhandled(tag))
        }
    }

    /// The size of this type, in bytes, following at most `fuel` nested
    /// array types.
    pub open spec fn size_spec(&self, fuel: nat) -> Result<u64, ()> {
        let dwarf = self.unit_of();
        let entry = self.entry_index() as int;
        match self.kind() {
            TypeKind::Atom(p) => Ok(prim_size(p) as u64),
            TypeKind::Unit => Ok(0),
            TypeKind::Function => Ok(0),
            TypeKind::Box => Ok(vstd::layout::size_of::<usize>() as u64),
            TypeKind::SharedRef => Ok(vstd::layout::size_of::<usize>() as u64),
            TypeKind::UniqueRef => Ok(vstd::layout::size_of::<usize>() as u64),
            TypeKind::ConstPtr => Ok(vstd::layout::size_of::<usize>() as u64),
            TypeKind::MutPtr => Ok(vstd::layout::size_of::<usize>() as u64),
            TypeKind::Array => if fuel == 0 {
                Err(())
            } else {
                spec_array_bytes(dwarf, entry, (fuel - 1) as nat)
            },
            _ => match spec_udata_req(dwarf.entries[entry], DW_AT_byte_size) {
                Ok(n) => Ok(n),
                Err(_) => Err(()),
            },
        }
    }

    /// The error that computing the size of this type gives, following at
    /// most `fuel` nested array types (see `size_error`).
    pub open spec fn size_error_spec(&self, fuel: nat) -> Option<ErrorKind> {
        let dwarf = self.unit_of();
        let entry = self.entry_index() as int;
        match self.kind() {
            TypeKind::Array => if fuel == 0 {
                Some(ErrorKind::NestingTooDeep)
            } else {
                crate::schema::array::array_error(dwarf, entry, (fuel - 1) as nat)
            },
            TypeKind::Str | TypeKind::BoxedSlice | TypeKind::BoxedDyn | TypeKind::Slice | TypeKind::Struct
            | TypeKind::Enum => match spec_udata_req(dwarf.entries[entry], DW_AT_byte_size) {
                Err(e) => Some(e),
                Ok(_) => None,
            },
            _ => None,
        }
    }

    /// The size of this type, in bytes.
    pub fn size(&self) -> (r: Result<u64, ReflectError>)
        requires
            self.wf(),
        ensures
            r is Ok <==> self.size_spec(self.unit_of().entries.len() as nat) is Ok,
            r matches Ok(n) ==> self.size_spec(self.unit_of().entries.len() as nat) == Ok::<u64, ()>(n),
            self.size_error_spec(self.unit_of().entries.len() as nat) matches Some(e) ==> outcome(r) == Err::<
                u64,
                ErrorKind,
            >(e),
            self matches Type::Array(a) ==> crate::schema::array::bytes_spec(
                *a.dwarf,
                a.entry as int,
                (a.dwarf.entries.len() - 1) as nat,
                r,
            ),
    {
        if let Type::Array(a) = self {
            return a.bytes();
        }
        let fuel = match self {
            Type::Atom(a) => a.dwarf.entries.len(),
            Type::Unit(u) => u.dwarf.entries.len(),
            Type::Str(s) => s.schema.dwarf.entries.len(),
            Type::Array(a) => a.dwarf.entries.len(),
            Type::Box(b) => b.dwarf.entries.len(),
            Type::BoxedSlice(b) => b.schema.dwarf.entries.len(),
            Type::BoxedDyn(b) => b.schema.dwarf.entries.len(),
            Type::Slice(s) => s.schema.dwarf.entries.len(),
            Type::Struct(s) => s.dwarf.entries.len(),
            Type::Enum(e) => e.dwarf.entries.len(),
            Type::Function(f) => f.dwarf.entries.len(),
            Type::SharedRef(p) => p.dwarf.entries.len(),
            Type::UniqueRef(p) => p.dwarf.entries.len(),
            Type::ConstPtr(p) => p.dwarf.entries.len(),
            Type::MutPtr(p) => p.dwarf.entries.len(),
        };
        self.size_bounded(fuel)
    }

    /// The size of this type, in bytes, following at most `fuel` nested
    /// array types.
    pub fn size_bounded(&self, fuel: usize) -> (r: Result<u64, ReflectError>)
        requires
            self.wf(),
        ensures
            r is Ok <==> self.size_spec(fuel as nat) is Ok,
            r matches Ok(n) ==> self.size_spec(fuel as nat) == Ok::<u64, ()>(n),
            self.size_error_spec(fuel as nat) matches Some(e) ==> outcome(r) == Err::<u64, ErrorKind>(e),
        decreases fuel, 0nat,
    {
        match self {
            Type::Atom(a) => Ok(a.size()),
            Type::Unit(u) => Ok(u.size()),
            Type::Str(s) => s.size(),
            Type::Array(a) => {
                if fuel == 0 {
                    fail(ErrorKind::NestingTooDeep)
                } else {
                    a.bytes_bounded(fuel - 1)
                }
            },
            Type::Box(b) => Ok(b.size()),
            Type::BoxedSlice(b) => b.size(),
            Type::BoxedDyn(b) => b.size(),
            Type::Slice(s) => s.size(),
            Type::Struct(s) => s.size(),
            Type::Enum(e) => e.size(),
            Type::Function(_) => Ok(0),
            Type::SharedRef(p) => Ok(p.size()),
            Type::UniqueRef(p) => Ok(p.size()),
            Type::ConstPtr(p) => Ok(p.size()),
            Type::MutPtr(p) => Ok(p.size()),
        }
    }
}

} // verus!
