//! A plain model of the debug info of one DWARF compilation unit: its
//! debugging information entries (DIEs), their attributes, and the file
//! table of its line program.
use vstd::prelude::*;

use crate::err::{ErrorKind, ReflectError};

verus! {

/// `DW_TAG_array_type`.
#[allow(non_upper_case_globals)]
pub const DW_TAG_array_type: u16 = 0x01;
/// `DW_TAG_enumeration_type`.
#[allow(non_upper_case_globals)]
pub const DW_TAG_enumeration_type: u16 = 0x04;
/// `DW_TAG_member`.
#[allow(non_upper_case_globals)]
pub const DW_TAG_member: u16 = 0x0d;
/// `DW_TAG_pointer_type`.
#[allow(non_upper_case_globals)]
pub const DW_TAG_pointer_type: u16 = 0x0f;
/// `DW_TAG_compile_unit`.
#[allow(non_upper_case_globals)]
pub const DW_TAG_compile_unit: u16 = 0x11;
/// `DW_TAG_structure_type`.
#[allow(non_upper_case_globals)]
pub const DW_TAG_structure_type: u16 = 0x13;
/// `DW_TAG_subroutine_type`.
#[allow(non_upper_case_globals)]
pub const DW_TAG_subroutine_type: u16 = 0x15;
/// `DW_TAG_variant`.
#[allow(non_upper_case_globals)]
pub const DW_TAG_variant: u16 = 0x19;
/// `DW_TAG_subrange_type`.
#[allow(non_upper_case_globals)]
pub const DW_TAG_subrange_type: u16 = 0x21;
/// `DW_TAG_base_type`.
#[allow(non_upper_case_globals)]
pub const DW_TAG_base_type: u16 = 0x24;
/// `DW_TAG_enumerator`.
#[allow(non_upper_case_globals)]
pub const DW_TAG_enumerator: u16 = 0x28;
/// `DW_TAG_subprogram`.
#[allow(non_upper_case_globals)]
pub const DW_TAG_subprogram: u16 = 0x2e;
/// `DW_TAG_template_type_parameter`.
#[allow(non_upper_case_globals)]
pub const DW_TAG_template_type_parameter: u16 = 0x2f;
/// `DW_TAG_variant_part`.
#[allow(non_upper_case_globals)]
pub const DW_TAG_variant_part: u16 = 0x33;

/// `DW_AT_name`.
#[allow(non_upper_case_globals)]
pub const DW_AT_name: u16 = 0x03;
/// `DW_AT_byte_size`.
#[allow(non_upper_case_globals)]
pub const DW_AT_byte_size: u16 = 0x0b;
/// `DW_AT_stmt_list`.
#[allow(non_upper_case_globals)]
pub const DW_AT_stmt_list: u16 = 0x10;
/// `DW_AT_comp_dir`.
#[allow(non_upper_case_globals)]
pub const DW_AT_comp_dir: u16 = 0x1b;
/// `DW_AT_discr`.
#[allow(non_upper_case_globals)]
pub const DW_AT_discr: u16 = 0x15;
/// `DW_AT_discr_value`.
#[allow(non_upper_case_globals)]
pub const DW_AT_discr_value: u16 = 0x16;
/// `DW_AT_const_value`.
#[allow(non_upper_case_globals)]
pub const DW_AT_const_value: u16 = 0x1c;
/// `DW_AT_count`.
#[allow(non_upper_case_globals)]
pub const DW_AT_count: u16 = 0x37;
/// `DW_AT_data_member_location`.
#[allow(non_upper_case_globals)]
pub const DW_AT_data_member_location: u16 = 0x38;
/// `DW_AT_decl_file`.
#[allow(non_upper_case_globals)]
pub const DW_AT_decl_file: u16 = 0x3a;
/// `DW_AT_type`.
#[allow(non_upper_case_globals)]
pub const DW_AT_type: u16 = 0x49;
/// `DW_AT_alignment`.
#[allow(non_upper_case_globals)]
pub const DW_AT_alignment: u16 = 0x88;

/// The value of an attribute, in the forms that the parser distinguishes.
///
/// String forms are resolved when a unit is read: they stand here as
/// [`AttrValue::Str`].
pub enum AttrValue {
    /// An address.
    Addr(u64),
    /// A block of bytes.
    Block(Vec<u8>),
    /// One byte of data.
    Data1(u8),
    /// Two bytes of data.
    Data2(u16),
    /// Four bytes of data.
    Data4(u32),
    /// Eight bytes of data.
    Data8(u64),
    /// A signed integer.
    Sdata(i64),
    /// An unsigned integer.
    Udata(u64),
    /// A DWARF expression.
    Exprloc(Vec<u8>),
    /// A flag.
    Flag(bool),
    /// An offset into another section.
    SecOffset(usize),
    /// A reference to an entry of the same unit, by unit offset.
    UnitRef(usize),
    /// A reference to an entry of `.debug_info`, by section offset.
    DebugInfoRef(usize),
    /// An offset into `.debug_line`: a line program.
    DebugLineRef(usize),
    /// An offset into `.debug_str`.
    DebugStrRef(usize),
    /// An offset into `.debug_line_str`.
    DebugLineStrRef(usize),
    /// An index into the unit's string offsets.
    DebugStrOffsetsIndex(usize),
    /// A string.
    Str(Vec<u8>),
    /// An index into the file table of the unit's line program.
    FileIndex(u64),
    /// A base type encoding (`DW_ATE_*`).
    Encoding(u8),
    /// Any other form.
    Other,
}

/// An attribute of an entry.
pub struct Attr {
    /// The attribute's name (`DW_AT_*`).
    pub name: u16,
    /// The attribute's value.
    pub value: AttrValue,
}

/// A debugging information entry.
pub struct Die {
    /// The entry's offset within its unit.
    pub offset: usize,
    /// The entry's tag (`DW_TAG_*`).
    pub tag: u16,
    /// The entry's attributes, in the order in which they are encoded.
    pub attrs: Vec<Attr>,
    /// The indices, in [`Unit::entries`], of the entry's children, in order.
    pub children: Vec<usize>,
}

/// A file of the line program's file table.
pub struct FileEntry {
    /// The file's directory, if the table names one.
    pub directory: Option<Vec<u8>>,
    /// The file's path name.
    pub path: Vec<u8>,
}

/// The debug info of one compilation unit.
pub struct Unit {
    /// The unit's entries; the root entry comes first.
    pub entries: Vec<Die>,
    /// The file table of the unit's line program, if it has one.
    pub files: Option<Vec<FileEntry>>,
    /// The file index that names the first entry of `files`.
    pub first_file_index: u64,
    /// The size of an address on the target, in bytes.
    pub address_size: u8,
    /// The size of a section offset in this unit's format, in bytes (4 or 8).
    pub offset_size: u8,
    /// The DWARF version of the unit.
    pub version: u16,
    /// Whether the target stores multi-byte values most significant byte
    /// first.
    pub big_endian: bool,
}

/// The value of the first attribute named `name` in `attrs`.
pub open spec fn first_attr(attrs: Seq<Attr>, name: u16) -> Option<AttrValue>
    decreases attrs.len(),
{
    if attrs.len() == 0 {
        None
    } else if attrs[0].name == name {
        Some(attrs[0].value)
    } else {
        first_attr(attrs.drop_first(), name)
    }
}

/// The index of the first entry of `entries` at unit offset `offset`.
pub open spec fn first_at_offset(entries: Seq<Die>, offset: usize) -> Option<int>
    decreases entries.len(),
{
    if entries.len() == 0 {
        None
    } else if entries[0].offset == offset {
        Some(0)
    } else {
        match first_at_offset(entries.drop_first(), offset) {
            Some(i) => Some(i + 1),
            None => None,
        }
    }
}

/// The unsigned integer that an attribute value holds, as the DWARF parser
/// reads it: data and unsigned forms, and signed forms that are not
/// negative.
pub open spec fn spec_udata(v: AttrValue) -> Option<u64> {
    match v {
        AttrValue::Data1(d) => Some(d as u64),
        AttrValue::Data2(d) => Some(d as u64),
        AttrValue::Data4(d) => Some(d as u64),
        AttrValue::Data8(d) => Some(d),
        AttrValue::Udata(d) => Some(d),
        AttrValue::Sdata(d) => if d < 0 { None } else { Some(d as u64) },
        _ => None,
    }
}

/// The expression that an attribute value holds: blocks and expressions.
pub open spec fn spec_exprloc(v: AttrValue) -> Option<Seq<u8>> {
    match v {
        AttrValue::Block(b) => Some(b@),
        AttrValue::Exprloc(b) => Some(b@),
        _ => None,
    }
}

/// `index` moved forward by `by` places.
pub open spec fn shift_index(index: Option<int>, by: int) -> Option<int> {
    match index {
        Some(i) => Some(i + by),
        None => None,
    }
}

proof fn lemma_first_attr_skip(attrs: Seq<Attr>, name: u16, i: int)
    requires
        0 <= i < attrs.len(),
        attrs[i].name != name,
    ensures
        first_attr(attrs.skip(i), name) == first_attr(attrs.skip(i + 1), name),
{
    assert(attrs.skip(i).drop_first() =~= attrs.skip(i + 1));
}

proof fn lemma_first_at_offset_skip(entries: Seq<Die>, offset: usize, i: int)
    requires
        0 <= i < entries.len(),
        entries[i].offset != offset,
    ensures
        first_at_offset(entries.skip(i), offset) == (match first_at_offset(
            entries.skip(i + 1),
            offset,
        ) {
            Some(k) => Some(k + 1),
            None => None::<int>,
        }),
{
    assert(entries.skip(i).drop_first() =~= entries.skip(i + 1));
}

impl AttrValue {
    /// The unsigned integer that this value holds, if it holds one.
    pub fn udata_value(&self) -> (r: Option<u64>)
        ensures
            r == spec_udata(*self),
    {
        match self {
            AttrValue::Data1(d) => Some(*d as u64),
            AttrValue::Data2(d) => Some(*d as u64),
            AttrValue::Data4(d) => Some(*d as u64),
            AttrValue::Data8(d) => Some(*d),
            AttrValue::Udata(d) => Some(*d),
            AttrValue::Sdata(d) => if *d < 0 { None } else { Some(*d as u64) },
            _ => None,
        }
    }

    /// The expression that this value holds, if it holds one.
    pub fn exprloc_value(&self) -> (r: Option<&Vec<u8>>)
        ensures
            r matches Some(b) ==> spec_exprloc(*self) == Some(b@),
            r is None <==> spec_exprloc(*self) is None,
    {
        match self {
            AttrValue::Block(b) => Some(b),
            AttrValue::Exprloc(b) => Some(b),
            _ => None,
        }
    }
}

impl Die {
    /// The value of this entry's first attribute named `name`, if any.
    pub open spec fn attr(&self, name: u16) -> Option<AttrValue> {
        first_attr(self.attrs@, name)
    }

    /// The value of this entry's first attribute named `name`, if any.
    pub fn attr_value(&self, name: u16) -> (r: Option<&AttrValue>)
        ensures
            r matches Some(v) ==> self.attr(name) == Some(*v),
            r is None <==> self.attr(name) is None,
    {
        let mut i: usize = 0;
        assert(self.attrs@.skip(0) =~= self.attrs@);
        while i < self.attrs.len()
            invariant
                i <= self.attrs.len(),
                first_attr(self.attrs@, name) == first_attr(self.attrs@.skip(i as int), name),
            decreases self.attrs.len() - i,
        {
            if self.attrs[i].name == name {
                assert(self.attrs@.skip(i as int)[0] == self.attrs@[i as int]);
                return Some(&self.attrs[i].value);
            }
            proof {
                lemma_first_attr_skip(self.attrs@, name, i as int);
            }
            i = i + 1;
        }
        assert(self.attrs@.skip(i as int).len() == 0);
        None
    }
}

impl Unit {
    /// The index of the entry at unit offset `offset`, if there is one.
    pub open spec fn index_at(&self, offset: usize) -> Option<int> {
        first_at_offset(self.entries@, offset)
    }

    /// The index of the entry at unit offset `offset`; an error names the
    /// offset if there is no entry there.
    pub fn entry(&self, offset: usize) -> (r: Result<usize, ReflectError>)
        ensures
            match r {
                Ok(i) => self.index_at(offset) == Some(i as int),
                Err(e) => self.index_at(offset) is None && e.error == ErrorKind::missing_entry_spec(
                    offset,
                ),
            },
    {
        let mut i: usize = 0;
        assert(self.entries@.skip(0) =~= self.entries@);
        while i < self.entries.len()
            invariant
                i <= self.entries.len(),
                first_at_offset(self.entries@, offset) == shift_index(
                    first_at_offset(self.entries@.skip(i as int), offset),
                    i as int,
                ),
            decreases self.entries.len() - i,
        {
            if self.entries[i].offset == offset {
                assert(self.entries@.skip(i as int)[0] == self.entries@[i as int]);
                return Ok(i);
            }
            proof {
                lemma_first_at_offset_skip(self.entries@, offset, i as int);
            }
            i = i + 1;
        }
        assert(self.entries@.skip(i as int).len() == 0);
        assert(first_at_offset(self.entries@.skip(i as int), offset) is None);
        Err(ReflectError::new(ErrorKind::missing_entry(offset)))
    }
}

} // verus!
