//! Reading the attributes of debugging information entries.
use vstd::prelude::*;

use crate::dwarf::{
    first_at_offset, spec_udata, AttrValue, Die, FileEntry, Unit, DW_AT_alignment, DW_AT_byte_size,
    DW_AT_decl_file, DW_AT_type, DW_TAG_template_type_parameter,
};
use crate::err::{ErrorKind, InvalidAttr, MissingAttr, MissingChild, MissingEntry, ReflectError, TagMismatch};
use crate::text::{utf8_lossy, utf8_lossy_chars};
use vstd::string::StringExecFns;

verus! {

/// The kind of error that a result carries, or its value.
pub open spec fn outcome<T>(r: Result<T, ReflectError>) -> Result<T, ErrorKind> {
    match r {
        Ok(v) => Ok(v),
        Err(e) => Err(e.error),
    }
}

/// Builds an error of the given kind.
pub fn fail<T>(kind: ErrorKind) -> (r: Result<T, ReflectError>)
    ensures
        outcome(r) == Err::<T, ErrorKind>(kind),
{
    Err(ReflectError::new(kind))
}

/// Whether `entry` has the tag `expected`.
pub open spec fn spec_check_tag(entry: Die, expected: u16) -> Result<(), ErrorKind> {
    if entry.tag != expected {
        Err(ErrorKind::TagMismatch(TagMismatch { expected, actual: entry.tag }))
    } else {
        Ok(())
    }
}

/// Checks that `entry` has the tag `expected`.
pub fn check_tag(entry: &Die, expected: u16) -> (r: Result<(), ReflectError>)
    ensures
        outcome(r) == spec_check_tag(*entry, expected),
{
    let actual = entry.tag;
    if actual != expected {
        fail(ErrorKind::tag_mismatch(expected, actual))
    } else {
        Ok(())
    }
}

/// The value of the attribute `attr` of `entry`, which must be present.
pub open spec fn spec_get(entry: Die, attr: u16) -> Result<AttrValue, ErrorKind> {
    match entry.attr(attr) {
        Some(v) => Ok(v),
        None => Err(ErrorKind::MissingAttr(MissingAttr { attr })),
    }
}

/// The value of the attribute `attr` of `entry`; an error if it is absent.
pub fn get(entry: &Die, attr: u16) -> (r: Result<&AttrValue, ReflectError>)
    ensures
        match r {
            Ok(v) => spec_get(*entry, attr) == Ok::<AttrValue, ErrorKind>(*v),
            Err(e) => spec_get(*entry, attr) == Err::<AttrValue, ErrorKind>(e.error),
        },
{
    match entry.attr_value(attr) {
        Some(v) => Ok(v),
        None => fail(ErrorKind::missing_attr(attr)),
    }
}

/// The value of the attribute `attr` of `entry`, if it is present.
pub fn get_opt(entry: &Die, attr: u16) -> (r: Option<&AttrValue>)
    ensures
        r matches Some(v) ==> entry.attr(attr) == Some(*v),
        r is None <==> entry.attr(attr) is None,
{
    entry.attr_value(attr)
}

/// An attribute that must hold an unsigned integer, if it is present.
pub open spec fn spec_udata_opt(entry: Die, attr: u16) -> Result<Option<u64>, ErrorKind> {
    match entry.attr(attr) {
        None => Ok(None),
        Some(v) => match spec_udata(v) {
            Some(n) => Ok(Some(n)),
            None => Err(ErrorKind::InvalidAttr(InvalidAttr { attr })),
        },
    }
}

/// An attribute that must be present and hold an unsigned integer.
pub open spec fn spec_udata_req(entry: Die, attr: u16) -> Result<u64, ErrorKind> {
    match entry.attr(attr) {
        None => Err(ErrorKind::MissingAttr(MissingAttr { attr })),
        Some(v) => match spec_udata(v) {
            Some(n) => Ok(n),
            None => Err(ErrorKind::InvalidAttr(InvalidAttr { attr })),
        },
    }
}

/// The size of `entry` (`DW_AT_byte_size`), which must be present.
pub fn get_size(entry: &Die) -> (r: Result<u64, ReflectError>)
    ensures
        outcome(r) == spec_udata_req(*entry, DW_AT_byte_size),
{
    let size = get(entry, DW_AT_byte_size)?;
    match size.udata_value() {
        Some(n) => Ok(n),
        None => fail(ErrorKind::invalid_attr(DW_AT_byte_size)),
    }
}

/// The size of `entry` (`DW_AT_byte_size`), if it is present.
pub fn get_size_opt(entry: &Die) -> (r: Result<Option<u64>, ReflectError>)
    ensures
        outcome(r) == spec_udata_opt(*entry, DW_AT_byte_size),
{
    match entry.attr_value(DW_AT_byte_size) {
        Some(size) => match size.udata_value() {
            Some(n) => Ok(Some(n)),
            None => fail(ErrorKind::invalid_attr(DW_AT_byte_size)),
        },
        None => Ok(None),
    }
}

/// The alignment of `entry` (`DW_AT_alignment`), if it is present.
pub fn get_align(entry: &Die) -> (r: Result<Option<u64>, ReflectError>)
    ensures
        outcome(r) == spec_udata_opt(*entry, DW_AT_alignment),
{
    match entry.attr_value(DW_AT_alignment) {
        Some(align) => match align.udata_value() {
            Some(n) => Ok(Some(n)),
            None => fail(ErrorKind::invalid_attr(DW_AT_alignment)),
        },
        None => Ok(None),
    }
}

/// The count of a subrange entry (`DW_AT_count`), which must be present.
pub fn get_count(entry: &Die) -> (r: Result<u64, ReflectError>)
    ensures
        outcome(r) == spec_udata_req(*entry, crate::dwarf::DW_AT_count),
{
    let count = get(entry, crate::dwarf::DW_AT_count)?;
    match count.udata_value() {
        Some(n) => Ok(n),
        None => fail(ErrorKind::invalid_attr(crate::dwarf::DW_AT_count)),
    }
}

/// The unit offset that the attribute `attr` of `entry` refers to; it must
/// be present and be a reference within the unit.
pub open spec fn spec_ref(entry: Die, attr: u16) -> Result<usize, ErrorKind> {
    match entry.attr(attr) {
        None => Err(ErrorKind::MissingAttr(MissingAttr { attr })),
        Some(AttrValue::UnitRef(offset)) => Ok(offset),
        Some(_) => Err(ErrorKind::InvalidAttr(InvalidAttr { attr })),
    }
}

/// The unit offset of the type of `entry` (`DW_AT_type`).
pub fn get_type_ref(entry: &Die) -> (r: Result<usize, ReflectError>)
    ensures
        outcome(r) == spec_ref(*entry, DW_AT_type),
{
    if let AttrValue::UnitRef(offset) = get(entry, DW_AT_type)? {
        Ok(*offset)
    } else {
        fail(ErrorKind::invalid_attr(DW_AT_type))
    }
}

/// The unit offset of the type of `entry` (`DW_AT_type`).
pub fn get_type(entry: &Die) -> (r: Result<usize, ReflectError>)
    ensures
        outcome(r) == spec_ref(*entry, DW_AT_type),
{
    let attr = DW_AT_type;
    let value = get(entry, attr)?;
    if let AttrValue::UnitRef(offset) = value {
        Ok(*offset)
    } else {
        fail(ErrorKind::invalid_attr(attr))
    }
}

/// The index of the entry that `offset` leads to in `unit`.
pub open spec fn spec_entry(unit: Unit, offset: usize) -> Result<usize, ErrorKind> {
    match unit.index_at(offset) {
        Some(i) => Ok(i as usize),
        None => Err(ErrorKind::MissingEntry(MissingEntry { offset })),
    }
}

/// The index of the entry that the `DW_AT_type` of `entry` refers to.
pub open spec fn spec_type_res(unit: Unit, entry: Die) -> Result<usize, ErrorKind> {
    match spec_ref(entry, DW_AT_type) {
        Ok(offset) => spec_entry(unit, offset),
        Err(e) => Err(e),
    }
}

/// The index, in `unit`, of the entry of the type of `entry` (`DW_AT_type`).
pub fn get_type_res(unit: &Unit, entry: &Die) -> (r: Result<usize, ReflectError>)
    ensures
        outcome(r) == spec_type_res(*unit, *entry),
        r matches Ok(i) ==> i < unit.entries.len(),
{
    let offset = get_type_ref(entry)?;
    let r = unit.entry(offset);
    proof {
        if let Ok(i) = r {
            lemma_index_at_bound(*unit, offset);
        }
    }
    r
}

/// An index that `index_at` gives is an index of an entry.
pub proof fn lemma_index_at_bound(unit: Unit, offset: usize)
    ensures
        unit.index_at(offset) matches Some(i) ==> 0 <= i < unit.entries.len()
            && unit.entries[i].offset == offset,
{
    lemma_first_at_offset_bound(unit.entries@, offset);
}

proof fn lemma_first_at_offset_bound(entries: Seq<Die>, offset: usize)
    ensures
        first_at_offset(entries, offset) matches Some(i) ==> 0 <= i < entries.len()
            && entries[i].offset == offset,
    decreases entries.len(),
{
    if entries.len() > 0 && entries[0].offset != offset {
        lemma_first_at_offset_bound(entries.drop_first(), offset);
    }
}

/// The unit offset that the attribute `name` of `entry` refers to, if it is a
/// reference within the unit.
pub fn get_attr_ref(entry: &Die, name: u16) -> (r: Option<usize>)
    ensures
        r == (match entry.attr(name) {
            Some(AttrValue::UnitRef(offset)) => Some(offset),
            _ => None,
        }),
{
    if let Some(attr) = entry.attr_value(name) {
        if let AttrValue::UnitRef(offset) = attr {
            return Some(*offset);
        }
    }
    None
}

/// The file table entry at `file_index` in `unit`'s line program, if any.
pub open spec fn spec_file(unit: Unit, file_index: u64) -> Option<FileEntry> {
    match unit.files {
        None => None,
        Some(files) => if unit.first_file_index <= file_index && file_index
            - unit.first_file_index < files.len() {
            Some(files[file_index - unit.first_file_index])
        } else {
            None
        },
    }
}

/// The path of a file table entry: its lossily decoded directory, a `/`
/// and its name, where it has a directory that is not empty, else its
/// name alone.
pub open spec fn spec_file_path(file: FileEntry) -> Seq<char> {
    match file.directory {
        Some(dir) => if utf8_lossy_chars(dir@).len() > 0 {
            utf8_lossy_chars(dir@) + seq!['/'] + utf8_lossy_chars(file.path@)
        } else {
            utf8_lossy_chars(file.path@)
        },
        None => utf8_lossy_chars(file.path@),
    }
}

/// Looks up the file table entry at `file_index` in `unit`.
pub fn file_entry(unit: &Unit, file_index: u64) -> (r: Option<&FileEntry>)
    ensures
        r matches Some(f) ==> spec_file(*unit, file_index) == Some(*f),
        r is None <==> spec_file(*unit, file_index) is None,
{
    match &unit.files {
        None => None,
        Some(files) => {
            if unit.first_file_index <= file_index && file_index - unit.first_file_index
                < files.len() as u64 {
                let i = (file_index - unit.first_file_index) as usize;
                Some(&files[i])
            } else {
                None
            }
        },
    }
}

/// The path of a file table entry.
pub fn file_path(file: &FileEntry) -> (r: String)
    ensures
        r@ == spec_file_path(*file),
{
    let filename = utf8_lossy(file.path.as_slice());
    if let Some(dir) = &file.directory {
        let dirname = utf8_lossy(dir.as_slice());
        if !dirname.as_str().is_empty() {
            let mut path = dirname;
            path.append("/");
            path.append(filename.as_str());
            proof {
                reveal_strlit("/");
            }
            return path;
        }
    }
    filename
}

/// The path of the file at `file_index` in `unit`'s line program; an error
/// if the unit has no line program or the index names no file.
pub fn fi_to_string(unit: &Unit, file_index: u64) -> (r: Result<String, ReflectError>)
    ensures
        match spec_file(*unit, file_index) {
            Some(f) => r matches Ok(s) && s@ == spec_file_path(f),
            None => outcome(r) == Err::<String, ErrorKind>(ErrorKind::FileIndexing),
        },
{
    match file_entry(unit, file_index) {
        Some(file) => Ok(file_path(file)),
        None => fail(ErrorKind::FileIndexing),
    }
}

/// The file that `entry` was declared in (`DW_AT_decl_file`), which must be
/// present; `None` where it is not a file index or names no file.
pub fn get_file(unit: &Unit, entry: &Die) -> (r: Result<Option<String>, ReflectError>)
    ensures
        match spec_get(*entry, DW_AT_decl_file) {
            Err(e) => outcome(r) == Err::<Option<String>, ErrorKind>(e),
            Ok(AttrValue::FileIndex(index)) => match spec_file(*unit, index) {
                Some(f) => r matches Ok(Some(s)) && s@ == spec_file_path(f),
                None => r matches Ok(None),
            },
            Ok(_) => r matches Ok(None),
        },
{
    let file = get(entry, DW_AT_decl_file)?;
    let AttrValue::FileIndex(index) = file else {
        return Ok(None);
    };
    match file_entry(unit, *index) {
        Some(f) => Ok(Some(file_path(f))),
        None => Ok(None),
    }
}

/// The unit offset of the type that the function instance whose entry is at
/// unit offset `die_offset` is instantiated with: the `DW_AT_type` of the
/// entry's first template type parameter.
pub open spec fn spec_instance_type(unit: Unit, die_offset: usize) -> Result<usize, ErrorKind> {
    match spec_entry(unit, die_offset) {
        Err(e) => Err(e),
        Ok(i) => match crate::schema::children::first_child(unit, i as int, DW_TAG_template_type_parameter) {
            Err(()) => Err(ErrorKind::OutOfBounds),
            Ok(None) => Err(ErrorKind::MissingChild(MissingChild { tag: DW_TAG_template_type_parameter })),
            Ok(Some(c)) => spec_ref(unit.entries[c as int], DW_AT_type),
        },
    }
}

/// The unit offset of the type that the function instance whose entry is at
/// unit offset `die_offset` is instantiated with: the `DW_AT_type` of the
/// entry's first template type parameter.
pub fn instance_type(unit: &Unit, die_offset: usize) -> (r: Result<usize, ReflectError>)
    ensures
        outcome(r) == spec_instance_type(*unit, die_offset),
{
    let entry = unit.entry(die_offset)?;
    proof {
        lemma_index_at_bound(*unit, die_offset);
    }
    let param = crate::schema::children::find_child(unit, entry, DW_TAG_template_type_parameter)?;
    match param {
        Some(c) => get_type(&unit.entries[c]),
        None => fail(ErrorKind::missing_child(DW_TAG_template_type_parameter)),
    }
}

} // verus!
