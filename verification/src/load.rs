//! Reading the debug info of a compilation unit into the plain model of
//! [`crate::dwarf`], with the DWARF parser of the `gimli` crate.
use vstd::prelude::*;

use crate::dwarf::{Attr, AttrValue, Die, FileEntry, Unit, DW_AT_comp_dir, DW_AT_name, DW_AT_stmt_list};
use crate::err::{ErrorKind, ReflectError};
use crate::lookup::fail;
use crate::reader::{
    abbreviation_table, attr_bytes, attr_const, attr_end, attr_misc, attr_offset, attr_ref, bytes_form,
    const_form, debug_line_str, debug_str, entry_head, file_dir_at, file_path_at, misc_form,
    offset_form, parsed_abbreviations, parsed_attribute, parsed_code, parsed_header, parsed_str,
    unit_abbreviations, unit_header, bytes_view, parsed_file, implicit_matches_form, AttrSpec, RawStr,
};
use gimli::read::Abbreviations;

verus! {

/// The sections of an object file that hold debug info, and the byte order
/// of the target.
pub struct Sections<'a> {
    /// `.debug_info`.
    pub debug_info: &'a [u8],
    /// `.debug_abbrev`.
    pub debug_abbrev: &'a [u8],
    /// `.debug_str`.
    pub debug_str: &'a [u8],
    /// `.debug_line`.
    pub debug_line: &'a [u8],
    /// `.debug_line_str`.
    pub debug_line_str: &'a [u8],
    /// Whether the target stores multi-byte values most significant byte
    /// first.
    pub big_endian: bool,
}

/// An error of the DWARF parser.
fn parse_error<T>(e: gimli::Error) -> (r: Result<T, ReflectError>)
    ensures
        r matches Err(x) && x.error is Gimli,
{
    fail(ErrorKind::gimli(e))
}

/// Whether `v` is the attribute value `w` that the parser reads, with a
/// string that `w` refers to by an offset read from its string section
/// where it can be read there; where it cannot, the offset is kept, and
/// the failure is left to a use of the string.
pub open spec fn resolves(s: Sections, w: AttrValue, v: AttrValue) -> bool {
    match w {
        AttrValue::DebugStrRef(o) => match parsed_str(s.debug_str@, o) {
            Some(b) => v matches AttrValue::Str(x) && x@ == b,
            None => v == w,
        },
        AttrValue::DebugLineStrRef(o) => match parsed_str(s.debug_line_str@, o) {
            Some(b) => v matches AttrValue::Str(x) && x@ == b,
            None => v == w,
        },
        _ => v == w,
    }
}

/// Whether the attribute of specification `spec` at unit offset `offset`
/// of the unit at section offset `unit` can be read: the parser reads it.
pub open spec fn attr_readable(s: Sections, unit: usize, offset: usize, spec: AttrSpec) -> bool {
    parsed_attribute(s.debug_info@, s.big_endian, unit, offset, spec.name, spec.form, spec.implicit) is Some
}

/// Reads the attribute of specification `spec` at unit offset `offset` of
/// the unit at section offset `unit`, resolving string offsets; gives the
/// value and the unit offset after it.
fn read_attr(s: &Sections, unit: usize, abbreviations: &Abbreviations, offset: usize, spec: &AttrSpec) -> (r: Result<
    (AttrValue, usize),
    ReflectError,
>)
    requires
        implicit_matches_form(*spec),
    ensures
        r matches Ok((v, n)) ==> parsed_attribute(
            s.debug_info@,
            s.big_endian,
            unit,
            offset,
            spec.name,
            spec.form,
            spec.implicit,
        ) matches Some((w, m)) && m == n && resolves(*s, w, v),
        r is Ok <==> attr_readable(*s, unit, offset, *spec),
        r matches Err(e) ==> e.error is Gimli,
{
    let be = s.big_endian;
    let info = s.debug_info;
    let found = match attr_const(info, be, unit, abbreviations, offset, spec) {
        Ok(x) => x,
        Err(e) => return parse_error(e),
    };
    let found = match found {
        Some(v) => Some(v),
        None => match attr_misc(info, be, unit, abbreviations, offset, spec) {
            Ok(x) => x,
            Err(e) => return parse_error(e),
        },
    };
    let found = match found {
        Some(v) => Some(v),
        None => match attr_bytes(info, be, unit, abbreviations, offset, spec) {
            Ok(x) => x,
            Err(e) => return parse_error(e),
        },
    };
    let found = match found {
        Some(v) => Some(v),
        None => match attr_offset(info, be, unit, abbreviations, offset, spec) {
            Ok(x) => x,
            Err(e) => return parse_error(e),
        },
    };
    let found = match found {
        Some(v) => Some(v),
        None => match attr_ref(info, be, unit, abbreviations, offset, spec) {
            Ok(x) => x,
            Err(e) => return parse_error(e),
        },
    };
    let value = match found {
        Some(AttrValue::DebugStrRef(o)) => match debug_str(s.debug_str, be, o) {
            Ok(b) => AttrValue::Str(b),
            Err(_) => AttrValue::DebugStrRef(o),
        },
        Some(AttrValue::DebugLineStrRef(o)) => match debug_line_str(s.debug_line_str, be, o) {
            Ok(b) => AttrValue::Str(b),
            Err(_) => AttrValue::DebugLineStrRef(o),
        },
        Some(v) => v,
        None => AttrValue::Other,
    };
    match attr_end(info, be, unit, abbreviations, offset, spec) {
        Ok(n) => Ok((value, n)),
        Err(e) => parse_error(e),
    }
}

/// The bytes of a string of a file table: inline, or read from a string
/// section.
fn resolve_str(s: &Sections, raw: &RawStr) -> (r: Result<Vec<u8>, ReflectError>)
    ensures
        match *raw {
            RawStr::Inline(b) => r matches Ok(x) && x@ == b@,
            RawStr::Str(o) => match parsed_str(s.debug_str@, o) {
                Some(b) => r matches Ok(x) && x@ == b,
                None => r matches Err(e) && e.error is Gimli,
            },
            RawStr::LineStr(o) => match parsed_str(s.debug_line_str@, o) {
                Some(b) => r matches Ok(x) && x@ == b,
                None => r matches Err(e) && e.error is Gimli,
            },
            RawStr::Other => r matches Err(e) && e.error is InvalidAttr,
        },
{
    match raw {
        RawStr::Inline(b) => Ok(b.clone()),
        RawStr::Str(o) => match debug_str(s.debug_str, s.big_endian, *o) {
            Ok(b) => Ok(b),
            Err(e) => parse_error(e),
        },
        RawStr::LineStr(o) => match debug_line_str(s.debug_line_str, s.big_endian, *o) {
            Ok(b) => Ok(b),
            Err(e) => parse_error(e),
        },
        RawStr::Other => fail(ErrorKind::invalid_attr(DW_AT_name)),
    }
}

/// The string that the attribute `name` of `root` holds, if it holds one.
fn string_attr<'a>(root: &'a Die, name: u16) -> (r: Option<&'a [u8]>)
    ensures
        match root.attr(name) {
            Some(AttrValue::Str(b)) => r matches Some(x) && x@ == b@,
            _ => r is None,
        },
{
    match root.attr_value(name) {
        Some(AttrValue::Str(b)) => Some(b.as_slice()),
        _ => None,
    }
}

/// Whether `b` is the string that `raw` gives: inline, or read from a string
/// section.
pub open spec fn raw_resolves(s: Sections, raw: RawStr, b: Seq<u8>) -> bool {
    match raw {
        RawStr::Inline(x) => x@ == b,
        RawStr::Str(o) => parsed_str(s.debug_str@, o) == Some(b),
        RawStr::LineStr(o) => parsed_str(s.debug_line_str@, o) == Some(b),
        RawStr::Other => false,
    }
}

/// The offset of the line program that the root entry `root` names.
pub open spec fn stmt_list_of(root: Die) -> Option<usize> {
    match root.attr(DW_AT_stmt_list) {
        Some(AttrValue::SecOffset(o)) => Some(o),
        Some(AttrValue::DebugLineRef(o)) => Some(o),
        _ => None,
    }
}

/// The string that the attribute `name` of `root` holds.
pub open spec fn str_attr_of(root: Die, name: u16) -> Option<Seq<u8>> {
    match root.attr(name) {
        Some(AttrValue::Str(b)) => Some(b@),
        _ => None,
    }
}

/// Whether `f` is the file at `index` of the file table of the line program
/// at `stmt_list`, for a unit of address size `address_size` whose root
/// entry is `root`.
pub open spec fn file_read(s: Sections, root: Die, stmt_list: usize, address_size: u8, index: u64, f: FileEntry) -> bool {
    &&& parsed_file(
        s.debug_line@,
        s.big_endian,
        stmt_list,
        address_size,
        str_attr_of(root, DW_AT_comp_dir),
        str_attr_of(root, DW_AT_name),
        index,
    ) matches Ok(Some((p, d)))
    &&& raw_resolves(s, p, f.path@)
    &&& match d {
        Some(dd) => f.directory matches Some(x) && raw_resolves(s, dd, x@),
        None => f.directory is None,
    }
}

/// Whether `files`, from index `first` on, is the file table that the parser
/// reads for a unit of address size `address_size` whose root entry is
/// `root`: `None` where the root names no line program; else each file in
/// turn.
pub open spec fn files_read(s: Sections, root: Die, address_size: u8, files: Option<Vec<FileEntry>>, first: u64) -> bool {
    match stmt_list_of(root) {
        None => files is None,
        Some(stmt_list) => files matches Some(fs) && (first == 0 || first == 1) && forall|i: int|
            0 <= i < fs.len() ==> file_read(s, root, stmt_list, address_size, (first + i) as u64, #[trigger] fs@[i]),
    }
}

/// Whether the string `raw` of a file table can be read: it is inline, or
/// at an offset of a string section where the parser reads one.
pub open spec fn raw_readable(s: Sections, raw: RawStr) -> bool {
    match raw {
        RawStr::Inline(_) => true,
        RawStr::Str(o) => parsed_str(s.debug_str@, o) is Some,
        RawStr::LineStr(o) => parsed_str(s.debug_line_str@, o) is Some,
        RawStr::Other => false,
    }
}

/// The file of index `index` of the file table of the line program at
/// `stmt_list`, for a unit of address size `address_size` whose root entry
/// names the compilation directory `comp_dir` and the file `comp_name`, as
/// the parser reads it.
pub open spec fn table_file(
    s: Sections,
    comp_dir: Option<Seq<u8>>,
    comp_name: Option<Seq<u8>>,
    stmt_list: usize,
    address_size: u8,
    index: u64,
) -> Result<Option<(RawStr, Option<RawStr>)>, ()> {
    parsed_file(s.debug_line@, s.big_endian, stmt_list, address_size, comp_dir, comp_name, index)
}

/// The index of the first file of that file table: 0 where the table has a
/// file there, else 1; `Err` where the table cannot be read.
pub open spec fn first_file(
    s: Sections,
    comp_dir: Option<Seq<u8>>,
    comp_name: Option<Seq<u8>>,
    stmt_list: usize,
    address_size: u8,
) -> Result<u64, ()> {
    match table_file(s, comp_dir, comp_name, stmt_list, address_size, 0) {
        Ok(Some(_)) => Ok(0),
        Ok(None) => Ok(1),
        Err(_) => Err(()),
    }
}

/// The number of files of that file table from index `index` on, up to the
/// first index that names no file, the last index, or `fuel` files,
/// whichever comes first; `None` where one of those files, or one of their
/// strings, cannot be read.
pub open spec fn files_from(
    s: Sections,
    comp_dir: Option<Seq<u8>>,
    comp_name: Option<Seq<u8>>,
    stmt_list: usize,
    address_size: u8,
    index: u64,
    fuel: nat,
) -> Option<nat>
    decreases fuel,
{
    if fuel == 0 {
        Some(0)
    } else {
        match table_file(s, comp_dir, comp_name, stmt_list, address_size, index) {
            Err(_) => None,
            Ok(None) => Some(0),
            Ok(Some((p, d))) => if !raw_readable(s, p) || (d matches Some(dd) && !raw_readable(s, dd)) {
                None
            } else if index == u64::MAX {
                Some(1)
            } else {
                match files_from(s, comp_dir, comp_name, stmt_list, address_size, (index + 1) as u64, (fuel - 1) as nat) {
                    Some(n) => Some(n + 1),
                    None => None,
                }
            },
        }
    }
}

/// The file table of the line program of a unit whose root entry is
/// `root`, and the index of its first file: the files from index 0 if the
/// table has a file there, else from index 1, up to the first index that
/// names no file. `None` where the root entry names no line program.
fn read_files(s: &Sections, root: &Die, address_size: u8) -> (r: Result<(Option<Vec<FileEntry>>, u64), ReflectError>)
    ensures
        r matches Ok((files, first)) ==> files_read(*s, *root, address_size, files, first),
        match stmt_list_of(*root) {
            None => r matches Ok((None, 1u64)),
            Some(sl) => {
                &&& r is Ok <==> files_ok(
                    *s,
                    Some(sl),
                    str_attr_of(*root, DW_AT_comp_dir),
                    str_attr_of(*root, DW_AT_name),
                    address_size,
                )
                &&& r matches Ok((Some(fs), first)) ==> first_file(
                    *s,
                    str_attr_of(*root, DW_AT_comp_dir),
                    str_attr_of(*root, DW_AT_name),
                    sl,
                    address_size,
                ) == Ok::<u64, ()>(first) && files_from(
                    *s,
                    str_attr_of(*root, DW_AT_comp_dir),
                    str_attr_of(*root, DW_AT_name),
                    sl,
                    address_size,
                    first,
                    s.debug_line@.len(),
                ) == Some(fs.len() as nat)
            },
        },
        r matches Err(e) ==> e.error is Gimli || e.error is InvalidAttr,
{
    let stmt_list = match root.attr_value(DW_AT_stmt_list) {
        Some(AttrValue::SecOffset(o)) => *o,
        Some(AttrValue::DebugLineRef(o)) => *o,
        _ => return Ok((None, 1)),
    };
    let ghost dir_s = str_attr_of(*root, DW_AT_comp_dir);
    let ghost name_s = str_attr_of(*root, DW_AT_name);
    let comp_dir = string_attr(root, DW_AT_comp_dir);
    let comp_name = string_attr(root, DW_AT_name);
    let line = s.debug_line;
    let be = s.big_endian;
    let first: u64 = match file_path_at(line, be, stmt_list, address_size, comp_dir, comp_name, 0) {
        Ok(Some(_)) => 0,
        Ok(None) => 1,
        Err(e) => return parse_error(e),
    };
    let mut files: Vec<FileEntry> = Vec::new();
    let mut index = first;
    let mut fuel = line.len();
    while fuel > 0
        invariant_except_break
            index == first + files.len(),
            files_from(*s, dir_s, name_s, stmt_list, address_size, first, line@.len()) == match files_from(*s, dir_s, name_s,
                stmt_list,
                address_size,
                index,
                fuel as nat,
            ) {
                Some(n) => Some((n + files.len()) as nat),
                None => None::<nat>,
            },
        invariant
            first == 0 || first == 1,
            dir_s == str_attr_of(*root, DW_AT_comp_dir),
            name_s == str_attr_of(*root, DW_AT_name),
            first_file(*s, dir_s, name_s, stmt_list, address_size) == Ok::<u64, ()>(first),
            stmt_list_of(*root) == Some(stmt_list),
            bytes_view(comp_dir) == str_attr_of(*root, DW_AT_comp_dir),
            bytes_view(comp_name) == str_attr_of(*root, DW_AT_name),
            line@ == s.debug_line@,
            be == s.big_endian,
            forall|i: int|
                0 <= i < files.len() ==> file_read(*s, *root, stmt_list, address_size, (first + i) as u64, #[trigger] files@[i]),
        ensures
            files_from(*s, dir_s, name_s, stmt_list, address_size, first, line@.len()) == Some(files.len() as nat),
        decreases fuel,
    {
        let ghost f0 = fuel as nat;
        fuel = fuel - 1;
        let path = match file_path_at(line, be, stmt_list, address_size, comp_dir, comp_name, index) {
            Ok(Some(p)) => p,
            Ok(None) => {
                proof {
                    assert(files_from(*s, dir_s, name_s, stmt_list, address_size, index, f0) == Some(0nat));
                }
                break;
            },
            Err(e) => {
                proof {
                    assert(files_from(*s, dir_s, name_s, stmt_list, address_size, index, f0) is None);
                }
                return parse_error(e);
            },
        };
        let dir = match file_dir_at(line, be, stmt_list, address_size, comp_dir, comp_name, index) {
            Ok(Some(d)) => d,
            Ok(None) => {
                proof {
                    assert(files_from(*s, dir_s, name_s, stmt_list, address_size, index, f0) == Some(0nat));
                }
                break;
            },
            Err(e) => {
                proof {
                    assert(files_from(*s, dir_s, name_s, stmt_list, address_size, index, f0) is None);
                }
                return parse_error(e);
            },
        };
        proof {
            assert(table_file(*s, dir_s, name_s, stmt_list, address_size, index) matches Ok(Some((p, d))) && p == path
                && d == dir);
        }
        let path_bytes = match resolve_str(s, &path) {
            Ok(b) => b,
            Err(e) => {
                proof {
                    assert(files_from(*s, dir_s, name_s, stmt_list, address_size, index, f0) is None);
                }
                return Err(e);
            },
        };
        let directory = match &dir {
            Some(d) => match resolve_str(s, d) {
                Ok(b) => Some(b),
                Err(e) => {
                    proof {
                        assert(files_from(*s, dir_s, name_s, stmt_list, address_size, index, f0) is None);
                    }
                    return Err(e);
                },
            },
            None => None,
        };
        let file = FileEntry { directory, path: path_bytes };
        assert(file_read(*s, *root, stmt_list, address_size, index, file));
        let ghost before = files.len();
        files.push(file);
        if index == u64::MAX {
            proof {
                assert(files_from(*s, dir_s, name_s, stmt_list, address_size, index, f0) == Some(1nat));
            }
            break;
        }
        proof {
            assert(files_from(*s, dir_s, name_s, stmt_list, address_size, index, f0) == match files_from(*s, dir_s, name_s,
                stmt_list,
                address_size,
                (index + 1) as u64,
                fuel as nat,
            ) {
                Some(n) => Some(n + 1),
                None => None::<nat>,
            });
        }
        index = index + 1;
    }
    Ok((Some(files), first))
}

/// Whether the entry `d` is one that the parser reads at its offset of the
/// unit at section offset `unit`, whose abbreviations are `table`: its tag
/// and the names of its attributes are those of the abbreviation whose code
/// stands there.
pub open spec fn entry_read(
    s: Sections,
    unit: usize,
    table: Map<u64, (u16, bool, Seq<(u16, u16, Option<i64>)>)>,
    d: Die,
) -> bool {
    &&& parsed_code(s.debug_info@, s.big_endian, unit, d.offset) matches Some((c, _))
    &&& table.contains_key(c)
    &&& table[c].0 == d.tag
    &&& table[c].2.len() == d.attrs.len()
    &&& forall|j: int| 0 <= j < d.attrs.len() ==> d.attrs@[j].name == table[c].2[j].0
}

/// Whether the children of each of `entries` come after it.
pub open spec fn children_after(entries: Seq<Die>) -> bool {
    forall|i: int, k: int|
        0 <= i < entries.len() && 0 <= k < entries[i].children.len() ==> i < #[trigger] entries[i].children@[k]
            < entries.len()
}

/// An attribute specification of an abbreviation, as the parser holds it.
pub open spec fn spec_of(t: (u16, u16, Option<i64>)) -> AttrSpec {
    AttrSpec { name: t.0, form: t.1, implicit: t.2 }
}

/// The unit offset after the first `j` attributes of specifications
/// `specs`, read from unit offset `start` on; `None` where the parser fails
/// on one of them.
pub open spec fn attrs_end(s: Sections, unit: usize, specs: Seq<(u16, u16, Option<i64>)>, start: usize, j: nat) -> Option<
    usize,
>
    decreases j,
{
    if j == 0 {
        Some(start)
    } else {
        match attrs_end(s, unit, specs, start, (j - 1) as nat) {
            Some(p) => match parsed_attribute(
                s.debug_info@,
                s.big_endian,
                unit,
                p,
                specs[j - 1].0,
                specs[j - 1].1,
                specs[j - 1].2,
            ) {
                Some((_, n)) => Some(n),
                None => None,
            },
            None => None,
        }
    }
}

/// The value that the parser reads for the attribute at position `j` of
/// specifications `specs`, read from unit offset `start` on.
pub open spec fn attr_at(s: Sections, unit: usize, specs: Seq<(u16, u16, Option<i64>)>, start: usize, j: nat) -> Option<
    AttrValue,
> {
    match attrs_end(s, unit, specs, start, j) {
        Some(p) => match parsed_attribute(s.debug_info@, s.big_endian, unit, p, specs[j as int].0, specs[j as int].1, specs[j as int].2) {
            Some((w, _)) => Some(w),
            None => None,
        },
        None => None,
    }
}

/// Whether the first `j` attributes of specifications `specs`, from unit
/// offset `start` on, can be read: each one parses, and a string that it
/// refers to by an offset into a string section can be read there.
pub open spec fn attrs_ok(s: Sections, unit: usize, specs: Seq<(u16, u16, Option<i64>)>, start: usize, j: nat) -> bool
    decreases j,
{
    j == 0 || (attrs_ok(s, unit, specs, start, (j - 1) as nat) && match attrs_end(s, unit, specs, start, (j - 1) as nat) {
        Some(p) => attr_readable(s, unit, p, spec_of(specs[j - 1])),
        None => false,
    })
}

/// Attributes that cannot all be read up to `j` cannot all be read up to
/// any later position.
proof fn lemma_attrs_ok_prefix(s: Sections, unit: usize, specs: Seq<(u16, u16, Option<i64>)>, start: usize, j: nat, m: nat)
    requires
        j <= m,
        attrs_ok(s, unit, specs, start, m),
    ensures
        attrs_ok(s, unit, specs, start, j),
    decreases m,
{
    if j < m {
        lemma_attrs_ok_prefix(s, unit, specs, start, j, (m - 1) as nat);
    }
}

/// Whether `attrs` are the attributes that the parser reads for the
/// specifications `specs` from unit offset `start` on: of their names, each
/// value the parsed one with a string that it refers to by offset resolved.
pub open spec fn attrs_read(s: Sections, unit: usize, specs: Seq<(u16, u16, Option<i64>)>, start: usize, attrs: Seq<Attr>) -> bool {
    &&& attrs.len() == specs.len()
    &&& forall|j: int|
        0 <= j < attrs.len() ==> {
            &&& (#[trigger] attrs[j]).name == specs[j].0
            &&& attr_at(s, unit, specs, start, j as nat) matches Some(w)
            &&& resolves(s, w, attrs[j].value)
        }
}

/// The parents of the entries that the parser reads, one by one, from unit
/// offset `offset` on, of the unit at section offset `unit` whose
/// abbreviations are `table` and whose entries end at `length`: each
/// entry's unit offset and the index of its parent, after the entries
/// `acc` already read, with `stack` the indices of the entries whose
/// children are being read. A null entry closes the innermost of those.
/// `None` where the parser fails on a code or an attribute, where a code
/// has no abbreviation, or where the entries do not end within `fuel`
/// steps.
pub open spec fn walk(
    s: Sections,
    unit: usize,
    table: Map<u64, (u16, bool, Seq<(u16, u16, Option<i64>)>)>,
    length: usize,
    offset: usize,
    fuel: nat,
    stack: Seq<usize>,
    acc: Seq<(usize, Option<usize>)>,
) -> Option<Seq<(usize, Option<usize>)>>
    decreases fuel,
{
    if offset >= length {
        Some(acc)
    } else if fuel == 0 {
        None
    } else {
        match parsed_code(s.debug_info@, s.big_endian, unit, offset) {
            None => None,
            Some((c, next)) => if c == 0 {
                walk(
                    s,
                    unit,
                    table,
                    length,
                    next,
                    (fuel - 1) as nat,
                    if stack.len() > 0 { stack.drop_last() } else { stack },
                    acc,
                )
            } else if !table.contains_key(c) {
                None
            } else {
                let specs = table[c].2;
                if !attrs_ok(s, unit, specs, next, specs.len()) {
                    None
                } else {
                    walk(
                        s,
                        unit,
                        table,
                        length,
                        attrs_end(s, unit, specs, next, specs.len())->Some_0,
                        (fuel - 1) as nat,
                        if table[c].1 { stack.push(acc.len() as usize) } else { stack },
                        acc.push((offset, if stack.len() > 0 { Some(stack.last()) } else { None })),
                    )
                }
            },
        }
    }
}

/// The indices of the entries among `shapes` whose parent is the entry at
/// index `i`, in order.
pub open spec fn kids(shapes: Seq<(usize, Option<usize>)>, i: usize) -> Seq<usize>
    decreases shapes.len(),
{
    if shapes.len() == 0 {
        Seq::empty()
    } else if shapes.last().1 == Some(i) {
        kids(shapes.drop_last(), i).push((shapes.len() - 1) as usize)
    } else {
        kids(shapes.drop_last(), i)
    }
}

/// The children that the walk nests in an entry are entries of the walk,
/// in increasing order of index.
pub proof fn lemma_kids_increasing(shapes: Seq<(usize, Option<usize>)>, i: usize)
    requires
        shapes.len() <= usize::MAX,
    ensures
        forall|a: int| 0 <= a < kids(shapes, i).len() ==> #[trigger] kids(shapes, i)[a] < shapes.len(),
        forall|a: int, b: int| 0 <= a < b < kids(shapes, i).len() ==> kids(shapes, i)[a] < kids(shapes, i)[b],
    decreases shapes.len(),
{
    if shapes.len() > 0 {
        let prev = kids(shapes.drop_last(), i);
        lemma_kids_increasing(shapes.drop_last(), i);
        if shapes.last().1 == Some(i) {
            let k = kids(shapes, i);
            assert(k == prev.push((shapes.len() - 1) as usize));
            assert forall|a: int, b: int| 0 <= a < b < k.len() implies k[a] < k[b] by {
                if b == k.len() - 1 {
                    assert(k[a] == prev[a]);
                    assert(prev[a] < shapes.drop_last().len());
                    assert(k[b] == shapes.len() - 1);
                } else {
                    assert(k[a] == prev[a] && k[b] == prev[b]);
                }
            }
            assert forall|a: int| 0 <= a < k.len() implies #[trigger] k[a] < shapes.len() by {
                if a < prev.len() {
                    assert(k[a] == prev[a]);
                }
            }
        }
    }
}

/// An entry whose index is past every entry whose parent comes before it
/// has no children among them.
proof fn lemma_no_kids(shapes: Seq<(usize, Option<usize>)>, i: usize)
    requires
        i >= shapes.len(),
        forall|j: int| 0 <= j < shapes.len() ==> ((#[trigger] shapes[j]).1 matches Some(p) ==> p < j),
    ensures
        kids(shapes, i) == Seq::<usize>::empty(),
    decreases shapes.len(),
{
    if shapes.len() > 0 {
        lemma_no_kids(shapes.drop_last(), i);
    }
}

/// Whether the file table of the line program at `stmt_list` (if any) can
/// be read, for a unit of address size `address_size` whose root entry
/// names the compilation directory `comp_dir` and the file `comp_name`.
pub open spec fn files_ok(
    s: Sections,
    stmt_list: Option<usize>,
    comp_dir: Option<Seq<u8>>,
    comp_name: Option<Seq<u8>>,
    address_size: u8,
) -> bool {
    match stmt_list {
        None => true,
        Some(sl) => first_file(s, comp_dir, comp_name, sl, address_size) matches Ok(f) && files_from(
            s,
            comp_dir,
            comp_name,
            sl,
            address_size,
            f,
            s.debug_line@.len(),
        ) is Some,
    }
}

/// What the parser reads of the unit at section offset `unit`: the unit
/// offsets and parents of its entries, walked from the end of its header;
/// `None` where its header, its abbreviations or one of its entries cannot
/// be read.
pub open spec fn unit_shapes(s: Sections, unit: usize) -> Option<Seq<(usize, Option<usize>)>> {
    match (parsed_header(s.debug_info@, s.big_endian, unit), parsed_abbreviations(s.debug_info@, s.debug_abbrev@, s.big_endian, unit)) {
        (Some(h), Some(table)) => walk(s, unit, table, h.length, h.header_size, s.debug_info@.len(), Seq::empty(), Seq::empty()),
        _ => None,
    }
}

/// Whether the unit at section offset `unit` can be read: its header, its
/// abbreviations and its entries can.
pub open spec fn unit_parses(s: Sections, unit: usize) -> bool {
    unit_shapes(s, unit) is Some
}

/// Whether the entries of `u` are those that the parser walks: at the unit
/// offsets it reads them at, with the attribute values it reads, and with
/// the children that it nests in each.
pub open spec fn entries_walked(s: Sections, unit: usize, u: Unit) -> bool {
    &&& unit_shapes(s, unit) matches Some(shapes)
    &&& u.entries.len() == shapes.len()
    &&& forall|i: int| 0 <= i < u.entries.len() ==> {
        let d = #[trigger] u.entries@[i];
        let table = parsed_abbreviations(s.debug_info@, s.debug_abbrev@, s.big_endian, unit)->Some_0;
        &&& d.offset == shapes[i].0
        &&& d.children@ == kids(shapes, i as usize)
        &&& parsed_code(s.debug_info@, s.big_endian, unit, d.offset) matches Some((c, next))
        &&& attrs_read(s, unit, table[c].2, next, d.attrs@)
    }
}

/// Whether `u` is the unit that the parser reads at section offset `unit`:
/// of the header's encoding, with entries that the parser reads, each
/// child after its parent.
pub open spec fn unit_read(s: Sections, unit: usize, u: Unit) -> bool {
    &&& parsed_header(s.debug_info@, s.big_endian, unit) matches Some(h)
    &&& u.address_size == h.address_size
    &&& u.offset_size == h.offset_size
    &&& u.version == h.version
    &&& u.big_endian == s.big_endian
    &&& parsed_abbreviations(s.debug_info@, s.debug_abbrev@, s.big_endian, unit) matches Some(table)
    &&& forall|i: int| 0 <= i < u.entries.len() ==> entry_read(s, unit, table, #[trigger] u.entries@[i])
    &&& children_after(u.entries@)
    &&& entries_walked(s, unit, u)
    &&& u.entries.len() > 0 ==> {
        let root = u.entries@[0];
        if files_ok(s, stmt_list_of(root), str_attr_of(root, DW_AT_comp_dir), str_attr_of(root, DW_AT_name), h.address_size) {
            files_read(s, root, h.address_size, u.files, u.first_file_index)
        } else {
            u.files is None && u.first_file_index == 1
        }
    }
    &&& u.entries.len() == 0 ==> u.files is None
}

/// The attribute specifications `specs` as the parser's abbreviation table
/// holds them.
pub open spec fn spec_tuples(specs: Seq<AttrSpec>) -> Seq<(u16, u16, Option<i64>)> {
    specs.map_values(|x: AttrSpec| (x.name, x.form, x.implicit))
}

/// Reads the attributes of specifications `specs` from unit offset `start`
/// on, of the unit at section offset `unit`; gives them and the unit offset
/// after them.
fn read_attrs(s: &Sections, unit: usize, abbreviations: &Abbreviations, specs: &Vec<AttrSpec>, start: usize) -> (r:
    Result<(Vec<Attr>, usize), ReflectError>)
    requires
        forall|k: int| 0 <= k < specs.len() ==> implicit_matches_form(#[trigger] specs@[k]),
    ensures
        r is Ok <==> attrs_ok(*s, unit, spec_tuples(specs@), start, specs.len() as nat),
        r matches Ok((attrs, end)) ==> attrs_read(*s, unit, spec_tuples(specs@), start, attrs@) && attrs_end(
            *s,
            unit,
            spec_tuples(specs@),
            start,
            specs.len() as nat,
        ) == Some(end),
        r matches Err(e) ==> e.error is Gimli,
{
    let ghost t = spec_tuples(specs@);
    let mut attrs: Vec<Attr> = Vec::new();
    let mut pos = start;
    let mut j: usize = 0;
    while j < specs.len()
        invariant
            t == spec_tuples(specs@),
            forall|k: int| 0 <= k < specs.len() ==> implicit_matches_form(#[trigger] specs@[k]),
            j <= specs.len(),
            attrs.len() == j,
            attrs_end(*s, unit, t, start, j as nat) == Some(pos),
            attrs_ok(*s, unit, t, start, j as nat),
            forall|k: int| 0 <= k < j ==> {
                &&& (#[trigger] attrs@[k]).name == t[k].0
                &&& attr_at(*s, unit, t, start, k as nat) matches Some(w)
                &&& resolves(*s, w, attrs@[k].value)
            },
        decreases specs.len() - j,
    {
        proof {
            assert(spec_of(t[j as int]) == specs@[j as int]);
        }
        let (value, n) = match read_attr(s, unit, abbreviations, pos, &specs[j]) {
            Ok(x) => x,
            Err(e) => {
                proof {
                    assert(!attrs_ok(*s, unit, t, start, (j + 1) as nat));
                    if attrs_ok(*s, unit, t, start, specs.len() as nat) {
                        lemma_attrs_ok_prefix(*s, unit, t, start, (j + 1) as nat, specs.len() as nat);
                    }
                }
                return Err(e);
            },
        };
        attrs.push(Attr { name: specs[j].name, value });
        pos = n;
        j = j + 1;
    }
    Ok((attrs, pos))
}

/// Reads the entries of the unit at section offset `unit`, in the order in
/// which they are stored (the unit's root entry first), each entry's
/// children recorded in order, and the file table of the line program that
/// the root entry names. A string or a file table that cannot be read does
/// not fail the unit: the string keeps its offset, and the unit has no file
/// table, so that only a use of them fails.
pub fn read_unit(s: &Sections, unit: usize) -> (r: Result<Unit, ReflectError>)
    ensures
        r is Ok <==> unit_parses(*s, unit),
        r matches Ok(u) ==> unit_read(*s, unit, u),
        parsed_header(s.debug_info@, s.big_endian, unit) is None ==> (r matches Err(e) && e.error is Gimli),
        parsed_abbreviations(s.debug_info@, s.debug_abbrev@, s.big_endian, unit) is None ==> (r matches Err(e)
            && e.error is Gimli),
        r matches Err(e) ==> e.error is Gimli || e.error is OutOfBounds,
{
    let header = match unit_header(s.debug_info, s.big_endian, unit) {
        Ok(h) => h,
        Err(e) => return parse_error(e),
    };
    let abbreviations = match unit_abbreviations(s.debug_info, s.debug_abbrev, s.big_endian, unit) {
        Ok(a) => a,
        Err(e) => return parse_error(e),
    };
    let ghost table = abbreviation_table(abbreviations);
    let ghost start = walk(*s, unit, table, header.length, header.header_size, s.debug_info@.len(), Seq::empty(), Seq::empty());
    let ghost mut acc: Seq<(usize, Option<usize>)> = Seq::empty();
    let mut entries: Vec<Die> = Vec::new();
    let mut stack: Vec<usize> = Vec::new();
    let mut offset = header.header_size;
    let mut fuel = s.debug_info.len();
    while offset < header.length && fuel > 0
        invariant
            parsed_header(s.debug_info@, s.big_endian, unit) == Some(header),
            parsed_abbreviations(s.debug_info@, s.debug_abbrev@, s.big_endian, unit) == Some(table),
            table == abbreviation_table(abbreviations),
            start == walk(*s, unit, table, header.length, header.header_size, s.debug_info@.len(), Seq::empty(), Seq::empty()),
            start == walk(*s, unit, table, header.length, offset, fuel as nat, stack@, acc),
            acc.len() == entries.len(),
            forall|j: int| 0 <= j < acc.len() ==> ((#[trigger] acc[j]).1 matches Some(p) ==> p < j),
            forall|i: int| 0 <= i < entries.len() ==> {
                &&& entry_read(*s, unit, table, #[trigger] entries@[i])
                &&& entries@[i].offset == acc[i].0
                &&& entries@[i].children@ == kids(acc, i as usize)
                &&& parsed_code(s.debug_info@, s.big_endian, unit, entries@[i].offset) matches Some((c, next))
                &&& attrs_read(*s, unit, table[c].2, next, entries@[i].attrs@)
            },
            children_after(entries@),
            forall|k: int| 0 <= k < stack.len() ==> #[trigger] stack@[k] < entries.len(),
        decreases fuel,
    {
        let ghost f0 = fuel as nat;
        fuel = fuel - 1;
        let (head, next) = match entry_head(s.debug_info, s.big_endian, unit, &abbreviations, offset) {
            Ok(x) => x,
            Err(e) => return parse_error(e),
        };
        match head {
            None => {
                stack.pop();
                offset = next;
            },
            Some(h) => {
                let ghost c = parsed_code(s.debug_info@, s.big_endian, unit, offset)->Some_0.0;
                let ghost t = table[c].2;
                proof {
                    assert(t =~= spec_tuples(h.specs@));
                }
                let (attrs, pos) = match read_attrs(s, unit, &abbreviations, &h.specs, next) {
                    Ok(x) => x,
                    Err(e) => return Err(e),
                };
                let index = entries.len();
                let ghost before = entries@;
                let ghost parent: Option<usize> = if stack.len() > 0 { Some(stack@.last()) } else { None };
                if stack.len() > 0 {
                    let parent = stack[stack.len() - 1];
                    entries[parent].children.push(index);
                    proof {
                        assert forall|i: int| 0 <= i < entries.len() implies entry_read(
                            *s,
                            unit,
                            table,
                            #[trigger] entries@[i],
                        ) by {
                            assert(entries@[i].offset == before[i].offset);
                            assert(entries@[i].tag == before[i].tag);
                            assert(entries@[i].attrs@ == before[i].attrs@);
                        }
                    }
                }
                let die = Die { offset, tag: h.tag, attrs, children: Vec::new() };
                proof {
                    assert(h.specs@.map_values(|x: AttrSpec| (x.name, x.form, x.implicit)).len() == h.specs@.len());
                    assert forall|k: int| 0 <= k < die.attrs.len() implies die.attrs@[k].name == table[
                        parsed_code(s.debug_info@, s.big_endian, unit, offset)->Some_0.0
                    ].2[k].0 by {
                        assert(h.specs@.map_values(|x: AttrSpec| (x.name, x.form, x.implicit))[k] == (
                            h.specs@[k].name,
                            h.specs@[k].form,
                            h.specs@[k].implicit,
                        ));
                    }
                    lemma_no_kids(acc, index);
                }
                entries.push(die);
                proof {
                    let acc2 = acc.push((offset, parent));
                    assert(acc2.drop_last() =~= acc);
                    assert forall|i: int| 0 <= i < entries.len() implies (#[trigger] entries@[i]).children@ == kids(
                        acc2,
                        i as usize,
                    ) by {
                        assert(kids(acc2, i as usize) == if parent == Some(i as usize) {
                            kids(acc, i as usize).push(index)
                        } else {
                            kids(acc, i as usize)
                        });
                    }
                    acc = acc2;
                }
                if h.has_children {
                    stack.push(index);
                }
                offset = pos;
            },
        }
    }
    if offset < header.length {
        return fail(ErrorKind::OutOfBounds);
    }
    let (files, first_file_index) = if entries.len() > 0 {
        match read_files(s, &entries[0], header.address_size) {
            Ok(x) => x,
            Err(_) => (None, 1),
        }
    } else {
        (None, 1)
    };
    Ok(Unit {
        entries,
        files,
        first_file_index,
        address_size: header.address_size,
        offset_size: header.offset_size,
        version: header.version,
        big_endian: s.big_endian,
    })
}

/// The section offsets of the units of `.debug_info` from `offset` on, as
/// the parser reads their headers: each unit starts where the one before it
/// ends, and the last ends at the end of the section. `None` where a header
/// cannot be read, or gives a length of zero or one that runs past the end
/// of the section.
pub open spec fn unit_chain(info: Seq<u8>, big_endian: bool, offset: int) -> Option<Seq<usize>>
    decreases info.len() - offset,
{
    if offset < 0 || offset >= info.len() {
        Some(Seq::empty())
    } else {
        match parsed_header(info, big_endian, offset as usize) {
            None => None,
            Some(h) => if h.length == 0 || h.length > info.len() - offset {
                None
            } else {
                match unit_chain(info, big_endian, offset + h.length) {
                    Some(t) => Some(seq![offset as usize] + t),
                    None => None,
                }
            },
        }
    }
}

/// The section offsets of the units of `.debug_info`, in order: each unit
/// starts where the one before it ends, as its header gives.
pub fn unit_offsets(s: &Sections) -> (r: Result<Vec<usize>, ReflectError>)
    ensures
        r is Ok <==> unit_chain(s.debug_info@, s.big_endian, 0) is Some,
        r matches Ok(offsets) ==> Some(offsets@) == unit_chain(s.debug_info@, s.big_endian, 0),
        r matches Ok(offsets) ==> (forall|k: int|
            0 <= k < offsets.len() ==> parsed_header(s.debug_info@, s.big_endian, #[trigger] offsets@[k]) is Some)
            && (offsets.len() > 0 ==> offsets@[0] == 0),
        r matches Err(e) ==> e.error is Gimli || e.error is OutOfBounds,
{
    let ghost info = s.debug_info@;
    let ghost be = s.big_endian;
    let mut offsets: Vec<usize> = Vec::new();
    let mut offset: usize = 0;
    proof {
        assert(offsets@ + unit_chain(info, be, 0)->Some_0 =~= unit_chain(info, be, 0)->Some_0);
    }
    while offset < s.debug_info.len()
        invariant
            info == s.debug_info@,
            be == s.big_endian,
            offset <= s.debug_info.len(),
            forall|k: int|
                0 <= k < offsets.len() ==> parsed_header(s.debug_info@, s.big_endian, #[trigger] offsets@[k]) is Some,
            offsets.len() > 0 ==> offsets@[0] == 0,
            offsets.len() == 0 ==> offset == 0,
            unit_chain(info, be, 0) == match unit_chain(info, be, offset as int) {
                Some(t) => Some(offsets@ + t),
                None => None::<Seq<usize>>,
            },
        decreases s.debug_info.len() - offset,
    {
        let header = match unit_header(s.debug_info, s.big_endian, offset) {
            Ok(h) => h,
            Err(e) => return parse_error(e),
        };
        let ghost before = offsets@;
        offsets.push(offset);
        if header.length == 0 || header.length > s.debug_info.len() - offset {
            return fail(ErrorKind::OutOfBounds);
        }
        proof {
            let next = offset + header.length;
            match unit_chain(info, be, next as int) {
                Some(t) => {
                    assert(unit_chain(info, be, offset as int) == Some(seq![offset] + t));
                    assert(before + (seq![offset] + t) =~= offsets@ + t);
                },
                None => {},
            }
        }
        offset = offset + header.length;
    }
    proof {
        assert(offsets@ + Seq::<usize>::empty() =~= offsets@);
    }
    Ok(offsets)
}

} // verus!
