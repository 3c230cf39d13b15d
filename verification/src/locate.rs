//! Finding the debug info of a function in the bytes of an object file,
//! with the object file parser of the `object` crate and the address
//! lookup of the `addr2line` crate.
use vstd::prelude::*;

use addr2line::object::{Object, ObjectSection};

use crate::dwarf::Unit;
use crate::err::{ErrorKind, ReflectError};
use crate::load::{read_unit, unit_parses, unit_read, Sections};
use crate::lookup::{fail, outcome, spec_instance_type};

verus! {

/// The bytes of the section named `name` of the object file `data`,
/// decompressed where the section is compressed: `None` where the file
/// cannot be parsed, has no such section, or the section's data cannot be
/// read or decompressed.
pub uninterp spec fn parsed_section(data: Seq<u8>, name: Seq<char>) -> Option<Seq<u8>>;

/// Whether the object file `data` is of a big-endian target: `None` where
/// the file cannot be parsed.
pub uninterp spec fn parsed_big_endian(data: Seq<u8>) -> Option<bool>;

/// The function whose code holds the address `addr` of the object file
/// `data`, as the address lookup finds it: the section offset of its unit
/// and the unit offset of its entry (the innermost frame's); `None` where
/// the file, its debug info or the address cannot be resolved.
pub uninterp spec fn function_die(data: Seq<u8>, addr: u64) -> Option<(usize, usize)>;

/// `object::File::parse` and `Object::is_little_endian`. Claimed: the named
/// byte order of the file.
#[verifier::external_body]
fn object_big_endian(data: &[u8]) -> (r: Option<bool>)
    ensures
        r == parsed_big_endian(data@),
{
    addr2line::object::File::parse(data).ok().map(|f| !f.is_little_endian())
}

/// `object::File::parse`, `Object::section_by_name` and
/// `ObjectSection::uncompressed_data`. Claimed: the named bytes of the
/// section.
#[verifier::external_body]
fn object_section(data: &[u8], name: &str) -> (r: Option<Vec<u8>>)
    ensures
        match r {
            Some(s) => parsed_section(data@, name@) == Some(s@),
            None => parsed_section(data@, name@) is None,
        },
{
    let file = addr2line::object::File::parse(data).ok()?;
    let section = file.section_by_name(name)?;
    section.uncompressed_data().ok().map(|d| d.into_owned())
}

/// `object::File::parse`, `addr2line::Context::new`, `Context::find_frames`
/// (its first frame's `dw_die_offset`) and `Context::find_dwarf_unit` (its
/// header's section offset). Claimed: the named function of these
/// arguments.
#[verifier::external_body]
fn locate_function(data: &[u8], addr: u64) -> (r: Option<(usize, usize)>)
    ensures
        r == function_die(data@, addr),
{
    let file = addr2line::object::File::parse(data).ok()?;
    let context = addr2line::Context::new(&file).ok()?;
    let die = context.find_frames(addr).ok()?.next().ok()??.dw_die_offset?;
    let unit = context.find_dwarf_unit(addr)?;
    let offset = unit.header.offset().as_debug_info_offset()?;
    Some((offset.0, die.0))
}

/// The bytes of the section named `name` of the object file `data`, empty
/// where it has none.
pub open spec fn section_bytes(data: Seq<u8>, name: Seq<char>) -> Seq<u8> {
    match parsed_section(data, name) {
        Some(b) => b,
        None => Seq::empty(),
    }
}

/// The section named `name` of `data`, empty where it has none.
fn section_or_empty(data: &[u8], name: &str) -> (r: Vec<u8>)
    ensures
        r@ == section_bytes(data@, name@),
{
    match object_section(data, name) {
        Some(s) => s,
        None => Vec::new(),
    }
}

/// Whether `s` holds the debug info sections of the object file `data` and
/// its byte order; a section that the file does not have is empty.
pub open spec fn sections_of(data: Seq<u8>, s: Sections) -> bool {
    &&& parsed_big_endian(data) == Some(s.big_endian)
    &&& s.debug_info@ == section_bytes(data, ".debug_info"@)
    &&& s.debug_abbrev@ == section_bytes(data, ".debug_abbrev"@)
    &&& s.debug_str@ == section_bytes(data, ".debug_str"@)
    &&& s.debug_line@ == section_bytes(data, ".debug_line"@)
    &&& s.debug_line_str@ == section_bytes(data, ".debug_line_str"@)
}

/// The debug info sections of an object file, decompressed, and its byte
/// order.
pub struct ObjectSections {
    /// `.debug_info`.
    pub debug_info: Vec<u8>,
    /// `.debug_abbrev`.
    pub debug_abbrev: Vec<u8>,
    /// `.debug_str`.
    pub debug_str: Vec<u8>,
    /// `.debug_line`.
    pub debug_line: Vec<u8>,
    /// `.debug_line_str`.
    pub debug_line_str: Vec<u8>,
    /// Whether the target stores multi-byte values most significant byte
    /// first.
    pub big_endian: bool,
}

impl ObjectSections {
    /// These sections, borrowed.
    pub fn sections(&self) -> (r: Sections<'_>)
        ensures
            r.debug_info@ == self.debug_info@,
            r.debug_abbrev@ == self.debug_abbrev@,
            r.debug_str@ == self.debug_str@,
            r.debug_line@ == self.debug_line@,
            r.debug_line_str@ == self.debug_line_str@,
            r.big_endian == self.big_endian,
    {
        Sections {
            debug_info: self.debug_info.as_slice(),
            debug_abbrev: self.debug_abbrev.as_slice(),
            debug_str: self.debug_str.as_slice(),
            debug_line: self.debug_line.as_slice(),
            debug_line_str: self.debug_line_str.as_slice(),
            big_endian: self.big_endian,
        }
    }
}

/// Whether `o` holds the debug info sections of the object file `data`
/// and its byte order; a section that the file does not have is empty.
pub open spec fn holds_sections_of(data: Seq<u8>, o: ObjectSections) -> bool {
    &&& parsed_big_endian(data) == Some(o.big_endian)
    &&& o.debug_info@ == section_bytes(data, ".debug_info"@)
    &&& o.debug_abbrev@ == section_bytes(data, ".debug_abbrev"@)
    &&& o.debug_str@ == section_bytes(data, ".debug_str"@)
    &&& o.debug_line@ == section_bytes(data, ".debug_line"@)
    &&& o.debug_line_str@ == section_bytes(data, ".debug_line_str"@)
}

/// The debug info sections of the object file `data`, decompressed, and its
/// byte order; a section that the file does not have is empty. `None` where
/// the file cannot be parsed.
pub fn object_sections(data: &[u8]) -> (r: Option<ObjectSections>)
    ensures
        r is Some <==> parsed_big_endian(data@) is Some,
        r matches Some(o) ==> holds_sections_of(data@, o),
{
    let big_endian = object_big_endian(data)?;
    Some(ObjectSections {
        debug_info: section_or_empty(data, ".debug_info"),
        debug_abbrev: section_or_empty(data, ".debug_abbrev"),
        debug_str: section_or_empty(data, ".debug_str"),
        debug_line: section_or_empty(data, ".debug_line"),
        debug_line_str: section_or_empty(data, ".debug_line_str"),
        big_endian,
    })
}

/// The debug info of the function at address `addr` of the object file
/// `data`: the unit that describes it, read from the file's sections, and
/// the unit offset of the type that the function instance is instantiated
/// with. No debug info where the file cannot be parsed or the address does
/// not resolve to a function.
pub fn debug_info_for(data: &[u8], addr: u64) -> (r: Result<(Unit, usize), ReflectError>)
    ensures
        (parsed_big_endian(data@) is None || function_die(data@, addr) is None) ==> outcome(r) == Err::<
            (Unit, usize),
            ErrorKind,
        >(ErrorKind::MissingDebugInfo),
        r matches Ok((u, t)) ==> function_die(data@, addr) matches Some((unit, die)) && (exists|s: Sections|
            #[trigger] sections_of(data@, s) && unit_read(s, unit, u)) && spec_instance_type(u, die) == Ok::<
            usize,
            ErrorKind,
        >(t),
        r is Err ==> parsed_big_endian(data@) is None || function_die(data@, addr) is None || (function_die(
            data@,
            addr,
        ) matches Some((unit, die)) && exists|s: Sections|
            #[trigger] sections_of(data@, s) && (!unit_parses(s, unit) || exists|u: Unit|
                #[trigger] unit_read(s, unit, u) && spec_instance_type(u, die) is Err)),
{
    let owned = match object_sections(data) {
        Some(s) => s,
        None => return fail(ErrorKind::MissingDebugInfo),
    };
    let sections = owned.sections();
    assert(sections_of(data@, sections));
    let (unit_offset, die_offset) = match locate_function(data, addr) {
        Some(x) => x,
        None => return fail(ErrorKind::MissingDebugInfo),
    };
    let unit = read_unit(&sections, unit_offset)?;
    let ty = crate::lookup::instance_type(&unit, die_offset)?;
    Ok((unit, ty))
}

} // verus!
