//! Reading debug info with the DWARF parser of the `gimli` crate.
use vstd::prelude::*;

use crate::dwarf::AttrValue;
use gimli::read::Abbreviations;
use gimli::{
    AttributeSpecification, AttributeValue, DebugInfo, DebugInfoOffset, DebugLine, DebugLineOffset,
    DebugLineStr, DebugLineStrOffset, DebugStr, DebugStrOffset, DwAt, DwForm, EndianSlice,
    RunTimeEndian, UnitOffset,
};

verus! {

/// The error type of the DWARF parser.
#[verifier::external_type_specification]
#[verifier::external_body]
pub struct ExGimliError(gimli::Error);

/// A piece of the result of evaluating a DWARF expression.
pub struct Piece {
    /// The size of the piece in bits, if the expression gave one.
    pub size_in_bits: Option<u64>,
    /// The offset of the piece in bits, if the expression gave one.
    pub bit_offset: Option<u64>,
    /// The address at which the piece is located, if it is located in memory.
    pub address: Option<u64>,
}

/// The pieces that evaluating the DWARF expression `expr` gives, with `start`
/// pushed on its stack first and at most `max_iterations` steps: `None`
/// where the parser fails (running out of steps among its failures),
/// `Some(None)` where the evaluation needs more information than it was
/// given.
pub uninterp spec fn spec_evaluate(
    expr: Seq<u8>,
    big_endian: bool,
    address_size: u8,
    offset_size: u8,
    version: u16,
    max_iterations: u32,
    start: u64,
) -> Option<Option<Seq<Piece>>>;

/// `gimli::Expression::evaluation`, `Evaluation::set_max_iterations`,
/// `set_initial_value`, `evaluate` and `result`: evaluates the DWARF
/// expression `expr` of a unit of the given encoding, with `start` pushed on
/// its stack, in at most `max_iterations` steps. Claimed: the result is the
/// named evaluation of these arguments. The address size must be one for
/// which the evaluator can build its address mask (a shift by eight times
/// the size, which overflows from 8 bytes on and is special-cased at 8).
#[verifier::external_body]
pub(crate) fn evaluate(
    expr: &[u8],
    big_endian: bool,
    address_size: u8,
    offset_size: u8,
    version: u16,
    max_iterations: u32,
    start: u64,
) -> (r: Result<Option<Vec<Piece>>, gimli::Error>)
    requires
        address_size == 1 || address_size == 2 || address_size == 4 || address_size == 8,
    ensures
        match r {
            Ok(Some(p)) => spec_evaluate(expr@, big_endian, address_size, offset_size, version, max_iterations, start) == Some(Some(p@)),
            Ok(None) => spec_evaluate(expr@, big_endian, address_size, offset_size, version, max_iterations, start) == Some(None::<Seq<Piece>>),
            Err(_) => spec_evaluate(expr@, big_endian, address_size, offset_size, version, max_iterations, start) is None,
        },
{
    let endian = if big_endian { RunTimeEndian::Big } else { RunTimeEndian::Little };
    let format = if offset_size == 8 { gimli::Format::Dwarf64 } else { gimli::Format::Dwarf32 };
    let encoding = gimli::Encoding { format, version, address_size };
    let mut eval = gimli::Expression(gimli::EndianSlice::new(expr, endian)).evaluation(encoding);
    eval.set_max_iterations(max_iterations);
    eval.set_initial_value(start);
    let gimli::EvaluationResult::Complete = eval.evaluate()? else { return Ok(None) };
    Ok(Some(eval.result().into_iter().map(|p| Piece {
        size_in_bits: p.size_in_bits,
        bit_offset: p.bit_offset,
        address: match p.location { gimli::Location::Address { address } => Some(address), _ => None },
    }).collect()))
}

/// The abbreviations of a unit, as the DWARF parser holds them.
#[verifier::external_type_specification]
#[verifier::external_body]
pub struct ExAbbreviations(gimli::read::Abbreviations);

/// What the header of a unit gives.
pub struct HeaderInfo {
    /// The size of the unit, its length field included, in bytes.
    pub length: usize,
    /// The size of the header, in bytes: the unit offset of the first entry.
    pub header_size: usize,
    /// The DWARF version of the unit.
    pub version: u16,
    /// The size of an address on the target, in bytes.
    pub address_size: u8,
    /// The size of a section offset in the unit's format, in bytes.
    pub offset_size: u8,
}

/// An attribute specification of an abbreviation: name, form, and the value
/// of an implicit constant.
pub struct AttrSpec {
    /// The attribute's name (`DW_AT_*`).
    pub name: u16,
    /// The attribute's form (`DW_FORM_*`).
    pub form: u16,
    /// The value of an implicit constant, for that form.
    pub implicit: Option<i64>,
}

/// Whether an attribute specification carries an implicit constant exactly
/// where its form is `DW_FORM_implicit_const`, as the parser's
/// specifications do.
pub open spec fn implicit_matches_form(spec: AttrSpec) -> bool {
    (spec.form == 0x21) == (spec.implicit is Some)
}

/// What the head of an entry gives: its abbreviation's tag, whether it has
/// children, and its attribute specifications.
pub struct EntryHead {
    /// The entry's tag.
    pub tag: u16,
    /// Whether the entry has children.
    pub has_children: bool,
    /// The specifications of the entry's attributes, in order.
    pub specs: Vec<AttrSpec>,
}

/// A string that an attribute or a file table gives: inline, or at an
/// offset in `.debug_str` or `.debug_line_str`.
pub enum RawStr {
    /// The bytes of an inline string.
    Inline(Vec<u8>),
    /// An offset into `.debug_str`.
    Str(usize),
    /// An offset into `.debug_line_str`.
    LineStr(usize),
    /// A string of another form.
    Other,
}

/// A file of a line program's file table, with its strings unresolved.
pub struct RawFile {
    /// The file's path name.
    pub path: RawStr,
    /// The file's directory, if any.
    pub directory: Option<RawStr>,
}

/// The header that the parser reads at section offset `unit` of
/// `.debug_info`; `None` where it fails.
pub uninterp spec fn parsed_header(debug_info: Seq<u8>, big_endian: bool, unit: usize) -> Option<HeaderInfo>;

/// `gimli::DebugInfo::header_from_offset`: parses the header of the unit at
/// section offset `unit`. Claimed: the result is the named parse of these
/// arguments.
#[verifier::external_body]
pub(crate) fn unit_header(debug_info: &[u8], big_endian: bool, unit: usize) -> (r: Result<HeaderInfo, gimli::Error>)
    ensures
        match r {
            Ok(h) => parsed_header(debug_info@, big_endian, unit) == Some(h),
            Err(_) => parsed_header(debug_info@, big_endian, unit) is None,
        },
{
    let endian = match big_endian { true => RunTimeEndian::Big, false => RunTimeEndian::Little };
    let h = DebugInfo::new(debug_info, endian).header_from_offset(DebugInfoOffset(unit))?;
    let e = h.encoding();
    Ok(HeaderInfo { length: h.length_including_self(), header_size: h.header_size(), version: e.version,
        address_size: e.address_size, offset_size: e.format.word_size() })
}

/// The abbreviation table that the parser reads for the unit at section
/// offset `unit`: by code, the tag, whether entries have children, and the
/// attribute specifications; `None` where it fails.
pub uninterp spec fn parsed_abbreviations(
    debug_info: Seq<u8>,
    debug_abbrev: Seq<u8>,
    big_endian: bool,
    unit: usize,
) -> Option<Map<u64, (u16, bool, Seq<(u16, u16, Option<i64>)>)>>;

/// What an abbreviation table holds: by code, the tag, whether entries have
/// children, and the attribute specifications.
pub uninterp spec fn abbreviation_table(a: gimli::read::Abbreviations) -> Map<u64, (u16, bool, Seq<(u16, u16, Option<i64>)>)>;

/// `UnitHeader::abbreviations`: parses the abbreviations of the unit at
/// section offset `unit`. Claimed: the table that the result holds is the
/// named parse of these arguments.
#[verifier::external_body]
pub(crate) fn unit_abbreviations(debug_info: &[u8], debug_abbrev: &[u8], big_endian: bool, unit: usize) -> (r: Result<
    gimli::read::Abbreviations,
    gimli::Error,
>)
    ensures
        match r {
            Ok(a) => parsed_abbreviations(debug_info@, debug_abbrev@, big_endian, unit) == Some(abbreviation_table(a)),
            Err(_) => parsed_abbreviations(debug_info@, debug_abbrev@, big_endian, unit) is None,
        },
{
    let endian = match big_endian { true => RunTimeEndian::Big, false => RunTimeEndian::Little };
    let h = DebugInfo::new(debug_info, endian).header_from_offset(DebugInfoOffset(unit))?;
    h.abbreviations(&gimli::DebugAbbrev::new(debug_abbrev, endian))
}

/// The abbreviation code that the parser reads at unit offset `offset` of
/// the unit at section offset `unit`, and the unit offset after it; `None`
/// where it fails.
pub uninterp spec fn parsed_code(debug_info: Seq<u8>, big_endian: bool, unit: usize, offset: usize) -> Option<(u64, usize)>;

/// `EntriesRaw::read_abbreviation` and `next_offset`: reads the
/// abbreviation code at unit offset `offset`, looks it up in
/// `abbreviations`, and gives the unit offset after the code. Claimed: for
/// the named code, `None` where it is zero (a null entry), else the table's
/// entry for it; an error where the code cannot be read or the table has no
/// entry for it. Each specification carries an implicit constant exactly
/// where its form is `DW_FORM_implicit_const`, as
/// `AttributeSpecification::implicit_const_value` gives it.
#[verifier::external_body]
pub(crate) fn entry_head(debug_info: &[u8], big_endian: bool, unit: usize, abbreviations: &Abbreviations, offset: usize) -> (r: Result<(Option<EntryHead>, usize), gimli::Error>)
    ensures
        match r {
            Ok((None, n)) => parsed_code(debug_info@, big_endian, unit, offset) == Some((0u64, n)),
            Ok((Some(h), n)) => parsed_code(debug_info@, big_endian, unit, offset) matches Some((c, m)) && c != 0
                && n == m && abbreviation_table(*abbreviations).contains_key(c) && abbreviation_table(
                *abbreviations,
            )[c] == (h.tag, h.has_children, h.specs@.map_values(|s: AttrSpec| (s.name, s.form, s.implicit)))
                && forall|k: int| 0 <= k < h.specs.len() ==> implicit_matches_form(#[trigger] h.specs@[k]),
            Err(_) => parsed_code(debug_info@, big_endian, unit, offset) matches Some((c, _)) ==> c != 0
                && !abbreviation_table(*abbreviations).contains_key(c),
        },
{
    let endian = match big_endian { true => RunTimeEndian::Big, false => RunTimeEndian::Little };
    let h = DebugInfo::new(debug_info, endian).header_from_offset(DebugInfoOffset(unit))?;
    let mut raw = h.entries_raw(abbreviations, Some(UnitOffset(offset)))?;
    let a = raw.read_abbreviation()?;
    Ok((a.map(|a| EntryHead { tag: a.tag().0, has_children: a.has_children(), specs: a.attributes().iter()
        .map(|s| AttrSpec { name: s.name().0, form: s.form().0, implicit: s.implicit_const_value() }).collect() }),
        raw.next_offset().0))
}

/// The value that the parser reads for an attribute of the given name,
/// form and implicit constant at unit offset `offset` of the unit at section
/// offset `unit`, converted, and the unit offset after it; `None` where it
/// fails. Strings stand here as `Inline`, `.debug_str` and `.debug_line_str`
/// forms as their offsets; values of other forms as `AttrValue::Other`.
pub uninterp spec fn parsed_attribute(
    debug_info: Seq<u8>,
    big_endian: bool,
    unit: usize,
    offset: usize,
    name: u16,
    form: u16,
    implicit: Option<i64>,
) -> Option<(AttrValue, usize)>;

/// Whether an attribute value is of the forms that [`attr_const`] reads.
pub open spec fn const_form(v: AttrValue) -> bool {
    v is Data1 || v is Data2 || v is Data4 || v is Data8 || v is Udata
}

/// Whether an attribute value is of the forms that [`attr_misc`] reads.
pub open spec fn misc_form(v: AttrValue) -> bool {
    v is Sdata || v is Flag || v is UnitRef || v is FileIndex || v is Encoding
}

/// Whether an attribute value is of the forms that [`attr_bytes`] reads.
pub open spec fn bytes_form(v: AttrValue) -> bool {
    v is Block || v is Exprloc || v is Str || v is Addr
}

/// Whether an attribute value is of the forms that [`attr_offset`] reads.
pub open spec fn offset_form(v: AttrValue) -> bool {
    v is DebugStrRef || v is DebugLineStrRef || v is DebugStrOffsetsIndex || v is DebugLineRef || v is SecOffset
}

/// Whether an attribute value is of the forms that [`attr_ref`] reads.
pub open spec fn ref_form(v: AttrValue) -> bool {
    v is DebugInfoRef
}

/// Whether the value that the parser reads for `spec` at unit offset
/// `offset` is the value `r` gives for the forms that `in_forms` holds of.
pub open spec fn attr_read(
    debug_info: Seq<u8>,
    big_endian: bool,
    unit: usize,
    offset: usize,
    spec: AttrSpec,
    r: Result<Option<AttrValue>, gimli::Error>,
    in_forms: spec_fn(AttrValue) -> bool,
) -> bool {
    let p = parsed_attribute(debug_info, big_endian, unit, offset, spec.name, spec.form, spec.implicit);
    match r {
        Ok(Some(v)) => p matches Some((w, _)) && w == v && in_forms(v),
        Ok(None) => p matches Some((w, _)) && !in_forms(w),
        Err(_) => p is None,
    }
}

/// `EntriesRaw::read_attribute`, for the forms of constants. Claimed: where
/// the named parse succeeds, its value if it is of these forms, else `None`;
/// an error where the parse fails.
#[verifier::external_body]
pub(crate) fn attr_const(debug_info: &[u8], big_endian: bool, unit: usize, abbreviations: &Abbreviations, offset: usize, spec: &AttrSpec) -> (r: Result<Option<AttrValue>, gimli::Error>)
    requires
        implicit_matches_form(*spec),
    ensures
        attr_read(debug_info@, big_endian, unit, offset, *spec, r, |v: AttrValue| const_form(v)),
{
    let endian = match big_endian { true => RunTimeEndian::Big, false => RunTimeEndian::Little };
    let h = DebugInfo::new(debug_info, endian).header_from_offset(DebugInfoOffset(unit))?;
    let mut raw = h.entries_raw(abbreviations, Some(UnitOffset(offset)))?;
    let s = AttributeSpecification::new(DwAt(spec.name), DwForm(spec.form), spec.implicit);
    Ok(match raw.read_attribute(s)?.value() {
        AttributeValue::Data1(v) => Some(AttrValue::Data1(v)),
        AttributeValue::Data2(v) => Some(AttrValue::Data2(v)),
        AttributeValue::Data4(v) => Some(AttrValue::Data4(v)),
        AttributeValue::Data8(v) => Some(AttrValue::Data8(v)),
        AttributeValue::Udata(v) => Some(AttrValue::Udata(v)),
        _ => None,
    })
}

/// `EntriesRaw::read_attribute`, for signed constants, flags, references
/// within the unit, file indices and encodings. Claimed: as for
/// [`attr_const`].
#[verifier::external_body]
pub(crate) fn attr_misc(debug_info: &[u8], big_endian: bool, unit: usize, abbreviations: &Abbreviations, offset: usize, spec: &AttrSpec) -> (r: Result<Option<AttrValue>, gimli::Error>)
    requires
        implicit_matches_form(*spec),
    ensures
        attr_read(debug_info@, big_endian, unit, offset, *spec, r, |v: AttrValue| misc_form(v)),
{
    let endian = match big_endian { true => RunTimeEndian::Big, false => RunTimeEndian::Little };
    let h = DebugInfo::new(debug_info, endian).header_from_offset(DebugInfoOffset(unit))?;
    let mut raw = h.entries_raw(abbreviations, Some(UnitOffset(offset)))?;
    let s = AttributeSpecification::new(DwAt(spec.name), DwForm(spec.form), spec.implicit);
    Ok(match raw.read_attribute(s)?.value() {
        AttributeValue::Sdata(v) => Some(AttrValue::Sdata(v)),
        AttributeValue::Flag(v) => Some(AttrValue::Flag(v)),
        AttributeValue::UnitRef(v) => Some(AttrValue::UnitRef(v.0)),
        AttributeValue::FileIndex(v) => Some(AttrValue::FileIndex(v)),
        AttributeValue::Encoding(v) => Some(AttrValue::Encoding(v.0)),
        _ => None,
    })
}

/// `EntriesRaw::read_attribute`, for blocks, expressions, inline strings
/// and addresses. Claimed: as for [`attr_const`].
#[verifier::external_body]
pub(crate) fn attr_bytes(debug_info: &[u8], big_endian: bool, unit: usize, abbreviations: &Abbreviations, offset: usize, spec: &AttrSpec) -> (r: Result<Option<AttrValue>, gimli::Error>)
    requires
        implicit_matches_form(*spec),
    ensures
        attr_read(debug_info@, big_endian, unit, offset, *spec, r, |v: AttrValue| bytes_form(v)),
{
    let endian = match big_endian { true => RunTimeEndian::Big, false => RunTimeEndian::Little };
    let h = DebugInfo::new(debug_info, endian).header_from_offset(DebugInfoOffset(unit))?;
    let mut raw = h.entries_raw(abbreviations, Some(UnitOffset(offset)))?;
    let s = AttributeSpecification::new(DwAt(spec.name), DwForm(spec.form), spec.implicit);
    Ok(match raw.read_attribute(s)?.value() {
        AttributeValue::Block(v) => Some(AttrValue::Block(v.to_vec())),
        AttributeValue::Exprloc(v) => Some(AttrValue::Exprloc(v.0.to_vec())),
        AttributeValue::String(v) => Some(AttrValue::Str(v.to_vec())),
        AttributeValue::Addr(v) => Some(AttrValue::Addr(v)),
        _ => None,
    })
}

/// `EntriesRaw::read_attribute`, for offsets into other sections (line
/// programs among them) and string indices. Claimed: as for [`attr_const`].
#[verifier::external_body]
pub(crate) fn attr_offset(debug_info: &[u8], big_endian: bool, unit: usize, abbreviations: &Abbreviations, offset: usize, spec: &AttrSpec) -> (r: Result<Option<AttrValue>, gimli::Error>)
    requires
        implicit_matches_form(*spec),
    ensures
        attr_read(debug_info@, big_endian, unit, offset, *spec, r, |v: AttrValue| offset_form(v)),
{
    let endian = match big_endian { true => RunTimeEndian::Big, false => RunTimeEndian::Little };
    let h = DebugInfo::new(debug_info, endian).header_from_offset(DebugInfoOffset(unit))?;
    let mut raw = h.entries_raw(abbreviations, Some(UnitOffset(offset)))?;
    let s = AttributeSpecification::new(DwAt(spec.name), DwForm(spec.form), spec.implicit);
    Ok(match raw.read_attribute(s)?.value() {
        AttributeValue::DebugStrRef(v) => Some(AttrValue::DebugStrRef(v.0)),
        AttributeValue::DebugLineStrRef(v) => Some(AttrValue::DebugLineStrRef(v.0)),
        AttributeValue::DebugStrOffsetsIndex(v) => Some(AttrValue::DebugStrOffsetsIndex(v.0)),
        AttributeValue::DebugLineRef(v) => Some(AttrValue::DebugLineRef(v.0)),
        AttributeValue::SecOffset(v) => Some(AttrValue::SecOffset(v)),
        _ => None,
    })
}

/// `EntriesRaw::read_attribute`, for references into `.debug_info`.
/// Claimed: as for [`attr_const`].
#[verifier::external_body]
pub(crate) fn attr_ref(debug_info: &[u8], big_endian: bool, unit: usize, abbreviations: &Abbreviations, offset: usize, spec: &AttrSpec) -> (r: Result<Option<AttrValue>, gimli::Error>)
    requires
        implicit_matches_form(*spec),
    ensures
        attr_read(debug_info@, big_endian, unit, offset, *spec, r, |v: AttrValue| ref_form(v)),
{
    let endian = match big_endian { true => RunTimeEndian::Big, false => RunTimeEndian::Little };
    let h = DebugInfo::new(debug_info, endian).header_from_offset(DebugInfoOffset(unit))?;
    let mut raw = h.entries_raw(abbreviations, Some(UnitOffset(offset)))?;
    let s = AttributeSpecification::new(DwAt(spec.name), DwForm(spec.form), spec.implicit);
    Ok(match raw.read_attribute(s)?.value() {
        AttributeValue::DebugInfoRef(v) => Some(AttrValue::DebugInfoRef(v.0)),
        _ => None,
    })
}

/// `EntriesRaw::read_attribute` and `next_offset`: the unit offset after the
/// attribute. Claimed: the offset of the named parse; an error where the
/// parse fails.
#[verifier::external_body]
pub(crate) fn attr_end(debug_info: &[u8], big_endian: bool, unit: usize, abbreviations: &Abbreviations, offset: usize, spec: &AttrSpec) -> (r: Result<usize, gimli::Error>)
    requires
        implicit_matches_form(*spec),
    ensures
        match r {
            Ok(n) => parsed_attribute(debug_info@, big_endian, unit, offset, spec.name, spec.form, spec.implicit) matches Some((_, m)) && m == n,
            Err(_) => parsed_attribute(debug_info@, big_endian, unit, offset, spec.name, spec.form, spec.implicit) is None,
        },
{
    let endian = match big_endian { true => RunTimeEndian::Big, false => RunTimeEndian::Little };
    let h = DebugInfo::new(debug_info, endian).header_from_offset(DebugInfoOffset(unit))?;
    let mut raw = h.entries_raw(abbreviations, Some(UnitOffset(offset)))?;
    let s = AttributeSpecification::new(DwAt(spec.name), DwForm(spec.form), spec.implicit);
    raw.read_attribute(s)?;
    Ok(raw.next_offset().0)
}

/// The position of the first zero byte of `bytes` at or after position `i`.
pub open spec fn first_nul(bytes: Seq<u8>, i: int) -> Option<int>
    decreases bytes.len() - i,
{
    if i < 0 || i >= bytes.len() {
        None
    } else if bytes[i] == 0 {
        Some(i)
    } else {
        first_nul(bytes, i + 1)
    }
}

/// The bytes of the string at `offset` of a string section: those from the
/// offset up to the first zero byte after it; `None` where the offset lies
/// past the section or no zero byte follows it.
pub open spec fn parsed_str(section: Seq<u8>, offset: usize) -> Option<Seq<u8>> {
    if offset <= section.len() {
        match first_nul(section, offset as int) {
            Some(end) => Some(section.subrange(offset as int, end)),
            None => None,
        }
    } else {
        None
    }
}

/// `DebugStr::get_str`: the string at `offset` of `.debug_str`. Claimed: as
/// its source shows (`skip` to the offset, then `read_null_terminated_slice`),
/// the bytes up to the first zero byte after the offset; an error where the
/// offset lies past the section or no zero byte follows.
#[verifier::external_body]
pub(crate) fn debug_str(section: &[u8], big_endian: bool, offset: usize) -> (r: Result<Vec<u8>, gimli::Error>)
    ensures
        match r {
            Ok(b) => parsed_str(section@, offset) == Some(b@),
            Err(_) => parsed_str(section@, offset) is None,
        },
{
    let endian = match big_endian { true => RunTimeEndian::Big, false => RunTimeEndian::Little };
    Ok(DebugStr::new(section, endian).get_str(DebugStrOffset(offset))?.to_vec())
}

/// `DebugLineStr::get_str`: the string at `offset` of `.debug_line_str`.
/// Claimed: as for [`debug_str`].
#[verifier::external_body]
pub(crate) fn debug_line_str(section: &[u8], big_endian: bool, offset: usize) -> (r: Result<Vec<u8>, gimli::Error>)
    ensures
        match r {
            Ok(b) => parsed_str(section@, offset) == Some(b@),
            Err(_) => parsed_str(section@, offset) is None,
        },
{
    let endian = match big_endian { true => RunTimeEndian::Big, false => RunTimeEndian::Little };
    Ok(DebugLineStr::new(section, endian).get_str(DebugLineStrOffset(offset))?.to_vec())
}

/// The bytes that an optional slice holds.
pub open spec fn bytes_view(s: Option<&[u8]>) -> Option<Seq<u8>> {
    match s {
        Some(b) => Some(b@),
        None => None,
    }
}

/// The file at index `index` of the file table of the line program at
/// offset `stmt_list` of `.debug_line`, for a unit with the given address
/// size, compilation directory and name: its path and its directory;
/// `None` where the table has no such file; a failed parse as `Err`.
pub uninterp spec fn parsed_file(
    debug_line: Seq<u8>,
    big_endian: bool,
    stmt_list: usize,
    address_size: u8,
    comp_dir: Option<Seq<u8>>,
    comp_name: Option<Seq<u8>>,
    index: u64,
) -> Result<Option<(RawStr, Option<RawStr>)>, ()>;

/// `DebugLine::program`, `LineProgramHeader::file` and
/// `FileEntry::path_name`: the path of the file at `index`. Claimed: the path
/// of the named parse; an error where it fails.
#[verifier::external_body]
pub(crate) fn file_path_at<'a>(debug_line: &'a [u8], big_endian: bool, stmt_list: usize, address_size: u8, comp_dir: Option<&'a [u8]>, comp_name: Option<&'a [u8]>, index: u64) -> (r: Result<Option<RawStr>, gimli::Error>)
    ensures
        match r {
            Ok(p) => parsed_file(debug_line@, big_endian, stmt_list, address_size, bytes_view(comp_dir), bytes_view(comp_name), index)
                matches Ok(f) && (match (f, p) { (Some((q, _)), Some(x)) => q == x, (None, None) => true, _ => false }),
            Err(_) => parsed_file(debug_line@, big_endian, stmt_list, address_size, bytes_view(comp_dir), bytes_view(comp_name), index) is Err,
        },
{
    let endian = match big_endian { true => RunTimeEndian::Big, false => RunTimeEndian::Little };
    let slice = |s: &'a [u8]| EndianSlice::new(s, endian);
    let p = DebugLine::new(debug_line, endian).program(DebugLineOffset(stmt_list), address_size, comp_dir.map(slice), comp_name.map(slice))?;
    Ok(p.header().file(index).map(|f| match f.path_name() {
        AttributeValue::String(v) => RawStr::Inline(v.to_vec()),
        AttributeValue::DebugStrRef(v) => RawStr::Str(v.0),
        AttributeValue::DebugLineStrRef(v) => RawStr::LineStr(v.0),
        _ => RawStr::Other,
    }))
}

/// `DebugLine::program`, `LineProgramHeader::file` and
/// `FileEntry::directory`: the directory of the file at `index`. Claimed:
/// the directory of the named parse; an error where it fails.
#[verifier::external_body]
pub(crate) fn file_dir_at<'a>(debug_line: &'a [u8], big_endian: bool, stmt_list: usize, address_size: u8, comp_dir: Option<&'a [u8]>, comp_name: Option<&'a [u8]>, index: u64) -> (r: Result<Option<Option<RawStr>>, gimli::Error>)
    ensures
        match r {
            Ok(p) => parsed_file(debug_line@, big_endian, stmt_list, address_size, bytes_view(comp_dir), bytes_view(comp_name), index)
                matches Ok(f) && (match (f, p) { (Some((_, q)), Some(x)) => q == x, (None, None) => true, _ => false }),
            Err(_) => parsed_file(debug_line@, big_endian, stmt_list, address_size, bytes_view(comp_dir), bytes_view(comp_name), index) is Err,
        },
{
    let endian = match big_endian { true => RunTimeEndian::Big, false => RunTimeEndian::Little };
    let slice = |s: &'a [u8]| EndianSlice::new(s, endian);
    let p = DebugLine::new(debug_line, endian).program(DebugLineOffset(stmt_list), address_size, comp_dir.map(slice), comp_name.map(slice))?;
    let h = p.header();
    Ok(h.file(index).map(|f| f.directory(h).map(|d| match d {
        AttributeValue::String(v) => RawStr::Inline(v.to_vec()),
        AttributeValue::DebugStrRef(v) => RawStr::Str(v.0),
        AttributeValue::DebugLineStrRef(v) => RawStr::LineStr(v.0),
        _ => RawStr::Other,
    })))
}

} // verus!
