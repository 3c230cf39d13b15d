use deflect::dwarf::{AttrValue, DW_AT_name, DW_TAG_compile_unit, DW_TAG_member, DW_TAG_structure_type};
use deflect::load::{read_unit, unit_offsets, Sections};
use deflect::schema::Type;
use deflect::value::{Scalar, Value};
use gimli::write::{AttributeValue, DwarfUnit, EndianVec, LineProgram, LineString, Sections as WriteSections};

/// The sections of a unit describing `u8` and `struct Foo { a: u8, b: u8 }`,
/// with names both inline and in `.debug_str`.
fn written() -> WriteSections<EndianVec<gimli::LittleEndian>> {
    let encoding = gimli::Encoding { format: gimli::Format::Dwarf32, version: 4, address_size: 8 };
    let mut dwarf = DwarfUnit::new(encoding);
    let root = dwarf.unit.root();
    let base = dwarf.unit.add(root, gimli::DW_TAG_base_type);
    dwarf.unit.get_mut(base).set(gimli::DW_AT_name, AttributeValue::String(b"u8".to_vec()));
    dwarf.unit.get_mut(base).set(gimli::DW_AT_byte_size, AttributeValue::Udata(1));
    let foo = dwarf.unit.add(root, gimli::DW_TAG_structure_type);
    let foo_name = dwarf.strings.add("Foo");
    dwarf.unit.get_mut(foo).set(gimli::DW_AT_name, AttributeValue::StringRef(foo_name));
    dwarf.unit.get_mut(foo).set(gimli::DW_AT_byte_size, AttributeValue::Data1(2));
    for (name, offset) in [("a", 0u64), ("b", 1u64)] {
        let m = dwarf.unit.add(foo, gimli::DW_TAG_member);
        dwarf.unit.get_mut(m).set(gimli::DW_AT_name, AttributeValue::String(name.as_bytes().to_vec()));
        dwarf.unit.get_mut(m).set(gimli::DW_AT_type, AttributeValue::UnitRef(base));
        dwarf.unit.get_mut(m).set(gimli::DW_AT_data_member_location, AttributeValue::Udata(offset));
    }
    let mut sections = WriteSections::new(EndianVec::new(gimli::LittleEndian));
    dwarf.write(&mut sections).expect("cannot write DWARF");
    sections
}

#[test]
fn reads_written_unit() {
    let w = written();
    let s = Sections {
        debug_info: w.debug_info.slice(),
        debug_abbrev: w.debug_abbrev.slice(),
        debug_str: w.debug_str.slice(),
        debug_line: w.debug_line.slice(),
        debug_line_str: w.debug_line_str.slice(),
        big_endian: false,
    };
    let offsets = unit_offsets(&s).ok().expect("no units");
    assert_eq!(offsets, vec![0]);
    let unit = read_unit(&s, 0).ok().expect("unit not read");
    assert_eq!(unit.address_size, 8);
    assert_eq!(unit.version, 4);
    assert_eq!(unit.entries[0].tag, DW_TAG_compile_unit);
    assert_eq!(unit.entries[0].children.len(), 2);
    let foo = unit.entries.iter().position(|d| d.tag == DW_TAG_structure_type).expect("no struct");
    let name = unit.entries[foo].attrs.iter().find(|a| a.name == DW_AT_name).expect("no name");
    assert!(matches!(&name.value, AttrValue::Str(b) if b.as_slice() == b"Foo"));
    assert_eq!(unit.entries[foo].children.len(), 2);
    assert!(unit.entries[foo].children.iter().all(|&c| unit.entries[c].tag == DW_TAG_member));

    let t = Type::from_die(&unit, foo).ok().expect("not a type");
    let bytes = [7u8, 9];
    let Ok(Value::Struct(v)) = Value::with_type(t, &bytes, 0x10) else { panic!("not a struct") };
    let b = v.field(b"b").ok().expect("error").expect("no field b");
    let Ok(Value::Atom(x)) = b.value() else { panic!("not an atom") };
    assert!(x.value() == Scalar::U8(9));
}

#[test]
fn rejects_truncated_section() {
    let w = written();
    let info = w.debug_info.slice();
    let s = Sections {
        debug_info: &info[..info.len() / 2],
        debug_abbrev: w.debug_abbrev.slice(),
        debug_str: w.debug_str.slice(),
        debug_line: w.debug_line.slice(),
        debug_line_str: w.debug_line_str.slice(),
        big_endian: false,
    };
    let Err(e) = read_unit(&s, 0) else { panic!("read a truncated unit") };
    assert!(matches!(e.error, deflect::ErrorKind::Gimli(_) | deflect::ErrorKind::OutOfBounds));
}

#[test]
fn reads_file_table() {
    let encoding = gimli::Encoding { format: gimli::Format::Dwarf32, version: 4, address_size: 8 };
    let mut dwarf = DwarfUnit::new(encoding);
    let mut program = LineProgram::new(
        encoding,
        gimli::LineEncoding::default(),
        LineString::String(b"/src".to_vec()),
        LineString::String(b"main.rs".to_vec()),
        None,
    );
    let dir = program.add_directory(LineString::String(b"lib".to_vec()));
    let util = program.add_file(LineString::String(b"util.rs".to_vec()), dir, None);
    dwarf.unit.line_program = program;
    let root = dwarf.unit.root();
    let st = dwarf.unit.add(root, gimli::DW_TAG_structure_type);
    dwarf.unit.get_mut(st).set(gimli::DW_AT_name, AttributeValue::String(b"Util".to_vec()));
    dwarf.unit.get_mut(st).set(gimli::DW_AT_decl_file, AttributeValue::FileIndex(Some(util)));
    dwarf.unit.get_mut(root).set(gimli::DW_AT_name, AttributeValue::String(b"main.rs".to_vec()));
    dwarf.unit.get_mut(root).set(gimli::DW_AT_comp_dir, AttributeValue::String(b"/src".to_vec()));
    let mut w = WriteSections::new(EndianVec::new(gimli::LittleEndian));
    dwarf.write(&mut w).expect("cannot write DWARF");
    let s = Sections {
        debug_info: w.debug_info.slice(),
        debug_abbrev: w.debug_abbrev.slice(),
        debug_str: w.debug_str.slice(),
        debug_line: w.debug_line.slice(),
        debug_line_str: w.debug_line_str.slice(),
        big_endian: false,
    };
    let unit = read_unit(&s, 0).ok().expect("unit not read");
    let files = unit.files.as_ref().expect("no file table");
    assert_eq!(unit.first_file_index, 0);
    assert_eq!(files.len(), 2);
    assert_eq!(deflect::lookup::fi_to_string(&unit, 0).ok(), Some("/src/main.rs".to_string()));
    assert_eq!(deflect::lookup::fi_to_string(&unit, 1).ok(), Some("lib/util.rs".to_string()));
    assert!(deflect::lookup::fi_to_string(&unit, 2).is_err());
    let util = unit.entries.iter().find(|d| d.tag == DW_TAG_structure_type).expect("no struct");
    assert_eq!(deflect::lookup::get_file(&unit, util).ok(), Some(Some("lib/util.rs".to_string())));
}

#[test]
fn unit_offsets_follow_headers() {
    let w = written();
    let one = w.debug_info.slice();
    let mut two = one.to_vec();
    two.extend_from_slice(one);
    let sections = |info: &[u8]| -> Option<Vec<usize>> {
        let s = Sections {
            debug_info: info,
            debug_abbrev: w.debug_abbrev.slice(),
            debug_str: w.debug_str.slice(),
            debug_line: w.debug_line.slice(),
            debug_line_str: w.debug_line_str.slice(),
            big_endian: false,
        };
        unit_offsets(&s).ok()
    };
    assert_eq!(sections(&[]), Some(vec![]));
    assert_eq!(sections(&two), Some(vec![0, one.len()]));
    assert_eq!(sections(&one[..one.len() - 1]), None);
}

#[test]
fn unreadable_string_fails_only_where_used() {
    let w = written();
    let s = Sections {
        debug_info: w.debug_info.slice(),
        debug_abbrev: w.debug_abbrev.slice(),
        debug_str: &[],
        debug_line: w.debug_line.slice(),
        debug_line_str: w.debug_line_str.slice(),
        big_endian: false,
    };
    let unit = read_unit(&s, 0).ok().expect("unit not read");
    let foo = unit.entries.iter().position(|d| d.tag == DW_TAG_structure_type).expect("no struct");
    let name = unit.entries[foo].attrs.iter().find(|a| a.name == DW_AT_name).expect("no name");
    assert!(matches!(&name.value, AttrValue::DebugStrRef(_)));
    let base = unit.entries.iter().position(|d| d.tag == deflect::dwarf::DW_TAG_base_type).expect("no base type");
    assert!(Type::from_die(&unit, base).is_ok());
    assert!(Type::from_die(&unit, foo).is_err());
}
