use deflect::dwarf::{
    Attr, AttrValue, Die, FileEntry, Unit, DW_AT_alignment, DW_AT_byte_size, DW_AT_count,
    DW_AT_const_value, DW_AT_data_member_location, DW_AT_decl_file, DW_AT_discr, DW_AT_discr_value,
    DW_AT_name,
    DW_AT_type, DW_TAG_array_type, DW_TAG_base_type, DW_TAG_compile_unit, DW_TAG_enumeration_type,
    DW_TAG_enumerator, DW_TAG_member, DW_TAG_pointer_type, DW_TAG_structure_type,
    DW_TAG_subprogram, DW_TAG_subrange_type, DW_TAG_template_type_parameter, DW_TAG_variant,
    DW_TAG_variant_part,
};
use deflect::schema::{Primitive, Type};
use deflect::value::{Iter, Scalar, Value};
use deflect::ErrorKind;

fn name(s: &str) -> Attr {
    Attr { name: DW_AT_name, value: AttrValue::Str(s.as_bytes().to_vec()) }
}

fn size(n: u64) -> Attr {
    Attr { name: DW_AT_byte_size, value: AttrValue::Udata(n) }
}

fn ty(offset: usize) -> Attr {
    Attr { name: DW_AT_type, value: AttrValue::UnitRef(offset) }
}

fn loc(n: u64) -> Attr {
    Attr { name: DW_AT_data_member_location, value: AttrValue::Udata(n) }
}

fn die(offset: usize, tag: u16, attrs: Vec<Attr>, children: Vec<usize>) -> Die {
    Die { offset, tag, attrs, children }
}

fn unit(entries: Vec<Die>) -> Unit {
    Unit {
        entries,
        files: None,
        first_file_index: 1,
        address_size: 8,
        offset_size: 4,
        version: 4,
        big_endian: false,
    }
}

/// A unit describing `u8`, `struct Foo { a: u8 }`, `struct Pair(u16, u8)`,
/// `char`, `usize`, `*mut char`, `&[char]`, `&str`, `[u16; 3]` and `bool`.
fn sample() -> Unit {
    unit(vec![
        die(0, DW_TAG_compile_unit, vec![], vec![1, 2, 4, 7, 8, 9, 10, 13, 16, 18, 19, 20, 21, 22]),
        // 1: u8 at offset 10
        die(10, DW_TAG_base_type, vec![name("u8"), size(1)], vec![]),
        // 2: struct Foo { a: u8 } at offset 20
        die(20, DW_TAG_structure_type, vec![name("Foo"), size(1)], vec![3]),
        die(25, DW_TAG_member, vec![name("a"), ty(10), loc(0)], vec![]),
        // 4: struct Pair(u16, u8) at offset 30
        die(30, DW_TAG_structure_type, vec![name("Pair"), size(4)], vec![5, 6]),
        die(35, DW_TAG_member, vec![name("__0"), ty(130), loc(0)], vec![]),
        die(38, DW_TAG_member, vec![name("__1"), ty(10), loc(2)], vec![]),
        // 7: char at offset 40
        die(40, DW_TAG_base_type, vec![name("char"), size(4)], vec![]),
        // 8: usize at offset 50
        die(50, DW_TAG_base_type, vec![name("usize"), size(8)], vec![]),
        // 9: *mut char at offset 60
        die(60, DW_TAG_pointer_type, vec![name("*mut char"), ty(40)], vec![]),
        // 10: &[char] at offset 70
        die(70, DW_TAG_structure_type, vec![name("&[char]"), size(16)], vec![11, 12]),
        die(75, DW_TAG_member, vec![name("data_ptr"), ty(60), loc(0)], vec![]),
        die(78, DW_TAG_member, vec![name("length"), ty(50), loc(8)], vec![]),
        // 13: &str at offset 80
        die(80, DW_TAG_structure_type, vec![name("&str"), size(16)], vec![14, 15]),
        die(85, DW_TAG_member, vec![name("data_ptr"), ty(100), loc(0)], vec![]),
        die(88, DW_TAG_member, vec![name("length"), ty(50), loc(8)], vec![]),
        // 16: [u16; 3] at offset 90
        die(90, DW_TAG_array_type, vec![ty(130)], vec![17]),
        die(95, DW_TAG_subrange_type, vec![Attr { name: DW_AT_count, value: AttrValue::Udata(3) }], vec![]),
        // 18: *mut u8 at offset 100
        die(100, DW_TAG_pointer_type, vec![name("*mut u8"), ty(10)], vec![]),
        // 19: bool at offset 110
        die(110, DW_TAG_base_type, vec![name("bool"), size(1)], vec![]),
        // 20: i8 at offset 120
        die(120, DW_TAG_base_type, vec![name("i8"), size(1)], vec![]),
        // 21: u16 at offset 130
        die(130, DW_TAG_base_type, vec![name("u16"), size(2)], vec![]),
        // 22: &u8 at offset 140
        die(140, DW_TAG_pointer_type, vec![name("&u8"), ty(10)], vec![]),
    ])
}

fn type_at(u: &Unit, offset: usize) -> Type<'_> {
    let index = u.entry(offset).ok().expect("no entry");
    Type::from_die(u, index).ok().expect("not a type")
}

fn kind_of(e: deflect::ReflectError) -> ErrorKind {
    e.error
}

#[test]
fn reads_u8() {
    let u = sample();
    let t = type_at(&u, 10);
    let bytes = [42u8, 7];
    let Ok(Value::Atom(a)) = Value::with_type(t, &bytes, 0x1000) else { panic!("not an atom") };
    assert!(a.value() == Scalar::U8(42));
    assert_eq!(a.bytes, &[42u8]);
}

#[test]
fn reads_signed_two_complement() {
    let u = sample();
    let t = type_at(&u, 120);
    let bytes = [0xffu8];
    let Ok(Value::Atom(a)) = Value::with_type(t, &bytes, 0) else { panic!("not an atom") };
    assert!(a.value() == Scalar::I8(-1));
}

#[test]
fn reads_big_endian() {
    let mut u = sample();
    u.big_endian = true;
    let t = type_at(&u, 130);
    let bytes = [0x12u8, 0x34];
    let Ok(Value::Atom(a)) = Value::with_type(t, &bytes, 0) else { panic!("not an atom") };
    assert!(a.value() == Scalar::U16(0x1234));
}

#[test]
fn rejects_invalid_bool() {
    let u = sample();
    let t = type_at(&u, 110);
    let Err(e) = Value::with_type(t, &[2u8], 0) else { panic!("accepted") };
    assert!(matches!(kind_of(e), ErrorKind::InvalidValue));
    let Ok(Value::Atom(a)) = Value::with_type(t, &[1u8], 0) else { panic!("rejected") };
    assert!(a.value() == Scalar::Bool(true));
}

#[test]
fn rejects_invalid_char() {
    let u = sample();
    let t = type_at(&u, 40);
    let surrogate = 0xD800u32.to_le_bytes();
    let Err(e) = Value::with_type(t, &surrogate, 0) else { panic!("accepted") };
    assert!(matches!(kind_of(e), ErrorKind::InvalidValue));
}

#[test]
fn rejects_misaligned_primitive() {
    let u = sample();
    let t = type_at(&u, 130);
    let Err(e) = Value::with_type(t, &[1u8, 0], 1) else { panic!("accepted") };
    assert!(matches!(kind_of(e), ErrorKind::Misaligned));
}

#[test]
fn rejects_short_bytes() {
    let u = sample();
    let t = type_at(&u, 40);
    let Err(e) = Value::with_type(t, &[1u8, 0], 0) else { panic!("accepted") };
    assert!(matches!(kind_of(e), ErrorKind::OutOfBounds));
}

#[test]
fn struct_field_by_name() {
    let u = sample();
    let t = type_at(&u, 20);
    let bytes = [42u8];
    let Ok(Value::Struct(s)) = Value::with_type(t, &bytes, 0x2000) else { panic!("not a struct") };
    let field = s.field(b"a").ok().expect("error").expect("no field a");
    let Ok(Value::Atom(a)) = field.value() else { panic!("not an atom") };
    assert!(a.value() == Scalar::U8(42));
    assert!(s.field(b"b").ok().expect("error").is_none());
}

#[test]
fn tuple_struct_fields_in_order() {
    let u = sample();
    let t = type_at(&u, 30);
    let bytes = [0x34u8, 0x12, 7, 0];
    let Ok(Value::Struct(s)) = Value::with_type(t, &bytes, 0) else { panic!("not a struct") };
    let fields = s.fields().ok().expect("no fields");
    let mut it = fields.iter().ok().expect("no iterator");
    let first = it.try_next().ok().expect("error").expect("no first field");
    let second = it.try_next().ok().expect("error").expect("no second field");
    assert!(it.try_next().ok().expect("error").is_none());
    let Ok(Value::Atom(a)) = first.value() else { panic!("not an atom") };
    assert!(a.value() == Scalar::U16(0x1234));
    let Ok(Value::Atom(b)) = second.value() else { panic!("not an atom") };
    assert!(b.value() == Scalar::U8(7));
    assert_eq!(b.address, 2);
}

#[test]
fn slice_of_chars() {
    let u = sample();
    let t = type_at(&u, 70);
    let mut fat = Vec::new();
    fat.extend_from_slice(&0x5000u64.to_le_bytes());
    fat.extend_from_slice(&3u64.to_le_bytes());
    let Ok(Value::Slice(s)) = Value::with_type(t, &fat, 0x100) else { panic!("not a slice") };
    assert_eq!(s.length().ok(), Some(3));
    let elements = s.elements().ok().expect("no elements");
    assert_eq!(elements.address, 0x5000);
    assert_eq!(elements.elt_size, 4);
    assert_eq!(elements.size, 12);
    let data: Vec<char> = vec!['a', 'é', '🦀'];
    let mut memory = Vec::new();
    for c in &data {
        memory.extend_from_slice(&(*c as u32).to_le_bytes());
    }
    let mut iter = Iter::new(&memory, elements.address, elements.elt_size, elements.elt_type, elements.length);
    let mut collected = Vec::new();
    while let Some(v) = iter.next() {
        let Ok(Value::Atom(a)) = v else { panic!("not an atom") };
        let Scalar::Char(c) = a.value() else { panic!("not a char") };
        collected.push(c);
    }
    assert_eq!(collected, data);
}

#[test]
fn str_value() {
    let u = sample();
    let t = type_at(&u, 80);
    let mut fat = Vec::new();
    fat.extend_from_slice(&0x7000u64.to_le_bytes());
    fat.extend_from_slice(&5u64.to_le_bytes());
    let Ok(Value::Str(s)) = Value::with_type(t, &fat, 0) else { panic!("not a str") };
    assert_eq!(s.length().ok(), Some(5));
    let target = s.data_ptr().ok().expect("no data pointer");
    assert_eq!(target.address, 0x7000);
    assert_eq!(s.value(b"hello").ok(), Some("hello".to_string()));
    let Err(e) = s.value(&[0xffu8, 0xfe]) else { panic!("accepted") };
    assert!(matches!(kind_of(e), ErrorKind::InvalidUtf8));
}

#[test]
fn array_iteration() {
    let u = sample();
    let t = type_at(&u, 90);
    let bytes = [1u8, 0, 2, 0, 3, 0, 9, 9];
    let Ok(Value::Array(a)) = Value::with_type(t, &bytes, 0) else { panic!("not an array") };
    assert_eq!(a.bytes.len(), 6);
    let mut iter = a.iter().ok().expect("no iterator");
    let mut values = Vec::new();
    while let Some(v) = iter.next() {
        let Ok(Value::Atom(x)) = v else { panic!("not an atom") };
        let Scalar::U16(n) = x.value() else { panic!("not a u16") };
        values.push(n);
    }
    assert_eq!(values, vec![1, 2, 3]);
}

#[test]
fn array_too_short() {
    let u = sample();
    let t = type_at(&u, 90);
    let Err(e) = Value::with_type(t, &[1u8, 0, 2], 0) else { panic!("accepted") };
    assert!(matches!(kind_of(e), ErrorKind::OutOfBounds));
}

#[test]
fn shared_reference_target() {
    let u = sample();
    let t = type_at(&u, 140);
    let bytes = 0xdead_beefu64.to_le_bytes();
    let Ok(Value::SharedRef(p)) = Value::with_type(t, &bytes, 0) else { panic!("not a reference") };
    let target = p.deref_target().ok().expect("no target");
    assert_eq!(target.address, 0xdead_beef);
    assert_eq!(target.size, 1);
    let Ok(Value::Atom(a)) = Value::with_type(target.ty, &[9u8], target.address) else { panic!("not an atom") };
    assert!(a.value() == Scalar::U8(9));
}

#[test]
fn unknown_tag_is_unhandled() {
    let u = unit(vec![die(0, DW_TAG_subprogram, vec![], vec![])]);
    let Err(e) = Type::from_die(&u, 0) else { panic!("accepted") };
    assert!(matches!(kind_of(e), ErrorKind::Unhandled(t) if t == DW_TAG_subprogram));
}

#[test]
fn base_type_size_mismatch() {
    let u = unit(vec![die(0, DW_TAG_base_type, vec![name("u32"), size(8)], vec![])]);
    let Err(e) = Type::from_die(&u, 0) else { panic!("accepted") };
    assert!(matches!(kind_of(e), ErrorKind::SizeMismatch(_)));
}

#[test]
fn missing_entry_names_offset() {
    let u = sample();
    let Err(e) = u.entry(999) else { panic!("found") };
    assert!(matches!(kind_of(e), ErrorKind::MissingEntry(m) if m.offset == 999));
}

#[test]
fn primitive_names_and_sizes() {
    assert_eq!(Primitive::U16.name(), "u16");
    assert_eq!(Primitive::U16.size(), 2);
    assert_eq!(Primitive::Char.size(), 4);
    assert!(Primitive::from_name(b"usize") == Some(Primitive::Usize));
    assert!(Primitive::from_name(b"str").is_none());
}

/// A unit describing `enum Opt { None, Some(u8) }` with a `u8` discriminant
/// at offset 0 and the payload at offset 1, and a C-like `enum Color`.
fn enums() -> Unit {
    unit(vec![
        die(0, DW_TAG_compile_unit, vec![], vec![1, 2, 9, 10, 11, 14]),
        // 1: u8
        die(10, DW_TAG_base_type, vec![name("u8"), size(1)], vec![]),
        // 2: Opt
        die(20, DW_TAG_structure_type, vec![name("Opt"), size(2)], vec![3]),
        die(22, DW_TAG_variant_part, vec![Attr { name: DW_AT_discr, value: AttrValue::UnitRef(24) }], vec![4, 5, 7]),
        die(24, DW_TAG_member, vec![ty(10), loc(0)], vec![]),
        die(26, DW_TAG_variant, vec![Attr { name: DW_AT_discr_value, value: AttrValue::Data1(0) }], vec![6]),
        die(28, DW_TAG_member, vec![name("None"), ty(40), loc(0)], vec![]),
        die(30, DW_TAG_variant, vec![Attr { name: DW_AT_discr_value, value: AttrValue::Data1(1) }], vec![8]),
        die(32, DW_TAG_member, vec![name("Some"), ty(50), loc(0)], vec![]),
        // 9: variant struct None at 40
        die(40, DW_TAG_structure_type, vec![name("None"), size(2)], vec![]),
        // 10: variant struct Some at 50
        die(50, DW_TAG_structure_type, vec![name("Some"), size(2)], vec![12]),
        // 11: Color at 60
        die(60, DW_TAG_enumeration_type, vec![name("Color"), size(1), ty(10)], vec![13, 15]),
        die(55, DW_TAG_member, vec![name("__0"), ty(10), loc(1)], vec![]),
        die(62, DW_TAG_enumerator, vec![name("Red"), Attr { name: DW_AT_const_value, value: AttrValue::Data1(0) }], vec![]),
        // 14: a function instance with a template parameter of type Opt
        die(70, DW_TAG_subprogram, vec![name("local_type_id<Opt>")], vec![16]),
        die(64, DW_TAG_enumerator, vec![name("Green"), Attr { name: DW_AT_const_value, value: AttrValue::Data1(1) }], vec![]),
        die(72, DW_TAG_template_type_parameter, vec![name("T"), ty(20)], vec![]),
    ])
}

#[test]
fn enum_selects_variant_by_discriminant() {
    let mut u = enums();
    u.entries[10].children = vec![12];
    let t = type_at(&u, 20);
    let bytes = [1u8, 42];
    let Ok(Value::Enum(e)) = Value::with_type(t, &bytes, 0) else { panic!("not an enum") };
    let variant = e.variant().ok().expect("no variant");
    assert_eq!(variant.schema().index(), 1);
    let name = variant.schema().name().ok().expect("no name");
    assert_eq!(name.to_string().ok(), Some("Some".to_string()));
    let fields = variant.fields().ok().expect("no fields");
    let mut it = fields.iter().ok().expect("no iterator");
    let field = it.try_next().ok().expect("error").expect("no field");
    let Ok(Value::Atom(a)) = field.value() else { panic!("not an atom") };
    assert!(a.value() == Scalar::U8(42));

    let bytes = [0u8, 0];
    let Ok(Value::Enum(e)) = Value::with_type(t, &bytes, 0) else { panic!("not an enum") };
    let variant = e.variant().ok().expect("no variant");
    assert_eq!(variant.schema().index(), 0);
}

#[test]
fn enum_without_match_fails_to_destructure() {
    let u = enums();
    let t = type_at(&u, 20);
    let bytes = [5u8, 0];
    let Ok(Value::Enum(e)) = Value::with_type(t, &bytes, 0) else { panic!("not an enum") };
    let Err(err) = e.variant() else { panic!("destructured") };
    assert!(matches!(kind_of(err), ErrorKind::EnumDestructure));
}

#[test]
fn c_like_enum_variant() {
    let u = enums();
    let t = type_at(&u, 60);
    let Ok(Value::Enum(e)) = Value::with_type(t, &[1u8], 0) else { panic!("not an enum") };
    let variant = e.variant().ok().expect("no variant");
    let name = variant.schema().name().ok().expect("no name");
    assert_eq!(name.to_string().ok(), Some("Green".to_string()));
}

#[test]
fn instance_type_of_function() {
    let u = enums();
    assert_eq!(deflect::lookup::instance_type(&u, 70).ok(), Some(20));
    let Err(e) = deflect::lookup::instance_type(&u, 10) else { panic!("found") };
    assert!(matches!(kind_of(e), ErrorKind::MissingChild(c) if c.tag == DW_TAG_template_type_parameter));
}

#[test]
fn decl_file_path() {
    let mut u = sample();
    u.files = Some(vec![
        FileEntry { directory: Some(b"/src".to_vec()), path: b"main.rs".to_vec() },
        FileEntry { directory: None, path: b"lib.rs".to_vec() },
    ]);
    assert_eq!(deflect::lookup::fi_to_string(&u, 1).ok(), Some("/src/main.rs".to_string()));
    assert_eq!(deflect::lookup::fi_to_string(&u, 2).ok(), Some("lib.rs".to_string()));
    let Err(e) = deflect::lookup::fi_to_string(&u, 3) else { panic!("found") };
    assert!(matches!(kind_of(e), ErrorKind::FileIndexing));
    let d = die(0, DW_TAG_structure_type, vec![Attr { name: DW_AT_decl_file, value: AttrValue::FileIndex(2) }], vec![]);
    assert_eq!(deflect::lookup::get_file(&u, &d).ok(), Some(Some("lib.rs".to_string())));
}

#[test]
fn alignment_attribute() {
    let d = die(0, DW_TAG_structure_type, vec![Attr { name: DW_AT_alignment, value: AttrValue::Data1(8) }], vec![]);
    assert_eq!(deflect::lookup::get_align(&d).ok(), Some(Some(8)));
    let d = die(0, DW_TAG_structure_type, vec![Attr { name: DW_AT_alignment, value: AttrValue::Flag(true) }], vec![]);
    let Err(e) = deflect::lookup::get_align(&d) else { panic!("accepted") };
    assert!(matches!(kind_of(e), ErrorKind::InvalidAttr(a) if a.attr == DW_AT_alignment));
}

#[test]
fn constant_names() {
    assert_eq!(deflect::describe::dw_tag_to_string(DW_TAG_base_type), "DW_TAG_base_type");
    assert_eq!(deflect::describe::dw_at_to_string(DW_AT_name), "DW_AT_name");
    assert_eq!(deflect::describe::dw_ate_to_string(0x07), "DW_ATE_unsigned");
    assert_eq!(deflect::describe::dw_tag_to_string(0x7777), "30583");
    assert_eq!(deflect::describe::dw_ate_to_string(0), "0");
    assert_eq!(deflect::describe::dw_ate_to_string(0x7f), "127");
}

#[test]
fn check_tag_mismatch() {
    let d = die(0, DW_TAG_member, vec![], vec![]);
    let Err(e) = deflect::lookup::check_tag(&d, DW_TAG_pointer_type) else { panic!("accepted") };
    assert!(matches!(kind_of(e), ErrorKind::TagMismatch(t) if t.expected == DW_TAG_pointer_type && t.actual == DW_TAG_member));
    let _ = DW_TAG_enumeration_type;
}

#[test]
fn downcast_names_value_kind() {
    let u = sample();
    let t = type_at(&u, 10);
    let bytes = [42u8];
    let v = Value::with_type(t, &bytes, 0x1000).ok().expect("not read");
    let Err(e) = deflect::value::BoxedDyn::vtable_entries(&v) else { panic!("read an atom as a vtable") };
    let ErrorKind::Downcast(d) = kind_of(e) else { panic!("not a downcast error") };
    assert_eq!(d.value, "Atom");
    assert_eq!(d.target, "Array");
}

#[test]
fn looping_location_expression_fails() {
    let u = sample();
    // DW_OP_skip -3: jumps back onto itself.
    let o = deflect::schema::Offset { dwarf: &u, inner: deflect::schema::offset::OffsetInner::Expression(vec![0x2f, 0xfd, 0xff]) };
    let Err(e) = o.address(0x1000) else { panic!("an endless expression gave an address") };
    assert!(matches!(kind_of(e), ErrorKind::Gimli(_)));
}

#[test]
fn location_expression_needs_known_address_size() {
    let mut u = sample();
    // DW_OP_plus_uconst 4.
    let expr = vec![0x23u8, 0x04];
    let o = deflect::schema::Offset { dwarf: &u, inner: deflect::schema::offset::OffsetInner::Expression(expr.clone()) };
    assert_eq!(o.address(0x1000).ok(), Some(0x1004));
    u.address_size = 9;
    let o = deflect::schema::Offset { dwarf: &u, inner: deflect::schema::offset::OffsetInner::Expression(expr) };
    let Err(e) = o.address(0x1000) else { panic!("read with an address size of 9") };
    assert!(matches!(kind_of(e), ErrorKind::UnsupportedLocation));
}

/// A unit with a `Box` struct whose second member is `foo`, a pointer type
/// of an unknown name, a slice struct whose name does not close, and a
/// boxed trait object.
fn names() -> Unit {
    unit(vec![
        die(0, DW_TAG_compile_unit, vec![], vec![1, 2, 5, 6, 9, 12]),
        die(10, DW_TAG_base_type, vec![name("usize"), size(8)], vec![]),
        // 2: Box with members data_ptr and foo
        die(20, DW_TAG_structure_type, vec![name("alloc::boxed::Box<[u8]>"), size(16)], vec![3, 4]),
        die(22, DW_TAG_member, vec![name("data_ptr"), ty(10), loc(0)], vec![]),
        die(24, DW_TAG_member, vec![name("foo"), ty(10), loc(8)], vec![]),
        // 5: a pointer named oddly
        die(30, DW_TAG_pointer_type, vec![name("weird u8"), ty(10)], vec![]),
        // 6: a slice whose name does not close
        die(40, DW_TAG_structure_type, vec![name("&[u8"), size(16)], vec![7, 8]),
        die(42, DW_TAG_member, vec![name("data_ptr"), ty(10), loc(0)], vec![]),
        die(44, DW_TAG_member, vec![name("length"), ty(10), loc(8)], vec![]),
        // 9: Box<dyn Trait>
        die(50, DW_TAG_structure_type, vec![name("alloc::boxed::Box<dyn Foo>"), size(16)], vec![10, 11]),
        die(52, DW_TAG_member, vec![name("pointer"), ty(10), loc(0)], vec![]),
        die(54, DW_TAG_member, vec![name("vtable"), ty(10), loc(8)], vec![]),
        die(60, DW_TAG_base_type, vec![name("u8"), size(1)], vec![]),
    ])
}

#[test]
fn box_with_unknown_metadata_is_a_name_mismatch() {
    let u = names();
    let Err(e) = Type::from_die(&u, 2) else { panic!("read an odd box") };
    let ErrorKind::NameMismatch(m) = kind_of(e) else { panic!("not a name mismatch") };
    assert_eq!(m.actual, "foo");
}

#[test]
fn pointer_of_unknown_name_is_invalid() {
    let u = names();
    let Err(e) = Type::from_die(&u, 5) else { panic!("read an odd pointer") };
    assert!(matches!(kind_of(e), ErrorKind::InvalidAttr(a) if a.attr == DW_AT_name));
}

#[test]
fn unclosed_slice_name_is_a_name_mismatch() {
    let u = names();
    let Err(e) = Type::from_die(&u, 6) else { panic!("read an unclosed slice") };
    let ErrorKind::NameMismatch(m) = kind_of(e) else { panic!("not a name mismatch") };
    assert_eq!(m.actual, "&[u8");
}

#[test]
fn boxed_dyn_members_by_position() {
    let u = names();
    let Ok(Type::BoxedDyn(b)) = Type::from_die(&u, 9) else { panic!("not a boxed trait object") };
    assert_eq!(b.pointer().entry, 10);
    assert_eq!(b.vtable().entry, 11);
}

#[test]
fn array_size_is_its_bytes() {
    let u = sample();
    let t = type_at(&u, 90);
    let Type::Array(a) = t else { panic!("not an array") };
    assert_eq!(t.size().ok(), Some(6));
    assert_eq!(a.bytes().ok(), Some(6));
}

#[test]
fn variants_restart_and_stay_at_end() {
    let u = enums();
    let Ok(Type::Enum(e)) = Type::from_die(&u, 2) else { panic!("not an enum") };
    let vs = e.variants().ok().expect("no variants");
    let drain = || {
        let mut it = vs.iter().ok().expect("no iterator");
        let mut seen = Vec::new();
        while let Some(v) = it.try_next().ok().expect("error") {
            seen.push((v.entry, v.index));
        }
        assert!(it.try_next().ok().expect("error").is_none());
        assert!(it.try_next().ok().expect("error").is_none());
        seen
    };
    let first = drain();
    assert_eq!(first, vec![(9, 0), (10, 1)]);
    assert_eq!(drain(), first);
}

#[test]
fn no_debug_info_in_garbage() {
    let Err(e) = deflect::locate::debug_info_for(&[1u8, 2, 3], 0x1000) else { panic!("found debug info") };
    assert!(matches!(kind_of(e), ErrorKind::MissingDebugInfo));
}

/// `#[repr(u64)] enum TestCLikeEnum { A = 400, B, C }`, as rustc describes
/// it: enumerators with constant values.
fn clike() -> Unit {
    let konst = |n: u64| Attr { name: DW_AT_const_value, value: AttrValue::Udata(n) };
    unit(vec![
        die(0, DW_TAG_compile_unit, vec![], vec![1, 2]),
        die(10, DW_TAG_base_type, vec![name("u64"), size(8)], vec![]),
        die(20, DW_TAG_enumeration_type, vec![name("TestCLikeEnum"), size(8), ty(10)], vec![3, 4, 5]),
        die(22, DW_TAG_enumerator, vec![name("A"), konst(400)], vec![]),
        die(24, DW_TAG_enumerator, vec![name("B"), konst(401)], vec![]),
        die(26, DW_TAG_enumerator, vec![name("C"), konst(402)], vec![]),
    ])
}

#[test]
fn clike_enumerators_carry_their_values() {
    let u = clike();
    let Ok(Type::Enum(e)) = Type::from_die(&u, 2) else { panic!("not an enum") };
    let vs = e.variants().ok().expect("no variants");
    let mut it = vs.iter().ok().expect("no iterator");
    for (n, d) in [("A", 400u64), ("B", 401), ("C", 402)] {
        let v = it.try_next().ok().expect("error").expect("too few variants");
        assert_eq!(v.name().ok().expect("no name").to_string().ok(), Some(n.to_string()));
        assert!(*v.discriminant_value() == Some(deflect::schema::Data::u64(d)));
    }
    assert!(it.try_next().ok().expect("error").is_none());
}

#[test]
fn clike_enum_value_selects_its_variant() {
    let u = clike();
    let t = type_at(&u, 20);
    let bytes = 401u64.to_le_bytes();
    let Ok(Value::Enum(e)) = Value::with_type(t, &bytes, 0x1000) else { panic!("not an enum") };
    let variant = e.variant().ok().expect("no variant");
    let name = variant.schema().name().ok().expect("no name");
    assert_eq!(name.to_string().ok(), Some("B".to_string()));
}

#[test]
fn enum_without_discriminant_reference_is_missing_an_attribute() {
    let u = unit(vec![
        die(0, DW_TAG_compile_unit, vec![], vec![1]),
        die(10, DW_TAG_structure_type, vec![name("Weird"), size(1)], vec![2]),
        die(12, DW_TAG_variant_part, vec![], vec![]),
    ]);
    let Err(e) = Type::from_die(&u, 1) else { panic!("read an enum without a discriminant") };
    assert!(matches!(kind_of(e), ErrorKind::MissingAttr(a) if a.attr == DW_AT_discr));
}

#[test]
fn slice_element_error_comes_back_unchanged() {
    let u = unit(vec![
        die(0, DW_TAG_compile_unit, vec![], vec![1, 4]),
        die(10, DW_TAG_structure_type, vec![name("&[u8]"), size(16)], vec![2, 3]),
        // a data pointer without a type
        die(12, DW_TAG_member, vec![name("data_ptr"), loc(0)], vec![]),
        die(14, DW_TAG_member, vec![name("length"), ty(20), loc(8)], vec![]),
        die(20, DW_TAG_base_type, vec![name("usize"), size(8)], vec![]),
    ]);
    let Ok(Type::Slice(s)) = Type::from_die(&u, 1) else { panic!("not a slice") };
    let Err(direct) = s.data_ptr().ty() else { panic!("typed a field without a type") };
    let Err(through) = s.elt() else { panic!("typed an element without a type") };
    let (ErrorKind::MissingAttr(a), ErrorKind::MissingAttr(b)) = (kind_of(direct), kind_of(through)) else {
        panic!("not a missing attribute")
    };
    assert_eq!(a.attr, DW_AT_type);
    assert_eq!(b.attr, DW_AT_type);
}
