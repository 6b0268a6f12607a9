use flatrecord::parser::{FieldKind, FieldValue, KeyedField};
use flatrecord::serializer::{
    write_line, write_section, FieldText, IniEntrySerializer, SpaceSeparatedSerializer,
};

#[test]
fn new_line_serializer_is_empty() {
    assert_eq!(SpaceSeparatedSerializer::new().get_buffer(), "");
}

#[test]
fn push_value_separates_with_one_space() {
    let mut s = SpaceSeparatedSerializer::new();
    s.push_value(&1u32);
    s.push_value(&"Potion".to_string());
    s.push_value(&0u8);
    s.push_value(&65535u16);
    s.push_value(&-7i32);
    s.push_value(&18446744073709551615u64);
    assert_eq!(s.get_buffer(), "1 Potion 0 65535 -7 18446744073709551615");
}

#[test]
fn push_value_first_has_no_leading_space() {
    let mut s = SpaceSeparatedSerializer::new();
    s.push_value(&5u8);
    assert_eq!(s.get_buffer(), "5");
}

#[test]
fn push_value_emits_text_verbatim() {
    let mut s = SpaceSeparatedSerializer::new();
    s.push_value(&1u8);
    s.push_value(&"Heals 50 HP".to_string());
    assert_eq!(s.get_buffer(), "1 Heals 50 HP");
}

#[test]
fn push_value_of_empty_text_on_empty_line() {
    let mut s = SpaceSeparatedSerializer::new();
    s.push_value(&String::new());
    s.push_value(&3u8);
    assert_eq!(s.get_buffer(), "3");
    s.push_value(&String::new());
    assert_eq!(s.get_buffer(), "3 ");
}

#[test]
fn serializing_twice_gives_the_same_bytes() {
    let values = vec![FieldValue::Number(12), FieldValue::Text("x".to_string())];
    assert_eq!(write_line(&values), write_line(&values));
    assert_eq!(write_line(&values), "12 x");
}

#[test]
fn write_line_of_no_values() {
    assert_eq!(write_line(&Vec::new()), "");
}

#[test]
fn to_text_of_each_type() {
    assert_eq!(200u8.to_text(), "200");
    assert_eq!(60000u16.to_text(), "60000");
    assert_eq!(4000000000u32.to_text(), "4000000000");
    assert_eq!(u64::MAX.to_text(), "18446744073709551615");
    assert_eq!(i32::MIN.to_text(), "-2147483648");
    assert_eq!("abc".to_string().to_text(), "abc");
    assert_eq!(FieldValue::Number(-3).to_text(), "-3");
    assert_eq!(FieldValue::Text("t".to_string()).to_text(), "t");
}

#[test]
fn new_section_serializer_is_empty() {
    assert_eq!(IniEntrySerializer::new().get_buffer(), "");
}

#[test]
fn add_section_writes_header() {
    let mut s = IniEntrySerializer::new();
    s.add_section(&"Pheasant".to_string());
    assert_eq!(s.get_buffer(), "[Pheasant]");
}

#[test]
fn add_entry_writes_lines_without_final_line_end() {
    let mut s = IniEntrySerializer::new();
    s.add_section(&"Pheasant".to_string());
    s.add_entry("SizeAdd", &2u8);
    s.add_entry("TypeID", &"bird".to_string());
    assert_eq!(s.get_buffer(), "[Pheasant]\nSizeAdd=2\nTypeID=bird");
}

#[test]
fn add_entry_on_empty_text_has_no_line_break() {
    let mut s = IniEntrySerializer::new();
    s.add_entry("Level", &3u16);
    assert_eq!(s.get_buffer(), "Level=3");
}

#[test]
fn write_section_in_layout_order() {
    let layout = vec![
        KeyedField { key: "Level", kind: FieldKind::U8 },
        KeyedField { key: "Name", kind: FieldKind::Text },
    ];
    let values = vec![FieldValue::Number(3), FieldValue::Text("Gnawer".to_string())];
    assert_eq!(
        write_section(&"Rat".to_string(), &layout, &values),
        "[Rat]\nLevel=3\nName=Gnawer"
    );
    assert_eq!(write_section(&"Rat".to_string(), &Vec::new(), &Vec::new()), "[Rat]");
}
