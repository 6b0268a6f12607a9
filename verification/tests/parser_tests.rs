use flatrecord::parser::{
    get_space_separated_values, read_line, read_tokens, CastError, FieldCast, FieldKind,
    FieldValue, IniEntryParser, IniEntryParserError, KeyedField, PositionalField,
    SpaceSeparatedParserError, StringParserResult,
};
use ini::Ini;

fn token(text: &str) -> StringParserResult {
    StringParserResult { value: text.to_string() }
}

fn two_fields() -> Vec<PositionalField> {
    vec![
        PositionalField { index: 2, kind: FieldKind::U16, name: "second" },
        PositionalField { index: 0, kind: FieldKind::U8, name: "first" },
        PositionalField { index: 1, kind: FieldKind::Text, name: "label" },
    ]
}

#[test]
fn tokens_keep_their_order() {
    let tokens = get_space_separated_values(&"10  twenty\t30".to_string());
    assert_eq!(tokens, vec![token("10"), token("twenty"), token("30")]);
}

#[test]
fn tokens_of_blank_line_are_none() {
    assert_eq!(get_space_separated_values(&"   ".to_string()), Vec::<StringParserResult>::new());
}

#[test]
fn get_value_is_the_text() {
    assert_eq!(token("Potion").get_value(), "Potion");
}

#[test]
fn get_value_as_integer_types() {
    assert_eq!(token("200").get_value_as::<u8>(), Ok(200u8));
    assert_eq!(token("256").get_value_as::<u8>(), Err(CastError));
    assert_eq!(token("65535").get_value_as::<u16>(), Ok(65535u16));
    assert_eq!(token("65536").get_value_as::<u16>(), Err(CastError));
    assert_eq!(token("4294967295").get_value_as::<u32>(), Ok(4294967295u32));
    assert_eq!(token("4294967296").get_value_as::<u32>(), Err(CastError));
    assert_eq!(token("18446744073709551615").get_value_as::<u64>(), Ok(u64::MAX));
    assert_eq!(token("18446744073709551616").get_value_as::<u64>(), Err(CastError));
    assert_eq!(token("-2147483648").get_value_as::<i32>(), Ok(i32::MIN));
    assert_eq!(token("2147483648").get_value_as::<i32>(), Err(CastError));
}

#[test]
fn get_value_as_rejects_text() {
    assert_eq!(token("Potion").get_value_as::<u32>(), Err(CastError));
    assert_eq!(token("-1").get_value_as::<u8>(), Err(CastError));
    assert_eq!(token("1.0").get_value_as::<u16>(), Err(CastError));
}

#[test]
fn cast_text_is_what_get_value_as_uses() {
    assert_eq!(u8::cast_text("12"), Some(12));
    assert_eq!(u8::cast_text("x"), None);
    assert_eq!(i32::cast_text("-12"), Some(-12));
}

#[test]
fn field_kind_reads_each_type() {
    assert_eq!(FieldKind::U8.read(&token("7")), Some(FieldValue::Number(7)));
    assert_eq!(FieldKind::U8.read(&token("300")), None);
    assert_eq!(FieldKind::U16.read(&token("300")), Some(FieldValue::Number(300)));
    assert_eq!(FieldKind::U32.read(&token("70000")), Some(FieldValue::Number(70000)));
    assert_eq!(FieldKind::U64.read(&token("5000000000")), Some(FieldValue::Number(5000000000)));
    assert_eq!(FieldKind::I32.read(&token("-3")), Some(FieldValue::Number(-3)));
    assert_eq!(FieldKind::Text.read(&token("abc")), Some(FieldValue::Text("abc".to_string())));
    assert_eq!(FieldKind::Text.read(&token("12")), Some(FieldValue::Text("12".to_string())));
}

#[test]
fn read_line_gives_values_in_layout_order() {
    let r = read_line(&"1 name 300".to_string(), &two_fields(), 3);
    assert_eq!(
        r,
        Ok(vec![
            FieldValue::Number(300),
            FieldValue::Number(1),
            FieldValue::Text("name".to_string()),
        ])
    );
}

#[test]
fn read_line_accepts_surplus_tokens() {
    let r = read_line(&"1 name 300 extra tokens".to_string(), &two_fields(), 3);
    assert!(r.is_ok());
}

#[test]
fn read_line_with_one_token_too_few() {
    let r = read_line(&"1 name".to_string(), &two_fields(), 3);
    assert_eq!(r, Err(SpaceSeparatedParserError::MissingAtIndex(2)));
}

#[test]
fn read_line_of_empty_line() {
    let r = read_line(&"".to_string(), &two_fields(), 3);
    assert_eq!(r, Err(SpaceSeparatedParserError::MissingAtIndex(0)));
}

#[test]
fn read_line_reports_first_failure_in_read_order() {
    let r = read_line(&"x name y".to_string(), &two_fields(), 3);
    assert_eq!(r, Err(SpaceSeparatedParserError::InvalidCast("second".to_string())));
    let r = read_line(&"x name 3".to_string(), &two_fields(), 3);
    assert_eq!(r, Err(SpaceSeparatedParserError::InvalidCast("first".to_string())));
}

#[test]
fn read_tokens_checks_arity_before_casts() {
    let tokens = vec![token("x"), token("y")];
    let r = read_tokens(&tokens, &two_fields(), 3);
    assert_eq!(r, Err(SpaceSeparatedParserError::MissingAtIndex(2)));
}

#[test]
fn read_tokens_may_read_one_token_twice() {
    let layout = vec![
        PositionalField { index: 0, kind: FieldKind::U8, name: "number" },
        PositionalField { index: 0, kind: FieldKind::Text, name: "text" },
    ];
    let r = read_tokens(&vec![token("12")], &layout, 1);
    assert_eq!(r, Ok(vec![FieldValue::Number(12), FieldValue::Text("12".to_string())]));
}

#[test]
fn parser_takes_first_headed_section() {
    let parser = IniEntryParser::new_from_str("[Rat]\nLevel=3\n[Bat]\nLevel=4\n".to_string());
    let parser = parser.unwrap();
    assert_eq!(parser.get_section(), "Rat");
    assert_eq!(parser.get_entry("Level"), Ok("3".to_string()));
}

#[test]
fn parser_passes_over_general_section() {
    let parser = IniEntryParser::new_from_str("Level=1\n[Rat]\nLevel=3\n".to_string()).unwrap();
    assert_eq!(parser.get_section(), "Rat");
    assert_eq!(parser.get_entry_as::<u8>("Level"), Ok(3u8));
}

#[test]
fn parser_without_section_header() {
    let r = IniEntryParser::new_from_str("".to_string());
    assert_eq!(r.err(), Some(IniEntryParserError::InvalidIniNoSection));
    let r = IniEntryParser::new_from_str("Level=3\nName=Rat\n".to_string());
    assert_eq!(r.err(), Some(IniEntryParserError::InvalidIniNoSection));
}

#[test]
fn parser_of_malformed_text() {
    let r = IniEntryParser::new_from_str("[Rat\nLevel=3\n".to_string());
    assert_eq!(r.err(), Some(IniEntryParserError::InvalidIni));
    let r = IniEntryParser::new_from_str("[Rat]\nLevel\n".to_string());
    assert_eq!(r.err(), Some(IniEntryParserError::InvalidIni));
}

#[test]
fn from_document_maps_each_outcome() {
    let r = IniEntryParser::from_document(Ini::load_from_str("[Rat"));
    assert_eq!(r.err(), Some(IniEntryParserError::InvalidIni));
    let r = IniEntryParser::from_document(Ok(Ini::new()));
    assert_eq!(r.err(), Some(IniEntryParserError::InvalidIniNoSection));
    let mut document = Ini::new();
    document.with_section(Some("Rat")).set("Level", "3");
    let parser = IniEntryParser::from_document(Ok(document)).unwrap();
    assert_eq!(parser.get_section(), "Rat");
    assert_eq!(parser.get_entry("Level"), Ok("3".to_string()));
}

#[test]
fn get_entry_is_case_sensitive_and_exact() {
    let parser = IniEntryParser::new_from_str("[Rat]\nLevel=3\n".to_string()).unwrap();
    assert_eq!(parser.get_entry("level"), Err(IniEntryParserError::MissingKey("level".to_string())));
    assert_eq!(parser.get_entry("Leve"), Err(IniEntryParserError::MissingKey("Leve".to_string())));
    assert_eq!(parser.get_entry("Level"), Ok("3".to_string()));
}

#[test]
fn get_entry_reads_only_the_chosen_section() {
    let parser =
        IniEntryParser::new_from_str("[Rat]\nLevel=3\n[Bat]\nWings=2\n".to_string()).unwrap();
    assert_eq!(parser.get_entry("Wings"), Err(IniEntryParserError::MissingKey("Wings".to_string())));
}

#[test]
fn get_entry_takes_first_of_repeated_key() {
    let parser = IniEntryParser::new_from_str("[Rat]\nLevel=3\nLevel=4\n".to_string()).unwrap();
    assert_eq!(parser.get_entry("Level"), Ok("3".to_string()));
}

#[test]
fn get_entry_as_casts_or_names_the_key() {
    let parser =
        IniEntryParser::new_from_str("[Rat]\nLevel=3\nName=Gnawer\nBig=70000\n".to_string())
            .unwrap();
    assert_eq!(parser.get_entry_as::<u16>("Level"), Ok(3u16));
    assert_eq!(parser.get_entry_as::<u32>("Big"), Ok(70000u32));
    assert_eq!(
        parser.get_entry_as::<u16>("Big"),
        Err(IniEntryParserError::InvalidCast("Big".to_string()))
    );
    assert_eq!(
        parser.get_entry_as::<u8>("Name"),
        Err(IniEntryParserError::InvalidCast("Name".to_string()))
    );
    assert_eq!(
        parser.get_entry_as::<u8>("Absent"),
        Err(IniEntryParserError::MissingKey("Absent".to_string()))
    );
}

#[test]
fn get_section_as_casts_the_name() {
    let parser = IniEntryParser::new_from_str("[42]\nLevel=3\n".to_string()).unwrap();
    assert_eq!(parser.get_section_as::<u8>(), Ok(42u8));
    let parser = IniEntryParser::new_from_str("[Rat]\nLevel=3\n".to_string()).unwrap();
    assert_eq!(parser.get_section_as::<u8>(), Err(CastError));
}

#[test]
fn read_entries_in_layout_order() {
    let layout = vec![
        KeyedField { key: "Level", kind: FieldKind::U8 },
        KeyedField { key: "Name", kind: FieldKind::Text },
    ];
    let parser = IniEntryParser::new_from_str("[Rat]\nName=Gnawer\nLevel=3\n".to_string()).unwrap();
    assert_eq!(
        parser.read_entries(&layout),
        Ok(vec![FieldValue::Number(3), FieldValue::Text("Gnawer".to_string())])
    );
    assert_eq!(parser.read_entry(&layout[0]), Ok(FieldValue::Number(3)));
}

#[test]
fn read_entries_reports_first_failure_in_layout_order() {
    let layout = vec![
        KeyedField { key: "Level", kind: FieldKind::U8 },
        KeyedField { key: "Name", kind: FieldKind::Text },
        KeyedField { key: "Life", kind: FieldKind::U32 },
    ];
    let parser = IniEntryParser::new_from_str("[Rat]\nLife=x\nLevel=3\n".to_string()).unwrap();
    assert_eq!(
        parser.read_entries(&layout),
        Err(IniEntryParserError::MissingKey("Name".to_string()))
    );
    let parser =
        IniEntryParser::new_from_str("[Rat]\nLife=x\nLevel=300\nName=a\n".to_string()).unwrap();
    assert_eq!(
        parser.read_entries(&layout),
        Err(IniEntryParserError::InvalidCast("Level".to_string()))
    );
    let parser =
        IniEntryParser::new_from_str("[Rat]\nLife=x\nLevel=30\nName=a\n".to_string()).unwrap();
    assert_eq!(
        parser.read_entries(&layout),
        Err(IniEntryParserError::InvalidCast("Life".to_string()))
    );
}
