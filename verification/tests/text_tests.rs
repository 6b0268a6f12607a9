use flatrecord::decimal::{format_decimal, parse_decimal, MAGNITUDE_LIMIT};
use flatrecord::text::{is_blank_char, split_words};

fn strings(words: &[&str]) -> Vec<String> {
    words.iter().map(|w| w.to_string()).collect()
}

#[test]
fn split_words_on_single_spaces() {
    assert_eq!(split_words("1 Potion 0"), strings(&["1", "Potion", "0"]));
}

#[test]
fn split_words_ignores_runs_and_edges() {
    assert_eq!(split_words("  a \t\tb\n c  "), strings(&["a", "b", "c"]));
}

#[test]
fn split_words_of_empty_and_blank_text() {
    assert_eq!(split_words(""), Vec::<String>::new());
    assert_eq!(split_words(" \t \n"), Vec::<String>::new());
}

#[test]
fn split_words_single_word() {
    assert_eq!(split_words("word"), strings(&["word"]));
}

#[test]
fn split_words_agrees_with_std() {
    let samples = [
        "",
        " ",
        "a",
        " a",
        "a ",
        "a b",
        "a\u{a0}b",
        "a\u{3000}b\u{2003}c",
        "x\u{85}y\u{1680}z",
        "\u{2028}p\u{2029}q\u{202f}r\u{205f}s",
        "h\u{e9}llo w\u{f6}rld \u{8d8a}",
        "a\u{200b}b",
        "tab\there\rcr\u{b}vt\u{c}ff",
    ];
    for s in samples.iter() {
        let expected: Vec<String> = s.split_whitespace().map(|w| w.to_string()).collect();
        assert_eq!(split_words(s), expected);
    }
}

#[test]
fn blank_chars_are_those_of_std() {
    let mut c: u32 = 0;
    while c <= 0x11000 {
        if let Some(ch) = char::from_u32(c) {
            assert_eq!(is_blank_char(ch), ch.is_whitespace());
        }
        c += 1;
    }
}

#[test]
fn parse_decimal_plain_numbers() {
    assert_eq!(parse_decimal("0", false, 0, 255), Some(0));
    assert_eq!(parse_decimal("255", false, 0, 255), Some(255));
    assert_eq!(parse_decimal("007", false, 0, 255), Some(7));
    assert_eq!(parse_decimal("+12", false, 0, 255), Some(12));
}

#[test]
fn parse_decimal_out_of_range() {
    assert_eq!(parse_decimal("256", false, 0, 255), None);
    assert_eq!(parse_decimal("-1", true, 0, 255), None);
    assert_eq!(parse_decimal("99999999999999999999999999999999999999999999", false, 0, 255), None);
}

#[test]
fn parse_decimal_signs() {
    assert_eq!(parse_decimal("-5", true, -10, 10), Some(-5));
    assert_eq!(parse_decimal("-5", false, -10, 10), None);
    assert_eq!(parse_decimal("-0", true, -10, 10), Some(0));
    assert_eq!(parse_decimal("+", true, -10, 10), None);
    assert_eq!(parse_decimal("-", true, -10, 10), None);
    assert_eq!(parse_decimal("+-5", true, -10, 10), None);
    assert_eq!(parse_decimal("5-", true, -10, 10), None);
}

#[test]
fn parse_decimal_rejects_other_text() {
    assert_eq!(parse_decimal("", false, 0, 255), None);
    assert_eq!(parse_decimal("abc", false, 0, 255), None);
    assert_eq!(parse_decimal("1a", false, 0, 255), None);
    assert_eq!(parse_decimal(" 1", false, 0, 255), None);
    assert_eq!(parse_decimal("1 ", false, 0, 255), None);
    assert_eq!(parse_decimal("1_0", false, 0, 255), None);
    assert_eq!(parse_decimal("\u{664}", false, 0, 255), None);
}

#[test]
fn parse_decimal_at_the_limit() {
    assert_eq!(
        parse_decimal("18446744073709551615", false, 0, u64::MAX as i128),
        Some(u64::MAX as i128)
    );
    assert_eq!(parse_decimal("18446744073709551616", false, 0, u64::MAX as i128), None);
    assert_eq!(
        parse_decimal("18446744073709551616", false, 0, MAGNITUDE_LIMIT),
        Some(MAGNITUDE_LIMIT)
    );
    assert_eq!(parse_decimal("18446744073709551617", false, 0, MAGNITUDE_LIMIT), None);
    assert_eq!(
        parse_decimal("-18446744073709551616", true, -MAGNITUDE_LIMIT, 0),
        Some(-MAGNITUDE_LIMIT)
    );
}

#[test]
fn parse_decimal_agrees_with_std() {
    let samples = [
        "0", "1", "9", "10", "255", "256", "65535", "65536", "4294967295", "4294967296", "-1",
        "+1", "-0", "+0", "", "+", "-", "a", "1a", "a1", "0x10", "00000000000000000000001",
        "2147483647", "2147483648", "-2147483648", "-2147483649", "18446744073709551615",
        "18446744073709551616", "1.5", "1e3", " 1", "--1", "++1",
    ];
    for s in samples.iter() {
        assert_eq!(parse_decimal(s, false, 0, 255), s.parse::<u8>().ok().map(|v| v as i128));
        assert_eq!(parse_decimal(s, false, 0, 65535), s.parse::<u16>().ok().map(|v| v as i128));
        assert_eq!(
            parse_decimal(s, false, 0, u32::MAX as i128),
            s.parse::<u32>().ok().map(|v| v as i128)
        );
        assert_eq!(
            parse_decimal(s, false, 0, u64::MAX as i128),
            s.parse::<u64>().ok().map(|v| v as i128)
        );
        assert_eq!(
            parse_decimal(s, true, i32::MIN as i128, i32::MAX as i128),
            s.parse::<i32>().ok().map(|v| v as i128)
        );
    }
}

#[test]
fn format_decimal_values() {
    assert_eq!(format_decimal(0), "0");
    assert_eq!(format_decimal(7), "7");
    assert_eq!(format_decimal(10), "10");
    assert_eq!(format_decimal(1234567890), "1234567890");
    assert_eq!(format_decimal(-1), "-1");
    assert_eq!(format_decimal(-2147483648), "-2147483648");
    assert_eq!(format_decimal(u64::MAX as i128), "18446744073709551615");
    assert_eq!(format_decimal(i128::MAX), i128::MAX.to_string());
    assert_eq!(format_decimal(i128::MIN), i128::MIN.to_string());
}

#[test]
fn format_then_parse_gives_the_number_back() {
    let samples: [i128; 9] = [0, 1, 9, 10, 99, 100, 255, 65535, 4294967295];
    for v in samples.iter() {
        assert_eq!(parse_decimal(&format_decimal(*v), false, 0, u64::MAX as i128), Some(*v));
    }
    let signed: [i128; 5] = [-2147483648, -1, 0, 1, 2147483647];
    for v in signed.iter() {
        assert_eq!(
            parse_decimal(&format_decimal(*v), true, i32::MIN as i128, i32::MAX as i128),
            Some(*v)
        );
    }
}
