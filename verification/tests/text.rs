use person_service::text::{compare_text, is_blank, parse_unsigned, push_decimal, same_text, white_space};

#[test]
fn white_space_is_what_char_is_whitespace_says() {
    for code in 0..=0x10FFFFu32 {
        if let Some(c) = char::from_u32(code) {
            assert_eq!(white_space(c), c.is_whitespace(), "{code:#x}");
        }
    }
}

#[test]
fn blank_is_what_trim_is_empty_says() {
    for sample in ["", " ", "\t\n", "a", " a ", "\u{85}", "\u{200b}", "\u{3000}x", "x\u{3000}"] {
        assert_eq!(is_blank(sample), sample.trim().is_empty(), "{sample:?}");
    }
}

#[test]
fn same_text_compares_characters() {
    assert!(same_text("name", "name"));
    assert!(!same_text("name", "age"));
    assert!(!same_text("name", "names"));
    assert!(same_text("", ""));
    assert!(!same_text("é", "e"));
}

#[test]
fn decimals_are_written_as_display_writes_them() {
    for n in [0, 1, 9, 10, 99, 100, 2024, -1, -10, i32::MAX, i32::MIN, 1_000_000] {
        let mut out = "x".to_owned();
        push_decimal(&mut out, n);
        assert_eq!(out, format!("x{n}"));
    }
}

#[test]
fn unsigned_parsing_stops_at_the_bound() {
    assert_eq!(parse_unsigned("255", 255), Some(255));
    assert_eq!(parse_unsigned("256", 255), None);
    assert_eq!(parse_unsigned("+0", 255), Some(0));
    assert_eq!(parse_unsigned("0000000000000000000001", 255), Some(1));
    assert_eq!(parse_unsigned("99999999999999999999", u32::MAX), None);
}

#[test]
fn texts_are_ordered_as_strings_are() {
    let samples = ["", "a", "ab", "b", "age", "name", "Name", "é", "e", "\u{10000}", "\u{ffff}", "aa"];
    for a in samples {
        for b in samples {
            let expected = match a.cmp(b) {
                std::cmp::Ordering::Less => -1,
                std::cmp::Ordering::Equal => 0,
                std::cmp::Ordering::Greater => 1,
            };
            assert_eq!(compare_text(a, b), expected, "{a:?} against {b:?}");
        }
    }
}
