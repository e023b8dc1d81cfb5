use vtx_tool::text::{
    chars_of, decimal_text, eq_ignoring_case, line_end, parse_number, push_left_aligned,
    push_right_aligned, push_signed, push_time_of_day, push_zero_padded, text_eq, trimmed,
    trimmed_end, uppercase, words_of,
};

#[test]
fn numbers_are_written_and_read_back() {
    for n in [0u64, 7, 10, 99, 100, 65535, 4_000_000_000, u64::MAX] {
        assert_eq!(decimal_text(n), n.to_string());
    }
    for n in [0u32, 9, 255, 65535, u32::MAX] {
        assert_eq!(parse_number(&n.to_string(), u32::MAX), Some(n));
    }
    let mut s = String::new();
    push_signed(&mut s, -120);
    push_signed(&mut s, 7);
    push_signed(&mut s, i32::MIN);
    assert_eq!(s, "-1207-2147483648");
}

#[test]
fn only_numbers_are_read() {
    assert_eq!(parse_number("+5", 255), Some(5));
    assert_eq!(parse_number("007", 255), Some(7));
    for bad in ["", "+", "-1", "1.0", " 1", "1 ", "x", "256", "99999999999"] {
        assert_eq!(parse_number(bad, 255), None, "{bad:?}");
    }
}

#[test]
fn text_is_split_and_trimmed() {
    let chars = chars_of("ab \t c\n d");
    assert_eq!(words_of(&chars, 0, 6), vec!["ab".to_string(), "c".to_string()]);
    assert_eq!(words_of(&chars, 0, chars.len()).len(), 3);
    assert_eq!(line_end(&chars, 0), 6);
    assert_eq!(line_end(&chars, 7), 9);
    assert_eq!(trimmed_end("  x \u{2003}\r\n"), "  x");
    assert_eq!(trimmed(" \t12.5\r\n"), "12.5");
    assert_eq!(trimmed(" \n"), "");
}

#[test]
fn text_is_padded_and_raised() {
    let mut s = String::new();
    push_left_aligned(&mut s, "PA", 5);
    push_right_aligned(&mut s, "ON", 4);
    push_left_aligned(&mut s, "longer", 2);
    assert_eq!(s, "PA     ONlonger");
    assert_eq!(uppercase("25mW \u{b5}z"), "25MW \u{b5}Z");
    assert!(eq_ignoring_case("Factory", "FACTORY"));
    assert!(!eq_ignoring_case("Factory", "FACTOR"));
    assert!(text_eq("a", "a") && !text_eq("a", "A") && !text_eq("a", "ab"));
}

#[test]
fn times_of_day() {
    let mut s = String::new();
    push_time_of_day(&mut s, 86400 + 3600 * 3 + 60 * 4 + 5);
    assert_eq!(s, "03:04:05");
    let mut z = String::new();
    push_zero_padded(&mut z, 7, 3);
    push_zero_padded(&mut z, 1234, 3);
    assert_eq!(z, "0071234");
}
