use cabrillo::text::{
    at_char, at_text, chars_of, is_text, push_decimal, scan_run, scan_run_back,
    scan_run_within, trim, CharClass, Text,
};

#[test]
fn whitespace_is_what_unicode_says() {
    for code in 0..=0x10ffffu32 {
        if let Some(c) = char::from_u32(code) {
            assert_eq!(CharClass::Whitespace.contains(c), c.is_whitespace(), "{:x}", code);
        }
    }
}

#[test]
fn ascii_classes() {
    for code in 0..=0x10ffffu32 {
        if let Some(c) = char::from_u32(code) {
            assert_eq!(CharClass::Digit.contains(c), c.is_ascii_digit());
            assert_eq!(CharClass::Alphanumeric.contains(c), c.is_ascii_alphanumeric());
            assert_eq!(
                CharClass::TagName.contains(c),
                "ABCDEFGHIJKLMNOPQRSTUVWXYZ0123456789-' ".contains(c)
            );
            assert_eq!(
                CharClass::EmailPart.contains(c),
                c.is_ascii_alphanumeric() || "_-.".contains(c)
            );
            assert_eq!(CharClass::Blank.contains(c), c == ' ' || c == '\t');
            assert_eq!(CharClass::LineText.contains(c), c != '\r' && c != '\n');
            assert_eq!(CharClass::ListItem.contains(c), c != ',' && c != ' ');
        }
    }
}

#[test]
fn trim_is_what_std_does() {
    for text in [
        "",
        " ",
        "a",
        " a",
        "a ",
        "  a b  ",
        "\t\r\n a \u{a0}\u{3000}",
        "\u{2003}ARRL 10\u{2009}",
        "\u{85}x\u{1680}",
        "  \u{200b} ",
        "é ",
        " 日本 語 ",
    ] {
        assert_eq!(trim(text), text.trim());
    }
}

#[test]
fn runs_forward_and_backward() {
    let chars = chars_of("ab12  cd");
    assert_eq!(chars, vec!['a', 'b', '1', '2', ' ', ' ', 'c', 'd']);
    assert_eq!(scan_run(&chars, 0, CharClass::Alphanumeric), 4);
    assert_eq!(scan_run(&chars, 2, CharClass::Digit), 4);
    assert_eq!(scan_run(&chars, 4, CharClass::Blank), 6);
    assert_eq!(scan_run(&chars, 4, CharClass::Digit), 4);
    assert_eq!(scan_run(&chars, 6, CharClass::Alphanumeric), 8);
    assert_eq!(scan_run(&chars, 8, CharClass::Alphanumeric), 8);
    assert_eq!(scan_run(&chars, 9, CharClass::Alphanumeric), 9);
    assert_eq!(scan_run_within(&chars, 0, CharClass::Alphanumeric, 3), 3);
    assert_eq!(scan_run_within(&chars, 0, CharClass::Alphanumeric, 4), 4);
    assert_eq!(scan_run_within(&chars, 0, CharClass::Alphanumeric, 9), 4);
    assert_eq!(scan_run_within(&chars, 0, CharClass::Alphanumeric, 0), 0);
    assert_eq!(scan_run_within(&chars, 1, CharClass::Alphanumeric, usize::MAX), 4);
    assert_eq!(scan_run_back(&chars, 8, CharClass::Alphanumeric), 6);
    assert_eq!(scan_run_back(&chars, 6, CharClass::Blank), 4);
    assert_eq!(scan_run_back(&chars, 4, CharClass::Alphanumeric), 0);
    assert_eq!(scan_run_back(&chars, 0, CharClass::Alphanumeric), 0);
    assert_eq!(scan_run_back(&chars, 9, CharClass::Alphanumeric), 9);
}

#[test]
fn text_at_a_place() {
    let chars = chars_of("QSO: x");
    assert!(at_text(&chars, 0, "QSO"));
    assert!(at_text(&chars, 3, ": "));
    assert!(at_text(&chars, 6, ""));
    assert!(!at_text(&chars, 7, ""));
    assert!(!at_text(&chars, 4, " xy"));
    assert!(!at_text(&chars, 1, "QSO"));
    assert!(at_char(&chars, 3, ':'));
    assert!(!at_char(&chars, 6, ':'));
    assert!(is_text(&chars, "QSO: x"));
    assert!(!is_text(&chars, "QSO: "));
    assert!(!is_text(&chars, "QSO: xy"));
}

#[test]
fn text_is_cut_by_characters() {
    let text = Text::new("añb日c");
    assert_eq!(text.len(), 5);
    assert_eq!(text.chars(), &['a', 'ñ', 'b', '日', 'c']);
    assert_eq!(text.cut(1, 4), "ñb日");
    assert_eq!(text.cut(0, 5), "añb日c");
    assert_eq!(text.cut(3, 9), "日c");
    assert_eq!(text.cut(4, 3), "");
    assert_eq!(text.cut(5, 5), "");
    assert_eq!(text.cut(7, 9), "");
}

#[test]
fn decimal_is_written_without_leading_zeros() {
    for (number, text) in [
        (0u64, "0"),
        (9, "9"),
        (10, "10"),
        (1905, "1905"),
        (u64::MAX, "18446744073709551615"),
    ] {
        let mut out = String::from("n=");
        push_decimal(&mut out, number);
        assert_eq!(out, format!("n={}", text));
    }
}
