//! Text primitives against the standard library.

use cloud_stt::text::{
    decimal_text, eq_ignoring_ascii_case, is_white_space, segment_after_first, trim, trim_end_of,
};

#[test]
fn white_space_is_that_of_the_standard_library() {
    for code in 0..=0x10_ffff_u32 {
        if let Some(c) = char::from_u32(code) {
            assert_eq!(is_white_space(c), c.is_whitespace(), "{:?}", c);
        }
    }
}

#[test]
fn trimming_agrees_with_the_standard_library() {
    for text in [
        "",
        " ",
        "\u{3000}\u{85}a b\u{a0}",
        "a",
        "\t\r\nя🙂 я\u{200b}",
        "\u{feff}x ",
    ] {
        assert_eq!(trim(text), text.trim());
        assert_eq!(trim_end_of(text, ' '), text.trim_end_matches(' '));
    }
    assert_eq!(trim_end_of("a==b==", '='), "a==b");
    assert_eq!(trim_end_of("====", '='), "");
}

#[test]
fn segments_agree_with_the_standard_library() {
    for text in ["", ".", "a", "a.b", "a.b.c", "..", ".я.", "a.", "a..b"] {
        assert_eq!(segment_after_first(text, '.'), text.split('.').nth(1));
    }
}

#[test]
fn case_is_ignored_for_ascii_letters_only() {
    for (a, b) in [
        ("LocalHost", "localhost"),
        ("localhos", "localhost"),
        ("Я", "я"),
        ("@[`{", "@[`{"),
        ("@", "`"),
        ("", ""),
    ] {
        assert_eq!(eq_ignoring_ascii_case(a, b), a.eq_ignore_ascii_case(b));
    }
}

#[test]
fn numerals_agree_with_the_standard_library() {
    for n in [0, 7, 10, 99, 100, 12_345, u64::MAX] {
        assert_eq!(decimal_text(n), n.to_string());
    }
}
