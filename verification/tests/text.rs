use gptpipe::text::{decimal_string, is_white_space_char, trim};

#[test]
fn white_space_is_what_the_standard_library_says() {
    for code in 0u32..=0x10FFFF {
        if let Some(c) = char::from_u32(code) {
            assert_eq!(is_white_space_char(c), c.is_whitespace(), "U+{:04X}", code);
        }
    }
}

#[test]
fn trim_drops_white_space_at_both_ends() {
    assert_eq!(trim("  Paris.  "), "Paris.");
    assert_eq!(trim("\n\tParis.\r\n"), "Paris.");
    assert_eq!(trim("Paris."), "Paris.");
}

#[test]
fn trim_keeps_white_space_inside() {
    assert_eq!(trim("  a  b \t c  "), "a  b \t c");
}

#[test]
fn trim_of_blank_text_is_empty() {
    assert_eq!(trim(""), "");
    assert_eq!(trim(" "), "");
    assert_eq!(trim(" \t\r\n\u{00A0}\u{3000} "), "");
}

#[test]
fn trim_knows_white_space_outside_ascii() {
    assert_eq!(trim("\u{00A0}x\u{2003}"), "x");
    assert_eq!(trim("\u{0085}\u{1680}é ü\u{2028}\u{2029}\u{202F}\u{205F}\u{3000}"), "é ü");
    assert_eq!(trim("\u{200B}x\u{200B}"), "\u{200B}x\u{200B}");
    assert_eq!(trim("\u{180E}x"), "\u{180E}x");
}

#[test]
fn trim_agrees_with_the_standard_library() {
    let samples = [
        "",
        "a",
        " a",
        "a ",
        " a ",
        "\u{000B}vertical\u{000C}",
        "  multi\nline\n  text\n\n",
        "日本語 ",
        " \u{2000}\u{200A}wide\u{2009} ",
        "no-trim",
    ];
    for text in samples {
        assert_eq!(trim(text), text.trim());
    }
}

#[test]
fn decimal_of_small_numbers() {
    assert_eq!(decimal_string(0), "0");
    assert_eq!(decimal_string(7), "7");
    assert_eq!(decimal_string(10), "10");
    assert_eq!(decimal_string(401), "401");
    assert_eq!(decimal_string(8000), "8000");
}

#[test]
fn decimal_of_the_largest_number() {
    assert_eq!(decimal_string(u64::MAX), "18446744073709551615");
}

#[test]
fn decimal_agrees_with_the_standard_library() {
    let mut n: u64 = 1;
    for _ in 0..64 {
        assert_eq!(decimal_string(n), format!("{}", n));
        assert_eq!(decimal_string(n - 1), format!("{}", n - 1));
        n = n.wrapping_mul(3).wrapping_add(7);
    }
    for n in 0..1200u64 {
        assert_eq!(decimal_string(n), format!("{}", n));
    }
}

#[test]
fn trim_of_what_is_trimmed_changes_nothing() {
    let samples = ["", "  ", " a ", "a b", "\n\u{3000}x y\u{00A0}\t", "Paris."];
    for text in samples {
        let once = trim(text);
        assert_eq!(trim(once), once);
    }
}

#[test]
fn trimmed_text_has_clean_ends() {
    let samples = [" a ", "\t\tb c\n", "\u{2003}d\u{2003}e\u{2003}", "f"];
    for text in samples {
        let once = trim(text);
        assert!(text.contains(once));
        assert!(!is_white_space_char(once.chars().next().unwrap()));
        assert!(!is_white_space_char(once.chars().last().unwrap()));
    }
}
