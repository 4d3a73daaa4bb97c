use checkin_okxyz::text::{decimal, is_space, join, signed_decimal, trim};

#[test]
fn white_space_is_what_the_standard_library_says() {
    let mut code: u32 = 0;
    while code <= 0x10ffff {
        if let Some(c) = char::from_u32(code) {
            assert_eq!(is_space(c), c.is_whitespace(), "character {:?}", c);
        }
        code += 1;
    }
}

#[test]
fn trim_removes_white_space_at_both_ends() {
    assert_eq!(trim("  sess=abc123 \n"), "sess=abc123");
    assert_eq!(trim("sess=abc123"), "sess=abc123");
    assert_eq!(trim("\t\r\n a b \u{3000}\u{a0}"), "a b");
    assert_eq!(trim("a; b=c\n"), "a; b=c");
    assert_eq!(trim("\u{feff}x"), "\u{feff}x");
}

#[test]
fn trim_of_blank_text_is_empty() {
    assert_eq!(trim(""), "");
    assert_eq!(trim(" "), "");
    assert_eq!(trim(" \n\t\u{2003}\u{85}"), "");
}

#[test]
fn trim_agrees_with_the_standard_library() {
    let samples = [
        "",
        " ",
        "x",
        " x",
        "x ",
        " x y ",
        "\u{1680}k=v\u{2028}",
        "\u{200b}zero width is kept\u{200b}",
        "\u{2000}\u{2001}\u{200a}in\u{2000}side\u{202f}\u{205f}",
        "\u{b}\u{c}form feed\u{1c}",
        "caf\u{e9}\n",
    ];
    for s in samples {
        assert_eq!(trim(s), s.trim(), "sample {:?}", s);
    }
}

#[test]
fn trim_twice_is_trim_once() {
    for s in ["  a  ", "\n", "a \u{3000} b\t", ""] {
        let once = trim(s);
        assert_eq!(trim(&once), once);
    }
}

#[test]
fn decimal_writes_numbers_without_leading_zeros() {
    assert_eq!(decimal(0), "0");
    assert_eq!(decimal(7), "7");
    assert_eq!(decimal(10), "10");
    assert_eq!(decimal(1702592000), "1702592000");
    assert_eq!(decimal(u64::MAX), "18446744073709551615");
    let mut n: u64 = 0;
    while n < 2000 {
        assert_eq!(decimal(n), n.to_string());
        n += 1;
    }
}

#[test]
fn signed_decimal_writes_the_sign() {
    assert_eq!(signed_decimal(0), "0");
    assert_eq!(signed_decimal(-1), "-1");
    assert_eq!(signed_decimal(42), "42");
    assert_eq!(signed_decimal(i64::MAX), "9223372036854775807");
    assert_eq!(signed_decimal(i64::MIN), "-9223372036854775808");
    assert_eq!(signed_decimal(-1702592000), (-1702592000i64).to_string());
}

#[test]
fn join_puts_the_separator_between_neighbours() {
    let none: Vec<String> = Vec::new();
    assert_eq!(join(&none, ";"), "");
    assert_eq!(join(&vec!["a".to_string()], ";"), "a");
    assert_eq!(join(&vec!["a".to_string(), "b".to_string()], ";"), "a;b");
    assert_eq!(
        join(&vec!["a".to_string(), "".to_string(), "c".to_string()], "; "),
        "a; ; c"
    );
    assert_eq!(join(&vec!["".to_string(), "".to_string()], "-"), "-");
}
