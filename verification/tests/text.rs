use cr8s::text::{bytes_equal, is_whitespace_char, text_equal, whitespace_fields};

#[test]
fn whitespace_is_the_unicode_property() {
    let mut n: u32 = 0;
    while n <= 0x10ffff {
        if let Some(c) = char::from_u32(n) {
            assert_eq!(is_whitespace_char(c), c.is_whitespace(), "code point {:#x}", n);
        }
        n += 1;
    }
}

#[test]
fn whitespace_examples() {
    for c in [' ', '\t', '\n', '\r', '\u{0b}', '\u{0c}', '\u{85}', '\u{a0}', '\u{3000}'] {
        assert!(is_whitespace_char(c));
    }
    for c in ['a', 'Z', '0', '_', '\u{200b}', '\u{feff}', '\0'] {
        assert!(!is_whitespace_char(c));
    }
}

#[test]
fn fields_agree_with_std_split() {
    let samples = [
        "",
        " ",
        "a",
        "Bearer abc",
        "  Bearer   abc  ",
        "Bearer\tabc\n",
        "one two three",
        "\u{a0}x\u{2003}y\u{3000}",
        "héllo wörld",
        "a b c d e f g",
        "trailing ",
        " leading",
        "tab\tseparated\tvalues",
    ];
    for text in samples {
        let expected: Vec<String> = text.split_whitespace().map(|s| s.to_string()).collect();
        assert_eq!(whitespace_fields(text), expected, "text {:?}", text);
    }
}

#[test]
fn fields_of_blank_text_are_none() {
    assert_eq!(whitespace_fields(""), Vec::<String>::new());
    assert_eq!(whitespace_fields(" \t\r\n"), Vec::<String>::new());
}

#[test]
fn fields_exact() {
    assert_eq!(whitespace_fields("  Bearer   tok "), vec!["Bearer".to_string(), "tok".to_string()]);
    assert_eq!(whitespace_fields("x"), vec!["x".to_string()]);
}

#[test]
fn text_equality() {
    assert!(text_equal("", ""));
    assert!(text_equal("admin", "admin"));
    assert!(!text_equal("admin", "admiN"));
    assert!(!text_equal("admin", "admin "));
    assert!(!text_equal("é", "e"));
    assert!(text_equal("é", "\u{e9}"));
}

#[test]
fn byte_equality() {
    assert!(bytes_equal(&[], &[]));
    assert!(bytes_equal(&[1, 2, 3], &[1, 2, 3]));
    assert!(!bytes_equal(&[1, 2, 3], &[1, 2]));
    assert!(!bytes_equal(&[1, 2, 3], &[1, 2, 4]));
}
