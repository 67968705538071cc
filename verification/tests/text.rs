use qendercore_mqtt_adapter::text::{
    after_prefix, before_suffix, contains, decimal_text, is_white_space, parse_unsigned, push_decimal,
    push_two_digits, replace_char, same, trim, trim_char, trim_end_char,
};

#[test]
fn white_space_is_that_of_unicode() {
    for code in 0..=0x10_ffffu32 {
        if let Some(c) = char::from_u32(code) {
            assert_eq!(is_white_space(c), c.is_whitespace(), "{code:x}");
        }
    }
}

#[test]
fn trims_as_str_does() {
    for text in ["", " ", "a", " a ", "\u{3000}a b\u{2003}\n", "//a//", "/", "ä/ö", "a "] {
        assert_eq!(trim(text), text.trim());
        assert_eq!(trim_char(text, '/'), text.trim_matches('/'));
        assert_eq!(trim_end_char(text, '/'), text.trim_end_matches('/'));
        assert_eq!(replace_char(text, 'a', 'x'), text.replace('a', "x"));
    }
}

#[test]
fn searches_as_str_does() {
    for text in ["", "a", "ab", "aab", "abab", "äöü", "status 401"] {
        for part in ["", "a", "ab", "b", "ö", "401", "abc"] {
            assert_eq!(contains(text, part), text.contains(part));
            assert_eq!(after_prefix(text, part).as_deref(), text.strip_prefix(part));
            assert_eq!(before_suffix(text, part).as_deref(), text.strip_suffix(part));
            assert_eq!(same(text, part), text == part);
        }
    }
}

#[test]
fn reads_unsigned_numbers_as_str_does() {
    for text in [
        "",
        "+",
        "-1",
        "0",
        "+5",
        "007",
        "5 ",
        "1_0",
        "18446744073709551615",
        "18446744073709551616",
        "99999999999999999999999",
        "१",
    ] {
        assert_eq!(parse_unsigned(text), text.parse::<usize>().ok(), "{text}");
    }
}

#[test]
fn writes_numbers_as_display_does() {
    for n in [0u64, 7, 10, 99, 100, 12345, u64::MAX] {
        assert_eq!(decimal_text(n), n.to_string());
        let mut text = "n=".to_string();
        push_decimal(&mut text, n);
        assert_eq!(text, format!("n={n}"));
        let mut text = String::new();
        push_two_digits(&mut text, n);
        assert_eq!(text, format!("{n:02}"));
    }
}
