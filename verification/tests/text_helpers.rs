use termos::text::{
    chars_of, decimal_u16, eq_ignore_ascii_case, is_blank, parse_u16, string_from_chars, trimmed,
};

fn v(s: &str) -> Vec<char> {
    s.chars().collect()
}

#[test]
fn ascii_case_is_ignored_only_for_ascii_letters() {
    assert!(eq_ignore_ascii_case("Prod-Web", "pROD-wEB"));
    assert!(eq_ignore_ascii_case("", ""));
    assert!(!eq_ignore_ascii_case("prod", "prod1"));
    assert!(!eq_ignore_ascii_case("prod", "prad"));
    // Non-ASCII letters are compared exactly.
    assert!(!eq_ignore_ascii_case("\u{e9}", "\u{c9}"));
    assert!(eq_ignore_ascii_case("\u{e9}A", "\u{e9}a"));
    // '@' and '`' sit next to the letters and are not folded.
    assert!(!eq_ignore_ascii_case("@", "`"));
}

#[test]
fn trimming_removes_unicode_white_space_at_both_ends() {
    assert_eq!(trimmed("  host \t\n"), v("host"));
    assert_eq!(trimmed("\u{3000}\u{a0}a b\u{2009}"), v("a b"));
    assert_eq!(trimmed("   "), Vec::<char>::new());
    assert_eq!(trimmed(""), Vec::<char>::new());
    assert_eq!(trimmed("x"), v("x"));
    for s in ["  a  ", "\u{85}zz\u{2028}", "a\u{200b}"] {
        assert_eq!(trimmed(s), v(s.trim()));
    }
}

#[test]
fn blank_text_is_recognised() {
    assert!(is_blank(""));
    assert!(is_blank(" \n\t "));
    assert!(!is_blank(" [] "));
}

#[test]
fn ports_parse_as_u16_from_str_does() {
    for s in ["22", "+22", "0", "65535", "0022", "65536", "", "+", "-1", "2a", "99999", "+-1", " 22"] {
        let expected: Option<u16> = s.parse::<u16>().ok();
        assert_eq!(parse_u16(&v(s)), expected, "input {:?}", s);
    }
    assert_eq!(parse_u16(&v("443")), Some(443));
    assert_eq!(parse_u16(&v("70000")), None);
}

#[test]
fn ports_are_written_in_decimal() {
    for p in [0u16, 7, 10, 22, 443, 8080, 65535] {
        let s: String = decimal_u16(p).into_iter().collect();
        assert_eq!(s, p.to_string());
        assert_eq!(parse_u16(&decimal_u16(p)), Some(p));
    }
}

#[test]
fn strings_convert_to_and_from_characters() {
    let s = "h\u{e9}llo \u{2022}";
    let cs = chars_of(s);
    assert_eq!(cs, v(s));
    assert_eq!(string_from_chars(&cs), s.to_string());
    assert_eq!(string_from_chars(&Vec::new()), String::new());
}
