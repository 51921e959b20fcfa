use songrec::text::{chars_of, contains_str, decimal_string, find_chars, parse_u32, string_of};

#[test]
fn parse_u32_follows_str_parse() {
    for s in ["42", "+7", "", "+", "-1", "-0", "4294967295", "4294967296", "12a", "007", " 1", "99999999999999999999"] {
        assert_eq!(parse_u32(s), s.parse::<u32>().ok(), "{:?}", s);
    }
    assert_eq!(parse_u32("536870912"), Some(536870912));
}

#[test]
fn decimal_string_writes_digits() {
    for n in [0u32, 7, 10, 99, 1234, 4294967295] {
        assert_eq!(decimal_string(n), n.to_string());
    }
}

#[test]
fn substrings_are_found() {
    assert!(contains_str("application.name = \"songrec\"", "songrec"));
    assert!(!contains_str("firefox", "songrec"));
    assert!(contains_str("abc", ""));
    let hay = chars_of("a — b — c");
    let sep = chars_of(" — ");
    assert_eq!(find_chars(&hay, &sep), Some(1));
    assert_eq!(find_chars(&chars_of("ab"), &chars_of("abc")), None);
}

#[test]
fn chars_round_trip() {
    let s = "Ünïcödé — ok";
    assert_eq!(string_of(&chars_of(s)), s);
}


#[test]
fn decimal_notation_reads_back() {
    for n in [0u32, 1, 9, 10, 31, 536870912, 4294967295] {
        assert_eq!(parse_u32(&decimal_string(n)), Some(n));
    }
}
