use nightshade_bridge::text::{
    chars_of, decimal_string, join_colon, parse_i32_range, parse_unsigned_range, str_contains,
    str_ends_with, str_eq, str_eq_ignore_ascii_case, str_starts_with,
};

fn parse_u(s: &str, max: u64) -> Option<u64> {
    let v = chars_of(s);
    parse_unsigned_range(&v, 0, v.len(), max)
}

fn parse_i(s: &str) -> Option<i32> {
    let v = chars_of(s);
    parse_i32_range(&v, 0, v.len())
}

#[test]
fn unsigned_parsing_matches_std() {
    for s in ["0", "42", "+42", "65535", "65536", "", "+", "-1", "1a", " 1", "007"] {
        assert_eq!(parse_u(s, 65535), s.parse::<u16>().ok().map(|v| v as u64), "input {:?}", s);
    }
}

#[test]
fn signed_parsing_matches_std() {
    for s in ["0", "-0", "-2147483648", "2147483647", "2147483648", "-2147483649", "+5", "-", "--1", "-+1", "+-1", "12x"] {
        assert_eq!(parse_i(s), s.parse::<i32>().ok(), "input {:?}", s);
    }
}

#[test]
fn decimal_text() {
    assert_eq!(decimal_string(0), "0");
    assert_eq!(decimal_string(7624), "7624");
    assert_eq!(decimal_string(u64::MAX), u64::MAX.to_string());
}

#[test]
fn text_predicates() {
    assert!(str_starts_with("ascom:x", "ascom:"));
    assert!(!str_starts_with("asc", "ascom:"));
    assert!(str_ends_with("focussim", "sim"));
    assert!(str_contains("ascom.simulator.camera", "simulator"));
    assert!(!str_contains("abc", "abd"));
    assert!(str_contains("abc", ""));
    assert!(str_eq("Ha", "Ha"));
    assert!(!str_eq("Ha", "ha"));
    assert!(str_eq_ignore_ascii_case("OIII", "oiii"));
    assert!(!str_eq_ignore_ascii_case("OIII", "oii"));
    assert_eq!(join_colon("a", "b"), "a:b");
}
