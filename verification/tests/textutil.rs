use capping::strutil::{
    bool_string, chars_of, i64_string, parse_u64_chars, split_chars, str_eq_chars, trim_chars,
    u64_string,
};

#[test]
fn chars_round_trip() {
    let v = chars_of("abc");
    assert_eq!(v, vec!['a', 'b', 'c']);
    assert!(str_eq_chars(&v, "abc"));
    assert!(!str_eq_chars(&v, "abd"));
    assert!(!str_eq_chars(&v, "ab"));
}

#[test]
fn trimming_strips_edges_only() {
    assert_eq!(trim_chars(&chars_of("  a  b\t\r\n")), chars_of("a  b"));
    assert_eq!(trim_chars(&chars_of("   ")), Vec::<char>::new());
    assert_eq!(trim_chars(&chars_of("ab")), chars_of("ab"));
}

#[test]
fn splitting_keeps_empty_pieces() {
    let parts = split_chars(&chars_of("a:b::c"), &chars_of(":"));
    assert_eq!(parts, vec![chars_of("a"), chars_of("b"), chars_of(""), chars_of("c")]);
    let parts = split_chars(&chars_of("label: value: x"), &chars_of(": "));
    assert_eq!(parts, vec![chars_of("label"), chars_of("value"), chars_of("x")]);
    let parts = split_chars(&chars_of("plain"), &chars_of(","));
    assert_eq!(parts, vec![chars_of("plain")]);
}

#[test]
fn parsing_u64_values() {
    assert_eq!(parse_u64_chars(&chars_of("0")), Some(0));
    assert_eq!(parse_u64_chars(&chars_of("1600")), Some(1600));
    assert_eq!(parse_u64_chars(&chars_of("18446744073709551615")), Some(u64::MAX));
    assert_eq!(parse_u64_chars(&chars_of("18446744073709551616")), None);
    assert_eq!(parse_u64_chars(&chars_of("")), None);
    assert_eq!(parse_u64_chars(&chars_of("12a")), None);
    assert_eq!(parse_u64_chars(&chars_of("-1")), None);
}

#[test]
fn rendering_numbers() {
    assert_eq!(u64_string(0), "0");
    assert_eq!(u64_string(1234), "1234");
    assert_eq!(u64_string(u64::MAX), "18446744073709551615");
    assert_eq!(i64_string(0), "0");
    assert_eq!(i64_string(-5), "-5");
    assert_eq!(i64_string(i64::MIN), "-9223372036854775808");
    assert_eq!(bool_string(true), "true");
    assert_eq!(bool_string(false), "false");
}
