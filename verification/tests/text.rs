use block_city_adventure::text::{
    chars_contain, chars_of, parse_i32, parse_trimmed_u16, parse_u16, parse_u64, push_decimal,
    string_of, to_ascii_lowercase, trim_str,
};

fn chars(s: &str) -> Vec<char> {
    s.chars().collect()
}

#[test]
fn trimming_removes_unicode_whitespace() {
    assert_eq!(trim_str(" \t\u{3000}a b\u{85}\n"), chars("a b"));
    assert_eq!(trim_str("   "), chars(""));
    assert_eq!(trim_str("x"), chars("x"));
}

#[test]
fn ascii_lowercase_only() {
    assert_eq!(to_ascii_lowercase(&chars("AbÇ-Z")), chars("abÇ-z"));
}

#[test]
fn unsigned_parsing_matches_std() {
    for s in ["0", "+7", "65535", "65536", "", "+", "-1", "1 ", "00042"] {
        assert_eq!(parse_u16(&chars(s)), s.parse::<u16>().ok(), "{s}");
    }
    for s in ["18446744073709551615", "18446744073709551616", "99999999999999999999999"] {
        assert_eq!(parse_u64(&chars(s)), s.parse::<u64>().ok(), "{s}");
    }
    assert_eq!(parse_trimmed_u16(&chars(" 80\n")), Some(80));
}

#[test]
fn signed_parsing_matches_std() {
    for s in ["-2147483648", "-2147483649", "2147483647", "2147483648", "-0", "+5", "-", "+-1", "--1"] {
        assert_eq!(parse_i32(&chars(s)), s.parse::<i32>().ok(), "{s}");
    }
}

#[test]
fn decimal_numerals_and_search() {
    let mut s = String::from("n=");
    push_decimal(&mut s, 0);
    push_decimal(&mut s, 3457);
    assert_eq!(s, "n=03457");
    assert!(chars_contain(&chars("abc"), &chars("bc")));
    assert!(chars_contain(&chars("abc"), &chars("")));
    assert!(!chars_contain(&chars("abc"), &chars("cb")));
    assert_eq!(string_of(&chars_of("方块")), "方块");
}
