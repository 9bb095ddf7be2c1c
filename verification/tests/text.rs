use audiovert::text;

fn cs(s: &str) -> Vec<char> {
    s.chars().collect()
}

#[test]
fn chars_and_string_round_trip() {
    assert_eq!(text::chars("héllo"), cs("héllo"));
    assert_eq!(text::string(&cs("héllo")), "héllo");
    assert_eq!(text::chars(""), Vec::<char>::new());
}

#[test]
fn eq_compares_characters() {
    assert!(text::eq("abc", "abc"));
    assert!(!text::eq("abc", "abd"));
    assert!(!text::eq("abc", "ab"));
    assert!(text::eq("", ""));
    assert!(text::same_chars(&cs("x"), &cs("x")));
    assert!(!text::same_chars(&cs("x"), &cs("")));
}

#[test]
fn find_gives_first_index() {
    assert_eq!(text::find(&cs("a=b=c"), '='), Some(1));
    assert_eq!(text::find(&cs("=ab"), '='), Some(0));
    assert_eq!(text::find(&cs("abc"), '='), None);
    assert_eq!(text::find(&cs(""), '='), None);
}

#[test]
fn extend_appends() {
    let mut out = cs("ab");
    text::extend(&mut out, &cs("cd"));
    text::extend_str(&mut out, "ef");
    assert_eq!(out, cs("abcdef"));
}

#[test]
fn trim_removes_surrounding_whitespace() {
    assert_eq!(text::trim_str("  a b \t\n"), "a b");
    assert_eq!(text::trim_str("\u{a0}x\u{2003}"), "x");
    assert_eq!(text::trim_str("   "), "");
    assert_eq!(text::trim_str(""), "");
    assert_eq!(text::trim_str("x"), "x");
    assert_eq!(text::trim(&cs(" x ")), cs("x"));
}

#[test]
fn decimal_forms() {
    assert_eq!(text::decimal_string(0), "0");
    assert_eq!(text::decimal_string(7), "7");
    assert_eq!(text::decimal_string(10), "10");
    assert_eq!(text::decimal_string(320), "320");
    assert_eq!(text::decimal_string(u64::MAX), "18446744073709551615");
    let mut out = Vec::new();
    text::push_decimal_pad2(&mut out, 3);
    out.push('|');
    text::push_decimal_pad2(&mut out, 0);
    out.push('|');
    text::push_decimal_pad2(&mut out, 12);
    out.push('|');
    text::push_decimal_pad2(&mut out, 123);
    assert_eq!(text::string(&out), "03|00|12|123");
    let mut out = Vec::new();
    text::push_signed_decimal(&mut out, -2024);
    out.push('|');
    text::push_signed_decimal(&mut out, 1999);
    out.push('|');
    text::push_signed_decimal(&mut out, 0);
    out.push('|');
    text::push_signed_decimal(&mut out, i64::MIN);
    assert_eq!(text::string(&out), "-2024|1999|0|-9223372036854775808");
}

#[test]
fn parse_u32_follows_std() {
    for s in ["0", "7", "007", "+5", "4294967295", "4294967296", "", "+", "-", "-1", "1 ", " 1", "1a", "٣", "99999999999999999999999"] {
        assert_eq!(text::parse_u32(s), s.parse::<u32>().ok(), "{s:?}");
    }
    assert_eq!(text::parse_u32("4294967295"), Some(u32::MAX));
    assert_eq!(text::parse_u32("4294967296"), None);
    assert_eq!(text::parse_u32("+12"), Some(12));
}

#[test]
fn parse_i16_follows_std() {
    for s in ["0", "-0", "+0", "1999", "-1999", "32767", "32768", "-32768", "-32769", "", "+", "-", "--1", "+-1", "12x", "1_000"] {
        assert_eq!(text::parse_i16(s), s.parse::<i16>().ok(), "{s:?}");
    }
    assert_eq!(text::parse_i16("-32768"), Some(i16::MIN));
    assert_eq!(text::parse_i16("32768"), None);
}
