use uicontrol::text::{
    concat2, concat3, i64_to_decimal, is_blank_str, join_strings, parse_i32, parse_i64,
    parse_unsigned_str, split_on_char, string_from_chars, take_chars_string, trim_string,
    u64_to_decimal,
};

#[test]
fn trim_removes_unicode_whitespace_at_both_ends() {
    assert_eq!(trim_string("  a b \n"), "a b");
    assert_eq!(trim_string("\u{3000}全角\u{3000}"), "全角");
    assert_eq!(trim_string(""), "");
}

#[test]
fn blank_text_is_only_whitespace() {
    assert!(is_blank_str("  \t\r\n"));
    assert!(is_blank_str(""));
    assert!(!is_blank_str(" x "));
}

#[test]
fn decimal_numbers_are_written_in_base_ten() {
    assert_eq!(u64_to_decimal(0), "0");
    assert_eq!(u64_to_decimal(12345), "12345");
    assert_eq!(u64_to_decimal(u64::MAX), "18446744073709551615");
    assert_eq!(i64_to_decimal(-42), "-42");
    assert_eq!(i64_to_decimal(i64::MIN), "-9223372036854775808");
}

#[test]
fn i32_parsing_follows_str_parse() {
    assert_eq!(parse_i32("123"), Some(123));
    assert_eq!(parse_i32("-5"), Some(-5));
    assert_eq!(parse_i32("+7"), Some(7));
    assert_eq!(parse_i32("-2147483648"), Some(i32::MIN));
    assert_eq!(parse_i32("2147483647"), Some(i32::MAX));
    assert_eq!(parse_i32("2147483648"), None);
    assert_eq!(parse_i32(""), None);
    assert_eq!(parse_i32("-"), None);
    assert_eq!(parse_i32("12a"), None);
    assert_eq!(parse_i32(" 1"), None);
}

#[test]
fn i64_parsing_follows_str_parse() {
    assert_eq!(parse_i64("9223372036854775807"), Some(i64::MAX));
    assert_eq!(parse_i64("-9223372036854775808"), Some(i64::MIN));
    assert_eq!(parse_i64("9223372036854775808"), None);
    assert_eq!(parse_i64("61"), Some(61));
    assert_eq!(parse_i64("x"), None);
}

#[test]
fn unsigned_parsing_respects_the_limit() {
    assert_eq!(parse_unsigned_str("30", u64::MAX), Some(30));
    assert_eq!(parse_unsigned_str("+30", u64::MAX), Some(30));
    assert_eq!(parse_unsigned_str("300", 255), None);
    assert_eq!(parse_unsigned_str("-1", u64::MAX), None);
}

#[test]
fn taking_characters_counts_characters_not_bytes() {
    assert_eq!(take_chars_string("你好世界", 2), "你好");
    assert_eq!(take_chars_string("ab", 5), "ab");
}

#[test]
fn joining_puts_the_separator_between_parts() {
    let parts = vec!["a".to_string(), "b".to_string(), "c".to_string()];
    assert_eq!(join_strings(&parts, "+"), "a+b+c");
    assert_eq!(join_strings(&Vec::new(), "+"), "");
}

#[test]
fn splitting_keeps_empty_pieces() {
    assert_eq!(split_on_char("a,b,,c", ','), vec!["a", "b", "", "c"]);
    assert_eq!(split_on_char("", ','), vec![""]);
    assert_eq!(split_on_char("abc", ','), vec!["abc"]);
}

#[test]
fn strings_are_built_from_parts_and_characters() {
    assert_eq!(concat2("ab", "cd"), "abcd");
    assert_eq!(concat3("a", "b", "c"), "abc");
    let chars = ['x', '日', 'y', 'z'];
    assert_eq!(string_from_chars(&chars, 1, 3), "日y");
}
