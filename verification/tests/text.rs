use procdump::text::{
    decimal_string, find_char, find_field, find_last_char, parse_number, range_contains,
    same_chars, same_text, signed_decimal_string, slice_text, to_chars,
};

fn chars(s: &str) -> Vec<char> {
    s.chars().collect()
}

#[test]
fn to_chars_keeps_order_and_wide_characters() {
    assert_eq!(to_chars("abc"), vec!['a', 'b', 'c']);
    assert_eq!(to_chars(""), Vec::<char>::new());
    assert_eq!(to_chars("h\u{e9}\u{1F600}!"), vec!['h', '\u{e9}', '\u{1F600}', '!']);
}

#[test]
fn slice_text_counts_characters_not_bytes() {
    assert_eq!(slice_text("h\u{e9}llo", 1, 3), "\u{e9}l");
    assert_eq!(slice_text("hello", 0, 5), "hello");
    assert_eq!(slice_text("hello", 2, 2), "");
}

#[test]
fn same_text_compares_contents() {
    assert!(same_text("sudo", "sudo"));
    assert!(!same_text("sudo", "sudO"));
    assert!(!same_text("sudo", "sud"));
    assert!(same_text("", ""));
    assert!(same_chars(&chars("ab"), &chars("ab")));
    assert!(!same_chars(&chars("ab"), &chars("ba")));
}

#[test]
fn decimal_string_writes_numbers() {
    assert_eq!(decimal_string(0), "0");
    assert_eq!(decimal_string(7), "7");
    assert_eq!(decimal_string(10), "10");
    assert_eq!(decimal_string(1234567890), "1234567890");
    assert_eq!(decimal_string(u64::MAX), "18446744073709551615");
}

#[test]
fn signed_decimal_string_writes_the_sign() {
    assert_eq!(signed_decimal_string(0), "0");
    assert_eq!(signed_decimal_string(42), "42");
    assert_eq!(signed_decimal_string(-42), "-42");
    assert_eq!(signed_decimal_string(i32::MAX), "2147483647");
    assert_eq!(signed_decimal_string(i32::MIN), "-2147483648");
}

#[test]
fn parse_number_reads_digits_only() {
    let s = chars("x123 45");
    assert_eq!(parse_number(&s, 1, 4), Some(123));
    assert_eq!(parse_number(&s, 5, 7), Some(45));
    assert_eq!(parse_number(&s, 0, 4), None);
    assert_eq!(parse_number(&s, 1, 5), None);
    assert_eq!(parse_number(&s, 2, 2), None);
    let signed = chars("-5+5");
    assert_eq!(parse_number(&signed, 0, 2), None);
    assert_eq!(parse_number(&signed, 2, 4), None);
}

#[test]
fn parse_number_stops_at_the_largest_value() {
    let max = chars("18446744073709551615");
    assert_eq!(parse_number(&max, 0, max.len()), Some(u64::MAX));
    let over = chars("18446744073709551616");
    assert_eq!(parse_number(&over, 0, over.len()), None);
    let long = chars("99999999999999999999999999");
    assert_eq!(parse_number(&long, 0, long.len()), None);
    let zeros = chars("000000000000000000000000000000012");
    assert_eq!(parse_number(&zeros, 0, zeros.len()), Some(12));
    let bad_tail = chars("99999999999999999999999999x");
    assert_eq!(parse_number(&bad_tail, 0, bad_tail.len()), None);
}

#[test]
fn find_field_splits_on_runs_of_whitespace() {
    let s = chars("  alpha \t beta\ngamma  ");
    assert_eq!(find_field(&s, 0, 0), Some((2, 7)));
    assert_eq!(find_field(&s, 0, 1), Some((10, 14)));
    assert_eq!(find_field(&s, 0, 2), Some((15, 20)));
    assert_eq!(find_field(&s, 0, 3), None);
    assert_eq!(find_field(&s, 0, 100), None);
    assert_eq!(find_field(&s, 7, 0), Some((10, 14)));
    assert_eq!(find_field(&s, s.len(), 0), None);
    assert_eq!(find_field(&chars(""), 0, 0), None);
    assert_eq!(find_field(&chars("   "), 0, 0), None);
    assert_eq!(find_field(&chars("x"), 0, 0), Some((0, 1)));
}

#[test]
fn find_char_and_find_last_char() {
    let s = chars("a/b/c");
    assert_eq!(find_char(&s, '/', 0), 1);
    assert_eq!(find_char(&s, '/', 2), 3);
    assert_eq!(find_char(&s, '/', 4), 5);
    assert_eq!(find_char(&s, 'z', 0), 5);
    assert_eq!(find_last_char(&s, '/', 0, 5), Some(3));
    assert_eq!(find_last_char(&s, '/', 0, 3), Some(1));
    assert_eq!(find_last_char(&s, '/', 2, 3), None);
    assert_eq!(find_last_char(&s, '/', 0, 1), None);
    assert_eq!(find_last_char(&s, '/', 0, 0), None);
}

#[test]
fn range_contains_finds_text_within_bounds() {
    let s = chars("xx/tmp/dotnet-diagnostic-12-socket yy");
    let p = chars("/tmp/dotnet-diagnostic-12");
    assert!(range_contains(&s, 0, s.len(), &p));
    assert!(range_contains(&s, 2, 27, &p));
    assert!(!range_contains(&s, 3, s.len(), &p));
    assert!(!range_contains(&s, 2, 26, &p));
    assert!(range_contains(&s, 5, 5, &chars("")));
    assert!(!range_contains(&s, 0, 3, &chars("xxxx")));
    assert!(range_contains(&s, 0, s.len(), &chars("yy")));
    assert!(!range_contains(&s, 0, s.len(), &chars("yyy")));
}
