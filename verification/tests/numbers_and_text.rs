use bundlrs::number::{decimal_text, i32_text, parse_i32, parse_u128};
use bundlrs::text::{
    contains_text, first_line_exec, replace_all_exec, replace_first_exec, trim_exec,
    unquoted_prefix_exec,
};

#[test]
fn decimal_text_writes_plain_digits() {
    assert_eq!(decimal_text(0), "0");
    assert_eq!(decimal_text(7), "7");
    assert_eq!(decimal_text(10), "10");
    assert_eq!(decimal_text(1700000000123), "1700000000123");
    assert_eq!(decimal_text(u128::MAX), u128::MAX.to_string());
}

#[test]
fn parse_u128_accepts_an_optional_plus_and_digits() {
    assert_eq!(parse_u128("0"), Some(0));
    assert_eq!(parse_u128("42"), Some(42));
    assert_eq!(parse_u128("+42"), Some(42));
    assert_eq!(parse_u128("007"), Some(7));
    assert_eq!(parse_u128("340282366920938463463374607431768211455"), Some(u128::MAX));
}

#[test]
fn parse_u128_refuses_what_is_not_a_number() {
    assert_eq!(parse_u128(""), None);
    assert_eq!(parse_u128("+"), None);
    assert_eq!(parse_u128("-1"), None);
    assert_eq!(parse_u128("1a"), None);
    assert_eq!(parse_u128(" 1"), None);
    assert_eq!(parse_u128("++1"), None);
    assert_eq!(parse_u128("340282366920938463463374607431768211456"), None);
}

#[test]
fn parse_u128_agrees_with_std() {
    for s in ["", "+", "0", "+0", "12", "-3", "9x", "18446744073709551616"] {
        assert_eq!(parse_u128(s), s.parse::<u128>().ok(), "input {:?}", s);
    }
}

#[test]
fn decimal_text_reads_back_unchanged() {
    for n in [0u128, 1, 9, 10, 99, 100, 1234567890, 1700000000000, u128::MAX] {
        assert_eq!(parse_u128(&decimal_text(n)), Some(n));
    }
}

#[test]
fn parse_i32_takes_a_sign_and_stays_in_range() {
    assert_eq!(parse_i32("0"), Some(0));
    assert_eq!(parse_i32("+17"), Some(17));
    assert_eq!(parse_i32("-17"), Some(-17));
    assert_eq!(parse_i32("2147483647"), Some(i32::MAX));
    assert_eq!(parse_i32("-2147483648"), Some(i32::MIN));
    assert_eq!(parse_i32("2147483648"), None);
    assert_eq!(parse_i32("-2147483649"), None);
    assert_eq!(parse_i32("-"), None);
    assert_eq!(parse_i32("+"), None);
    assert_eq!(parse_i32("-+5"), None);
    assert_eq!(parse_i32("+-5"), None);
    assert_eq!(parse_i32("12x"), None);
    assert_eq!(parse_i32(""), None);
    for s in ["5", "-0", "99999999999999999999999", "-2147483648", "x"] {
        assert_eq!(parse_i32(s), s.parse::<i32>().ok(), "input {:?}", s);
    }
}

#[test]
fn replace_first_replaces_one_occurrence() {
    assert_eq!(replace_first_exec("a-b-c", "-", "+"), "a+b-c");
    assert_eq!(replace_first_exec("abc", "z", "y"), "abc");
    assert_eq!(replace_first_exec("abc", "", "x"), "xabc");
    assert_eq!(replace_first_exec("", "a", "b"), "");
    assert_eq!(replace_first_exec("aaa", "aa", "b"), "ba");
    for (s, p, r) in [("x rel=\"icon\" y rel=\"icon\"", "rel=\"icon\"", "rel=\"old_icon\""), ("héllo", "é", "e")] {
        assert_eq!(replace_first_exec(s, p, r), s.replacen(p, r, 1));
    }
}

#[test]
fn replace_all_replaces_every_occurrence() {
    assert_eq!(replace_all_exec("a-b-c", "-", "+"), "a+b+c");
    assert_eq!(replace_all_exec("aaaa", "aa", "b"), "bb");
    assert_eq!(replace_all_exec("abc", "x", "y"), "abc");
}

#[test]
fn unquoted_prefix_takes_characters_and_swaps_quotes() {
    assert_eq!(unquoted_prefix_exec("say \"hi\"", 100), "say 'hi'");
    let long = "a".repeat(150);
    assert_eq!(unquoted_prefix_exec(&long, 100), "a".repeat(100));
    assert_eq!(unquoted_prefix_exec("ééé", 2), "éé");
    assert_eq!(unquoted_prefix_exec("", 100), "");
}

#[test]
fn trim_and_first_line() {
    assert_eq!(trim_exec("  hello \n"), "hello");
    assert_eq!(trim_exec("\u{3000}x\t"), "x");
    assert_eq!(first_line_exec(";\nurl1;url2"), Some(";".to_string()));
    assert_eq!(first_line_exec(""), None);
    assert_eq!(first_line_exec("one"), Some("one".to_string()));
}

#[test]
fn contains_text_finds_an_entry() {
    let list = vec!["StaffDashboard".to_string(), "ManageUsers".to_string()];
    assert!(contains_text(&list, "ManageUsers"));
    assert!(!contains_text(&list, "ManagePastes"));
    assert!(!contains_text(&Vec::new(), "ManagePastes"));
}

#[test]
fn i32_text_writes_a_sign_for_negatives() {
    for n in [0, 5, -5, 2147483647, -2147483648, -10] {
        assert_eq!(i32_text(n), n.to_string());
        assert_eq!(parse_i32(&i32_text(n)), Some(n));
    }
}
