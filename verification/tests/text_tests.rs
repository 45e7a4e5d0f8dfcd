use mpris_block::text::join_with_slash;
use mpris_block::text::pad2;
use mpris_block::text::string_eq;
use mpris_block::text::u64_dec;

#[test]
fn decimal_rendering() {
    assert_eq!(u64_dec(0), "0");
    assert_eq!(u64_dec(7), "7");
    assert_eq!(u64_dec(10), "10");
    assert_eq!(u64_dec(12345), "12345");
    assert_eq!(u64_dec(u64::MAX), "18446744073709551615");
}

#[test]
fn two_digit_padding() {
    assert_eq!(pad2(0), "00");
    assert_eq!(pad2(9), "09");
    assert_eq!(pad2(10), "10");
    assert_eq!(pad2(100), "100");
}

#[test]
fn join_with_slash_cases() {
    let empty: Vec<String> = Vec::new();
    assert_eq!(join_with_slash(&empty), "");
    assert_eq!(join_with_slash(&vec![String::from("a")]), "a");
    assert_eq!(
        join_with_slash(&vec![String::from("a"), String::from("b"), String::from("c")]),
        "a/b/c"
    );
    assert_eq!(join_with_slash(&vec![String::new(), String::new()]), "/");
}

#[test]
fn string_equality_is_by_content() {
    assert!(string_eq(&String::from("abc"), &String::from("abc")));
    assert!(!string_eq(&String::from("abc"), &String::from("abd")));
    assert!(!string_eq(&String::from("abc"), &String::from("ab")));
}
