use pg_wire::text::{bytes_string, decimal_string, hexadecimal_string, integer_string, text_is};
use pg_wire::types::{is_false_word, is_true_word};

#[test]
fn numbers_in_decimal() {
    assert_eq!(decimal_string(0), "0");
    assert_eq!(decimal_string(9), "9");
    assert_eq!(decimal_string(10), "10");
    assert_eq!(decimal_string(1043), "1043");
    assert_eq!(decimal_string(u64::MAX), "18446744073709551615");
    assert_eq!(integer_string(0), "0");
    assert_eq!(integer_string(-1), "-1");
    assert_eq!(integer_string(i64::MIN), "-9223372036854775808");
    assert_eq!(integer_string(i64::MAX), "9223372036854775807");
    for value in [-100i64, -11, -10, -9, 99, 100, 101, 65535, 1_000_000].iter() {
        assert_eq!(integer_string(*value), format!("{}", value));
    }
}

#[test]
fn numbers_in_hexadecimal() {
    assert_eq!(hexadecimal_string(0), "0");
    assert_eq!(hexadecimal_string(15), "f");
    assert_eq!(hexadecimal_string(16), "10");
    assert_eq!(hexadecimal_string(0xABCD), "abcd");
    assert_eq!(hexadecimal_string(u64::MAX), "ffffffffffffffff");
    for value in [1u64, 9, 10, 255, 256, 0x1122, 0x1234_5678].iter() {
        assert_eq!(hexadecimal_string(*value), format!("{:x}", value));
    }
}

#[test]
fn buffers_as_lists() {
    assert_eq!(bytes_string(&[]), "[]");
    assert_eq!(bytes_string(&[0]), "[0]");
    assert_eq!(bytes_string(&[1, 20, 255]), "[1, 20, 255]");
    let buffer = b"some string".to_vec();
    assert_eq!(bytes_string(&buffer), format!("{:?}", buffer));
}

#[test]
fn texts_are_told_apart() {
    assert!(text_is("on", "on"));
    assert!(!text_is("on", "o"));
    assert!(!text_is("", "0"));
    assert!(text_is("", ""));
    assert!(is_true_word("yes"));
    assert!(!is_true_word("Yes"));
    assert!(!is_true_word("no"));
    assert!(is_false_word("of"));
    assert!(!is_false_word("o"));
    assert!(!is_false_word("true"));
}
