use ts_dynalene::ascii::{decimal_length, power_of_ten, push_decimal, push_fixed_point, push_zero_padded};
use ts_dynalene::parse::{parse_u8, parse_u8_in};
use ts_dynalene::utility::index_of;

#[test]
fn test_parse_u8() {
    assert_eq!(parse_u8("0"), Some(0));
    assert_eq!(parse_u8("255"), Some(255));
    assert_eq!(parse_u8("007"), Some(7));
    assert_eq!(parse_u8("+12"), Some(12));
    assert_eq!(parse_u8("256"), None);
    assert_eq!(parse_u8("1000"), None);
    assert_eq!(parse_u8(""), None);
    assert_eq!(parse_u8("+"), None);
    assert_eq!(parse_u8("-1"), None);
    assert_eq!(parse_u8("1a"), None);
    assert_eq!(parse_u8(" 1"), None);
    // The same as `u8::from_str` on these texts.
    for text in ["0", "255", "007", "+12", "256", "", "+", "-1", "1a", " 1", "٣"] {
        assert_eq!(parse_u8(text), text.parse::<u8>().ok());
    }
}

#[test]
fn test_parse_u8_in() {
    assert_eq!(parse_u8_in("#020P", 1, 4), Some(20));
    assert_eq!(parse_u8_in("#020P", 0, 4), None);
    assert_eq!(parse_u8_in("#020P", 2, 2), None);
}

#[test]
fn test_decimal_digits() {
    assert_eq!(decimal_length(0), 1);
    assert_eq!(decimal_length(9), 1);
    assert_eq!(decimal_length(10), 2);
    assert_eq!(decimal_length(u64::MAX), 20);
    assert_eq!(power_of_ten(0), 1);
    assert_eq!(power_of_ten(4), 10000);
    assert_eq!(power_of_ten(18), 1_000_000_000_000_000_000);

    let mut text = Vec::new();
    push_decimal(&mut text, 0);
    push_decimal(&mut text, 4021);
    assert_eq!(text, b"04021".to_vec());

    let mut text = Vec::new();
    push_zero_padded(&mut text, 7, 3);
    push_zero_padded(&mut text, 12345, 3);
    assert_eq!(text, b"00712345".to_vec());
}

#[test]
fn test_fixed_point() {
    let cases: [(i64, u32, usize, &str); 6] = [
        (14700, 3, 7, "014.700"),
        (-4712, 3, 7, "-04.712"),
        (5100, 4, 9, "0000.5100"),
        (-10000, 4, 9, "-001.0000"),
        (123456789, 4, 9, "12345.6789"),
        (i64::MIN, 2, 1, "-92233720368547758.08"),
    ];
    for (value, decimals, width, expected) in cases {
        let mut text = Vec::new();
        push_fixed_point(&mut text, value, decimals, width);
        assert_eq!(String::from_utf8(text).unwrap(), expected);
    }
    // The same as Rust's formatting of the exact value where it is exact.
    for value in [-123456i64, -1, 0, 1, 999, 123456] {
        let mut text = Vec::new();
        push_fixed_point(&mut text, value, 3, 8);
        assert_eq!(
            String::from_utf8(text).unwrap(),
            format!("{:08.3}", value as f64 / 1000.0)
        );
    }
}

#[test]
fn test_index_of() {
    assert_eq!(index_of(&[5, 20, 5], 5), Some(0));
    assert_eq!(index_of(&[5, 20, 5], 20), Some(1));
    assert_eq!(index_of(&[5, 20, 5], 4), None);
    assert_eq!(index_of(&[], 4), None);
}
