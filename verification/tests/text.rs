use enum_response_derive::text::{parse_decimal, str_eq};

#[test]
fn equal_strings_are_equal() {
    assert!(str_eq("", ""));
    assert!(str_eq("status", "status"));
    assert!(str_eq("grüße", "grüße"));
    assert!(!str_eq("status", "status_field"));
    assert!(!str_eq("status_field", "status"));
    assert!(!str_eq("status", "statuS"));
    assert!(!str_eq("", " "));
    assert!(!str_eq("é", "e"));
}

#[test]
fn decimal_numbers_are_parsed() {
    assert_eq!(parse_decimal("0", 65535), Some(0));
    assert_eq!(parse_decimal("402", 65535), Some(402));
    assert_eq!(parse_decimal("65535", 65535), Some(65535));
    assert_eq!(parse_decimal("+5", 65535), Some(5));
    assert_eq!(parse_decimal("007", 65535), Some(7));
    assert_eq!(parse_decimal("000000000000000000000000400", 65535), Some(400));
    assert_eq!(parse_decimal("18446744073709551615", u64::MAX), Some(u64::MAX));
    assert_eq!(parse_decimal("9", 9), Some(9));
    assert_eq!(parse_decimal("0", 0), Some(0));
}

#[test]
fn what_is_no_decimal_number_is_not_parsed() {
    for text in ["", "+", "-", "-5", "++5", "+-5", "5+", " 5", "5 ", "1_0", "0x10", "1.0", "a", "４", "١", "1e3", "NotFound"] {
        assert_eq!(parse_decimal(text, u64::MAX), None, "{:?}", text);
        assert_eq!(text.parse::<u64>().ok(), None, "{:?}", text);
    }
}

#[test]
fn numbers_beyond_the_limit_are_not_parsed() {
    assert_eq!(parse_decimal("65536", 65535), None);
    assert_eq!(parse_decimal("70000", 65535), None);
    assert_eq!(parse_decimal("10", 9), None);
    assert_eq!(parse_decimal("1", 0), None);
    assert_eq!(parse_decimal("18446744073709551616", u64::MAX), None);
    assert_eq!(parse_decimal("99999999999999999999999999", u64::MAX), None);
    assert_eq!(parse_decimal("184467440737095516150", u64::MAX), None);
}

#[test]
fn parsing_agrees_with_the_standard_library() {
    let samples = [
        "0", "1", "+1", "00", "+00", "255", "256", "65535", "65536", "+65535", "065535",
        "4294967295", "4294967296", "18446744073709551615", "18446744073709551616", "x", "",
        "+", "12a", "a12", "1 2", "-0", "+0",
    ];
    for text in samples {
        assert_eq!(parse_decimal(text, 65535), text.parse::<u16>().ok().map(u64::from), "{:?}", text);
        assert_eq!(parse_decimal(text, u64::MAX), text.parse::<u64>().ok(), "{:?}", text);
        assert_eq!(
            parse_decimal(text, 4294967295),
            text.parse::<u32>().ok().map(u64::from),
            "{:?}",
            text
        );
    }
}
