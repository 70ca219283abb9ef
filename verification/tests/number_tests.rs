use hermes::number::parse_i32;

#[test]
fn parse_i32_plain_digits() {
    assert_eq!(parse_i32("12"), Some(12));
    assert_eq!(parse_i32("0"), Some(0));
    assert_eq!(parse_i32("007"), Some(7));
}

#[test]
fn parse_i32_signs() {
    assert_eq!(parse_i32("+5"), Some(5));
    assert_eq!(parse_i32("-42"), Some(-42));
    assert_eq!(parse_i32("-0"), Some(0));
}

#[test]
fn parse_i32_bounds() {
    assert_eq!(parse_i32("2147483647"), Some(i32::MAX));
    assert_eq!(parse_i32("-2147483648"), Some(i32::MIN));
    assert_eq!(parse_i32("2147483648"), None);
    assert_eq!(parse_i32("-2147483649"), None);
    assert_eq!(parse_i32("99999999999999999999"), None);
}

#[test]
fn parse_i32_refuses_what_std_refuses() {
    for s in ["", "-", "+", "1a", " 1", "1 ", "--1", "+-1", "١٢", "0x10"] {
        assert_eq!(parse_i32(s), s.parse::<i32>().ok(), "input {:?}", s);
    }
    assert_eq!(parse_i32(""), None);
    assert_eq!(parse_i32("-"), None);
}

#[test]
fn parse_i32_agrees_with_std() {
    for s in ["1", "-1", "+0", "123456789", "-2147483648", "2147483647", "2147483648", "12x"] {
        assert_eq!(parse_i32(s), s.parse::<i32>().ok(), "input {:?}", s);
    }
}
