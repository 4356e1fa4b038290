use buttondeck::ButtonColor;

#[test]
fn parses_plain_hex() {
    assert_eq!(ButtonColor::parse("ff0000").rgb, 0xff0000);
}

#[test]
fn parses_with_hash_prefix() {
    assert_eq!(ButtonColor::parse("#00ff00").rgb, 0x00ff00);
    assert_eq!(ButtonColor::parse("##0000ff").rgb, 0x0000ff);
}

#[test]
fn parses_with_hex_prefix() {
    assert_eq!(ButtonColor::parse("0x123456").rgb, 0x123456);
    assert_eq!(ButtonColor::parse("#0x0xABCDEF").rgb, 0xabcdef);
}

#[test]
fn takes_a_plus_sign() {
    assert_eq!(ButtonColor::parse("+ff").rgb, 0xff);
    assert_eq!(ButtonColor::parse("++ff").rgb, 0);
    assert_eq!(ButtonColor::parse("+").rgb, 0);
}

#[test]
fn what_is_no_number_is_black() {
    assert_eq!(ButtonColor::parse("").rgb, 0);
    assert_eq!(ButtonColor::parse("#").rgb, 0);
    assert_eq!(ButtonColor::parse("red").rgb, 0);
    assert_eq!(ButtonColor::parse("-1").rgb, 0);
    assert_eq!(ButtonColor::parse("12 ").rgb, 0);
    assert_eq!(ButtonColor::parse("x12").rgb, 0);
}

#[test]
fn what_does_not_fit_is_black() {
    assert_eq!(ButtonColor::parse("ffffffff").rgb, 0xffff_ffff);
    assert_eq!(ButtonColor::parse("100000000").rgb, 0);
    assert_eq!(ButtonColor::parse("0000000000ff").rgb, 0xff);
}

#[test]
fn agrees_with_the_standard_parser() {
    for text in ["#12ab", "0xFFFFFF", "zz", "", "+7", "#0x", "123456789", "0x#12"] {
        let hex = text.trim_start_matches("#").trim_start_matches("0x");
        let expected = u32::from_str_radix(hex, 16).unwrap_or(0);
        assert_eq!(ButtonColor::parse(text).rgb, expected, "{}", text);
    }
}
