use tracing_otel_http::text::{decimal_text, parse_u16, push_decimal, str_eq};

#[test]
fn str_eq_compares_characters() {
    assert!(str_eq("", ""));
    assert!(str_eq("host", "host"));
    assert!(!str_eq("host", "Host"));
    assert!(!str_eq("host", "hos"));
    assert!(!str_eq("host", "hosts"));
    assert!(str_eq(" \u{3bc}s", " \u{3bc}s"));
    assert!(!str_eq(" \u{3bc}s", " us"));
}

#[test]
fn decimal_text_of_numbers() {
    assert_eq!(decimal_text(0), "0");
    assert_eq!(decimal_text(7), "7");
    assert_eq!(decimal_text(10), "10");
    assert_eq!(decimal_text(503), "503");
    assert_eq!(decimal_text(1_000_000), "1000000");
    assert_eq!(decimal_text(u128::MAX), "340282366920938463463374607431768211455");
}

#[test]
fn push_decimal_appends() {
    let mut out = String::from("n=");
    push_decimal(&mut out, 42);
    push_decimal(&mut out, 0);
    assert_eq!(out, "n=420");
}

#[test]
fn parse_u16_follows_the_standard_parser() {
    let cases = [
        "", "+", "-", "0", "00", "80", "+80", "-80", "++80", "8443", "65535", "65536", "99999",
        "000000000000065535", "4294967296", "18446744073709551616", "8 0", " 80", "80 ", "8a",
        "a", "0x50", "+0", "+-1", "1+", "655350", "70000",
    ];
    for case in cases {
        let expected: Option<u16> = case.parse::<u16>().ok();
        assert_eq!(parse_u16(case), expected, "for {:?}", case);
    }
    for case in ["\u{ff18}\u{ff10}", "80\u{e9}", "\u{e9}80", "+\u{660}", "8\u{a0}0"] {
        let expected: Option<u16> = case.parse::<u16>().ok();
        assert_eq!(expected, None);
        assert_eq!(parse_u16(case), None, "for {:?}", case);
    }
    assert_eq!(parse_u16("8443"), Some(8443));
    assert_eq!(parse_u16("+80"), Some(80));
    assert_eq!(parse_u16("65536"), None);
    assert_eq!(parse_u16(""), None);
}

#[test]
fn numerals_parse_back() {
    for n in 0..=u16::MAX {
        let numeral: String = decimal_text(u128::from(n));
        assert_eq!(numeral, n.to_string());
        assert_eq!(parse_u16(&numeral), Some(n));
    }
}
