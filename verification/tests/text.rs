use moonlight_web::text::{
    contains, decimal_text, parse_u16, same_text, same_text_ignoring_case, signed_decimal_text,
    to_lower,
};

#[test]
fn numbers_are_written_in_decimal() {
    assert_eq!(decimal_text(0), "0");
    assert_eq!(decimal_text(7), "7");
    assert_eq!(decimal_text(47989), "47989");
    assert_eq!(decimal_text(u64::MAX), "18446744073709551615");
    assert_eq!(signed_decimal_text(0), "0");
    assert_eq!(signed_decimal_text(-102), "-102");
    assert_eq!(signed_decimal_text(i32::MIN), "-2147483648");
    assert_eq!(signed_decimal_text(i32::MAX), "2147483647");
}

#[test]
fn ports_are_read_like_numbers() {
    for text in [
        "0", "47990", "65535", "65536", "+1", "+", "-1", "", " 1", "1 ", "1a", "00080",
        "99999999999999999999",
    ] {
        assert_eq!(parse_u16(text), text.parse::<u16>().ok(), "{text}");
    }
}

#[test]
fn port_text_reads_back() {
    for port in [0u16, 1, 9, 10, 80, 47989, 47990, u16::MAX] {
        assert_eq!(parse_u16(decimal_text(port as u64).as_str()), Some(port));
    }
}

#[test]
fn texts_are_compared_and_searched() {
    assert!(same_text("127.0.0.1", "127.0.0.1"));
    assert!(!same_text("127.0.0.1", "127.0.0.10"));
    assert!(same_text_ignoring_case("TrUe", "true"));
    assert!(!same_text_ignoring_case("true ", "true"));
    assert!(contains("Bad Certificate", "Certificate"));
    assert!(!contains("Bad certificate", "Certificate"));
    assert!(contains("", ""));
    assert!(!contains("Cert", "Certificate"));
    assert_eq!(to_lower('D'), 'd');
    assert_eq!(to_lower('\u{c4}'), '\u{c4}');
}
