use web_sample::token::{bytes_to_hex, parse_field, parse_hex16, push_hex16};

#[test]
fn hex16_writes_sixteen_digits() {
    let mut out = String::new();
    push_hex16(&mut out, 0x0123_4567_89ab_cdef);
    assert_eq!(out, "0123456789abcdef");
    let mut zero = String::new();
    push_hex16(&mut zero, 0);
    assert_eq!(zero, "0000000000000000");
}

#[test]
fn bytes_to_hex_exact_value() {
    assert_eq!(bytes_to_hex(&vec![0xbe, 0xef]), "beef");
    assert_eq!(bytes_to_hex(&vec![]), "");
    assert_eq!(bytes_to_hex(&vec![0x00, 0x0a]), "000a");
}

#[test]
fn parse_hex16_reads_back() {
    assert_eq!(parse_hex16("0123456789abcdef", 0), Some(0x0123_4567_89ab_cdef));
    assert_eq!(parse_hex16("xx0123456789abcdef", 2), Some(0x0123_4567_89ab_cdef));
    assert_eq!(parse_hex16("0123456789abcdeg", 0), None);
    assert_eq!(parse_hex16("0123456789ABCDEF", 0), None);
}

#[test]
fn parse_field_reads_a_prefixed_string() {
    // A field is a 16-digit length followed by that many characters.
    let s = "0000000000000005hello...";
    let (field, next) = parse_field(s, 0).expect("well-formed field");
    assert_eq!(field, "hello");
    assert_eq!(next, 21);
    // A length that overruns the string is rejected.
    assert_eq!(parse_field("0000000000000005hi", 0), None);
    // A non-hexadecimal length is rejected.
    assert_eq!(parse_field("000000000000000zhi", 0), None);
}
