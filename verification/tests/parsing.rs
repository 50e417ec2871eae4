use tam_rs::textio::{parse_int, ParseFault};

#[test]
fn parse_int_reads_plain_and_signed_values() {
    assert_eq!(Ok(38), parse_int(b"38"));
    assert_eq!(Ok(0), parse_int(b"0"));
    assert_eq!(Ok(-128), parse_int(b"-128"));
    assert_eq!(Ok(0), parse_int(b"-0"));
    assert_eq!(Ok(42), parse_int(b"0042"));
}

#[test]
fn parse_int_accepts_the_machine_word_bounds() {
    assert_eq!(Ok(32767), parse_int(b"32767"));
    assert_eq!(Ok(-32768), parse_int(b"-32768"));
}

#[test]
fn parse_int_rejects_values_out_of_range() {
    assert_eq!(Err(ParseFault::OutOfRange), parse_int(b"32768"));
    assert_eq!(Err(ParseFault::OutOfRange), parse_int(b"-32769"));
    assert_eq!(Err(ParseFault::OutOfRange), parse_int(b"99999999999999999999"));
}

#[test]
fn parse_int_rejects_malformed_tokens() {
    assert_eq!(Err(ParseFault::Malformed), parse_int(b""));
    assert_eq!(Err(ParseFault::Malformed), parse_int(b"-"));
    assert_eq!(Err(ParseFault::Malformed), parse_int(b"12x3"));
    assert_eq!(Err(ParseFault::Malformed), parse_int(b"--1"));
    assert_eq!(Err(ParseFault::Malformed), parse_int(b"abc"));
    assert_eq!(Err(ParseFault::Malformed), parse_int(b" 5"));
}
