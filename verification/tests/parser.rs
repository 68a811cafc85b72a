use spike_dasm_rs::parser;

#[test]
fn parse_hex_strings() {
    // Not only is this input valid...
    assert!(parser::hex_u32("12345678").is_some());
    // ...but there's nothing left to parse after we're done.
    assert_eq!(parser::hex_u32("12345678").unwrap().0, "");

    // On the other hand, this input is invalid...
    assert!(parser::hex_u32("xyz").is_none());

    // ...and this input has some trailing characters that don't match.
    assert_eq!(parser::hex_u32("1234abcdxyz456").unwrap(), ("xyz456", 0x1234abcd));

    // We support mixed case.
    let (rest, value) = parser::hex_u32("12aBcDeF").unwrap();
    assert_eq!(rest, "");
    assert_eq!(value, 0x12abcdef);

    // We don't support underscores...
    assert!(parser::hex_u32("12ab_cdef").is_none());

    // ...or leading '0x'/'0X'.
    assert!(parser::hex_u32("0x12ABCDEF").is_none());
    assert!(parser::hex_u32("0X12abcdef").is_none());

    assert_eq!(parser::hex_u32("0123abCD").unwrap(), ("", 0x123abcd));
}

#[test]
fn parse_lines() {
    let begin = "foo";
    let end = "bar";
    let test_str = format!("{}DASM(fedcab10){}", begin, end);
    assert_eq!(parser::parse_value(&test_str), Some((end, (begin, 0xfedcab10))));
}

#[test]
fn parse_marker_with_surrounding_text() {
    assert_eq!(
        parser::parse_value("leading[DASM(0123def0)]trailing"),
        Some(("]trailing", ("leading[", 0x0123def0)))
    );
    assert!(parser::parse_value("nothing to see here").is_none());
}

#[test]
fn parse_marker_edge_cases() {
    // A line that is nothing but the marker.
    assert_eq!(parser::parse_value("DASM(00000001)"), Some(("", ("", 1))));
    // Too few digits before the closing parenthesis.
    assert!(parser::parse_value("DASM(1234567)").is_none());
    // Nine digits: eight are taken, and the ninth is no closing parenthesis.
    assert!(parser::parse_value("DASM(123456789)").is_none());
    // A non-hex character among the eight.
    assert!(parser::parse_value("DASM(1234567g)").is_none());
    // The marker alone at the end of the line.
    assert!(parser::parse_value("tail DASM(").is_none());
    // Only the first marker counts, even when a later one is well-formed.
    assert!(parser::parse_value("DASM(xyz) DASM(12345678)").is_none());
    // Mixed case digits.
    assert_eq!(parser::parse_value("DASM(0123abCD)!"), Some(("!", ("", 0x123abcd))));
}
