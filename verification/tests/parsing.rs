use blobs::control::parse_target_count;

#[test]
fn missing_control_yields_default() {
    assert_eq!(parse_target_count(None), 10);
}

#[test]
fn empty_text_yields_default() {
    assert_eq!(parse_target_count(Some(b"")), 10);
}

#[test]
fn garbage_yields_default() {
    assert_eq!(parse_target_count(Some(b"abc")), 10);
    assert_eq!(parse_target_count(Some(b"12x")), 10);
    assert_eq!(parse_target_count(Some(b" 5")), 10);
    assert_eq!(parse_target_count(Some(b"5 ")), 10);
}

#[test]
fn negative_yields_default() {
    assert_eq!(parse_target_count(Some(b"-3")), 10);
}

#[test]
fn plain_number_parses() {
    assert_eq!(parse_target_count(Some(b"0")), 0);
    assert_eq!(parse_target_count(Some(b"25")), 25);
    assert_eq!(parse_target_count(Some(b"10")), 10);
}

#[test]
fn leading_plus_parses() {
    assert_eq!(parse_target_count(Some(b"+7")), 7);
    assert_eq!(parse_target_count(Some(b"+")), 10);
    assert_eq!(parse_target_count(Some(b"++3")), 10);
}

#[test]
fn leading_zeroes_parse() {
    assert_eq!(parse_target_count(Some(b"007")), 7);
}

#[test]
fn overlong_number_yields_default() {
    assert_eq!(parse_target_count(Some(b"99999999999999999999999999")), 10);
}

#[test]
fn largest_value_parses() {
    let max = usize::MAX.to_string();
    assert_eq!(parse_target_count(Some(max.as_bytes())), usize::MAX);
}

#[test]
fn matches_host_parsing() {
    let cases: [&[u8]; 8] = [b"", b"42", b"+9", b"-1", b"00", b"4294967296", b"abc", b"7 "];
    for c in cases {
        let text = core::str::from_utf8(c).unwrap();
        let expected = text.parse::<usize>().unwrap_or(10);
        assert_eq!(parse_target_count(Some(c)), expected);
    }
}
