use frostwatch::{parse_comma_decimal, MonitorError, Reading};

fn parse(s: &str) -> Result<Reading, MonitorError> {
    parse_comma_decimal(&s.as_bytes().to_vec())
}

#[test]
fn parses_comma_decimal() {
    let r = parse("1,5").expect("valid numeral");
    assert_eq!(r, Reading { negative: false, units: 1, frac: vec![5] });
}

#[test]
fn parses_negative_comma_decimal() {
    let r = parse("-0,3").expect("valid numeral");
    assert_eq!(r, Reading { negative: true, units: 0, frac: vec![3] });
}

#[test]
fn parses_period_decimal() {
    // A period already is a valid separator after the rewrite.
    let r = parse("1.5").expect("valid numeral");
    assert_eq!(r, Reading { negative: false, units: 1, frac: vec![5] });
}

#[test]
fn parses_plain_integer() {
    let r = parse("12").expect("valid numeral");
    assert_eq!(r, Reading { negative: false, units: 12, frac: vec![] });
}

#[test]
fn parses_signed_fraction_only() {
    let r = parse("+,5").expect("valid numeral");
    assert_eq!(r, Reading { negative: false, units: 0, frac: vec![5] });
}

#[test]
fn rejects_letters() {
    assert_eq!(parse("abc"), Err(MonitorError::Parse));
}

#[test]
fn rejects_empty() {
    assert_eq!(parse(""), Err(MonitorError::Parse));
}

#[test]
fn rejects_two_separators() {
    assert_eq!(parse("1,5,0"), Err(MonitorError::Parse));
    assert_eq!(parse("1.5,0"), Err(MonitorError::Parse));
}

#[test]
fn rejects_sign_alone() {
    assert_eq!(parse("-"), Err(MonitorError::Parse));
    assert_eq!(parse("+"), Err(MonitorError::Parse));
    assert_eq!(parse(","), Err(MonitorError::Parse));
}

#[test]
fn rejects_inner_sign() {
    assert_eq!(parse("1-5"), Err(MonitorError::Parse));
}

#[test]
fn largest_integer_part_fits() {
    let r = parse("18446744073709551615").expect("fits in the integer part");
    assert_eq!(r.units, u64::MAX);
    assert_eq!(parse("18446744073709551616"), Err(MonitorError::Parse));
}
