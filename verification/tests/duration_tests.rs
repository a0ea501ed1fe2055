use sharedserver::parse_duration;

#[test]
fn test_parse_duration() {
    assert_eq!(parse_duration("5m").unwrap(), 300);
    assert_eq!(parse_duration("1h").unwrap(), 3600);
    assert_eq!(parse_duration("2h30m").unwrap(), 9000);
    assert_eq!(parse_duration("90s").unwrap(), 90);
    assert_eq!(parse_duration("1h30m45s").unwrap(), 5445);

    assert!(parse_duration("").is_err());
    assert!(parse_duration("5").is_err());
    assert!(parse_duration("5x").is_err());
    assert!(parse_duration("0m").is_err());
}

#[test]
fn test_parse_duration_case_and_whitespace() {
    assert_eq!(parse_duration("5M").unwrap(), 300);
    assert_eq!(parse_duration("1H 30m").unwrap(), 5400);
    assert_eq!(parse_duration(" 45s ").unwrap(), 45);
    assert_eq!(parse_duration("1 0m").unwrap(), 600);
    assert_eq!(parse_duration("5\u{A0}m").unwrap(), 300);
    assert_eq!(parse_duration("2h\u{3000}30m").unwrap(), 9000);
}

#[test]
fn test_parse_duration_u64_boundary() {
    assert_eq!(
        parse_duration("18446744073709551615s").unwrap(),
        u64::MAX
    );
    assert!(parse_duration("18446744073709551616s").is_err());
}

#[test]
fn test_parse_duration_rejections() {
    assert!(parse_duration("m").is_err());
    assert!(parse_duration("  ").is_err());
    assert!(parse_duration("5m3").is_err());
    assert!(parse_duration("99999999999999999999h").is_err());
    let err = parse_duration("5x").unwrap_err();
    assert!(matches!(err, sharedserver::Error::InvalidDuration));
}
