use sharedserver::output::{format_clients, format_duration, format_timestamp};

#[test]
fn test_format_duration() {
    assert_eq!(format_duration(30), "30s");
    assert_eq!(format_duration(60), "1m");
    assert_eq!(format_duration(90), "1m 30s");
    assert_eq!(format_duration(3600), "1h");
    assert_eq!(format_duration(3660), "1h 1m");
    assert_eq!(format_duration(86400), "1d");
    assert_eq!(format_duration(90000), "1d 1h");
}

#[test]
fn test_format_clients() {
    assert!(format_clients(&vec![], 3).contains("none"));
    assert_eq!(format_clients(&vec!["a".to_string()], 3), "a");
    assert_eq!(
        format_clients(&vec!["a".to_string(), "b".to_string()], 3),
        "a, b"
    );
    assert!(format_clients(
        &vec![
            "a".to_string(),
            "b".to_string(),
            "c".to_string(),
            "d".to_string()
        ],
        2
    )
    .contains("+2 more"));
}

#[test]
fn test_format_timestamp() {
    assert_eq!(format_timestamp(1000, 2000), "in the future");
    assert_eq!(format_timestamp(1000, 990), "just now");
    assert_eq!(format_timestamp(1000, 880), "2m ago");
    assert_eq!(format_timestamp(10000, 3000), "1h ago");
    assert_eq!(format_timestamp(20000, 3000), "4h ago");
    assert_eq!(format_timestamp(100000, 5000), "1 day ago");
    assert_eq!(format_timestamp(300000, 5000), "3 days ago");
}
