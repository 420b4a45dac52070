use ruddr::interface::util::validate_date;

#[test]
fn test_validate_date() {
    assert_eq!(
        validate_date("2024-01-01").expect("date validation errored unexpectedly"),
        "2024-01-01",
        "expected date string not returned",
    )
}

#[test]
fn test_validate_date_err() {
    assert_eq!(
        validate_date("2024-01-0").unwrap_err().to_string(),
        "invalid date",
        "invalid date did not return expected error",
    )
}

#[test]
fn validate_date_is_anchored() {
    assert!(validate_date("x2024-01-01").is_err());
    assert!(validate_date("2024-01-01x").is_err());
}
