use ruddr::model::types::{Date, Slug, Timestamp, UUID};

#[test]
fn test_date_new() {
    assert_eq!(
        "1234-56-78",
        Date::new(String::from("1234-56-78"))
            .expect("date conversion failed")
            .as_str()
    )
}

#[test]
fn test_date_new_error() {
    assert_eq!(
        Date::new(String::from("99-99-9999")).unwrap_err().message(),
        "invalid date: 99-99-9999"
    );
}

#[test]
fn test_date_from_str() {
    assert_eq!(
        "1234-56-78",
        Date::try_from("1234-56-78")
            .expect("date conversion failed")
            .as_str()
    )
}

#[test]
fn test_date_from_string() {
    assert_eq!(
        Date::try_from(String::from("1234-56-78"))
            .expect("date conversion failed")
            .as_str(),
        "1234-56-78",
    )
}

#[test]
fn test_date_to_string() {
    assert_eq!(
        String::from("1234-56-78"),
        String::from(Date::try_from("1234-56-78").expect("date conversion failed"))
    )
}

#[test]
fn test_date_to_str() {
    let value = Date::try_from("1234-56-78").expect("date conversion failed");
    assert_eq!("1234-56-78", <&str>::from(&value));
    assert_eq!(
        "1234-56-78",
        &String::from(Date::try_from("1234-56-78").expect("date conversion failed"))
    )
}

#[test]
fn test_date_display() {
    assert_eq!(
        String::from("1234-56-78"),
        Date::try_from("1234-56-78")
            .expect("date conversion failed")
            .to_string()
    )
}

#[test]
fn test_timestamp_new() {
    assert_eq!(
        "1234-56-78T12:34:56.789Z",
        Timestamp::new(String::from("1234-56-78T12:34:56.789Z"))
            .expect("timestamp conversion failed")
            .as_str()
    )
}

#[test]
fn test_timestamp_new_error() {
    assert_eq!(
        Timestamp::new(String::from("99-99-9999")).unwrap_err().message(),
        "invalid timestamp: 99-99-9999"
    );
}

#[test]
fn test_timestamp_from_str() {
    assert_eq!(
        "1234-56-78T12:34:56.789Z",
        Timestamp::try_from("1234-56-78T12:34:56.789Z")
            .expect("timestamp conversion failed")
            .as_str()
    )
}

#[test]
fn test_timestamp_from_string() {
    assert_eq!(
        Timestamp::try_from(String::from("1234-56-78T12:34:56.789Z"))
            .expect("timestamp conversion failed")
            .as_str(),
        "1234-56-78T12:34:56.789Z",
    )
}

#[test]
fn test_timestamp_to_string() {
    assert_eq!(
        String::from("1234-56-78T12:34:56.789Z"),
        String::from(Timestamp::try_from("1234-56-78T12:34:56.789Z").expect("timestamp conversion failed"))
    )
}

#[test]
fn test_timestamp_to_str() {
    let value = Timestamp::try_from("1234-56-78T12:34:56.789Z").expect("timestamp conversion failed");
    assert_eq!("1234-56-78T12:34:56.789Z", <&str>::from(&value));
    assert_eq!(
        "1234-56-78T12:34:56.789Z",
        &String::from(Timestamp::try_from("1234-56-78T12:34:56.789Z").expect("timestamp conversion failed"))
    )
}

#[test]
fn test_timestamp_display() {
    assert_eq!(
        String::from("1234-56-78T12:34:56.789Z"),
        Timestamp::try_from("1234-56-78T12:34:56.789Z")
            .expect("timestamp conversion failed")
            .to_string()
    )
}

#[test]
fn test_uuid_new() {
    assert_eq!(
        "4c8d3f42-6efd-4a7e-85ca-d43164db0ab2",
        UUID::new(String::from("4c8d3f42-6efd-4a7e-85ca-d43164db0ab2"))
            .expect("uuid conversion failed")
            .as_str()
    )
}

#[test]
fn test_uuid_new_error() {
    assert_eq!(
        UUID::new(String::from("foo-bar-baz")).unwrap_err().message(),
        "invalid uuid: foo-bar-baz"
    );
}

#[test]
fn test_uuid_from_str() {
    assert_eq!(
        "4c8d3f42-6efd-4a7e-85ca-d43164db0ab2",
        UUID::try_from("4c8d3f42-6efd-4a7e-85ca-d43164db0ab2")
            .expect("uuid conversion failed")
            .as_str()
    )
}

#[test]
fn test_uuid_from_string() {
    assert_eq!(
        UUID::try_from(String::from("4c8d3f42-6efd-4a7e-85ca-d43164db0ab2"))
            .expect("uuid conversion failed")
            .as_str(),
        "4c8d3f42-6efd-4a7e-85ca-d43164db0ab2",
    )
}

#[test]
fn test_uuid_to_string() {
    assert_eq!(
        String::from("4c8d3f42-6efd-4a7e-85ca-d43164db0ab2"),
        String::from(UUID::try_from("4c8d3f42-6efd-4a7e-85ca-d43164db0ab2").expect("uuid conversion failed"))
    )
}

#[test]
fn test_uuid_to_str() {
    let value = UUID::try_from("4c8d3f42-6efd-4a7e-85ca-d43164db0ab2").expect("uuid conversion failed");
    assert_eq!("4c8d3f42-6efd-4a7e-85ca-d43164db0ab2", <&str>::from(&value));
    assert_eq!(
        "4c8d3f42-6efd-4a7e-85ca-d43164db0ab2",
        &String::from(UUID::try_from("4c8d3f42-6efd-4a7e-85ca-d43164db0ab2").expect("uuid conversion failed"))
    )
}

#[test]
fn test_uuid_display() {
    assert_eq!(
        String::from("4c8d3f42-6efd-4a7e-85ca-d43164db0ab2"),
        UUID::try_from("4c8d3f42-6efd-4a7e-85ca-d43164db0ab2")
            .expect("uuid conversion failed")
            .to_string()
    )
}

#[test]
fn test_slug_new() {
    assert_eq!(
        "vendor1-portal2",
        Slug::new(String::from("vendor1-portal2"))
            .expect("slug conversion failed")
            .as_str()
    )
}

#[test]
fn test_slug_new_error() {
    assert_eq!(
        Slug::new(String::from("Foo-Bar-Baz!")).unwrap_err().message(),
        "invalid slug: Foo-Bar-Baz!"
    );
}

#[test]
fn test_slug_from_str() {
    assert_eq!(
        "vendor1-portal2",
        Slug::try_from("vendor1-portal2")
            .expect("slug conversion failed")
            .as_str()
    )
}

#[test]
fn test_slug_from_string() {
    assert_eq!(
        Slug::try_from(String::from("vendor1-portal2"))
            .expect("slug conversion failed")
            .as_str(),
        "vendor1-portal2",
    )
}

#[test]
fn test_slug_to_string() {
    assert_eq!(
        String::from("vendor1-portal2"),
        String::from(Slug::try_from("vendor1-portal2").expect("slug conversion failed"))
    )
}

#[test]
fn test_slug_to_str() {
    let value = Slug::try_from("vendor1-portal2").expect("slug conversion failed");
    assert_eq!("vendor1-portal2", <&str>::from(&value));
    assert_eq!(
        "vendor1-portal2",
        &String::from(Slug::try_from("vendor1-portal2").expect("slug conversion failed"))
    )
}

#[test]
fn test_slug_display() {
    assert_eq!(
        String::from("vendor1-portal2"),
        Slug::try_from("vendor1-portal2")
            .expect("slug conversion failed")
            .to_string()
    )
}
