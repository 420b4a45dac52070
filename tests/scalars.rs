use ruddr::error::ValidationError;
use ruddr::model::types::{Date, Slug, Timestamp, UUID};

#[test]
fn identifier_renders_its_input() {
    for text in [
        "4c8d3f42-6efd-4a7e-85ca-d43164db0ab2",
        "00000000-0000-0000-0000-000000000000",
        "ABCDEF01-abcd-EF23-4567-89abcdefABCD",
    ] {
        let id = UUID::try_from(text).expect("identifier refused");
        assert_eq!(id.as_str(), text);
        assert_eq!(id.to_string().as_bytes(), text.as_bytes());
    }
}

#[test]
fn identifier_partial_matches_are_refused() {
    for text in [
        "",
        "4c8d3f42-6efd-4a7e-85ca-d43164db0ab",
        "4c8d3f42-6efd-4a7e-85ca-d43164db0ab2x",
        "x4c8d3f42-6efd-4a7e-85ca-d43164db0ab2",
        "4c8d3f42-6efd-4a7e-85ca-d43164db0ab2\n",
        "4c8d3f42_6efd-4a7e-85ca-d43164db0ab2",
        "gc8d3f42-6efd-4a7e-85ca-d43164db0ab2",
        "4c8d3f426efd-4a7e-85ca-d43164db0ab2-",
    ] {
        assert_eq!(
            UUID::try_from(text),
            Err(ValidationError::Identifier(String::from(text)))
        );
    }
}

#[test]
fn date_and_timestamp_formats_are_exact() {
    assert!(Date::try_from("2024-02-29").is_ok());
    assert!(Date::try_from("2024-2-29").is_err());
    assert!(Date::try_from("2024-02-29T").is_err());
    assert!(Date::try_from("２０２４-02-29").is_err());
    assert!(Timestamp::try_from("2022-02-24T16:08:18.640Z").is_ok());
    assert!(Timestamp::try_from("2022-02-24T16:08:18.64Z").is_err());
    assert!(Timestamp::try_from("2022-02-24 16:08:18.640Z").is_err());
    assert!(Timestamp::try_from("2022-02-24T16:08:18.640").is_err());
}

#[test]
fn slug_alphabet() {
    assert!(Slug::try_from("a").is_ok());
    assert!(Slug::try_from("joes-shop-2").is_ok());
    assert!(Slug::try_from("").is_err());
    assert!(Slug::try_from("Joes-shop").is_err());
    assert!(Slug::try_from("joes_shop").is_err());
    assert_eq!(
        Slug::try_from("é").unwrap_err().message(),
        "invalid slug: é"
    );
}
