use racoon_typper::custom_texts::{validate_text, MAX_CUSTOM_TEXT_LENGTH, MAX_NAME_LENGTH};

#[test]
fn validate_empty_name_rejected() {
    assert!(validate_text("", "hello").is_err());
    assert!(validate_text("   ", "hello").is_err());
}

#[test]
fn validate_empty_text_rejected() {
    assert!(validate_text("Name", "").is_err());
    assert!(validate_text("Name", "   ").is_err());
}

#[test]
fn validate_too_long_name_rejected() {
    let long_name = "a".repeat(MAX_NAME_LENGTH + 1);
    assert!(validate_text(&long_name, "text").is_err());
}

#[test]
fn validate_too_long_text_rejected() {
    let long_text = "a".repeat(MAX_CUSTOM_TEXT_LENGTH + 1);
    assert!(validate_text("Name", &long_text).is_err());
}

#[test]
fn validate_valid_text_accepted() {
    assert!(validate_text("My Text", "Hello world").is_ok());
    assert!(validate_text("A", "x").is_ok());
}

#[test]
fn validate_reports_each_reason() {
    assert_eq!(validate_text(" ", "").unwrap_err(), "Name is empty");
    assert_eq!(validate_text(&"n".repeat(201), "").unwrap_err(), "Name too long (max 200 chars)");
    assert_eq!(validate_text("n", "\t\n").unwrap_err(), "Text is empty");
    assert_eq!(validate_text("n", &"t".repeat(10_001)).unwrap_err(), "Text too long (max 10000 chars)");
    // Limits count characters, whatever their encoded size.
    assert!(validate_text(&"я".repeat(200), "x").is_ok());
    assert!(validate_text(&"я".repeat(201), "x").is_err());
    assert!(validate_text("n", &"ж".repeat(10_000)).is_ok());
}
