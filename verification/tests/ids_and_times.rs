use grok_desktop::chats::{timestamp_text, Timestamp};
use grok_desktop::session::{validate_model_id, validate_uuid_id};

#[test]
fn uuid_ids_are_checked_after_the_safe_name_check() {
    assert!(validate_uuid_id("123e4567-e89b-12d3-a456-426614174000", "chat").is_ok());
    assert!(validate_uuid_id("123E4567E89B12D3A456426614174000", "chat").is_ok());
    assert_eq!(
        validate_uuid_id("123e4567-e89b-12d3-a456-42661417400", "chat").err().as_deref(),
        Some("Invalid chat id (expected UUID)")
    );
    assert_eq!(
        validate_uuid_id("123e4567-e89b-12d3-a456-4266141740000", "message").err().as_deref(),
        Some("Invalid message id (expected UUID)")
    );
    assert_eq!(
        validate_uuid_id("../etc", "chat").err().as_deref(),
        Some("Invalid chat id (expected UUID-like characters only)")
    );
    assert_eq!(validate_uuid_id("", "chat").err().as_deref(), Some("Invalid chat id"));
}

#[test]
fn model_ids_are_checked() {
    assert!(validate_model_id("grok-4").is_ok());
    assert_eq!(validate_model_id("   ").err().as_deref(), Some("Invalid model id"));
}

#[test]
fn timestamps_are_written_in_rfc3339() {
    let epoch = Timestamp::new(0, 0).expect("in range");
    assert_eq!(timestamp_text(&epoch), "1970-01-01T00:00:00+00:00");
    let later = Timestamp::new(1_700_000_000, 500_000_000).expect("in range");
    assert_eq!(timestamp_text(&later), "2023-11-14T22:13:20.500+00:00");
}
