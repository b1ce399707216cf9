use chatcore::error::{NotFoundError, ValidationError};
use chatcore::response::ApiResponse;

#[test]
fn success_envelope_carries_its_payload() {
    let r = ApiResponse::success("Room created successfully", 7u32);
    assert_eq!(r.message, "Room created successfully");
    assert!(r.success);
    assert_eq!(r.data, Some(7));
}

#[test]
fn error_envelope_carries_no_payload() {
    let r: ApiResponse<u32> = ApiResponse::error("Room not found");
    assert_eq!(r.message, "Room not found");
    assert!(!r.success);
    assert_eq!(r.data, None);
}

#[test]
fn error_messages_match_their_variants() {
    assert_eq!(ValidationError::InvalidMessage.message(), "Message should not null");
    assert_eq!(ValidationError::DescriptionCanNotBeNull.message(), "Description cannot be null");
    assert_eq!(ValidationError::InvalidProfilePicUrl.message(), "Invalid profile pic");
    assert_eq!(NotFoundError::UserNotFound.message(), "User Not found");
    assert_eq!(NotFoundError::RoomNotFound.message(), "Room not found");
}
