//! Room and message records and their validators.
//!
//! Identities and timestamps are carried as opaque strings: the chat core
//! never looks inside them, it only moves them between the store, the topic
//! and the wire.

use vstd::prelude::*;

use crate::error::ValidationError;
use crate::text::{char_len, trim, trim_spec};

verus! {

/// A persisted room.
pub struct Room {
    pub id: String,
    pub owner_id: String,
    pub name: String,
    pub description: Option<String>,
    pub profile_pic: Option<String>,
    pub created_at: String,
}

/// A persisted chat message joined with its author's display name, as the
/// store returns it.
#[derive(Clone, Debug, PartialEq, Eq)]
pub struct MessageResponse {
    pub id: String,
    pub user_name: String,
    pub content: String,
    pub created_at: String,
}

/// Payload of a room-creation request.
#[derive(Debug)]
pub struct RoomDto {
    pub name: String,
    pub description: Option<String>,
    pub profile_pic: Option<String>,
}

impl RoomDto {
    /// Whether the optional description passes validation: absent, or not
    /// blank once trimmed.
    pub open spec fn description_ok(&self) -> bool {
        self.description matches Some(d) ==> trim_spec(d@).len() > 0
    }

    /// Whether the optional avatar reference passes validation: absent, or
    /// not blank once trimmed.
    pub open spec fn profile_pic_ok(&self) -> bool {
        self.profile_pic matches Some(p) ==> trim_spec(p@).len() > 0
    }

    /// Validates a room-creation request: trims the name and refuses a
    /// description or an avatar reference that is present but blank.
    pub fn validate(dto: RoomDto) -> (r: Result<RoomDto, ValidationError>)
        ensures
            r is Ok <==> dto.description_ok() && dto.profile_pic_ok(),
            r matches Ok(v) ==> {
                &&& v.name@ == trim_spec(dto.name@)
                &&& v.description == dto.description
                &&& v.profile_pic == dto.profile_pic
            },
            r == Err::<RoomDto, ValidationError>(ValidationError::DescriptionCanNotBeNull)
                <==> !dto.description_ok(),
            r == Err::<RoomDto, ValidationError>(ValidationError::InvalidProfilePicUrl)
                <==> dto.description_ok() && !dto.profile_pic_ok(),
    {
        let RoomDto { name, description, profile_pic } = dto;

        if let Some(des) = &description {
            if char_len(trim(des.as_str()).as_str()) == 0 {
                return Err(ValidationError::DescriptionCanNotBeNull);
            }
        }

        if let Some(pic) = &profile_pic {
            if char_len(trim(pic.as_str()).as_str()) == 0 {
                return Err(ValidationError::InvalidProfilePicUrl);
            }
        }

        let name = trim(name.as_str());
        Ok(RoomDto { name, description, profile_pic })
    }
}

/// Payload of an inbound chat message before validation.
#[derive(Debug, PartialEq, Eq)]
pub struct MessageDto {
    pub room_id: String,
    pub content: String,
}

impl MessageDto {
    /// Validates an inbound chat message: the content must not be blank;
    /// the persisted content is the trimmed text.
    pub fn validate(dto: MessageDto) -> (r: Result<MessageDto, ValidationError>)
        ensures
            r is Ok <==> trim_spec(dto.content@).len() > 0,
            r matches Ok(v) ==> v.content@ == trim_spec(dto.content@) && v.room_id == dto.room_id,
            r is Err ==> r == Err::<MessageDto, ValidationError>(ValidationError::InvalidMessage),
    {
        let MessageDto { room_id, content } = dto;
        let content = trim(content.as_str());

        if char_len(content.as_str()) == 0 {
            return Err(ValidationError::InvalidMessage);
        }

        Ok(MessageDto { content, room_id })
    }
}

} // verus!
