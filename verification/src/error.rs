//! Error taxonomy: validation errors are local to a single request or frame
//! and never tear a session down; not-found errors abort a handshake.

use vstd::prelude::*;

verus! {

/// A request or an inbound frame carried data the validators refuse.
#[derive(Clone, Copy, Debug, PartialEq, Eq, Structural)]
pub enum ValidationError {
    InvalidMessage,
    TodoTooShort,
    DescriptionTooShort,
    DescriptionCanNotBeNull,
    InvalidTag,
    InvalidCategories,
    InvalidProfilePicUrl,
    InvalidEmail,
    InvalidPassword,
    TooShortName,
    UserAlreadyExits,
    FailedToCreateToken,
}

impl ValidationError {
    /// The human-readable description of the error.
    pub fn message(&self) -> (r: &'static str)
        ensures
            r@ == self.message_spec(),
    {
        match self {
            ValidationError::InvalidMessage => "Message should not null",
            ValidationError::TodoTooShort => "Todo must be 5 cherecters long",
            ValidationError::DescriptionTooShort => "Description must be 5 cherecters long",
            ValidationError::DescriptionCanNotBeNull => "Description cannot be null",
            ValidationError::InvalidTag => "Tag must be 2 cherecter long or alphabets only",
            ValidationError::InvalidCategories => "Category must be 2 cherecter long or alphabet only",
            ValidationError::InvalidProfilePicUrl => "Invalid profile pic",
            ValidationError::InvalidEmail => "user enter invalid email",
            ValidationError::InvalidPassword => "Invalid Password",
            ValidationError::TooShortName => "Name must be 3 cherecter long",
            ValidationError::UserAlreadyExits => "User already exits",
            ValidationError::FailedToCreateToken => "Failed to create token",
        }
    }

    /// The characters of [`ValidationError::message`].
    pub open spec fn message_spec(&self) -> Seq<char> {
        match self {
            ValidationError::InvalidMessage => "Message should not null"@,
            ValidationError::TodoTooShort => "Todo must be 5 cherecters long"@,
            ValidationError::DescriptionTooShort => "Description must be 5 cherecters long"@,
            ValidationError::DescriptionCanNotBeNull => "Description cannot be null"@,
            ValidationError::InvalidTag => "Tag must be 2 cherecter long or alphabets only"@,
            ValidationError::InvalidCategories => "Category must be 2 cherecter long or alphabet only"@,
            ValidationError::InvalidProfilePicUrl => "Invalid profile pic"@,
            ValidationError::InvalidEmail => "user enter invalid email"@,
            ValidationError::InvalidPassword => "Invalid Password"@,
            ValidationError::TooShortName => "Name must be 3 cherecter long"@,
            ValidationError::UserAlreadyExits => "User already exits"@,
            ValidationError::FailedToCreateToken => "Failed to create token"@,
        }
    }
}

/// A looked-up entity does not exist.
#[derive(Clone, Copy, Debug, PartialEq, Eq, Structural)]
pub enum NotFoundError {
    TodoNotFound,
    UserNotFound,
    TagNotFound,
    CategoryNotFound,
    RoomNotFound,
    DailyProgressNotFound,
}

impl NotFoundError {
    /// The human-readable description of the error.
    pub fn message(&self) -> (r: &'static str)
        ensures
            r@ == self.message_spec(),
    {
        match self {
            NotFoundError::TodoNotFound => "Todo don't found",
            NotFoundError::UserNotFound => "User Not found",
            NotFoundError::TagNotFound => "Tag aren't found",
            NotFoundError::CategoryNotFound => "Category not found",
            NotFoundError::RoomNotFound => "Room not found",
            NotFoundError::DailyProgressNotFound => "Daily progress room not found",
        }
    }

    /// The characters of [`NotFoundError::message`].
    pub open spec fn message_spec(&self) -> Seq<char> {
        match self {
            NotFoundError::TodoNotFound => "Todo don't found"@,
            NotFoundError::UserNotFound => "User Not found"@,
            NotFoundError::TagNotFound => "Tag aren't found"@,
            NotFoundError::CategoryNotFound => "Category not found"@,
            NotFoundError::RoomNotFound => "Room not found"@,
            NotFoundError::DailyProgressNotFound => "Daily progress room not found"@,
        }
    }
}

/// Validation errors raised by the todo, tag and category validators.
#[derive(Clone, Copy, Debug, PartialEq, Eq, Structural)]
pub enum TodoValidationError {
    TodoTooShort,
    DescriptionTooShort,
    InvalidTag,
    InvalidCategories,
}

/// Validation errors raised by the sign-up and login validators.
#[derive(Clone, Copy, Debug, PartialEq, Eq, Structural)]
pub enum UserValidationError {
    InvalidEmail,
    InvalidPassword,
    TooShortName,
    UserAlreadyExits,
    FailedToCreateToken,
}

} // verus!
