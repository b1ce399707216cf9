use chatcore::error::{TodoValidationError, ValidationError};
use chatcore::room::{MessageDto, RoomDto};
use chatcore::todo::{CreateCategoryDto, CreateTagDto};
use chatcore::user::{LoginCredentials, LoginDto, SignUpCredentials, SignUpDto};

#[test]
fn room_name_is_trimmed_and_options_pass_through() {
    let dto = RoomDto {
        name: "  general  ".to_string(),
        description: Some("a place to talk".to_string()),
        profile_pic: None,
    };
    let room = RoomDto::validate(dto).unwrap();
    assert_eq!(room.name, "general");
    assert_eq!(room.description.as_deref(), Some("a place to talk"));
    assert_eq!(room.profile_pic, None);
}

#[test]
fn blank_room_description_is_refused() {
    let dto = RoomDto {
        name: "general".to_string(),
        description: Some("   ".to_string()),
        profile_pic: None,
    };
    assert_eq!(
        RoomDto::validate(dto).unwrap_err(),
        ValidationError::DescriptionCanNotBeNull
    );
}

#[test]
fn blank_room_profile_pic_is_refused() {
    let dto = RoomDto {
        name: "general".to_string(),
        description: None,
        profile_pic: Some(" \t ".to_string()),
    };
    assert_eq!(
        RoomDto::validate(dto).unwrap_err(),
        ValidationError::InvalidProfilePicUrl
    );
}

#[test]
fn whitespace_only_message_content_is_invalid() {
    let dto = MessageDto { room_id: "room-1".to_string(), content: "   ".to_string() };
    assert_eq!(MessageDto::validate(dto).unwrap_err(), ValidationError::InvalidMessage);
}

#[test]
fn unicode_whitespace_counts_as_blank() {
    let dto = MessageDto {
        room_id: "room-1".to_string(),
        content: "\u{a0}\u{2003} \u{3000}".to_string(),
    };
    assert_eq!(MessageDto::validate(dto).unwrap_err(), ValidationError::InvalidMessage);

    let dto = MessageDto { room_id: "room-1".to_string(), content: "\u{a0}hi\u{2028}".to_string() };
    assert_eq!(MessageDto::validate(dto).unwrap().content, "hi");
}

#[test]
fn message_content_is_trimmed() {
    let dto = MessageDto { room_id: "room-1".to_string(), content: "\t hi there \n".to_string() };
    let valid = MessageDto::validate(dto).unwrap();
    assert_eq!(valid.content, "hi there");
    assert_eq!(valid.room_id, "room-1");
}

#[test]
fn empty_message_content_is_invalid() {
    let dto = MessageDto { room_id: "room-1".to_string(), content: String::new() };
    assert_eq!(MessageDto::validate(dto).unwrap_err(), ValidationError::InvalidMessage);
}

#[test]
fn tags_need_three_characters_after_trimming() {
    let ok = CreateTagDto { name: " rust ".to_string(), slug: "rust-lang".to_string() };
    let tag = CreateTagDto::validate(ok).unwrap();
    assert_eq!(tag.name, "rust");
    assert_eq!(tag.slug, "rust-lang");

    let short = CreateTagDto { name: "go".to_string(), slug: "golang".to_string() };
    assert_eq!(CreateTagDto::validate(short).unwrap_err(), TodoValidationError::InvalidTag);

    let short_slug = CreateTagDto { name: "golang".to_string(), slug: " go ".to_string() };
    assert_eq!(CreateTagDto::validate(short_slug).unwrap_err(), TodoValidationError::InvalidTag);
}

#[test]
fn categories_need_three_characters_after_trimming() {
    let ok = CreateCategoryDto { name: "work".to_string(), slug: "work-items".to_string() };
    let cat = CreateCategoryDto::validation(ok).unwrap();
    assert_eq!(cat.name, "work");

    let short = CreateCategoryDto { name: "w".to_string(), slug: "work".to_string() };
    assert_eq!(
        CreateCategoryDto::validation(short).unwrap_err(),
        TodoValidationError::InvalidTag
    );
}

#[test]
fn sign_up_requires_a_plausible_email() {
    let dto = SignUpDto {
        name: "annabel".to_string(),
        email: "not-an-email".to_string(),
        password: "secret".to_string(),
    };
    assert_eq!(
        SignUpCredentials::from_sign_up(dto).unwrap_err(),
        ValidationError::InvalidEmail
    );
}

#[test]
fn sign_up_trims_every_field() {
    let dto = SignUpDto {
        name: " annabel ".to_string(),
        email: " ann@example.com ".to_string(),
        password: " secret ".to_string(),
    };
    let cred = SignUpCredentials::from_sign_up(dto).unwrap();
    assert_eq!(cred.name, "annabel");
    assert_eq!(cred.email, "ann@example.com");
    assert_eq!(cred.password, "secret");
}

#[test]
fn sign_up_refuses_short_names_and_passwords() {
    let short_name = SignUpDto {
        name: "al".to_string(),
        email: "al@example.com".to_string(),
        password: "secret".to_string(),
    };
    assert_eq!(
        SignUpCredentials::from_sign_up(short_name).unwrap_err(),
        ValidationError::TooShortName
    );

    let short_password = SignUpDto {
        name: "alice".to_string(),
        email: "al@example.com".to_string(),
        password: "abcd".to_string(),
    };
    assert_eq!(
        SignUpCredentials::from_sign_up(short_password).unwrap_err(),
        ValidationError::InvalidPassword
    );
}

#[test]
fn stored_sign_up_data_revalidates() {
    let good = SignUpCredentials {
        name: "alice".to_string(),
        email: "al@example.com".to_string(),
        password: "secret".to_string(),
    };
    assert!(good.validate().is_ok());

    let bad = SignUpCredentials {
        name: "al".to_string(),
        email: "al@example.com".to_string(),
        password: "secret".to_string(),
    };
    assert_eq!(bad.validate().unwrap_err(), "Name must be at least 5 characters");
}

#[test]
fn login_validation_checks_email_and_password() {
    let ok = LoginDto { email: "al@example.com".to_string(), password: "secret".to_string() };
    let cred = LoginCredentials::from_login(ok).unwrap();
    assert_eq!(cred.email, "al@example.com");

    let bad_email = LoginDto { email: "a@b".to_string(), password: "secret".to_string() };
    assert_eq!(
        LoginCredentials::from_login(bad_email).unwrap_err(),
        ValidationError::InvalidEmail
    );

    let bad_password = LoginDto { email: "al@example.com".to_string(), password: "abc".to_string() };
    assert_eq!(
        LoginCredentials::from_login(bad_password).unwrap_err(),
        ValidationError::InvalidPassword
    );

    let stored = LoginCredentials { email: "al@example.com".to_string(), password: "short".to_string() };
    assert_eq!(stored.validate().unwrap_err(), "Password must contains at least 6 cherecters");
}
