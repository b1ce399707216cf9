//! User account payloads and their validators. Lengths are counted in
//! characters.

use vstd::prelude::*;

use crate::error::ValidationError;
use crate::text::{char_len, contains_char, trim, trim_spec};

verus! {

/// Raw sign-up request payload.
pub struct SignUpDto {
    pub name: String,
    pub email: String,
    pub password: String,
}

/// Raw login request payload.
pub struct LoginDto {
    pub email: String,
    pub password: String,
}

/// Payload of a profile-visibility update.
pub struct UpdateVisibility {
    pub is_public: bool,
}

/// Validated sign-up data.
#[derive(Debug)]
pub struct SignUpCredentials {
    pub name: String,
    pub email: String,
    pub password: String,
}

/// Validated login data.
#[derive(Debug)]
pub struct LoginCredentials {
    pub email: String,
    pub password: String,
}

impl SignUpCredentials {
    /// Validates a sign-up payload: all fields are trimmed; the email must
    /// contain `@` and be at least 5 characters, the name at least 3, the
    /// password at least 5.
    pub fn from_sign_up(dto: SignUpDto) -> (r: Result<SignUpCredentials, ValidationError>)
        ensures
            r matches Ok(v) ==> {
                &&& v.email@ == trim_spec(dto.email@)
                &&& v.name@ == trim_spec(dto.name@)
                &&& v.password@ == trim_spec(dto.password@)
            },
            r == Err::<SignUpCredentials, ValidationError>(ValidationError::InvalidEmail) <==> !(
            trim_spec(dto.email@).contains('@') && trim_spec(dto.email@).len() >= 5),
            r == Err::<SignUpCredentials, ValidationError>(ValidationError::TooShortName) <==> (
            trim_spec(dto.email@).contains('@') && trim_spec(dto.email@).len() >= 5 && trim_spec(
                dto.name@,
            ).len() < 3),
            r == Err::<SignUpCredentials, ValidationError>(ValidationError::InvalidPassword) <==> (
            trim_spec(dto.email@).contains('@') && trim_spec(dto.email@).len() >= 5 && trim_spec(
                dto.name@,
            ).len() >= 3 && trim_spec(dto.password@).len() < 5),
    {
        let email = trim(dto.email.as_str());
        let name = trim(dto.name.as_str());
        let password = trim(dto.password.as_str());

        if !contains_char(email.as_str(), '@') || char_len(email.as_str()) < 5 {
            return Err(ValidationError::InvalidEmail);
        }

        if char_len(name.as_str()) < 3 {
            return Err(ValidationError::TooShortName);
        }

        if char_len(password.as_str()) < 5 {
            return Err(ValidationError::InvalidPassword);
        }

        Ok(SignUpCredentials { email, name, password })
    }

    /// Re-checks already-stored sign-up data: name at least 3 characters
    /// once trimmed, password at least 6, email containing `@`.
    pub fn validate(&self) -> (r: Result<(), &'static str>)
        ensures
            r is Ok <==> (trim_spec(self.name@).len() >= 3 && trim_spec(self.password@).len() >= 6
                && self.email@.contains('@')),
            r matches Err(m) ==> m@ == self.validate_error_spec(),
    {
        if char_len(trim(self.name.as_str()).as_str()) < 3 {
            return Err("Name must be at least 5 characters");
        }

        if char_len(trim(self.password.as_str()).as_str()) < 6 {
            return Err("Password must contains at least 6 cherecters");
        }

        if !contains_char(self.email.as_str(), '@') {
            return Err("Invalid Email");
        }

        Ok(())
    }

    /// The message [`SignUpCredentials::validate`] fails with, for inputs
    /// it refuses.
    pub open spec fn validate_error_spec(&self) -> Seq<char> {
        if trim_spec(self.name@).len() < 3 {
            "Name must be at least 5 characters"@
        } else if trim_spec(self.password@).len() < 6 {
            "Password must contains at least 6 cherecters"@
        } else {
            "Invalid Email"@
        }
    }
}

impl LoginCredentials {
    /// Validates a login payload: both fields are trimmed; the email must
    /// contain `@` and be at least 5 characters, the password at least 6.
    pub fn from_login(dto: LoginDto) -> (r: Result<LoginCredentials, ValidationError>)
        ensures
            r matches Ok(v) ==> {
                &&& v.email@ == trim_spec(dto.email@)
                &&& v.password@ == trim_spec(dto.password@)
            },
            r == Err::<LoginCredentials, ValidationError>(ValidationError::InvalidEmail) <==> !(
            trim_spec(dto.email@).contains('@') && trim_spec(dto.email@).len() >= 5),
            r == Err::<LoginCredentials, ValidationError>(ValidationError::InvalidPassword) <==> (
            trim_spec(dto.email@).contains('@') && trim_spec(dto.email@).len() >= 5 && trim_spec(
                dto.password@,
            ).len() < 6),
    {
        let email = trim(dto.email.as_str());
        let password = trim(dto.password.as_str());

        if !contains_char(email.as_str(), '@') || char_len(email.as_str()) < 5 {
            return Err(ValidationError::InvalidEmail);
        }

        if char_len(password.as_str()) < 6 {
            return Err(ValidationError::InvalidPassword);
        }

        Ok(LoginCredentials { email, password })
    }

    /// Re-checks already-stored login data: password at least 6 characters
    /// once trimmed, email containing `@`.
    pub fn validate(&self) -> (r: Result<(), &'static str>)
        ensures
            r is Ok <==> (trim_spec(self.password@).len() >= 6 && self.email@.contains('@')),
            r matches Err(m) ==> m@ == self.validate_error_spec(),
    {
        if char_len(trim(self.password.as_str()).as_str()) < 6 {
            return Err("Password must contains at least 6 cherecters");
        }

        if !contains_char(self.email.as_str(), '@') {
            return Err("Invalid Email");
        }

        Ok(())
    }

    /// The message [`LoginCredentials::validate`] fails with, for inputs it
    /// refuses.
    pub open spec fn validate_error_spec(&self) -> Seq<char> {
        if trim_spec(self.password@).len() < 6 {
            "Password must contains at least 6 cherecters"@
        } else {
            "Invalid Email"@
        }
    }
}

} // verus!
