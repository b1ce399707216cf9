//! Tag, category and todo-update payloads and their validators. Lengths are
//! counted in characters.

use vstd::prelude::*;

use crate::error::TodoValidationError;
use crate::text::{char_len, trim, trim_spec};

verus! {

/// Payload of a tag-creation request.
#[derive(Clone, Debug)]
pub struct CreateTagDto {
    pub name: String,
    pub slug: String,
}

/// Payload of a category-creation request.
#[derive(Clone, Debug)]
pub struct CreateCategoryDto {
    pub name: String,
    pub slug: String,
}

/// Payload of a todo update; absent fields are left unchanged.
pub struct UpdateTodoCredentials {
    pub todo: Option<String>,
    pub description: Option<String>,
}

impl CreateTagDto {
    /// Validates a tag: name and slug are trimmed and must each be at least
    /// 3 characters.
    pub fn validate(dto: CreateTagDto) -> (r: Result<CreateTagDto, TodoValidationError>)
        ensures
            r is Ok <==> (trim_spec(dto.name@).len() >= 3 && trim_spec(dto.slug@).len() >= 3),
            r matches Ok(v) ==> v.name@ == trim_spec(dto.name@) && v.slug@ == trim_spec(dto.slug@),
            r is Err ==> r == Err::<CreateTagDto, TodoValidationError>(
                TodoValidationError::InvalidTag,
            ),
    {
        let name = trim(dto.name.as_str());
        let slug = trim(dto.slug.as_str());

        if char_len(name.as_str()) < 3 {
            return Err(TodoValidationError::InvalidTag);
        }
        if char_len(slug.as_str()) < 3 {
            return Err(TodoValidationError::InvalidTag);
        }

        Ok(CreateTagDto { name, slug })
    }
}

impl CreateCategoryDto {
    /// Validates a category: name and slug are trimmed and must each be at
    /// least 3 characters.
    pub fn validation(dto: CreateCategoryDto) -> (r: Result<
        CreateCategoryDto,
        TodoValidationError,
    >)
        ensures
            r is Ok <==> (trim_spec(dto.name@).len() >= 3 && trim_spec(dto.slug@).len() >= 3),
            r matches Ok(v) ==> v.name@ == trim_spec(dto.name@) && v.slug@ == trim_spec(dto.slug@),
            r is Err ==> r == Err::<CreateCategoryDto, TodoValidationError>(
                TodoValidationError::InvalidTag,
            ),
    {
        let name = trim(dto.name.as_str());
        let slug = trim(dto.slug.as_str());

        if char_len(name.as_str()) < 3 {
            return Err(TodoValidationError::InvalidTag);
        }
        if char_len(slug.as_str()) < 3 {
            return Err(TodoValidationError::InvalidTag);
        }

        Ok(CreateCategoryDto { name, slug })
    }
}

} // verus!
