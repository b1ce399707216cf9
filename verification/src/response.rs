//! The JSON response envelope the HTTP layer wraps every payload in.

use vstd::prelude::*;

verus! {

/// Envelope for every HTTP response: a message, a success flag and an
/// optional payload.
pub struct ApiResponse<T> {
    pub message: &'static str,
    pub success: bool,
    pub data: Option<T>,
}

impl<T> ApiResponse<T> {
    /// A successful envelope carrying `data`.
    pub fn success(message: &'static str, data: T) -> (r: ApiResponse<T>)
        ensures
            r.message == message,
            r.success,
            r.data == Some(data),
    {
        ApiResponse { message, success: true, data: Some(data) }
    }

    /// A failed envelope with no payload.
    pub fn error(message: &'static str) -> (r: ApiResponse<T>)
        ensures
            r.message == message,
            !r.success,
            r.data is None,
    {
        ApiResponse { message, success: false, data: None }
    }
}

} // verus!
