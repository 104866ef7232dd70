use vstd::prelude::*;

verus! {

/// The failures that a handler reports, mapped to HTTP codes at the boundary.
#[derive(Debug, Clone, Copy, PartialEq, Eq, Structural)]
pub enum ApiError {
    /// Missing, malformed or invalid bearer token.
    Unauthorized,
    /// Authenticated, but without the required role.
    Forbidden,
    /// A required field was empty, or a parameter was out of range.
    BadRequest,
    /// No row matched.
    NotFound,
    /// Any other failure of the database or of a collaborator.
    Internal,
}

/// A failed database statement. Drivers report "no row" separately, as an
/// empty result, so this is always an internal failure.
#[derive(Debug, Clone, Copy, PartialEq, Eq, Structural)]
pub struct DbFailure;

pub open spec fn status_of(e: ApiError) -> u16 {
    match e {
        ApiError::Unauthorized => 401,
        ApiError::Forbidden => 403,
        ApiError::BadRequest => 400,
        ApiError::NotFound => 404,
        ApiError::Internal => 500,
    }
}

impl ApiError {
    /// The HTTP status code of this failure.
    pub fn status_code(&self) -> (r: u16)
        ensures
            r == status_of(*self),
            400 <= r < 600,
    {
        match self {
            ApiError::Unauthorized => 401,
            ApiError::Forbidden => 403,
            ApiError::BadRequest => 400,
            ApiError::NotFound => 404,
            ApiError::Internal => 500,
        }
    }
}

} // verus!
