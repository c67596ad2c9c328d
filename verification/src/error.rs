//! What can go wrong, and how it is reported to a caller of the API.

use vstd::prelude::*;

verus! {

/// Why a token was not accepted. The three reasons are told apart for
/// diagnostics only: a caller of the API sees the same rejection for each.
#[derive(Clone, Copy, Debug, PartialEq, Eq, Structural)]
pub enum AuthError {
    /// The signature does not belong to the token's content and the secret.
    InvalidSignature,
    /// The token or its payload cannot be read.
    Malformed,
    /// The token's expiry instant has been reached.
    Expired,
}

/// The outcomes that a caller of the API can be told about.
#[derive(Clone, Copy, Debug, PartialEq, Eq, Structural)]
pub enum ApiError {
    /// No credential, or one that is invalid or expired.
    Unauthenticated,
    /// A valid identity whose role does not allow the action.
    Forbidden,
    /// The resource does not exist, or is hidden from this caller.
    NotFound,
    /// The handle is taken.
    Conflict,
    /// The request names a role that does not exist.
    ValidationError,
    /// The store or a primitive failed.
    Internal,
}

/// The HTTP status that stands for an outcome.
pub open spec fn status_of(error: ApiError) -> int {
    match error {
        ApiError::Unauthenticated => 401,
        ApiError::Forbidden => 403,
        ApiError::NotFound => 404,
        ApiError::Conflict => 409,
        ApiError::ValidationError => 400,
        ApiError::Internal => 500,
    }
}

impl ApiError {
    /// The HTTP status that stands for this outcome.
    pub fn status_code(&self) -> (code: u16)
        ensures
            code == status_of(*self),
    {
        match self {
            ApiError::Unauthenticated => 401,
            ApiError::Forbidden => 403,
            ApiError::NotFound => 404,
            ApiError::Conflict => 409,
            ApiError::ValidationError => 400,
            ApiError::Internal => 500,
        }
    }
}

impl AuthError {
    /// What a caller of the API is told: always the same rejection, so that
    /// the reason cannot be used to probe the signing scheme.
    pub fn outward(&self) -> (error: ApiError)
        ensures
            error == ApiError::Unauthenticated,
    {
        ApiError::Unauthenticated
    }
}

} // verus!
