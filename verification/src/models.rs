//! The records that requests and the account store exchange with this crate.

use vstd::prelude::*;
use crate::error::ApiError;

verus! {

/// An account as the store holds it. The digest never leaves the server.
#[derive(Clone, Debug, PartialEq, Eq)]
pub struct User {
    /// The account's number; the store assigns it on creation.
    pub id: Option<i32>,
    pub username: String,
    pub password_hash: String,
    pub email: String,
    /// The role's name as stored.
    pub role: String,
}

/// What a caller sends to sign in.
#[derive(Clone, Debug, PartialEq, Eq)]
pub struct LoginRequest {
    pub username: String,
    pub password: String,
}

/// What a caller sends to sign up.
#[derive(Clone, Debug, PartialEq, Eq)]
pub struct RegisterRequest {
    pub username: String,
    pub password: String,
    pub email: String,
    /// The name of the role asked for.
    pub role: String,
}

/// The text of a comment, as sent by its author. It is never empty.
#[derive(Clone, Debug, PartialEq, Eq)]
pub struct CommentPayload {
    pub content: String,
}

/// What becomes of the `content` member of a comment request: a missing or
/// empty one is refused as invalid.
pub open spec fn comment_content(content: Option<Seq<char>>) -> Result<Seq<char>, ApiError> {
    match content {
        Some(text) => if text.len() > 0 {
            Ok(text)
        } else {
            Err(ApiError::ValidationError)
        },
        None => Err(ApiError::ValidationError),
    }
}

impl CommentPayload {
    /// Accepts the `content` member of a comment request as it was found.
    pub fn from_content(content: Option<String>) -> (payload: Result<CommentPayload, ApiError>)
        ensures
            match payload {
                Ok(p) => comment_content(crate::token::text_view(content)) == Ok::<
                    Seq<char>,
                    ApiError,
                >(p.content@),
                Err(e) => comment_content(crate::token::text_view(content)) == Err::<
                    Seq<char>,
                    ApiError,
                >(e),
            },
    {
        match content {
            Some(text) => if text.as_str().is_empty() {
                Err(ApiError::ValidationError)
            } else {
                Ok(CommentPayload { content: text })
            },
            None => Err(ApiError::ValidationError),
        }
    }
}

} // verus!
