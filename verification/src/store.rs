//! What the answers of the store mean for a caller of the API.
//!
//! The store itself is outside this crate. Its answers come in as plain
//! values: a row or none, done or failed.

use vstd::prelude::*;
use crate::error::ApiError;

verus! {

/// The store could not answer. The message is the store's own.
#[derive(Clone, Debug, PartialEq, Eq)]
pub struct StoreFailure {
    pub message: String,
}

/// What a lookup means: a failure of the store is an internal error, and a
/// row that is not there is reported as `missing`.
pub open spec fn lookup_outcome<T>(row: Result<Option<T>, StoreFailure>, missing: ApiError) -> Result<
    T,
    ApiError,
> {
    match row {
        Err(_) => Err(ApiError::Internal),
        Ok(None) => Err(missing),
        Ok(Some(found)) => Ok(found),
    }
}

/// What a write means: a failure of the store is reported as `failed`.
pub open spec fn write_outcome<T>(result: Result<T, StoreFailure>, failed: ApiError) -> Result<
    T,
    ApiError,
> {
    match result {
        Err(_) => Err(failed),
        Ok(done) => Ok(done),
    }
}

/// The row that a lookup found, or the error to answer with.
pub fn found_or<T>(row: Result<Option<T>, StoreFailure>, missing: ApiError) -> (outcome: Result<
    T,
    ApiError,
>)
    ensures
        outcome == lookup_outcome(row, missing),
{
    match row {
        Err(_) => Err(ApiError::Internal),
        Ok(None) => Err(missing),
        Ok(Some(found)) => Ok(found),
    }
}

/// What a write gave, or the error to answer with.
pub fn stored_or<T>(result: Result<T, StoreFailure>, failed: ApiError) -> (outcome: Result<
    T,
    ApiError,
>)
    ensures
        outcome == write_outcome(result, failed),
{
    match result {
        Err(_) => Err(failed),
        Ok(done) => Ok(done),
    }
}

} // verus!
