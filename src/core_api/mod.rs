//! The Core API: its error envelope, models, request builders and the
//! transaction stream.
use crate::core_api::error::{CoreApiError, CoreApiErrorResponse};
use crate::response::{is_outcome, DecodedBody};
use vstd::prelude::*;

pub mod builder;
pub mod error;
pub mod models;
pub mod stream;
pub mod transaction;

verus! {

/// The typed outcome of a Core API response: see `response::match_response`.
pub fn match_response<T>(
    text: String,
    status: u16,
    body: DecodedBody<T, CoreApiErrorResponse>,
) -> (r: Result<T, CoreApiError>)
    requires
        body.fits(status),
    ensures
        is_outcome(r, text@, status, body),
{
    crate::response::match_response(text, status, body)
}

} // verus!
