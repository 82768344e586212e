//! The Gateway API: its error envelope, models, request builders and the
//! transaction stream.
use crate::gateway::error::{GatewayApiError, GatewayApiErrorResponse};
use crate::response::{is_outcome, DecodedBody};
use vstd::prelude::*;

pub mod builder;
pub mod error;
pub mod models;
pub mod state;
pub mod stream;
pub mod transaction;
pub mod transactions_stream;

verus! {

/// The typed outcome of a Gateway API response: see `response::match_response`.
pub fn match_response<T>(
    text: String,
    status: u16,
    body: DecodedBody<T, GatewayApiErrorResponse>,
) -> (r: Result<T, GatewayApiError>)
    requires
        body.fits(status),
    ensures
        is_outcome(r, text@, status, body),
{
    crate::response::match_response(text, status, body)
}

} // verus!
