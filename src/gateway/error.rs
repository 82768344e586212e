//! The error envelope of the Gateway API.
use crate::response::ApiError;
use vstd::prelude::*;

verus! {

/// The kind of failure that the Gateway reports, told apart by its `type`.
#[derive(Clone, Copy, Debug, PartialEq, Eq, Structural)]
pub enum ErrorDetails {
    EntityNotFoundError,
    InvalidEntityError,
    NotSyncedUpError,
    InvalidRequestError,
    InvalidTransactionError,
    TransactionNotFoundError,
    InternalServerError,
}

/// The error envelope of a failed Gateway API call.
#[derive(Clone, Debug, PartialEq, Eq)]
pub struct GatewayApiErrorResponse {
    pub message: String,
    pub code: Option<u16>,
    pub details: Option<ErrorDetails>,
    pub trace_id: Option<String>,
}

/// Every way a Gateway API call can fail.
pub type GatewayApiError = ApiError<GatewayApiErrorResponse>;

} // verus!
