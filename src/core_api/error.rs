//! The error envelope of the Core API.
use crate::response::ApiError;
use vstd::prelude::*;

verus! {

#[derive(Clone, Debug, PartialEq, Eq)]
pub struct ErrorDetails {
    pub error: String,
    pub error_description: String,
}

/// The error envelope of a failed Core API call, keyed by the kind of
/// request that failed.
#[derive(Clone, Debug, PartialEq, Eq)]
pub enum CoreApiErrorResponse {
    Basic(ErrorData<()>),
    TransactionSubmit(ErrorData<()>),
    LtsTransactionSubmit(ErrorData<()>),
    StreamTransactions(ErrorData<()>),
    StreamProofs(ErrorData<()>),
}

/// A machine code, a message, an optional trace identifier and optional
/// details of the failure.
#[derive(Clone, Debug, PartialEq, Eq)]
pub struct ErrorData<T> {
    pub code: u16,
    pub message: String,
    pub trace_id: Option<String>,
    pub details: Option<T>,
}

/// Every way a Core API call can fail.
pub type CoreApiError = ApiError<CoreApiErrorResponse>;

} // verus!
