//! Request builders: a client and a request body whose optional fields are
//! set one by one before the request is sent. Setters change one field of the
//! body and nothing else; the body is sent as it stands.
use crate::client::{CoreClientAsync, CoreClientBlocking};
use vstd::prelude::*;

verus! {

/// A builder of a request sent through the non-blocking client.
#[derive(Debug, Clone)]
pub struct RequestBuilderAsync<R> {
    pub client: CoreClientAsync,
    pub request: R,
}

/// A builder of a request sent through the blocking client.
#[derive(Debug, Clone)]
pub struct RequestBuilderBlocking<R> {
    pub client: CoreClientBlocking,
    pub request: R,
}

impl<R> RequestBuilderAsync<R> {
    /// The body built so far.
    pub fn build(&self) -> (r: &R)
        ensures
            *r == self.request,
    {
        &self.request
    }
}

impl<R> RequestBuilderBlocking<R> {
    /// The body built so far.
    pub fn build(&self) -> (r: &R)
        ensures
            *r == self.request,
    {
        &self.request
    }
}

} // verus!
