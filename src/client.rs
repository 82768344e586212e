//! Clients for the two API families: a base URL and an HTTP client of the
//! outside `reqwest` crate, in a blocking and in a non-blocking flavour.
use std::rc::Rc;
use std::sync::Arc;
use vstd::prelude::*;

verus! {

/// The error of a failed HTTP exchange.
#[verifier::external_type_specification]
#[verifier::external_body]
pub struct ExReqwestError(reqwest::Error);

/// The non-blocking HTTP client.
#[verifier::external_type_specification]
#[verifier::external_body]
pub struct ExReqwestClient(reqwest::Client);

/// The blocking HTTP client.
#[verifier::external_type_specification]
#[verifier::external_body]
pub struct ExReqwestBlockingClient(reqwest::blocking::Client);

/// Relies on reqwest::Client::new: a non-blocking client with the default
/// configuration. As its documentation says, it panics when a TLS backend
/// cannot be initialized or the resolver cannot load the system
/// configuration; no argument of ours bears on that.
#[verifier::external_body]
fn new_async_http_client() -> (r: reqwest::Client) {
    reqwest::Client::new()
}

/// Relies on reqwest::blocking::Client::new: a blocking client with the
/// default configuration. As its documentation says, it panics when a TLS
/// backend cannot be initialized, when the resolver cannot load the system
/// configuration, or when it is called from within an async runtime.
#[verifier::external_body]
fn new_blocking_http_client() -> (r: reqwest::blocking::Client) {
    reqwest::blocking::Client::new()
}

/// The URL of an endpoint: the base URL and the endpoint's path, joined by a
/// slash.
pub fn endpoint_url(base_url: &str, path: &str) -> (r: String)
    ensures
        r@ == base_url@ + seq!['/'] + path@,
{
    let mut r = base_url.to_owned();
    proof {
        reveal_strlit("/");
    }
    r.append("/");
    r.append(path);
    r
}

/// A non-blocking client of the Gateway API.
#[derive(Debug, Clone)]
pub struct GatewayClientAsync {
    pub base_url: String,
    pub client: Arc<reqwest::Client>,
}

/// A blocking client of the Gateway API.
#[derive(Debug, Clone)]
pub struct GatewayClientBlocking {
    pub base_url: String,
    pub client: Rc<reqwest::blocking::Client>,
}

/// A non-blocking client of the Core API.
#[derive(Debug, Clone)]
pub struct CoreClientAsync {
    pub base_url: String,
    pub client: Arc<reqwest::Client>,
}

/// A blocking client of the Core API.
#[derive(Debug, Clone)]
pub struct CoreClientBlocking {
    pub base_url: String,
    pub client: Rc<reqwest::blocking::Client>,
}

impl GatewayClientAsync {
    /// A client of the API at `base_url`.
    pub fn new(base_url: String) -> (r: GatewayClientAsync)
        ensures
            r.base_url == base_url,
    {
        GatewayClientAsync { base_url, client: Arc::new(new_async_http_client()) }
    }
}

impl GatewayClientBlocking {
    /// A client of the API at `base_url`. Like the blocking HTTP client it
    /// holds, it panics when made from within an async runtime.
    pub fn new(base_url: String) -> (r: GatewayClientBlocking)
        ensures
            r.base_url == base_url,
    {
        GatewayClientBlocking { base_url, client: Rc::new(new_blocking_http_client()) }
    }
}

impl CoreClientAsync {
    /// A client of the API at `base_url`.
    pub fn new(base_url: String) -> (r: CoreClientAsync)
        ensures
            r.base_url == base_url,
    {
        CoreClientAsync { base_url, client: Arc::new(new_async_http_client()) }
    }
}

impl CoreClientBlocking {
    /// A client of the API at `base_url`. Like the blocking HTTP client it
    /// holds, it panics when made from within an async runtime.
    pub fn new(base_url: String) -> (r: CoreClientBlocking)
        ensures
            r.base_url == base_url,
    {
        CoreClientBlocking { base_url, client: Rc::new(new_blocking_http_client()) }
    }
}

} // verus!
