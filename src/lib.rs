//! Typed client library for the ledger Core API and the Gateway API.
//!
//! The verified parts are the classification of HTTP responses into typed
//! outcomes, the cursor state machines that page through the transaction
//! feed, the request bodies and their builders.

pub mod accumulate;
pub mod client;
pub mod core_api;
pub mod deserialize;
pub mod gateway;
pub mod pagination;
pub mod response;

pub use client::{CoreClientAsync, CoreClientBlocking, GatewayClientAsync, GatewayClientBlocking};
