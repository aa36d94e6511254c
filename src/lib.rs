//! A typed client library for the BetterSchool schedule service.
//!
//! The library builds the service's endpoint addresses, encodes the
//! registration payload and decodes the service's JSON answers into typed
//! values; the HTTP round-trips themselves are made by the caller.
pub mod decode;
pub mod encode;
pub mod endpoint;
pub mod json;
pub mod payload;
pub mod structure;
