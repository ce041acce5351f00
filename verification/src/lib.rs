//! A typed client for the Clicksign document-signature REST API.
//!
//! The crate holds the request/response contract layer: URL construction,
//! the domain model with its JSON form, and the classification of HTTP
//! responses. Sending a request is left to the caller.

pub mod client;
pub mod envelope;
pub mod error;
pub mod http;
pub mod json;
pub mod models;
pub mod shape;
pub mod string_map;
