//! A typed client library for the Discuit REST API.
//!
//! The library covers the protocol layer of the client: the session
//! credentials and how they are rendered into request headers, the
//! construction of each endpoint's request, and the structural decoding of
//! each endpoint's JSON response into typed values — including the untagged
//! unions the API answers with, which are resolved by shape.  The HTTP
//! transport itself is left to the caller, who performs the request
//! described by an [`http::HttpRequest`] and hands the response body back
//! to the client state.

pub mod client;
pub mod decode;
pub mod feed;
pub mod http;
pub mod json;
pub mod responses;
pub mod types;
pub mod users;
