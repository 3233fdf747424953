//! Client library for a web content-extraction API.
//!
//! The library builds request descriptions (URL, query, headers, body) for the
//! service's endpoints and classifies the JSON bodies the service answers with.
//! Sending a request over the network is left to the caller.

mod client;
mod json;
mod request;
mod response;
mod scan;
mod text;

pub use client::{get_api_url_string, prepare_request, Diffbot, API};
pub use json::{lookup, JsonValue};
pub use request::{Body, Method, Request};
pub use response::{
    classify, interpret_response, DiffbotResult, Error, ERROR_PROCESSING,
    REQUESTED_PAGE_NOT_FOUND, TOKEN_EXCEEDED_OR_THROTTLED, UNAUTHORIZED_TOKEN,
};
