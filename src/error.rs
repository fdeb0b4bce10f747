//! The library's error type.
use vstd::prelude::*;

verus! {

/// A failure reported by the `url` crate while parsing or joining a URL.
#[verifier::external_type_specification]
#[verifier::external_body]
pub struct ExParseError(url::ParseError);

/// A transport failure reported by `reqwest`.
#[verifier::external_type_specification]
#[verifier::external_body]
pub struct ExReqwestError(reqwest::Error);

/// A JSON decoding failure reported by `serde_json`.
#[verifier::external_type_specification]
#[verifier::external_body]
pub struct ExJsonError(serde_json::Error);

/// Everything that can go wrong while talking to the service.
#[derive(Debug)]
pub enum ApiError {
    /// The request could not be sent or its answer could not be read.
    Network(reqwest::Error),
    /// A URL could not be parsed or resolved.
    Url(url::ParseError),
    /// An answer body was not the JSON that was expected.
    Serde(serde_json::Error),
    /// The service answered with a status outside `200..=299`.
    Http { status: u16, body: String },
}

} // verus!
