//! Client library for the trace.moe anime scene search API.
//!
//! The library decides what is sent and how answers are judged: it builds the
//! query string of a search, resolves request paths against the service's base
//! URL, collects the headers and credentials of each request, and separates
//! successful answers from HTTP errors. Every such step carries a contract
//! proved by Verus. Sending requests and decoding JSON bodies into records is
//! left to the caller.
pub mod client;
pub mod encoding;
pub mod error;
pub mod tracemoe;
