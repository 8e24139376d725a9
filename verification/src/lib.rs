//! Client-side core of a market-data REST API: composing request URLs from
//! typed, optionally-present parameters, and decoding the JSON payloads the
//! endpoints answer with into typed records.
//!
//! The two halves are independent and pure. [`query`] turns an endpoint
//! path and a set of optional parameters into exactly one URL string;
//! [`json`] and [`decode`] turn a response body into exactly one typed
//! record of [`models`], or one attributable [`errors::DecodeError`].
//! Everything is specified over sequences and proved; the owning transport
//! stays outside this crate and hands plain strings in and out.

pub mod decode;
pub mod errors;
pub mod json;
pub mod models;
pub mod query;
pub mod text;


