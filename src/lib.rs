//! A typed client for the Bing Maps REST locations service: request
//! parameters, request URLs, classification of responses and flattening of
//! the response envelope.

mod client;
mod error;
mod params;
mod response;

pub mod locations;

pub use client::Client;
pub use error::{check_reply, decimal_string, should_wait, Error, Reply, RequestError};
pub use params::Params;
pub use response::{ResourceSet, Response};
