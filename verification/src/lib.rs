//! Client library for the Shodan REST API.
//!
//! Every operation builds one HTTP request from a fixed base endpoint, the
//! operation's path, the API key and the caller's arguments, performs it, and
//! classifies the response by its status code alone: a status in 200..300
//! yields the raw body as a success, any other status yields the raw body as
//! an `Api` failure, and a failure of the transport itself yields an explicit
//! `Transport` failure instead of aborting.

pub mod client;
pub mod laws;
pub mod numeral;
pub mod outcome;
pub mod request;
mod transport;

pub use client::ShodanClient;
pub use outcome::ShodanError;
