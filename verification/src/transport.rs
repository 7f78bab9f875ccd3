//! The two transport primitives, each one HTTP exchange through reqwest.
//!
//! Nothing is promised of what they return: the outcome depends on the
//! network. Everything the library states of a response holds of every
//! outcome, through `outcome::complete`.

use vstd::prelude::*;

verus! {

/// Relies on reqwest's blocking client: `Client::get` and
/// `RequestBuilder::send` perform one HTTP GET exchange, `Response::status`
/// is the response's status code and `Response::text` its decoded body.
/// Returns the status and body of the exchange, or the error's description
/// when the connection or the body read fails.
#[verifier::external_body]
pub(crate) fn http_get(url: &str) -> Result<(u16, String), String> {
    let client = reqwest::blocking::Client::new();
    match client.get(url).send() {
        Ok(response) => {
            let status = response.status().as_u16();
            match response.text() {
                Ok(body) => Ok((status, body)),
                Err(e) => Err(e.to_string()),
            }
        },
        Err(e) => Err(e.to_string()),
    }
}

/// Relies on reqwest's blocking client: `Client::post` and
/// `RequestBuilder::send` perform one HTTP POST exchange whose body
/// `RequestBuilder::form` URL-form-encodes from the given key-value pairs in
/// order; `Response::status` and `Response::text` are as for `http_get`.
/// Returns the status and body of the exchange, or the error's description
/// when the connection or the body read fails.
#[verifier::external_body]
pub(crate) fn http_post(url: &str, params: &Vec<(String, String)>) -> Result<(u16, String), String> {
    let client = reqwest::blocking::Client::new();
    match client.post(url).form(params).send() {
        Ok(response) => {
            let status = response.status().as_u16();
            match response.text() {
                Ok(body) => Ok((status, body)),
                Err(e) => Err(e.to_string()),
            }
        },
        Err(e) => Err(e.to_string()),
    }
}

} // verus!
