//! Classification of one HTTP exchange into the library's result type.

use vstd::prelude::*;

verus! {

/// How one call of the API ended when it did not succeed: either the remote
/// service answered with a status outside the success range (`Api`, carrying
/// the raw response body), or the exchange itself could not be completed
/// (`Transport`, carrying a description of the failure).
#[derive(Debug)]
pub enum ShodanError {
    Api(String),
    Transport(String),
}

/// The HTTP statuses that count as success.
pub open spec fn is_success_status(status: int) -> bool {
    200 <= status < 300
}

/// Classifies one completed HTTP exchange: a success status hands the body
/// back unchanged as the payload, any other status hands it back unchanged
/// as an `Api` failure.
pub fn classify(status: u16, body: String) -> (r: Result<String, ShodanError>)
    ensures
        is_success_status(status as int) ==> (r matches Ok(b) && b == body),
        !is_success_status(status as int) ==> (r matches Err(ShodanError::Api(b)) && b == body),
{
    if 200 <= status && status < 300 {
        Ok(body)
    } else {
        Err(ShodanError::Api(body))
    }
}

/// How a result of the library relates to the raw outcome of one transport
/// attempt: a completed exchange with a success status yields the body as the
/// payload, a completed exchange with any other status yields the body as an
/// `Api` failure, and a transport failure yields its description as a
/// `Transport` failure — each exact, with nothing reworded or cut.
pub open spec fn completes(
    outcome: Result<(u16, String), String>,
    r: Result<String, ShodanError>,
) -> bool {
    match outcome {
        Ok(exchange) => {
            if is_success_status(exchange.0 as int) {
                r matches Ok(b) && b@ == exchange.1@
            } else {
                r matches Err(ShodanError::Api(b)) && b@ == exchange.1@
            }
        },
        Err(e) => r matches Err(ShodanError::Transport(m)) && m@ == e@,
    }
}

/// Turns the raw outcome of one transport attempt into the library's result:
/// classification for a completed exchange, a `Transport` failure otherwise.
pub fn complete(outcome: Result<(u16, String), String>) -> (r: Result<String, ShodanError>)
    ensures
        completes(outcome, r),
{
    match outcome {
        Ok((status, body)) => classify(status, body),
        Err(e) => Err(ShodanError::Transport(e)),
    }
}

/// What every endpoint method promises of its result: it is the completion
/// of some transport outcome — a success payload from a success status, an
/// `Api` failure from any other status, or a `Transport` failure.
pub open spec fn exchange_outcome(r: Result<String, ShodanError>) -> bool {
    exists|outcome: Result<(u16, String), String>| completes(outcome, r)
}

} // verus!
