//! The HTTP engine behind a client. It is built here and carried by the
//! client; driving it is the caller's part.

use crate::errors::TransportFailure;
use vstd::prelude::*;

verus! {

/// The `reqwest` crate's asynchronous client: a handle on a connection pool.
#[verifier::external_type_specification]
#[verifier::external_body]
pub struct ExClient(reqwest::Client);

/// Calls `reqwest::Client::builder`, sets the total request timeout with
/// `ClientBuilder::timeout` and finishes with `ClientBuilder::build`. Whether
/// the engine can be built depends on the machine, so nothing is claimed of
/// the outcome. An error is handed back as the plain values it answers with
/// (`is_connect`, `is_timeout`, its message).
#[verifier::external_body]
pub(crate) fn build_transport(timeout_secs: u64) -> (r: Result<reqwest::Client, TransportFailure>) {
    let timeout = std::time::Duration::from_secs(timeout_secs);
    match reqwest::Client::builder().timeout(timeout).build() {
        Ok(client) => Ok(client),
        Err(e) => Err(
            TransportFailure {
                connect: e.is_connect(),
                timeout: e.is_timeout(),
                description: e.to_string(),
            },
        ),
    }
}

/// Calls `reqwest::Client::clone`, which hands out another handle on the same
/// connection pool. Nothing is claimed of the handle.
#[verifier::external_body]
pub(crate) fn share_transport(transport: &reqwest::Client) -> (r: reqwest::Client) {
    transport.clone()
}

} // verus!
