//! The answer of the local health relay, which mirrors the upstream health
//! endpoint to clients without TLS credentials.
use vstd::prelude::*;

verus! {

/// An HTTP answer: status, headers as name and raw value (one entry per
/// header line, in order), and body.
#[derive(Debug, PartialEq, Eq)]
pub struct RelayResponse {
    pub status: u16,
    pub headers: Vec<(String, Vec<u8>)>,
    pub body: Vec<u8>,
}

/// Status of the relay's answer when the upstream request fails.
pub const UPSTREAM_FAILED_STATUS: u16 = 500;

/// The relay's answer, given the outcome of the upstream request: the
/// upstream answer as it stands, or 500 with no header and an empty body when
/// the request failed.
pub fn relay_response(upstream: Result<RelayResponse, String>) -> (r: RelayResponse)
    ensures
        match upstream {
            Ok(u) => r == u,
            Err(_) => r.status == UPSTREAM_FAILED_STATUS && r.headers@.len() == 0 && r.body@.len() == 0,
        },
{
    match upstream {
        Ok(u) => u,
        Err(_) => RelayResponse { status: UPSTREAM_FAILED_STATUS, headers: Vec::new(), body: Vec::new() },
    }
}

} // verus!
