//! The decision behind endpoint resolution: a resolved endpoint is usable
//! only when the resolution service returned a real port; port zero means
//! the token was not recognized.
use vstd::prelude::*;

verus! {

/// A resolved service endpoint.
#[derive(Debug, Clone, PartialEq)]
pub struct Endpoint {
    pub ip: String,
    pub port: usize,
}

/// Whether a resolved endpoint is usable: the resolution service reports
/// an unknown token as port zero.
pub fn endpoint_is_valid(endpoint: &Endpoint) -> (r: bool)
    ensures
        r == (endpoint.port != 0),
{
    endpoint.port != 0
}

} // verus!
