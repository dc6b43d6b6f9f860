//! Options handed to a puppet transport when it is constructed.
use vstd::prelude::*;

verus! {

/// Connection options of a puppet transport.
#[derive(Debug, Clone, PartialEq)]
pub struct PuppetOptions {
    pub endpoint: Option<String>,
    pub timeout: Option<u64>,
    pub token: Option<String>,
}

} // verus!
