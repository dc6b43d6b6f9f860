//! The entity handle shared by every user-facing kind: a bare id plus the
//! payload snapshot assembled for it, if hydration has completed.
use vstd::prelude::*;

verus! {

/// A handle to one entity: its id, and its payload once hydrated.
#[derive(Debug, Clone, PartialEq)]
pub struct Entity<P> {
    pub id_: String,
    pub payload_: Option<P>,
}

impl<P> Entity<P> {
    /// Whether hydration has completed for this handle.
    pub open spec fn spec_is_ready(self) -> bool {
        self.payload_ is Some
    }
}

} // verus!
