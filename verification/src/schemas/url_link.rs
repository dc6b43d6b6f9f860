//! Shared-link message payloads.
use vstd::prelude::*;

verus! {

/// The payload of a shared web link.
#[derive(Debug, Clone, PartialEq)]
pub struct UrlLinkPayload {
    pub description: Option<String>,
    pub thumbnail_url: Option<String>,
    pub title: String,
    pub url: String,
}

} // verus!
