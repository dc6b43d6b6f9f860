//! Mini-program message payloads.
use vstd::prelude::*;

verus! {

/// The payload of a shared mini program.
#[derive(Debug, Clone, PartialEq)]
pub struct MiniProgramPayload {
    pub appid: Option<String>,
    pub description: Option<String>,
    pub page_path: Option<String>,
    pub thumb_key: Option<String>,
    pub thumb_url: Option<String>,
    pub title: Option<String>,
    pub username: Option<String>,
}

} // verus!
