//! Error taxonomy of the puppet transport layer and of the consumer-facing
//! layer built on top of it.
use vstd::prelude::*;
use vstd::string::StringExecFns;

verus! {

/// The errors that can occur during the communication with the puppet.
#[derive(Debug, Clone, PartialEq)]
pub enum PuppetError {
    Network,
    Unsupported(String),
    UnknownPayloadType,
    UnknownMessageType,
}

impl PuppetError {
    /// The human-readable description of the error.
    pub open spec fn spec_message(self) -> Seq<char> {
        match self {
            PuppetError::Network => "Network failure"@,
            PuppetError::Unsupported(function) => "Unsupported function: "@ + function@,
            PuppetError::UnknownPayloadType => "Unknown payload type"@,
            PuppetError::UnknownMessageType => "Unknown message type"@,
        }
    }

    pub fn message(&self) -> (r: String)
        ensures
            r@ == self.spec_message(),
    {
        match self {
            PuppetError::Network => "Network failure".to_owned(),
            PuppetError::Unsupported(function) => {
                let mut s = "Unsupported function: ".to_owned();
                s.append(function.as_str());
                s
            },
            PuppetError::UnknownPayloadType => "Unknown payload type".to_owned(),
            PuppetError::UnknownMessageType => "Unknown message type".to_owned(),
        }
    }
}

/// The errors that can occur in the consumer-facing layer: either a puppet
/// transport failure bubbling up, or an application-level precondition
/// violation.
#[derive(Debug, Clone, PartialEq)]
pub enum WechatyError {
    Puppet(PuppetError),
    NotLoggedIn,
    NoPayload,
}

impl WechatyError {
    /// The human-readable description of the error.
    pub open spec fn spec_message(self) -> Seq<char> {
        match self {
            WechatyError::Puppet(e) => "Puppet error: "@ + e.spec_message(),
            WechatyError::NotLoggedIn => "User is not logged in"@,
            WechatyError::NoPayload => "Operation cannot be done because the current entity does not have payload due to an unknown previous issue"@,
        }
    }

    pub fn message(&self) -> (r: String)
        ensures
            r@ == self.spec_message(),
    {
        match self {
            WechatyError::Puppet(e) => {
                let mut s = "Puppet error: ".to_owned();
                s.append(e.message().as_str());
                s
            },
            WechatyError::NotLoggedIn => "User is not logged in".to_owned(),
            WechatyError::NoPayload => "Operation cannot be done because the current entity does not have payload due to an unknown previous issue".to_owned(),
        }
    }
}

impl From<PuppetError> for WechatyError {
    fn from(e: PuppetError) -> (r: Self) {
        WechatyError::Puppet(e)
    }
}

impl vstd::std_specs::convert::FromSpecImpl<PuppetError> for WechatyError {
    open spec fn obeys_from_spec() -> bool {
        true
    }

    open spec fn from_spec(e: PuppetError) -> Self {
        WechatyError::Puppet(e)
    }
}

/// The errors that can occur during the rpc process.
#[derive(Clone, Copy, Debug)]
pub enum RpcError {
    Unreachable,
}

} // verus!
