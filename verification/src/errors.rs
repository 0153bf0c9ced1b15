//! Error kinds reported by the automation layer.
//!
//! Every failure is surfaced immediately to the caller as one of these kinds;
//! no layer retries or recovers locally.

use vstd::prelude::*;

verus! {

/// What an automation operation can report instead of succeeding.
#[derive(Debug)]
pub enum Error {
    /// No enumerated monitor matches the requested identifier.
    NotFound,
    /// A closed-set string argument (button side, scroll direction) is not
    /// one of the accepted values; carries the descriptive message.
    InvalidArgument(String),
    /// A key token matches neither the named-key table nor a single Unicode
    /// codepoint; carries the offending token.
    UnknownKey(String),
    /// The underlying OS display or input call failed; carries its message.
    Platform(String),
    /// Image serialization failed; carries the encoder's message.
    Encode(String),
}

impl Error {
    /// The descriptive string handed back to the external caller.
    pub fn message(&self) -> (r: String)
        ensures
            match self {
                Error::NotFound => r@ == "Monitor not found"@,
                Error::InvalidArgument(m) => r@ == m@,
                Error::UnknownKey(name) => r@ == "Unknown key: "@ + name@,
                Error::Platform(m) => r@ == m@,
                Error::Encode(m) => r@ == m@,
            },
    {
        match self {
            Error::NotFound => "Monitor not found".to_owned(),
            Error::InvalidArgument(m) => m.as_str().to_owned(),
            Error::UnknownKey(name) => {
                let prefix: String = "Unknown key: ".to_owned();
                prefix.concat(name.as_str())
            },
            Error::Platform(m) => m.as_str().to_owned(),
            Error::Encode(m) => m.as_str().to_owned(),
        }
    }
}

} // verus!
