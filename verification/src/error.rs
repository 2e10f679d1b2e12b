//! Typed errors of the launcher core.
//!
//! One taxonomy covers both ends of the control channel: connection
//! establishment, wire (de)serialization, transport on an open channel,
//! process control, and the bounded handshake receive.  Errors carry no
//! foreign payloads; the layer that observes a platform failure maps it to
//! the matching variant before handing it to the core.

use vstd::prelude::*;

verus! {

/// What went wrong, by responsibility.
#[derive(Clone, Copy, Debug, PartialEq, Eq)]
pub enum Error {
    /// A channel could not be reached or the child could not be spawned.
    Connection,
    /// An envelope or payload was malformed.
    Serialization,
    /// A send or receive failed on an open channel.
    Transport,
    /// Signal delivery or a status query failed.
    ProcessControl,
    /// The bounded handshake receive elapsed without a message.
    Timeout,
}

/// The description owed for each variant.
pub open spec fn description_spec(e: Error) -> Seq<char> {
    match e {
        Error::Connection => "unable to reach channel or spawn child"@,
        Error::Serialization => "malformed envelope or payload"@,
        Error::Transport => "unable to send or receive on open channel"@,
        Error::ProcessControl => "unable to signal or query child process"@,
        Error::Timeout => "timed out waiting for child registration"@,
    }
}

impl Error {
    /// A short, stable description of the error.
    pub fn description(&self) -> (m: &'static str)
        ensures
            m@ == description_spec(*self),
    {
        match self {
            Error::Connection => "unable to reach channel or spawn child",
            Error::Serialization => "malformed envelope or payload",
            Error::Transport => "unable to send or receive on open channel",
            Error::ProcessControl => "unable to signal or query child process",
            Error::Timeout => "timed out waiting for child registration",
        }
    }
}

} // verus!
