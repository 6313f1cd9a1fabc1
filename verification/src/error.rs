//! The ways in which a send fails.

use vstd::prelude::*;
use vstd::string::StringExecFns;

verus! {

/// Why a send failed. Each failure ends the send: nothing is retried.
#[derive(Clone, Copy, Debug, PartialEq, Eq, Structural)]
pub enum SendError {
    /// A field of the message could not be written as form data.
    Serialize,
    /// The account identifier is not configured.
    MissingSid,
    /// The auth token is not configured.
    MissingToken,
    /// A proxy is configured, and its value is no proxy URL.
    InvalidProxy,
    /// The HTTP client could not be built.
    ClientBuild,
    /// The request was not carried through by the transport.
    Transport,
}

impl SendError {
    /// The line that describes this failure in a log.
    pub open spec fn text(self) -> Seq<char> {
        match self {
            SendError::Serialize => "Failed to serialize MessageRequest"@,
            SendError::MissingSid => "Failed to retrieve environment variable TWILIO_SEND_SID"@,
            SendError::MissingToken => "Failed to retrieve environment variable TWILIO_SEND_TOKEN"@,
            SendError::InvalidProxy => "Failed to construct proxy"@,
            SendError::ClientBuild => "Failed to build request"@,
            SendError::Transport => "Request failed"@,
        }
    }

    /// Describes the failure in words, for a log line.
    pub fn describe(&self) -> (line: String)
        ensures
            line@ == self.text(),
    {
        match self {
            SendError::Serialize => String::from_str("Failed to serialize MessageRequest"),
            SendError::MissingSid => String::from_str(
                "Failed to retrieve environment variable TWILIO_SEND_SID",
            ),
            SendError::MissingToken => String::from_str(
                "Failed to retrieve environment variable TWILIO_SEND_TOKEN",
            ),
            SendError::InvalidProxy => String::from_str("Failed to construct proxy"),
            SendError::ClientBuild => String::from_str("Failed to build request"),
            SendError::Transport => String::from_str("Request failed"),
        }
    }
}

} // verus!
