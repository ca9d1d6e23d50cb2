//! Failures surfaced by the gateway and the control-socket client.
//!
//! The orchestration layer never panics on these: each one becomes an
//! error status plus a log line, and the periodic tick then tries the
//! next song.

use vstd::prelude::*;
use crate::text::u64_digits;

verus! {

/// A failure of an external collaborator, by kind.
#[derive(Clone, Debug)]
pub enum PlayerError {
    /// The external process could not be started.
    Launch(String),
    /// A deadline (in seconds) expired and the child was killed.
    Timeout(u64),
    /// The tool exited with a failure status, described here.
    Tool(String),
    /// The control socket was unavailable or refused.
    Connection(String),
    /// An IPC payload was malformed or unexpected.
    Protocol(String),
    /// No results, or no audio stream was resolved.
    NotFound,
}

/// The message shown for each failure.
pub open spec fn spec_message(e: PlayerError) -> Seq<char> {
    match e {
        PlayerError::Launch(m) => "launch failed: "@ + m@,
        PlayerError::Timeout(secs) => "timed out after "@ + u64_digits(secs as nat) + " s"@,
        PlayerError::Tool(m) => "tool failed: "@ + m@,
        PlayerError::Connection(m) => "connection error: "@ + m@,
        PlayerError::Protocol(m) => "protocol error: "@ + m@,
        PlayerError::NotFound => "no audio stream found"@,
    }
}

impl PlayerError {
    /// Render the failure for the status line and the log.
    pub fn message(&self) -> (r: String)
        ensures
            r@ == spec_message(*self),
    {
        match self {
            PlayerError::Launch(m) => {
                let mut s = String::from_str("launch failed: ");
                s.append(m.as_str());
                s
            },
            PlayerError::Timeout(secs) => {
                let mut s = String::from_str("timed out after ");
                s.append(crate::text::u64_to_string(*secs).as_str());
                s.append(" s");
                s
            },
            PlayerError::Tool(m) => {
                let mut s = String::from_str("tool failed: ");
                s.append(m.as_str());
                s
            },
            PlayerError::Connection(m) => {
                let mut s = String::from_str("connection error: ");
                s.append(m.as_str());
                s
            },
            PlayerError::Protocol(m) => {
                let mut s = String::from_str("protocol error: ");
                s.append(m.as_str());
                s
            },
            PlayerError::NotFound => String::from_str("no audio stream found"),
        }
    }
}

} // verus!
