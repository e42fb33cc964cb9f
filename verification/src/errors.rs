use vstd::prelude::*;
use crate::events::ExitStatus;

verus! {

/// The single classified error a run can end with. Every variant carries
/// the name of the target it arose from; the second field is the underlying
/// cause — rendered to text for the OS- and protocol-level kinds, the exact
/// exit status for a failed target.
#[derive(Clone, Debug, PartialEq, Eq)]
pub enum TargetError {
    /// An OS-level failure: bind, spawn, poll, accept, or socket I/O below
    /// the protocol layer.
    IoError(String, String),
    /// The child process exited with a non-success status.
    TargetFailed(String, ExitStatus),
    /// Malformed or unexpected data at the framing or decoding layer.
    MessageError(String, String),
    /// A failure while establishing or validating the connection.
    ConnectionError(String, String),
}

impl TargetError {
    /// Every error is tagged with the name of the target it arose from.
    pub open spec fn target_name(self) -> String {
        match self {
            TargetError::IoError(name, _) => name,
            TargetError::TargetFailed(name, _) => name,
            TargetError::MessageError(name, _) => name,
            TargetError::ConnectionError(name, _) => name,
        }
    }
}

} // verus!
