use vstd::prelude::*;
use crate::messages::IncomingMessage;
use crate::messages::SendOutcome;

verus! {

/// The exit status of the benchmark child process, as plain data: the
/// numeric exit code when one exists, `None` when the process was ended
/// without one (for example by a signal).
#[derive(Clone, Copy, Debug, PartialEq, Eq)]
pub struct ExitStatus {
    pub code: Option<i32>,
}

impl ExitStatus {
    /// A run counts as successful exactly when the child exited with code 0.
    pub open spec fn is_success(self) -> bool {
        self.code == Some(0i32)
    }

    /// Whether this status is a successful exit.
    pub fn success(&self) -> (r: bool)
        ensures
            r == self.is_success(),
    {
        match self.code {
            Some(c) => c == 0,
            None => false,
        }
    }
}

/// One non-blocking poll of the child process.
#[derive(Clone, Debug)]
pub enum ChildPoll {
    /// The child has not exited yet.
    Running,
    /// The child has exited with the given status.
    Exited(ExitStatus),
    /// Polling itself failed at the OS level; the detail is the rendered cause.
    PollFailed(String),
}

/// One non-blocking accept attempt on the listening endpoint.
#[derive(Clone, Debug)]
pub enum AcceptPoll {
    /// A peer connected.
    Connected,
    /// No connection is pending yet.
    Pending,
    /// Accepting failed at the OS level with the rendered cause.
    AcceptFailed(String),
}

/// The outcome of wrapping an accepted socket in the framed connection,
/// which may itself fail (for example on a handshake mismatch).
#[derive(Clone, Debug)]
pub enum ConnectOutcome {
    Established,
    Rejected(String),
}

/// The outcome of binding the endpoint and spawning the child: everything
/// that happens before the acceptor loop starts.
#[derive(Clone, Debug)]
pub enum SetupOutcome {
    Ready,
    SetupFailed(String),
}

/// One observed iteration of the acceptor phase, in the order the phase
/// consults its sources: the accept attempt first, and the child poll only
/// when no connection was pending.
#[derive(Clone, Debug)]
pub enum AcceptorEvent {
    /// Accept succeeded; the payload is what establishing the framed
    /// connection over the socket returned.
    ConnectionReady(ConnectOutcome),
    /// Accept would block; the child was then polled with this result.
    NoConnection(ChildPoll),
    /// Accept failed with an error other than "would block".
    AcceptFailed(String),
}

/// One observed iteration of the protocol phase: what `receive` returned,
/// and — when a message arrived — how sending the reply (if one was owed)
/// went and what the subsequent child poll showed.
#[derive(Clone, Debug)]
pub enum ProtocolEvent {
    /// A message arrived and was dispatched.
    Received { message: IncomingMessage, send: SendOutcome, child: ChildPoll },
    /// The channel closed gracefully: no further messages.
    Closed,
    /// Receiving failed with the rendered cause.
    RecvFailed(String),
}

/// Everything the environment contributes to one run, as plain data: the
/// setup outcome, then the acceptor-phase observations in order, then the
/// protocol-phase observations in order.
#[derive(Clone, Debug)]
pub struct RunScript {
    pub setup: SetupOutcome,
    pub acceptor: Vec<AcceptorEvent>,
    pub protocol: Vec<ProtocolEvent>,
}

} // verus!
