use vstd::prelude::*;
use crate::errors::TargetError;
use crate::events::AcceptPoll;
use crate::events::AcceptorEvent;
use crate::events::ChildPoll;
use crate::events::ConnectOutcome;
use crate::events::ExitStatus;
use crate::events::ProtocolEvent;
use crate::events::RunScript;
use crate::events::SetupOutcome;
use crate::messages::reply_for;
use crate::messages::reply_spec;
use crate::messages::OutgoingMessage;
use crate::messages::SendOutcome;

verus! {

/// `std::path::PathBuf` is held opaquely: the orchestration core never
/// reads the path, it only carries it to whatever launches the process.
#[verifier::external_type_specification]
#[verifier::external_body]
pub struct ExPathBuf(std::path::PathBuf);

/// A compiled benchmark executable under orchestration: a human-readable
/// name (used only to tag errors) and the path of the binary.
#[derive(Debug)]
pub struct BenchTarget {
    pub name: String,
    pub executable: std::path::PathBuf,
}

/// What the acceptor phase does with one accept attempt.
#[derive(Clone, Debug, PartialEq, Eq)]
pub enum AcceptDecision {
    /// A peer connected: establish the framed connection and move to the
    /// protocol phase. The endpoint is not consulted again.
    Establish,
    /// Nothing pending: poll the child before trying again.
    CheckChild,
    /// Accepting failed: the run aborts with this error.
    Abort(TargetError),
}

/// What a child-liveness poll means for the run.
#[derive(Clone, Debug, PartialEq, Eq)]
pub enum PollDecision {
    /// The child is still running: keep going.
    KeepWaiting,
    /// The child exited successfully: the run is complete.
    Complete,
    /// The child failed, or polling failed: the run aborts with this error.
    Abort(TargetError),
}

/// How one run ends.
#[derive(Clone, Debug, PartialEq, Eq)]
pub enum RunOutcome {
    /// The child exited successfully, or the channel closed gracefully.
    Success,
    /// The run ended with exactly one classified error.
    Failed(TargetError),
    /// The observed events ran out with nothing decided; the live loops
    /// would simply keep polling.
    Unresolved,
}

/// The verdict of the acceptor phase: either a connection was established
/// and the protocol phase takes over, or the run settled without one.
#[derive(Clone, Debug, PartialEq, Eq)]
pub enum AcceptorVerdict {
    Connected,
    Settled(RunOutcome),
}

/// What one run produced: its outcome, and every message sent to the
/// child, in the order the sends happened.
#[derive(Clone, Debug, PartialEq, Eq)]
pub struct RunReport {
    pub outcome: RunOutcome,
    pub sent: Vec<OutgoingMessage>,
}

/// The decision owed to one accept attempt: the accept result is consulted
/// before the child is ever polled, and any accept error other than
/// "would block" is fatal.
pub open spec fn accept_decision_spec(name: String, poll: AcceptPoll) -> AcceptDecision {
    match poll {
        AcceptPoll::Connected => AcceptDecision::Establish,
        AcceptPoll::Pending => AcceptDecision::CheckChild,
        AcceptPoll::AcceptFailed(detail) => AcceptDecision::Abort(
            TargetError::IoError(name, detail),
        ),
    }
}

/// The decision owed to one child-liveness poll: exit code 0 completes the
/// run, any other exit fails it with that exact status, and a failure of
/// the poll itself is an I/O error.
pub open spec fn poll_decision_spec(name: String, poll: ChildPoll) -> PollDecision {
    match poll {
        ChildPoll::Running => PollDecision::KeepWaiting,
        ChildPoll::Exited(status) => if status.is_success() {
            PollDecision::Complete
        } else {
            PollDecision::Abort(TargetError::TargetFailed(name, status))
        },
        ChildPoll::PollFailed(detail) => PollDecision::Abort(TargetError::IoError(name, detail)),
    }
}

/// Establishing the framed connection either succeeds or fails the run
/// with a connection error, distinct from later I/O errors.
pub open spec fn connect_decision_spec(name: String, outcome: ConnectOutcome) -> Result<
    (),
    TargetError,
> {
    match outcome {
        ConnectOutcome::Established => Ok(()),
        ConnectOutcome::Rejected(detail) => Err(TargetError::ConnectionError(name, detail)),
    }
}

/// A failed send of a reply is a protocol error and fatal.
pub open spec fn send_decision_spec(name: String, outcome: SendOutcome) -> Result<
    (),
    TargetError,
> {
    match outcome {
        SendOutcome::Sent => Ok(()),
        SendOutcome::SendFailed(detail) => Err(TargetError::MessageError(name, detail)),
    }
}

/// The acceptor phase over its observed iterations, in order: the first
/// terminal iteration settles the run or hands it to the protocol phase,
/// and a "no connection yet, child still running" iteration merely moves
/// on to the next one. When the observations run out the phase is still
/// waiting: the live loop would keep polling.
pub open spec fn acceptor_spec(name: String, evs: Seq<AcceptorEvent>) -> AcceptorVerdict
    decreases evs.len(),
{
    if evs.len() == 0 {
        AcceptorVerdict::Settled(RunOutcome::Unresolved)
    } else {
        match evs[0] {
            AcceptorEvent::ConnectionReady(outcome) => match connect_decision_spec(
                name,
                outcome,
            ) {
                Ok(_) => AcceptorVerdict::Connected,
                Err(e) => AcceptorVerdict::Settled(RunOutcome::Failed(e)),
            },
            AcceptorEvent::AcceptFailed(detail) => AcceptorVerdict::Settled(
                RunOutcome::Failed(TargetError::IoError(name, detail)),
            ),
            AcceptorEvent::NoConnection(poll) => match poll_decision_spec(name, poll) {
                PollDecision::KeepWaiting => acceptor_spec(name, evs.drop_first()),
                PollDecision::Complete => AcceptorVerdict::Settled(RunOutcome::Success),
                PollDecision::Abort(e) => AcceptorVerdict::Settled(RunOutcome::Failed(e)),
            },
        }
    }
}

/// What dispatching one message and then polling the child contributes to
/// the protocol phase: a successful exit completes the run, a failure
/// aborts it, and a still-running child lets the rest of the phase
/// (`rest`) decide — with this iteration's reply, if any, sent before
/// anything the rest sends.
pub open spec fn step_after(
    name: String,
    sent_here: Seq<OutgoingMessage>,
    child: ChildPoll,
    rest: (RunOutcome, Seq<OutgoingMessage>),
) -> (RunOutcome, Seq<OutgoingMessage>) {
    match poll_decision_spec(name, child) {
        PollDecision::Complete => (RunOutcome::Success, sent_here),
        PollDecision::Abort(e) => (RunOutcome::Failed(e), sent_here),
        PollDecision::KeepWaiting => (rest.0, sent_here + rest.1),
    }
}

/// The protocol phase over its observed iterations, in order: what the
/// run ends with, and every message sent, in order. Graceful closure
/// succeeds immediately; a receive failure aborts; a received message is
/// answered when a reply is owed (a failed send aborts), and the child is
/// then polled before the next message is awaited.
pub open spec fn protocol_spec(name: String, evs: Seq<ProtocolEvent>) -> (
    RunOutcome,
    Seq<OutgoingMessage>,
)
    decreases evs.len(),
{
    if evs.len() == 0 {
        (RunOutcome::Unresolved, Seq::<OutgoingMessage>::empty())
    } else {
        let rest = protocol_spec(name, evs.drop_first());
        match evs[0] {
            ProtocolEvent::Closed => (RunOutcome::Success, Seq::<OutgoingMessage>::empty()),
            ProtocolEvent::RecvFailed(detail) => (
                RunOutcome::Failed(TargetError::MessageError(name, detail)),
                Seq::<OutgoingMessage>::empty(),
            ),
            ProtocolEvent::Received { message, send, child } => match reply_spec(message) {
                Some(reply) => match send_decision_spec(name, send) {
                    Err(e) => (RunOutcome::Failed(e), Seq::<OutgoingMessage>::empty()),
                    Ok(_) => step_after(name, seq![reply], child, rest),
                },
                None => step_after(name, Seq::<OutgoingMessage>::empty(), child, rest),
            },
        }
    }
}

/// One whole run: a setup failure is fatal before anything is observed;
/// otherwise the acceptor phase either settles the run or hands it to the
/// protocol phase. Messages are sent only once a connection exists.
pub open spec fn run_spec(name: String, script: RunScript) -> (RunOutcome, Seq<OutgoingMessage>) {
    match script.setup {
        SetupOutcome::SetupFailed(detail) => (
            RunOutcome::Failed(TargetError::IoError(name, detail)),
            Seq::<OutgoingMessage>::empty(),
        ),
        SetupOutcome::Ready => match acceptor_spec(name, script.acceptor@) {
            AcceptorVerdict::Connected => protocol_spec(name, script.protocol@),
            AcceptorVerdict::Settled(outcome) => (outcome, Seq::<OutgoingMessage>::empty()),
        },
    }
}

impl BenchTarget {
    /// Tag an OS-level failure with this target's name.
    pub fn io_failure(&self, detail: String) -> (e: TargetError)
        ensures
            e == TargetError::IoError(self.name, detail),
    {
        TargetError::IoError(self.name.clone(), detail)
    }

    /// Tag a connection-establishment failure with this target's name.
    pub fn connection_failure(&self, detail: String) -> (e: TargetError)
        ensures
            e == TargetError::ConnectionError(self.name, detail),
    {
        TargetError::ConnectionError(self.name.clone(), detail)
    }

    /// Tag a framing or decoding failure with this target's name.
    pub fn message_failure(&self, detail: String) -> (e: TargetError)
        ensures
            e == TargetError::MessageError(self.name, detail),
    {
        TargetError::MessageError(self.name.clone(), detail)
    }

    /// Record that this target's child exited with the given non-success
    /// status.
    pub fn target_failed(&self, status: ExitStatus) -> (e: TargetError)
        ensures
            e == TargetError::TargetFailed(self.name, status),
    {
        TargetError::TargetFailed(self.name.clone(), status)
    }

    /// Decide what one accept attempt means for this target's run.
    pub fn on_accept_poll(&self, poll: &AcceptPoll) -> (d: AcceptDecision)
        ensures
            d == accept_decision_spec(self.name, *poll),
    {
        match poll {
            AcceptPoll::Connected => AcceptDecision::Establish,
            AcceptPoll::Pending => AcceptDecision::CheckChild,
            AcceptPoll::AcceptFailed(detail) => AcceptDecision::Abort(
                self.io_failure(detail.clone()),
            ),
        }
    }

    /// Decide what one child-liveness poll means for this target's run.
    pub fn on_child_poll(&self, poll: &ChildPoll) -> (d: PollDecision)
        ensures
            d == poll_decision_spec(self.name, *poll),
    {
        match poll {
            ChildPoll::Running => PollDecision::KeepWaiting,
            ChildPoll::Exited(status) => if status.success() {
                PollDecision::Complete
            } else {
                PollDecision::Abort(self.target_failed(*status))
            },
            ChildPoll::PollFailed(detail) => PollDecision::Abort(self.io_failure(detail.clone())),
        }
    }

    /// Decide what establishing the framed connection returned.
    pub fn on_connect_outcome(&self, outcome: &ConnectOutcome) -> (r: Result<(), TargetError>)
        ensures
            r == connect_decision_spec(self.name, *outcome),
    {
        match outcome {
            ConnectOutcome::Established => Ok(()),
            ConnectOutcome::Rejected(detail) => Err(self.connection_failure(detail.clone())),
        }
    }

    /// Decide what sending a reply returned.
    pub fn on_send_outcome(&self, outcome: &SendOutcome) -> (r: Result<(), TargetError>)
        ensures
            r == send_decision_spec(self.name, *outcome),
    {
        match outcome {
            SendOutcome::Sent => Ok(()),
            SendOutcome::SendFailed(detail) => Err(self.message_failure(detail.clone())),
        }
    }

    /// Run the acceptor phase over its observed iterations: resolve the
    /// race between "the child connects" and "the child exits" into a
    /// verdict, consulting the accept attempt before the child's liveness
    /// on every iteration.
    pub fn accept_phase(&self, events: &Vec<AcceptorEvent>) -> (v: AcceptorVerdict)
        ensures
            v == acceptor_spec(self.name, events@),
    {
        let mut i: usize = 0;
        proof {
            assert(events@.skip(0) =~= events@);
        }
        while i < events.len()
            invariant
                i <= events.len(),
                acceptor_spec(self.name, events@) == acceptor_spec(
                    self.name,
                    events@.skip(i as int),
                ),
            decreases events.len() - i,
        {
            let ev = &events[i];
            proof {
                assert(events@.skip(i as int)[0] == events@[i as int]);
                assert(events@.skip(i as int).drop_first() =~= events@.skip(i as int + 1));
            }
            match ev {
                AcceptorEvent::ConnectionReady(outcome) => {
                    match self.on_connect_outcome(outcome) {
                        Ok(_) => {
                            return AcceptorVerdict::Connected;
                        },
                        Err(e) => {
                            return AcceptorVerdict::Settled(RunOutcome::Failed(e));
                        },
                    }
                },
                AcceptorEvent::AcceptFailed(detail) => {
                    return AcceptorVerdict::Settled(
                        RunOutcome::Failed(self.io_failure(detail.clone())),
                    );
                },
                AcceptorEvent::NoConnection(poll) => {
                    match self.on_child_poll(poll) {
                        PollDecision::KeepWaiting => {},
                        PollDecision::Complete => {
                            return AcceptorVerdict::Settled(RunOutcome::Success);
                        },
                        PollDecision::Abort(e) => {
                            return AcceptorVerdict::Settled(RunOutcome::Failed(e));
                        },
                    }
                },
            }
            i = i + 1;
        }
        proof {
            assert(events@.skip(i as int) =~= Seq::<AcceptorEvent>::empty());
        }
        AcceptorVerdict::Settled(RunOutcome::Unresolved)
    }

    /// Run the protocol phase over its observed iterations: receive and
    /// dispatch one message at a time, reply where a reply is owed, and
    /// poll the child after every message, until the channel closes, the
    /// child exits, or something fails. Returns the outcome together with
    /// every message sent, in order.
    pub fn communicate(&self, events: &Vec<ProtocolEvent>) -> (r: RunReport)
        ensures
            r.outcome == protocol_spec(self.name, events@).0,
            r.sent@ == protocol_spec(self.name, events@).1,
    {
        let mut sent: Vec<OutgoingMessage> = Vec::new();
        let mut i: usize = 0;
        proof {
            assert(events@.skip(0) =~= events@);
            assert(Seq::<OutgoingMessage>::empty() + protocol_spec(self.name, events@).1
                =~= protocol_spec(self.name, events@).1);
        }
        while i < events.len()
            invariant
                i <= events.len(),
                protocol_spec(self.name, events@).0 == protocol_spec(
                    self.name,
                    events@.skip(i as int),
                ).0,
                protocol_spec(self.name, events@).1 == sent@ + protocol_spec(
                    self.name,
                    events@.skip(i as int),
                ).1,
            decreases events.len() - i,
        {
            let ev = &events[i];
            proof {
                assert(events@.skip(i as int)[0] == events@[i as int]);
                assert(events@.skip(i as int).drop_first() =~= events@.skip(i as int + 1));
            }
            match ev {
                ProtocolEvent::Closed => {
                    proof {
                        assert(sent@ + Seq::<OutgoingMessage>::empty() =~= sent@);
                    }
                    return RunReport { outcome: RunOutcome::Success, sent };
                },
                ProtocolEvent::RecvFailed(detail) => {
                    proof {
                        assert(sent@ + Seq::<OutgoingMessage>::empty() =~= sent@);
                    }
                    return RunReport {
                        outcome: RunOutcome::Failed(self.message_failure(detail.clone())),
                        sent,
                    };
                },
                ProtocolEvent::Received { message, send, child } => {
                    let ghost sent_before = sent@;
                    let ghost rest_sent = protocol_spec(self.name, events@.skip(i as int + 1)).1;
                    match reply_for(message) {
                        Some(reply) => {
                            match self.on_send_outcome(send) {
                                Err(e) => {
                                    proof {
                                        assert(sent@ + Seq::<OutgoingMessage>::empty() =~= sent@);
                                    }
                                    return RunReport { outcome: RunOutcome::Failed(e), sent };
                                },
                                Ok(_) => {
                                    sent.push(reply);
                                    proof {
                                        assert(sent@ =~= sent_before + seq![reply]);
                                        assert((sent_before + seq![reply]) + rest_sent
                                            =~= sent_before + (seq![reply] + rest_sent));
                                    }
                                },
                            }
                        },
                        None => {
                            proof {
                                assert(Seq::<OutgoingMessage>::empty() + rest_sent =~= rest_sent);
                            }
                        },
                    }
                    match self.on_child_poll(child) {
                        PollDecision::KeepWaiting => {},
                        PollDecision::Complete => {
                            return RunReport { outcome: RunOutcome::Success, sent };
                        },
                        PollDecision::Abort(e) => {
                            return RunReport { outcome: RunOutcome::Failed(e), sent };
                        },
                    }
                },
            }
            i = i + 1;
        }
        proof {
            assert(events@.skip(i as int) =~= Seq::<ProtocolEvent>::empty());
            assert(sent@ + Seq::<OutgoingMessage>::empty() =~= sent@);
        }
        RunReport { outcome: RunOutcome::Unresolved, sent }
    }

    /// One whole run of this target, over the observed interaction: the
    /// outcome, and every message sent to the child, in order. The result
    /// is a function of the target's name and the run's own events alone;
    /// the descriptor itself is read-only throughout.
    pub fn execute_script(&self, script: &RunScript) -> (r: RunReport)
        ensures
            r.outcome == run_spec(self.name, *script).0,
            r.sent@ == run_spec(self.name, *script).1,
    {
        match &script.setup {
            SetupOutcome::SetupFailed(detail) => RunReport {
                outcome: RunOutcome::Failed(self.io_failure(detail.clone())),
                sent: Vec::new(),
            },
            SetupOutcome::Ready => match self.accept_phase(&script.acceptor) {
                AcceptorVerdict::Connected => self.communicate(&script.protocol),
                AcceptorVerdict::Settled(outcome) => RunReport { outcome, sent: Vec::new() },
            },
        }
    }
}

} // verus!
