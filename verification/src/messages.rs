use vstd::prelude::*;

verus! {

/// A lifecycle event reported by the running benchmark executable.
///
/// Payloads are carried for the caller's benefit; the orchestration core
/// reads only the tag when deciding how to react.
#[derive(Clone, Debug)]
pub enum IncomingMessage {
    BeginningBenchmarkGroup { group: String },
    FinishedBenchmarkGroup { group: String },
    BeginningBenchmark { id: String },
    SkippingBenchmark { id: String },
    Warmup { id: String, nanos: u64 },
    MeasurementStart {
        id: String,
        sample_count: u64,
        estimate_ns: u64,
        iter_count: u64,
        added_runner: Option<u64>,
    },
    MeasurementComplete { id: String, iters: Vec<u64>, times: Vec<u64> },
}

/// An instruction sent back to the benchmark executable.
#[derive(Clone, Copy, Debug, PartialEq, Eq, Structural)]
pub enum OutgoingMessage {
    RunBenchmark,
}

/// The outcome of sending one outgoing message over the framed channel.
#[derive(Clone, Debug)]
pub enum SendOutcome {
    Sent,
    SendFailed(String),
}

/// Which incoming messages demand a reply: only the announcement that a
/// benchmark is about to begin is answered; every other message is
/// informational.
pub open spec fn needs_reply(m: IncomingMessage) -> bool {
    m is BeginningBenchmark
}

/// The reply owed to a message: exactly one `RunBenchmark` instruction for
/// a `BeginningBenchmark`, nothing for any other message.
pub open spec fn reply_spec(m: IncomingMessage) -> Option<OutgoingMessage> {
    if needs_reply(m) {
        Some(OutgoingMessage::RunBenchmark)
    } else {
        None
    }
}

/// Decide the reply to a received message.
pub fn reply_for(m: &IncomingMessage) -> (r: Option<OutgoingMessage>)
    ensures
        r == reply_spec(*m),
{
    match m {
        IncomingMessage::BeginningBenchmark { .. } => Some(OutgoingMessage::RunBenchmark),
        _ => None,
    }
}

} // verus!
