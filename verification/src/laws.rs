use vstd::prelude::*;
use crate::errors::TargetError;
use crate::events::AcceptorEvent;
use crate::events::ChildPoll;
use crate::events::ConnectOutcome;
use crate::events::ExitStatus;
use crate::events::ProtocolEvent;
use crate::events::RunScript;
use crate::messages::needs_reply;
use crate::messages::reply_spec;
use crate::messages::IncomingMessage;
use crate::messages::OutgoingMessage;
use crate::target::acceptor_spec;
use crate::target::protocol_spec;
use crate::target::run_spec;
use crate::target::AcceptorVerdict;
use crate::target::RunOutcome;

verus! {

/// Iterations on which the acceptor phase merely keeps waiting: no
/// connection pending, child still running.
pub open spec fn still_waiting(ev: AcceptorEvent) -> bool {
    ev matches AcceptorEvent::NoConnection(ChildPoll::Running)
}

/// Iterations on which the protocol phase carries on: a message arrived,
/// any reply it demanded was sent, and the child was still running.
pub open spec fn carries_on(ev: ProtocolEvent) -> bool {
    &&& ev matches ProtocolEvent::Received { message, send, child }
    &&& (needs_reply(message) ==> send is Sent)
    &&& child is Running
}

/// The replies owed to the messages among the given iterations, in
/// arrival order: one `RunBenchmark` for each `BeginningBenchmark`,
/// nothing for any other message.
pub open spec fn replies_of(evs: Seq<ProtocolEvent>) -> Seq<OutgoingMessage>
    decreases evs.len(),
{
    if evs.len() == 0 {
        Seq::<OutgoingMessage>::empty()
    } else {
        let head = match evs[0] {
            ProtocolEvent::Received { message, .. } => match reply_spec(message) {
                Some(reply) => seq![reply],
                None => Seq::<OutgoingMessage>::empty(),
            },
            ProtocolEvent::Closed => Seq::<OutgoingMessage>::empty(),
            ProtocolEvent::RecvFailed(_) => Seq::<OutgoingMessage>::empty(),
        };
        head + replies_of(evs.drop_first())
    }
}

/// Iterations on which the acceptor phase keeps waiting decide nothing:
/// the phase's verdict is whatever the remaining iterations yield.
pub proof fn lemma_acceptor_skips_waiting(name: String, evs: Seq<AcceptorEvent>, k: int)
    requires
        0 <= k <= evs.len(),
        forall|i: int| 0 <= i < k ==> still_waiting(#[trigger] evs[i]),
    ensures
        acceptor_spec(name, evs) == acceptor_spec(name, evs.skip(k)),
    decreases k,
{
    if k == 0 {
        assert(evs.skip(0) =~= evs);
    } else {
        assert(still_waiting(evs[0]));
        assert forall|i: int| 0 <= i < k - 1 implies still_waiting(
            #[trigger] evs.drop_first()[i],
        ) by {
            assert(evs.drop_first()[i] == evs[i + 1]);
        }
        lemma_acceptor_skips_waiting(name, evs.drop_first(), k - 1);
        assert(evs.drop_first().skip(k - 1) =~= evs.skip(k));
    }
}

/// A valid target whose executable exits 0 without ever connecting yields
/// a successful run, with nothing ever sent.
pub proof fn lemma_exit_zero_without_connecting(name: String, script: RunScript, k: int)
    requires
        script.setup is Ready,
        0 <= k < script.acceptor@.len(),
        forall|i: int| 0 <= i < k ==> still_waiting(#[trigger] script.acceptor@[i]),
        script.acceptor@[k] matches AcceptorEvent::NoConnection(ChildPoll::Exited(status))
            && status.is_success(),
    ensures
        run_spec(name, script).0 is Success,
        run_spec(name, script).1 == Seq::<OutgoingMessage>::empty(),
{
    lemma_acceptor_skips_waiting(name, script.acceptor@, k);
    assert(script.acceptor@.skip(k)[0] == script.acceptor@[k]);
}

/// A target whose executable exits non-zero before ever connecting fails
/// the run with a target-failed error carrying that exact exit status,
/// with nothing ever sent.
pub proof fn lemma_nonzero_exit_before_connecting(
    name: String,
    script: RunScript,
    k: int,
    status: ExitStatus,
)
    requires
        script.setup is Ready,
        0 <= k < script.acceptor@.len(),
        forall|i: int| 0 <= i < k ==> still_waiting(#[trigger] script.acceptor@[i]),
        script.acceptor@[k] == AcceptorEvent::NoConnection(ChildPoll::Exited(status)),
        !status.is_success(),
    ensures
        run_spec(name, script).0 == RunOutcome::Failed(TargetError::TargetFailed(name, status)),
        run_spec(name, script).1 == Seq::<OutgoingMessage>::empty(),
{
    lemma_acceptor_skips_waiting(name, script.acceptor@, k);
    assert(script.acceptor@.skip(k)[0] == script.acceptor@[k]);
}

/// While the protocol phase carries on, every reply is sent in response to
/// its own message, before anything a later iteration contributes: the
/// phase's log is the replies owed to the messages handled so far, in
/// arrival order, followed by whatever the remaining iterations send — and
/// the phase's outcome is the remaining iterations' outcome.
pub proof fn lemma_replies_in_arrival_order(name: String, evs: Seq<ProtocolEvent>, k: int)
    requires
        0 <= k <= evs.len(),
        forall|i: int| 0 <= i < k ==> carries_on(#[trigger] evs[i]),
    ensures
        protocol_spec(name, evs).0 == protocol_spec(name, evs.skip(k)).0,
        protocol_spec(name, evs).1 == replies_of(evs.take(k)) + protocol_spec(
            name,
            evs.skip(k),
        ).1,
    decreases k,
{
    if k == 0 {
        assert(evs.skip(0) =~= evs);
        assert(evs.take(0) =~= Seq::<ProtocolEvent>::empty());
        assert(replies_of(evs.take(0)) + protocol_spec(name, evs).1 =~= protocol_spec(
            name,
            evs,
        ).1);
    } else {
        assert(carries_on(evs[0]));
        assert forall|i: int| 0 <= i < k - 1 implies carries_on(
            #[trigger] evs.drop_first()[i],
        ) by {
            assert(evs.drop_first()[i] == evs[i + 1]);
        }
        lemma_replies_in_arrival_order(name, evs.drop_first(), k - 1);
        assert(evs.drop_first().skip(k - 1) =~= evs.skip(k));
        assert(evs.drop_first().take(k - 1) =~= evs.take(k).drop_first());
        assert(evs.take(k)[0] == evs[0]);
        let head = match evs[0] {
            ProtocolEvent::Received { message, .. } => match reply_spec(message) {
                Some(reply) => seq![reply],
                None => Seq::<OutgoingMessage>::empty(),
            },
            ProtocolEvent::Closed => Seq::<OutgoingMessage>::empty(),
            ProtocolEvent::RecvFailed(_) => Seq::<OutgoingMessage>::empty(),
        };
        let rest = protocol_spec(name, evs.drop_first());
        let tail_log = replies_of(evs.take(k).drop_first());
        let further = protocol_spec(name, evs.skip(k)).1;
        assert(protocol_spec(name, evs).1 == head + rest.1);
        assert(replies_of(evs.take(k)) == head + tail_log);
        assert(rest.1 == tail_log + further);
        assert(head + (tail_log + further) =~= (head + tail_log) + further);
    }
}

/// A target that connects, is handled through a well-formed message
/// sequence ending in graceful channel closure, and is never seen to have
/// failed, yields a successful run; exactly the replies owed to the
/// handled messages were sent, in arrival order.
pub proof fn lemma_clean_session_succeeds(name: String, script: RunScript, k: int, m: int)
    requires
        script.setup is Ready,
        0 <= k < script.acceptor@.len(),
        forall|i: int| 0 <= i < k ==> still_waiting(#[trigger] script.acceptor@[i]),
        script.acceptor@[k] == AcceptorEvent::ConnectionReady(ConnectOutcome::Established),
        0 <= m < script.protocol@.len(),
        forall|j: int| 0 <= j < m ==> carries_on(#[trigger] script.protocol@[j]),
        script.protocol@[m] is Closed,
    ensures
        run_spec(name, script).0 is Success,
        run_spec(name, script).1 == replies_of(script.protocol@.take(m)),
{
    lemma_acceptor_skips_waiting(name, script.acceptor@, k);
    assert(script.acceptor@.skip(k)[0] == script.acceptor@[k]);
    lemma_replies_in_arrival_order(name, script.protocol@, m);
    assert(script.protocol@.skip(m)[0] == script.protocol@[m]);
    assert(replies_of(script.protocol@.take(m)) + Seq::<OutgoingMessage>::empty()
        =~= replies_of(script.protocol@.take(m)));
}

/// A "benchmark begin" message is answered with exactly one "run
/// benchmark" instruction; no other message is answered at all.
pub proof fn lemma_one_reply_per_begin(m: IncomingMessage)
    ensures
        m is BeginningBenchmark ==> reply_spec(m) == Some(OutgoingMessage::RunBenchmark),
        !(m is BeginningBenchmark) ==> reply_spec(m) is None,
{
}

/// If the child is observed to have exited non-zero after a message —
/// whatever was handled before — the run ends at once with target-failed
/// carrying that exact status, and nothing past that iteration is ever
/// read: the protocol phase's result is already fixed by the iterations
/// up to and including it.
pub proof fn lemma_child_failure_stops_run(
    name: String,
    script: RunScript,
    k: int,
    m: int,
    status: ExitStatus,
)
    requires
        script.setup is Ready,
        0 <= k < script.acceptor@.len(),
        forall|i: int| 0 <= i < k ==> still_waiting(#[trigger] script.acceptor@[i]),
        script.acceptor@[k] == AcceptorEvent::ConnectionReady(ConnectOutcome::Established),
        0 <= m < script.protocol@.len(),
        forall|j: int| 0 <= j < m ==> carries_on(#[trigger] script.protocol@[j]),
        script.protocol@[m] matches ProtocolEvent::Received { message, send, child }
            && (needs_reply(message) ==> send is Sent)
            && child == ChildPoll::Exited(status),
        !status.is_success(),
    ensures
        run_spec(name, script).0 == RunOutcome::Failed(TargetError::TargetFailed(name, status)),
        protocol_spec(name, script.protocol@) == protocol_spec(
            name,
            script.protocol@.take(m + 1),
        ),
{
    let evs = script.protocol@;
    lemma_acceptor_skips_waiting(name, script.acceptor@, k);
    assert(script.acceptor@.skip(k)[0] == script.acceptor@[k]);
    lemma_replies_in_arrival_order(name, evs, m);
    assert(evs.skip(m)[0] == evs[m]);
    let t = evs.take(m + 1);
    assert(t.len() == m + 1);
    assert forall|j: int| 0 <= j < m implies carries_on(#[trigger] t[j]) by {
        assert(t[j] == evs[j]);
    }
    lemma_replies_in_arrival_order(name, t, m);
    assert(t.skip(m)[0] == evs[m]);
    assert(t.skip(m).len() == 1);
    assert(t.take(m) =~= evs.take(m));
}

/// Whatever the acceptor phase fails with is tagged with the target's name.
pub proof fn lemma_acceptor_errors_tagged(name: String, evs: Seq<AcceptorEvent>)
    ensures
        acceptor_spec(name, evs) matches AcceptorVerdict::Settled(RunOutcome::Failed(e))
            ==> e.target_name() == name,
    decreases evs.len(),
{
    if evs.len() > 0 {
        lemma_acceptor_errors_tagged(name, evs.drop_first());
    }
}

/// Whatever the protocol phase fails with is tagged with the target's name.
pub proof fn lemma_protocol_errors_tagged(name: String, evs: Seq<ProtocolEvent>)
    ensures
        protocol_spec(name, evs).0 matches RunOutcome::Failed(e) ==> e.target_name() == name,
    decreases evs.len(),
{
    if evs.len() > 0 {
        lemma_protocol_errors_tagged(name, evs.drop_first());
    }
}

/// Every error a run can end with is tagged with the originating target's
/// name, whichever failure surface it came from.
pub proof fn lemma_errors_carry_target_name(name: String, script: RunScript)
    ensures
        run_spec(name, script).0 matches RunOutcome::Failed(e) ==> e.target_name() == name,
{
    lemma_acceptor_errors_tagged(name, script.acceptor@);
    lemma_protocol_errors_tagged(name, script.protocol@);
}

/// At most one connection attempt is ever serviced: the first iteration
/// that observes a pending connection decides the acceptor phase, and no
/// later iteration is consulted at all.
pub proof fn lemma_at_most_one_connection(name: String, evs: Seq<AcceptorEvent>, k: int)
    requires
        0 <= k < evs.len(),
        forall|i: int| 0 <= i < k ==> still_waiting(#[trigger] evs[i]),
        evs[k] matches AcceptorEvent::ConnectionReady(_),
    ensures
        acceptor_spec(name, evs) == acceptor_spec(name, evs.take(k + 1)),
{
    lemma_acceptor_skips_waiting(name, evs, k);
    assert(evs.skip(k)[0] == evs[k]);
    let t = evs.take(k + 1);
    assert(t.len() == k + 1);
    assert forall|i: int| 0 <= i < k implies still_waiting(#[trigger] t[i]) by {
        assert(t[i] == evs[i]);
    }
    lemma_acceptor_skips_waiting(name, t, k);
    assert(t.skip(k)[0] == evs[k]);
}

} // verus!
