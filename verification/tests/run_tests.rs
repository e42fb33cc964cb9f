use std::path::PathBuf;

use bench_target::errors::TargetError;
use bench_target::events::AcceptPoll;
use bench_target::events::AcceptorEvent;
use bench_target::events::ChildPoll;
use bench_target::events::ConnectOutcome;
use bench_target::events::ExitStatus;
use bench_target::events::ProtocolEvent;
use bench_target::events::RunScript;
use bench_target::events::SetupOutcome;
use bench_target::messages::reply_for;
use bench_target::messages::IncomingMessage;
use bench_target::messages::OutgoingMessage;
use bench_target::messages::SendOutcome;
use bench_target::target::AcceptDecision;
use bench_target::target::AcceptorVerdict;
use bench_target::target::BenchTarget;
use bench_target::target::PollDecision;
use bench_target::target::RunOutcome;

fn target(name: &str) -> BenchTarget {
    BenchTarget {
        name: name.to_string(),
        executable: PathBuf::from(format!("/benchmarks/{}", name)),
    }
}

fn exited(code: i32) -> ChildPoll {
    ChildPoll::Exited(ExitStatus { code: Some(code) })
}

fn received(message: IncomingMessage) -> ProtocolEvent {
    ProtocolEvent::Received {
        message,
        send: SendOutcome::Sent,
        child: ChildPoll::Running,
    }
}

fn begin(id: &str) -> IncomingMessage {
    IncomingMessage::BeginningBenchmark { id: id.to_string() }
}

fn group_begin(group: &str) -> IncomingMessage {
    IncomingMessage::BeginningBenchmarkGroup {
        group: group.to_string(),
    }
}

#[test]
fn exit_zero_without_connecting_succeeds() {
    let t = target("quiet");
    let script = RunScript {
        setup: SetupOutcome::Ready,
        acceptor: vec![
            AcceptorEvent::NoConnection(ChildPoll::Running),
            AcceptorEvent::NoConnection(ChildPoll::Running),
            AcceptorEvent::NoConnection(exited(0)),
        ],
        protocol: vec![],
    };
    let report = t.execute_script(&script);
    assert_eq!(report.outcome, RunOutcome::Success);
    assert!(report.sent.is_empty());
}

#[test]
fn nonzero_exit_before_connecting_is_target_failed_with_exact_status() {
    let t = target("crashy");
    let script = RunScript {
        setup: SetupOutcome::Ready,
        acceptor: vec![
            AcceptorEvent::NoConnection(ChildPoll::Running),
            AcceptorEvent::NoConnection(exited(3)),
        ],
        protocol: vec![],
    };
    let report = t.execute_script(&script);
    assert_eq!(
        report.outcome,
        RunOutcome::Failed(TargetError::TargetFailed(
            "crashy".to_string(),
            ExitStatus { code: Some(3) },
        )),
    );
    assert!(report.sent.is_empty());
}

#[test]
fn signal_death_before_connecting_is_target_failed() {
    let t = target("signalled");
    let script = RunScript {
        setup: SetupOutcome::Ready,
        acceptor: vec![AcceptorEvent::NoConnection(ChildPoll::Exited(ExitStatus {
            code: None,
        }))],
        protocol: vec![],
    };
    let report = t.execute_script(&script);
    assert_eq!(
        report.outcome,
        RunOutcome::Failed(TargetError::TargetFailed(
            "signalled".to_string(),
            ExitStatus { code: None },
        )),
    );
}

#[test]
fn clean_session_ending_in_graceful_closure_succeeds() {
    let t = target("steady");
    let script = RunScript {
        setup: SetupOutcome::Ready,
        acceptor: vec![
            AcceptorEvent::NoConnection(ChildPoll::Running),
            AcceptorEvent::ConnectionReady(ConnectOutcome::Established),
        ],
        protocol: vec![
            received(group_begin("g1")),
            received(begin("b1")),
            received(IncomingMessage::Warmup {
                id: "b1".to_string(),
                nanos: 3_000_000_000,
            }),
            received(IncomingMessage::MeasurementComplete {
                id: "b1".to_string(),
                iters: vec![10, 20],
                times: vec![100, 210],
            }),
            ProtocolEvent::Closed,
        ],
    };
    let report = t.execute_script(&script);
    assert_eq!(report.outcome, RunOutcome::Success);
    assert_eq!(report.sent, vec![OutgoingMessage::RunBenchmark]);
}

#[test]
fn benchmark_begin_gets_exactly_one_run_benchmark_each() {
    let t = target("paired");
    let script = RunScript {
        setup: SetupOutcome::Ready,
        acceptor: vec![AcceptorEvent::ConnectionReady(ConnectOutcome::Established)],
        protocol: vec![
            received(begin("b1")),
            received(IncomingMessage::SkippingBenchmark {
                id: "b2".to_string(),
            }),
            received(begin("b3")),
            ProtocolEvent::Closed,
        ],
    };
    let report = t.execute_script(&script);
    assert_eq!(report.outcome, RunOutcome::Success);
    assert_eq!(
        report.sent,
        vec![OutgoingMessage::RunBenchmark, OutgoingMessage::RunBenchmark],
    );
}

#[test]
fn informational_messages_send_nothing() {
    let t = target("silent");
    let script = RunScript {
        setup: SetupOutcome::Ready,
        acceptor: vec![AcceptorEvent::ConnectionReady(ConnectOutcome::Established)],
        protocol: vec![
            received(group_begin("g1")),
            received(IncomingMessage::FinishedBenchmarkGroup {
                group: "g1".to_string(),
            }),
            received(IncomingMessage::MeasurementStart {
                id: "b1".to_string(),
                sample_count: 100,
                estimate_ns: 5_000_000_000,
                iter_count: 1000,
                added_runner: None,
            }),
            ProtocolEvent::Closed,
        ],
    };
    let report = t.execute_script(&script);
    assert_eq!(report.outcome, RunOutcome::Success);
    assert!(report.sent.is_empty());
}

#[test]
fn child_success_after_message_completes_run_without_waiting() {
    let t = target("prompt");
    let script = RunScript {
        setup: SetupOutcome::Ready,
        acceptor: vec![AcceptorEvent::ConnectionReady(ConnectOutcome::Established)],
        protocol: vec![
            received(begin("b1")),
            ProtocolEvent::Received {
                message: group_begin("g2"),
                send: SendOutcome::Sent,
                child: exited(0),
            },
            // The child's successful exit is authoritative: nothing after
            // it is received, even if more might be pending.
            received(begin("never-handled")),
        ],
    };
    let report = t.execute_script(&script);
    assert_eq!(report.outcome, RunOutcome::Success);
    assert_eq!(report.sent, vec![OutgoingMessage::RunBenchmark]);
}

#[test]
fn child_failure_after_message_stops_run_and_reads_no_further() {
    let t = target("midway");
    let script = RunScript {
        setup: SetupOutcome::Ready,
        acceptor: vec![AcceptorEvent::ConnectionReady(ConnectOutcome::Established)],
        protocol: vec![
            received(begin("b1")),
            ProtocolEvent::Received {
                message: group_begin("g2"),
                send: SendOutcome::Sent,
                child: exited(101),
            },
            // Anything after the observed failure must be ignored.
            ProtocolEvent::Closed,
            received(begin("never-handled")),
        ],
    };
    let report = t.execute_script(&script);
    assert_eq!(
        report.outcome,
        RunOutcome::Failed(TargetError::TargetFailed(
            "midway".to_string(),
            ExitStatus { code: Some(101) },
        )),
    );
    // Only the reply owed before the failure was sent.
    assert_eq!(report.sent, vec![OutgoingMessage::RunBenchmark]);
}

#[test]
fn suite_a_bind_failure_is_io_error_with_target_name() {
    let t = target("suite_a");
    let script = RunScript {
        setup: SetupOutcome::SetupFailed("address already in use".to_string()),
        acceptor: vec![],
        protocol: vec![],
    };
    let report = t.execute_script(&script);
    assert_eq!(
        report.outcome,
        RunOutcome::Failed(TargetError::IoError(
            "suite_a".to_string(),
            "address already in use".to_string(),
        )),
    );
    assert!(report.sent.is_empty());
}

#[test]
fn suite_b_graceful_closure_without_exit_succeeds() {
    let t = target("suite_b");
    let script = RunScript {
        setup: SetupOutcome::Ready,
        acceptor: vec![AcceptorEvent::ConnectionReady(ConnectOutcome::Established)],
        protocol: vec![
            received(group_begin("g1")),
            received(begin("b1")),
            // The channel closes; the child has not exited, and no exit is
            // ever observed afterwards.
            ProtocolEvent::Closed,
        ],
    };
    let report = t.execute_script(&script);
    assert_eq!(report.outcome, RunOutcome::Success);
    assert_eq!(report.sent, vec![OutgoingMessage::RunBenchmark]);
}

#[test]
fn executing_the_same_descriptor_twice_gives_the_same_result() {
    let t = target("repeat");
    let script = RunScript {
        setup: SetupOutcome::Ready,
        acceptor: vec![
            AcceptorEvent::NoConnection(ChildPoll::Running),
            AcceptorEvent::ConnectionReady(ConnectOutcome::Established),
        ],
        protocol: vec![received(begin("b1")), ProtocolEvent::Closed],
    };
    let first = t.execute_script(&script);
    let second = t.execute_script(&script);
    assert_eq!(first, second);
    assert_eq!(first.outcome, RunOutcome::Success);
}

#[test]
fn accept_error_other_than_would_block_is_fatal_io_error() {
    let t = target("refused");
    let script = RunScript {
        setup: SetupOutcome::Ready,
        acceptor: vec![AcceptorEvent::AcceptFailed("too many open files".to_string())],
        protocol: vec![],
    };
    let report = t.execute_script(&script);
    assert_eq!(
        report.outcome,
        RunOutcome::Failed(TargetError::IoError(
            "refused".to_string(),
            "too many open files".to_string(),
        )),
    );
}

#[test]
fn handshake_rejection_is_connection_error() {
    let t = target("mismatched");
    let script = RunScript {
        setup: SetupOutcome::Ready,
        acceptor: vec![AcceptorEvent::ConnectionReady(ConnectOutcome::Rejected(
            "wrong magic number".to_string(),
        ))],
        protocol: vec![],
    };
    let report = t.execute_script(&script);
    assert_eq!(
        report.outcome,
        RunOutcome::Failed(TargetError::ConnectionError(
            "mismatched".to_string(),
            "wrong magic number".to_string(),
        )),
    );
}

#[test]
fn receive_failure_is_message_error() {
    let t = target("garbled");
    let script = RunScript {
        setup: SetupOutcome::Ready,
        acceptor: vec![AcceptorEvent::ConnectionReady(ConnectOutcome::Established)],
        protocol: vec![ProtocolEvent::RecvFailed("bad frame length".to_string())],
    };
    let report = t.execute_script(&script);
    assert_eq!(
        report.outcome,
        RunOutcome::Failed(TargetError::MessageError(
            "garbled".to_string(),
            "bad frame length".to_string(),
        )),
    );
}

#[test]
fn send_failure_on_reply_is_message_error_and_logs_nothing() {
    let t = target("deaf");
    let script = RunScript {
        setup: SetupOutcome::Ready,
        acceptor: vec![AcceptorEvent::ConnectionReady(ConnectOutcome::Established)],
        protocol: vec![ProtocolEvent::Received {
            message: begin("b1"),
            send: SendOutcome::SendFailed("connection reset".to_string()),
            child: ChildPoll::Running,
        }],
    };
    let report = t.execute_script(&script);
    assert_eq!(
        report.outcome,
        RunOutcome::Failed(TargetError::MessageError(
            "deaf".to_string(),
            "connection reset".to_string(),
        )),
    );
    assert!(report.sent.is_empty());
}

#[test]
fn poll_failure_during_acceptance_is_io_error() {
    let t = target("unpollable");
    let script = RunScript {
        setup: SetupOutcome::Ready,
        acceptor: vec![AcceptorEvent::NoConnection(ChildPoll::PollFailed(
            "no such process".to_string(),
        ))],
        protocol: vec![],
    };
    let report = t.execute_script(&script);
    assert_eq!(
        report.outcome,
        RunOutcome::Failed(TargetError::IoError(
            "unpollable".to_string(),
            "no such process".to_string(),
        )),
    );
}

#[test]
fn exhausted_observations_leave_the_run_unresolved() {
    let t = target("spinner");
    let script = RunScript {
        setup: SetupOutcome::Ready,
        acceptor: vec![
            AcceptorEvent::NoConnection(ChildPoll::Running),
            AcceptorEvent::NoConnection(ChildPoll::Running),
        ],
        protocol: vec![],
    };
    let report = t.execute_script(&script);
    assert_eq!(report.outcome, RunOutcome::Unresolved);
}

#[test]
fn reply_for_answers_only_benchmark_begin() {
    assert_eq!(reply_for(&begin("b1")), Some(OutgoingMessage::RunBenchmark));
    assert_eq!(reply_for(&group_begin("g1")), None);
    assert_eq!(
        reply_for(&IncomingMessage::FinishedBenchmarkGroup {
            group: "g1".to_string(),
        }),
        None,
    );
    assert_eq!(
        reply_for(&IncomingMessage::SkippingBenchmark {
            id: "b1".to_string(),
        }),
        None,
    );
    assert_eq!(
        reply_for(&IncomingMessage::Warmup {
            id: "b1".to_string(),
            nanos: 5,
        }),
        None,
    );
    assert_eq!(
        reply_for(&IncomingMessage::MeasurementStart {
            id: "b1".to_string(),
            sample_count: 10,
            estimate_ns: 100,
            iter_count: 7,
            added_runner: Some(2),
        }),
        None,
    );
    assert_eq!(
        reply_for(&IncomingMessage::MeasurementComplete {
            id: "b1".to_string(),
            iters: vec![1],
            times: vec![9],
        }),
        None,
    );
}

#[test]
fn exit_status_success_is_exactly_code_zero() {
    assert!(ExitStatus { code: Some(0) }.success());
    assert!(!ExitStatus { code: Some(1) }.success());
    assert!(!ExitStatus { code: Some(-9) }.success());
    assert!(!ExitStatus { code: None }.success());
}

#[test]
fn accept_poll_decisions() {
    let t = target("poller");
    assert_eq!(t.on_accept_poll(&AcceptPoll::Connected), AcceptDecision::Establish);
    assert_eq!(t.on_accept_poll(&AcceptPoll::Pending), AcceptDecision::CheckChild);
    assert_eq!(
        t.on_accept_poll(&AcceptPoll::AcceptFailed("interrupted".to_string())),
        AcceptDecision::Abort(TargetError::IoError(
            "poller".to_string(),
            "interrupted".to_string(),
        )),
    );
}

#[test]
fn child_poll_decisions() {
    let t = target("watcher");
    assert_eq!(t.on_child_poll(&ChildPoll::Running), PollDecision::KeepWaiting);
    assert_eq!(t.on_child_poll(&exited(0)), PollDecision::Complete);
    assert_eq!(
        t.on_child_poll(&exited(2)),
        PollDecision::Abort(TargetError::TargetFailed(
            "watcher".to_string(),
            ExitStatus { code: Some(2) },
        )),
    );
    assert_eq!(
        t.on_child_poll(&ChildPoll::PollFailed("permission denied".to_string())),
        PollDecision::Abort(TargetError::IoError(
            "watcher".to_string(),
            "permission denied".to_string(),
        )),
    );
}

#[test]
fn connect_and_send_decisions() {
    let t = target("handshaker");
    assert_eq!(t.on_connect_outcome(&ConnectOutcome::Established), Ok(()));
    assert_eq!(
        t.on_connect_outcome(&ConnectOutcome::Rejected("version skew".to_string())),
        Err(TargetError::ConnectionError(
            "handshaker".to_string(),
            "version skew".to_string(),
        )),
    );
    assert_eq!(t.on_send_outcome(&SendOutcome::Sent), Ok(()));
    assert_eq!(
        t.on_send_outcome(&SendOutcome::SendFailed("broken pipe".to_string())),
        Err(TargetError::MessageError(
            "handshaker".to_string(),
            "broken pipe".to_string(),
        )),
    );
}

#[test]
fn accept_phase_alone_settles_on_child_success() {
    let t = target("phased");
    let events = vec![
        AcceptorEvent::NoConnection(ChildPoll::Running),
        AcceptorEvent::NoConnection(exited(0)),
    ];
    assert_eq!(
        t.accept_phase(&events),
        AcceptorVerdict::Settled(RunOutcome::Success),
    );
}

#[test]
fn communicate_alone_reports_unresolved_on_no_events() {
    let t = target("idle");
    let report = t.communicate(&vec![]);
    assert_eq!(report.outcome, RunOutcome::Unresolved);
    assert!(report.sent.is_empty());
}
