use std::fmt::Debug;
use std::io;
use std::sync::Arc;

use pgwire_replication::client::connection::{
    worker_step, Platform, Upgrade, WorkerAction, WorkerEvent,
};
use pgwire_replication::client::lifecycle::{
    abort_step, drop_step, is_running, join_after_worker, join_step, recv_after_worker, recv_step,
    shutdown_step, DropStep, RecvStep, ShutdownStep,
};
use pgwire_replication::client::progress::update_applied;
use pgwire_replication::client::startup::{
    outcome_failure, start_step, start_timeout, startup_failure, StartSignal, StartStep, TimeLimit,
};
use pgwire_replication::client::worker::{worker_outcome, WorkerOutcome, WorkerSlot};
use pgwire_replication::config::{Endpoint, SslMode};
use pgwire_replication::error::{IoError, IoErrorKind, PgWireError};
use pgwire_replication::lsn::Lsn;

use tokio::task::JoinError;

const FULL: Platform = Platform {
    unix_sockets: true,
    tls: true,
};

const NO_TLS: Platform = Platform {
    unix_sockets: true,
    tls: false,
};

fn endpoint(host: &str, ssl_mode: SslMode) -> Endpoint {
    Endpoint {
        host: host.to_string(),
        port: 5432,
        ssl_mode,
    }
}

fn tls_error(text: &str) -> WorkerAction {
    WorkerAction::Finish(Err(PgWireError::Tls(text.to_string())))
}

fn refused() -> Arc<io::Error> {
    Arc::new(io::Error::new(
        io::ErrorKind::ConnectionRefused,
        "connection refused",
    ))
}

/// Holds two values to be equal in everything that they show.
fn same<T: Debug>(left: T, right: T) {
    assert_eq!(format!("{left:?}"), format!("{right:?}"));
}

fn failure() -> PgWireError {
    PgWireError::Protocol("bad".to_string())
}

/// What the runtime gives for a task that panicked.
fn lost_task() -> JoinError {
    let runtime = tokio::runtime::Builder::new_current_thread()
        .build()
        .unwrap();
    runtime.block_on(async {
        let task: tokio::task::JoinHandle<()> = tokio::spawn(async { panic!("boom") });
        task.await.unwrap_err()
    })
}

#[test]
fn unix_socket_is_connected_and_run_on() {
    for mode in [SslMode::Disable, SslMode::Prefer] {
        let e = endpoint("/var/run", mode);
        same(
            worker_step(&e, FULL, WorkerEvent::Begin),
            WorkerAction::ConnectUnix("/var/run/.s.PGSQL.5432".to_string()),
        );
        same(worker_step(&e, FULL, WorkerEvent::UnixConnected), WorkerAction::RunOnUnix);
    }
}

#[test]
fn unix_socket_path_has_one_slash() {
    let e = endpoint("/tmp/", SslMode::Disable);
    assert!(e.is_unix_socket());
    assert_eq!(e.unix_socket_path(), "/tmp/.s.PGSQL.5432");
    assert!(!endpoint("localhost", SslMode::Disable).is_unix_socket());
    assert!(!endpoint("", SslMode::Disable).is_unix_socket());
}

#[test]
fn tls_over_unix_socket_is_refused() {
    for mode in [SslMode::Require, SslMode::VerifyCa, SslMode::VerifyFull] {
        assert!(mode.requires_tls());
        same(
            worker_step(&endpoint("/tmp", mode), NO_TLS, WorkerEvent::Begin),
            tls_error("TLS is not supported over Unix domain sockets"),
        );
    }
}

#[test]
fn without_unix_sockets_every_host_is_tcp() {
    let platform = Platform {
        unix_sockets: false,
        tls: true,
    };
    same(
        worker_step(
            &endpoint("/tmp", SslMode::Require),
            platform,
            WorkerEvent::Begin
        ),
        WorkerAction::ConnectTcp {
            host: "/tmp".to_string(),
            port: 5432
        },
    );
}

#[test]
fn tcp_is_connected_tuned_and_upgraded() {
    let e = endpoint("db", SslMode::Prefer);
    same(
        worker_step(&e, FULL, WorkerEvent::Begin),
        WorkerAction::ConnectTcp {
            host: "db".to_string(),
            port: 5432
        },
    );
    same(worker_step(&e, FULL, WorkerEvent::TcpConnected), WorkerAction::SetNodelay);
    same(worker_step(&e, FULL, WorkerEvent::NodelaySet), WorkerAction::UpgradeToTls);
    same(worker_step(&e, FULL, WorkerEvent::Upgraded(Upgrade::Plain)), WorkerAction::RunOnTcp);
    same(worker_step(&e, FULL, WorkerEvent::Upgraded(Upgrade::Tls)), WorkerAction::RunOnTls);
}

#[test]
fn without_tls_only_disable_runs() {
    same(
        worker_step(
            &endpoint("db", SslMode::Disable),
            NO_TLS,
            WorkerEvent::NodelaySet
        ),
        WorkerAction::RunOnTcp,
    );
    for mode in [
        SslMode::Prefer,
        SslMode::Require,
        SslMode::VerifyCa,
        SslMode::VerifyFull,
    ] {
        same(
            worker_step(&endpoint("db", mode), NO_TLS, WorkerEvent::NodelaySet),
            tls_error("tls-rustls feature not enabled"),
        );
    }
}

#[test]
fn unix_failure_keeps_its_kind() {
    let e = endpoint("/tmp", SslMode::Disable);
    for kind in [
        IoErrorKind::TimedOut,
        IoErrorKind::Reported(io::ErrorKind::NotFound),
        IoErrorKind::Reported(io::Error::from_raw_os_error(40).kind()),
    ] {
        let event = WorkerEvent::UnixConnectFailed {
            kind,
            message: "no luck".to_string(),
        };
        same(
            worker_step(&e, FULL, event),
            WorkerAction::Finish(Err(PgWireError::Io(IoError::Described {
                kind,
                message: "failed to connect to Unix socket /tmp/.s.PGSQL.5432: no luck"
                    .to_string(),
            }))),
        );
    }
}

#[test]
fn tcp_failures_are_passed_on_as_they_are() {
    let e = endpoint("db", SslMode::Disable);
    let reported = Arc::new(io::Error::from_raw_os_error(111));
    for event in [
        WorkerEvent::TcpConnectFailed(Arc::clone(&reported)),
        WorkerEvent::NodelayFailed(Arc::clone(&reported)),
    ] {
        match worker_step(&e, FULL, event) {
            WorkerAction::Finish(Err(PgWireError::Io(IoError::Reported(error)))) => {
                assert!(Arc::ptr_eq(&error, &reported));
            }
            other => panic!("expected the reported error, got {other:?}"),
        }
    }
}

#[test]
fn upgrade_failure_ends_the_run() {
    same(
        worker_step(
            &endpoint("db", SslMode::Require),
            FULL,
            WorkerEvent::UpgradeFailed(failure()),
        ),
        WorkerAction::Finish(Err(failure())),
    );
}

#[test]
fn end_of_the_stream_ends_the_run() {
    let e = endpoint("db", SslMode::Disable);
    same(worker_step(&e, FULL, WorkerEvent::StreamEnded(Ok(()))), WorkerAction::Finish(Ok(())));
    same(
        worker_step(&e, FULL, WorkerEvent::StreamEnded(Err(failure()))),
        WorkerAction::Finish(Err(failure())),
    );
}

#[test]
fn recv_gives_buffered_events_then_the_end() {
    let mut slot = WorkerSlot::new('w');
    for event in [1, 2] {
        match recv_step(&mut slot, Some(Ok(event))) {
            RecvStep::Return(result) => same(result, Ok(Some(event))),
            RecvStep::AwaitWorker(_) => panic!("the channel is open"),
        }
    }
    match recv_step::<i32, char>(&mut slot, None) {
        RecvStep::AwaitWorker(worker) => assert_eq!(worker, 'w'),
        RecvStep::Return(_) => panic!("the worker is there"),
    }
    same(recv_after_worker::<i32>(WorkerOutcome::Finished), Ok(None));
    match recv_step::<i32, char>(&mut slot, None) {
        RecvStep::Return(result) => same(
            result,
            Err(PgWireError::Internal(
                "replication worker already joined".to_string()
            )),
        ),
        RecvStep::AwaitWorker(_) => panic!("the worker was taken"),
    }
}

#[test]
fn recv_passes_errors_on() {
    let mut slot = WorkerSlot::new('w');
    match recv_step::<i32, char>(&mut slot, Some(Err(failure()))) {
        RecvStep::Return(result) => same(result, Err(failure())),
        RecvStep::AwaitWorker(_) => panic!("the channel is open"),
    }
    assert_eq!(slot.get(), Some(&'w'));
    same(recv_after_worker::<i32>(WorkerOutcome::Failed(failure())), Err(failure()));
    same(
        recv_after_worker::<i32>(WorkerOutcome::Lost("gone".to_string())),
        Err(PgWireError::Task(
            "replication worker panicked: gone".to_string()
        )),
    );
}

#[test]
fn join_works_once() {
    let mut slot = WorkerSlot::new(5);
    same(join_step(&mut slot), Ok(5));
    same(join_step(&mut slot), Err(PgWireError::Task("worker already joined".to_string())));
    same(join_after_worker(WorkerOutcome::Finished), Ok(()));
    same(join_after_worker(WorkerOutcome::Failed(failure())), Err(failure()));
    same(
        join_after_worker(WorkerOutcome::Lost("gone".to_string())),
        Err(PgWireError::Task("join error: gone".to_string())),
    );
}

#[test]
fn shutdown_drains_then_joins() {
    let mut slot = WorkerSlot::new(5);
    assert!(matches!(
        shutdown_step(&mut slot, Some(Ok("event"))),
        ShutdownStep::Drain
    ));
    match shutdown_step::<&str, i32>(&mut slot, Some(Err(failure()))) {
        ShutdownStep::Return(e) => same(e, failure()),
        _ => panic!("the error ends the shutdown"),
    }
    assert!(matches!(
        shutdown_step::<&str, i32>(&mut slot, None),
        ShutdownStep::AwaitWorker(5)
    ));
    match shutdown_step::<&str, i32>(&mut slot, None) {
        ShutdownStep::Return(e) => {
            same(e, PgWireError::Task("worker already joined".to_string()))
        }
        _ => panic!("the worker was taken"),
    }
}

/// Runs a whole shutdown: how many events it drained, and what it returned.
fn run_shutdown(
    slot: &mut WorkerSlot<i32>,
    messages: Vec<Result<&str, PgWireError>>,
    outcome: WorkerOutcome,
) -> (usize, Result<(), PgWireError>) {
    let mut messages = messages.into_iter();
    let mut drained = 0;
    loop {
        match shutdown_step(slot, messages.next()) {
            ShutdownStep::Drain => drained += 1,
            ShutdownStep::Return(e) => return (drained, Err(e)),
            ShutdownStep::AwaitWorker(_) => return (drained, join_after_worker(outcome)),
        }
    }
}

#[test]
fn whole_shutdown_drains_then_ends() {
    let mut slot = WorkerSlot::new(5);
    same(
        run_shutdown(
            &mut slot,
            vec![Ok("a"), Ok("b"), Err(failure()), Ok("c")],
            WorkerOutcome::Finished
        ),
        (2, Err(failure())),
    );
    assert_eq!(slot.get(), Some(&5));
    same(run_shutdown(&mut slot, vec![Ok("c")], WorkerOutcome::Finished), (1, Ok(())));
    assert_eq!(slot.get(), None);
    same(
        run_shutdown(&mut slot, vec![Ok("d")], WorkerOutcome::Finished),
        (
            1,
            Err(PgWireError::Task("worker already joined".to_string()))
        ),
    );
    same(
        run_shutdown(
            &mut WorkerSlot::new(5),
            vec![],
            WorkerOutcome::Lost("gone".to_string())
        ),
        (0, Err(PgWireError::Task("join error: gone".to_string()))),
    );
}

#[test]
fn abort_and_drop_take_the_worker_once() {
    let mut slot = WorkerSlot::new(5);
    assert_eq!(abort_step(&mut slot), Some(5));
    assert_eq!(abort_step(&mut slot), None);
    assert!(matches!(drop_step(&mut slot, true), DropStep::Nothing));
    assert!(matches!(
        drop_step(&mut WorkerSlot::new(5), true),
        DropStep::Detach(5)
    ));
    assert!(matches!(
        drop_step(&mut WorkerSlot::new(5), false),
        DropStep::Abort(5)
    ));
}

#[test]
fn only_an_unfinished_worker_is_running() {
    assert!(is_running(Some(false)));
    assert!(!is_running(Some(true)));
    assert!(!is_running(None));
}

#[test]
fn stream_start_decides_about_the_worker() {
    assert!(matches!(
        start_step(5, StartSignal::Started),
        StartStep::HandOver(5)
    ));
    assert!(matches!(
        start_step(5, StartSignal::WorkerGone),
        StartStep::AwaitWorker(5)
    ));
    let limit = TimeLimit::new(0, 200_000_000).unwrap();
    match start_step(5, StartSignal::TimedOut(limit)) {
        StartStep::GiveUp(worker, e) => {
            assert_eq!(worker, 5);
            same(&e, &start_timeout("200ms"));
            same(
                e,
                PgWireError::Io(IoError::Described {
                    kind: IoErrorKind::TimedOut,
                    message: "replication stream did not start within 200ms".to_string(),
                }),
            );
        }
        _ => panic!("the wait has timed out"),
    }
}

#[test]
fn time_limit_has_less_than_a_second_of_nanos() {
    assert!(TimeLimit::new(1, 999_999_999).is_some());
    assert!(TimeLimit::new(1, 1_000_000_000).is_none());
    let limit = TimeLimit::new(u64::MAX, 999_999_999).unwrap();
    assert!(matches!(
        start_step(5, StartSignal::TimedOut(limit)),
        StartStep::GiveUp(5, PgWireError::Io(_))
    ));
}

#[test]
fn startup_failure_says_why() {
    same(startup_failure(Ok(Err(failure()))), failure());
    same(
        startup_failure(Ok(Ok(()))),
        PgWireError::Internal("replication worker exited before the stream started".to_string()),
    );
    let lost = lost_task();
    let expected = format!("replication worker panicked: {lost}");
    assert!(expected.contains("boom"));
    same(startup_failure(Err(lost)), PgWireError::Task(expected));
    same(
        outcome_failure(WorkerOutcome::Lost("gone".to_string())),
        PgWireError::Task("replication worker panicked: gone".to_string()),
    );
}

#[test]
fn worker_outcome_sorts_what_join_gave() {
    same(worker_outcome(Ok(Ok(()))), WorkerOutcome::Finished);
    same(worker_outcome(Ok(Err(failure()))), WorkerOutcome::Failed(failure()));
    let lost = lost_task();
    let text = lost.to_string();
    same(worker_outcome(Err(lost)), WorkerOutcome::Lost(text));
}

#[test]
fn applied_position_never_goes_back() {
    let mut applied = Lsn(10);
    for (update, expected) in [(5, 10), (12, 12), (11, 12), (12, 12), (u64::MAX, u64::MAX)] {
        applied = update_applied(applied, Lsn(update));
        assert_eq!(applied, Lsn(expected));
    }
}

#[test]
fn errors_read_as_their_text() {
    assert_eq!(
        PgWireError::Io(IoError::Reported(refused())).to_string(),
        "connection refused"
    );
    assert_eq!(start_timeout("1s").to_string(), "replication stream did not start within 1s");
    assert_eq!(failure().to_string(), "bad");
    assert_eq!(PgWireError::Tls("t".to_string()).to_string(), "t");
    assert_eq!(PgWireError::Task("k".to_string()).to_string(), "k");
    assert_eq!(PgWireError::Internal("i".to_string()).to_string(), "i");
}
