//! When the replication stream counts as started, and why it did not start.

use crate::client::worker::{is_display_of, worker_outcome, OutcomeView, WorkerOutcome};
use crate::error::{ErrorView, IoError, IoErrorKind, PgWireError};
use crate::text::join2;
use std::time::Duration;
use tokio::task::JoinError;
use vstd::prelude::*;
use vstd::string::*;

verus! {

/// How long the client waits for the stream to start.
#[derive(Debug, Clone, Copy, PartialEq, Eq, Structural)]
pub struct TimeLimit {
    secs: u64,
    nanos: u32,
}

impl TimeLimit {
    #[verifier::type_invariant]
    spec fn wf(self) -> bool {
        self.nanos < 1_000_000_000
    }

    /// The whole seconds.
    pub closed spec fn secs(self) -> u64 {
        self.secs
    }

    /// The nanoseconds beyond the whole seconds.
    pub closed spec fn nanos(self) -> u32 {
        self.nanos
    }

    /// A limit of whole seconds and the nanoseconds beyond them, which have to be
    /// less than a second.
    pub fn new(secs: u64, nanos: u32) -> (limit: Option<TimeLimit>)
        ensures
            match limit {
                Some(l) => nanos < 1_000_000_000 && l.secs() == secs && l.nanos() == nanos,
                None => nanos >= 1_000_000_000,
            },
    {
        if nanos < 1_000_000_000 {
            Some(TimeLimit { secs, nanos })
        } else {
            None
        }
    }
}

/// What `{:?}` makes of a `std::time::Duration` of so many seconds and nanoseconds.
pub uninterp spec fn duration_debug(secs: u64, nanos: u32) -> Seq<char>;

/// Formats a `std::time::Duration` with its `Debug`. Claimed of it: the text
/// depends on the duration alone. How it is spelled is not stated.
#[verifier::external_body]
fn duration_text(secs: u64, nanos: u32) -> (text: String)
    requires
        nanos < 1_000_000_000,
    ensures
        text@ == duration_debug(secs, nanos),
{
    format!("{:?}", Duration::new(secs, nanos))
}

/// How the wait for the start of the stream ended.
#[derive(Debug, Clone, Copy, PartialEq, Eq, Structural)]
pub enum StartSignal {
    /// The worker reported that the stream has started.
    Started,
    /// The worker went away without that report.
    WorkerGone,
    /// This much time went by.
    TimedOut(TimeLimit),
}

/// What `connect` does after the wait.
pub enum StartStep<H> {
    /// It hands this worker over to the client.
    HandOver(H),
    /// It waits for this worker to end, and returns why the stream did not start.
    AwaitWorker(H),
    /// It aborts this worker and returns the error.
    GiveUp(H, PgWireError),
}

/// The error of a stream that did not start within a limit that reads `limit`.
pub open spec fn started_too_late(limit: Seq<char>) -> ErrorView {
    ErrorView::Io(IoErrorKind::TimedOut, "replication stream did not start within "@ + limit)
}

/// The error of a stream that did not start in time, by the text of the limit.
pub fn start_timeout(limit: &str) -> (e: PgWireError)
    ensures
        e@ == started_too_late(limit@),
{
    PgWireError::Io(
        IoError::Described {
            kind: IoErrorKind::TimedOut,
            message: join2("replication stream did not start within ", limit),
        },
    )
}

/// Why the stream did not start, by how its worker ended.
pub open spec fn start_error(outcome: OutcomeView) -> ErrorView {
    match outcome {
        OutcomeView::Finished => ErrorView::Internal(
            "replication worker exited before the stream started"@,
        ),
        OutcomeView::Failed(e) => e,
        OutcomeView::Lost(text) => ErrorView::Task("replication worker panicked: "@ + text),
    }
}

/// What `connect` comes to, by how its wait ended and how its worker ended.
pub open spec fn connect_result(signal: StartSignal, outcome: OutcomeView) -> Result<
    (),
    ErrorView,
> {
    match signal {
        StartSignal::Started => Ok(()),
        StartSignal::WorkerGone => Err(start_error(outcome)),
        StartSignal::TimedOut(limit) => Err(
            started_too_late(duration_debug(limit.secs(), limit.nanos())),
        ),
    }
}

/// Decides what `connect` does once its wait for the stream has ended.
pub fn start_step<H>(worker: H, signal: StartSignal) -> (step: StartStep<H>)
    ensures
        match signal {
            StartSignal::Started => step == StartStep::HandOver(worker),
            StartSignal::WorkerGone => step == StartStep::AwaitWorker(worker),
            StartSignal::TimedOut(limit) => step matches StartStep::GiveUp(h, e) && h == worker
                && e@ == started_too_late(duration_debug(limit.secs(), limit.nanos())),
        },
        forall|outcome: OutcomeView| #[trigger]
            connect_result(signal, outcome) == (match step {
                StartStep::HandOver(_) => Ok::<(), ErrorView>(()),
                StartStep::AwaitWorker(_) => Err(start_error(outcome)),
                StartStep::GiveUp(_, e) => Err(e@),
            }),
{
    match signal {
        StartSignal::Started => StartStep::HandOver(worker),
        StartSignal::WorkerGone => StartStep::AwaitWorker(worker),
        StartSignal::TimedOut(limit) => {
            proof {
                use_type_invariant(limit);
            }
            let text = duration_text(limit.secs, limit.nanos);
            StartStep::GiveUp(worker, start_timeout(text.as_str()))
        },
    }
}

/// Why the stream did not start, by how its worker ended.
pub fn outcome_failure(outcome: WorkerOutcome) -> (e: PgWireError)
    ensures
        e@ == start_error(outcome@),
        outcome matches WorkerOutcome::Failed(error) ==> e == error,
{
    match outcome {
        WorkerOutcome::Finished => PgWireError::Internal(
            "replication worker exited before the stream started".to_owned(),
        ),
        WorkerOutcome::Failed(e) => e,
        WorkerOutcome::Lost(text) => PgWireError::Task(
            join2("replication worker panicked: ", text.as_str()),
        ),
    }
}

/// Why the stream did not start, by what joining its worker gave.
pub fn startup_failure(outcome: Result<Result<(), PgWireError>, JoinError>) -> (e: PgWireError)
    ensures
        match outcome {
            Ok(Ok(())) => e@ == start_error(OutcomeView::Finished),
            Ok(Err(error)) => e == error,
            Err(lost) => exists|text: String| #[trigger]
                is_display_of(lost, text) && e@ == start_error(OutcomeView::Lost(text@)),
        },
{
    outcome_failure(worker_outcome(outcome))
}

/// `connect` succeeds where the stream has started and nowhere else, and a worker
/// that fails before that fails `connect` with its own error.
pub proof fn law_connect_reports_failure(signal: StartSignal, outcome: OutcomeView)
    ensures
        connect_result(signal, outcome) is Ok <==> signal is Started,
        signal is WorkerGone && outcome is Failed ==> connect_result(signal, outcome) == Err::<
            (),
            ErrorView,
        >(outcome->Failed_0),
{
}

} // verus!
