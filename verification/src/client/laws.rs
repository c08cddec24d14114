//! What holds of the client's calls, whatever they are given: each law speaks of
//! what a call returned, or of what several calls returned together.

use crate::client::connection::{answers, is_run, next_action, worker_step, ActionView};
use crate::client::connection::{Platform, Upgrade, WorkerAction, WorkerEvent};
use crate::client::lifecycle::{abort_step, drop_step, is_running, join_after_worker, join_step};
use crate::client::lifecycle::{recv_after_worker, recv_step, shutdown_run, shutdown_step};
use crate::client::lifecycle::{law_shutdown_drains_then_ends, DropStep, RecvStep, ShutdownStep};
use crate::client::progress::update_applied;
use crate::client::startup::{duration_debug, outcome_failure, start_step, start_timeout};
use crate::client::startup::{startup_failure, StartSignal, StartStep, TimeLimit};
use crate::client::worker::{is_display_of, worker_outcome, OutcomeView, WorkerOutcome};
use crate::client::worker::WorkerSlot;
use crate::config::{Endpoint, SslMode};
use crate::error::{ErrorView, IoError, IoErrorKind, PgWireError};
use crate::lsn::Lsn;
use tokio::task::JoinError;
use vstd::prelude::*;
use vstd::string::*;

verus! {

/// The host of `endpoint` is a path, and the platform can reach it as one.
pub open spec fn is_local(endpoint: Endpoint, platform: Platform) -> bool {
    platform.unix_sockets && endpoint.host@.len() > 0 && endpoint.host@[0] == '/'
}

/// The worker connects by TCP where the host is not a path, or where the platform
/// has no Unix domain sockets, and only there; and then to the host and the port
/// of the endpoint, whatever these are.
pub proof fn law_tcp_goes_to_the_endpoint(
    endpoint: &Endpoint,
    platform: Platform,
    event: WorkerEvent,
    action: WorkerAction,
)
    requires
        call_ensures(worker_step, (endpoint, platform, event), action),
    ensures
        action is ConnectTcp <==> event is Begin && !is_local(*endpoint, platform),
        action matches WorkerAction::ConnectTcp { host, port } ==> host@ == endpoint.host@ && port
            == endpoint.port,
{
}

/// In every run, whatever happens in it, the first action is the only one that can
/// connect by TCP, and the connection goes to the host and the port of the
/// endpoint.
pub proof fn law_run_reaches_the_endpoint(
    endpoint: Endpoint,
    platform: Platform,
    events: Seq<WorkerEvent>,
    i: int,
    host: Seq<char>,
    port: u16,
)
    requires
        is_run(endpoint, platform, events),
        0 <= i < events.len(),
        next_action(endpoint, platform, events[i]) == ActionView::ConnectTcp(host, port),
    ensures
        i == 0,
        host == endpoint.host@,
        port == endpoint.port,
{
    if i > 0 {
        assert(answers(
            events[i],
            next_action(endpoint, platform, events[i - 1]),
        ));
    }
}

/// The worker connects to a Unix domain socket where the host is a path that the
/// platform can reach and the mode puts up with a connection without TLS, and only
/// there; and then to the path that the endpoint itself gives.
pub proof fn law_local_goes_to_the_socket(
    endpoint: &Endpoint,
    platform: Platform,
    event: WorkerEvent,
    action: WorkerAction,
    path: String,
)
    requires
        call_ensures(worker_step, (endpoint, platform, event), action),
        call_ensures(Endpoint::unix_socket_path, (endpoint,), path),
    ensures
        action is ConnectUnix <==> event is Begin && is_local(*endpoint, platform) && (
        endpoint.ssl_mode == SslMode::Disable || endpoint.ssl_mode == SslMode::Prefer),
        action matches WorkerAction::ConnectUnix(p) ==> p@ == path@,
{
}

/// A Unix domain socket is refused with an error about TLS for each mode that
/// insists on TLS, and for no other.
pub proof fn law_local_tls_is_refused(
    endpoint: &Endpoint,
    platform: Platform,
    action: WorkerAction,
)
    requires
        call_ensures(worker_step, (endpoint, platform, WorkerEvent::Begin), action),
    ensures
        action is Finish <==> is_local(*endpoint, platform) && (endpoint.ssl_mode
            == SslMode::Require || endpoint.ssl_mode == SslMode::VerifyCa || endpoint.ssl_mode
            == SslMode::VerifyFull),
        action matches WorkerAction::Finish(result) ==> (result matches Err(PgWireError::Tls(text))
            && text@ == "TLS is not supported over Unix domain sockets"@),
{
}

/// What was reported to the worker is what its run ends with: an error of a TCP
/// connection or of TLS unchanged, the end of the stream unchanged, and of a Unix
/// domain socket the kind of the failure, the path that was tried and the message.
pub proof fn law_reported_failure_ends_the_run(
    endpoint: &Endpoint,
    platform: Platform,
    event: WorkerEvent,
    action: WorkerAction,
    path: String,
)
    requires
        call_ensures(worker_step, (endpoint, platform, event), action),
        call_ensures(Endpoint::unix_socket_path, (endpoint,), path),
    ensures
        event matches WorkerEvent::TcpConnectFailed(e) ==> action == WorkerAction::Finish(
            Err(PgWireError::Io(IoError::Reported(e))),
        ),
        event matches WorkerEvent::NodelayFailed(e) ==> action == WorkerAction::Finish(
            Err(PgWireError::Io(IoError::Reported(e))),
        ),
        event matches WorkerEvent::UpgradeFailed(e) ==> action == WorkerAction::Finish(Err(e)),
        event matches WorkerEvent::StreamEnded(result) ==> action == WorkerAction::Finish(result),
        event matches WorkerEvent::UnixConnectFailed { kind, message } ==> (
        action matches WorkerAction::Finish(
            Err(PgWireError::Io(IoError::Described { kind: k, message: m })),
        ) && k == kind && m@ == "failed to connect to Unix socket "@ + path@ + ": "@ + message@),
{
}

/// A run ends without an error only where a stream ended without one: nothing that
/// happens before the stream makes the worker report success.
pub proof fn law_only_the_stream_succeeds(
    endpoint: &Endpoint,
    platform: Platform,
    event: WorkerEvent,
    action: WorkerAction,
)
    requires
        call_ensures(worker_step, (endpoint, platform, event), action),
    ensures
        action == WorkerAction::Finish(Ok(())) <==> event == WorkerEvent::StreamEnded(Ok(())),
{
}

/// A TCP connection is told to send without delay as soon as it is open, and never
/// otherwise; the server is then asked for TLS wherever the platform has it; and
/// without it, the connection is used as it is for the mode `Disable` and refused
/// for each other mode.
pub proof fn law_tcp_is_prepared(
    endpoint: &Endpoint,
    platform: Platform,
    event: WorkerEvent,
    action: WorkerAction,
)
    requires
        call_ensures(worker_step, (endpoint, platform, event), action),
    ensures
        action is SetNodelay <==> event is TcpConnected,
        action is UpgradeToTls <==> event is NodelaySet && platform.tls,
        event is NodelaySet && !platform.tls && endpoint.ssl_mode == SslMode::Disable ==> action
            is RunOnTcp,
        event is NodelaySet && !platform.tls && endpoint.ssl_mode != SslMode::Disable ==> (
        action matches WorkerAction::Finish(Err(PgWireError::Tls(text))) && text@
            == "tls-rustls feature not enabled"@),
{
}

/// Replication runs on the stream that was made for it: on the Unix domain socket
/// once that is connected, inside TLS once TLS was agreed on, and on plain TCP once
/// that was agreed on or where the platform has no TLS and the mode is `Disable`.
pub proof fn law_stream_is_the_agreed_one(
    endpoint: &Endpoint,
    platform: Platform,
    event: WorkerEvent,
    action: WorkerAction,
)
    requires
        call_ensures(worker_step, (endpoint, platform, event), action),
    ensures
        action is RunOnUnix <==> event is UnixConnected,
        action is RunOnTls <==> event == WorkerEvent::Upgraded(Upgrade::Tls),
        action is RunOnTcp <==> event == WorkerEvent::Upgraded(Upgrade::Plain) || (event
            is NodelaySet && !platform.tls && endpoint.ssl_mode == SslMode::Disable),
{
}

/// What the channel gave is what `recv` returns, event or error, of whatever kind,
/// and the worker is left alone; a closed channel makes it wait for the worker.
/// Before the worker has ended it never reports the end of the stream.
pub proof fn law_recv_returns_what_came<T, H>(
    slot: &mut WorkerSlot<H>,
    message: Option<Result<T, PgWireError>>,
    step: RecvStep<T, H>,
)
    requires
        call_ensures(recv_step::<T, H>, (slot, message), step),
    ensures
        message matches Some(Ok(event)) ==> step == RecvStep::<T, H>::Return(Ok(Some(event))),
        message matches Some(Err(e)) ==> step == RecvStep::<T, H>::Return(Err(e)),
        message is Some ==> final(slot)@ == old(slot)@,
        message is None ==> final(slot)@ is None,
        message is None ==> (old(slot)@ matches Some(handle) ==> step == RecvStep::<
            T,
            H,
        >::AwaitWorker(handle)),
        message is None && old(slot)@ is None ==> (step matches RecvStep::Return(
            Err(PgWireError::Internal(text)),
        ) && text@ == "replication worker already joined"@),
        step != RecvStep::<T, H>::Return(Ok(None)),
{
}

/// A whole `recv`, with the end of the worker where it waits for it: every event
/// and every error that the channel gave comes back as it is; the end of the stream
/// is reported exactly where the channel is closed and the worker finished without
/// an error; and an error of the worker comes back as it is.
pub proof fn law_recv_reports_how_it_ended<T, H>(
    slot: &mut WorkerSlot<H>,
    message: Option<Result<T, PgWireError>>,
    step: RecvStep<T, H>,
    outcome: WorkerOutcome,
    ended: Result<Option<T>, PgWireError>,
    result: Result<Option<T>, PgWireError>,
)
    requires
        call_ensures(recv_step::<T, H>, (slot, message), step),
        call_ensures(recv_after_worker::<T>, (outcome,), ended),
        step matches RecvStep::Return(r) ==> result == r,
        step is AwaitWorker ==> result == ended,
    ensures
        message matches Some(Err(e)) ==> result == Err::<Option<T>, PgWireError>(e),
        forall|event: T|
            result == Ok::<Option<T>, PgWireError>(Some(event)) <==> message == Some(
                Ok::<T, PgWireError>(event),
            ),
        result == Ok::<Option<T>, PgWireError>(None) <==> message is None && old(slot)@ is Some
            && outcome is Finished,
        message is None && old(slot)@ is Some ==> (outcome matches WorkerOutcome::Failed(e)
            ==> result == Err::<Option<T>, PgWireError>(e)),
{
}

/// A worker that ran to its end is reported alike by `recv`, by `join` and by a
/// `connect` that still waits for the stream: its own error unchanged, whatever it
/// is. Only one that finished without an error counts as a success, and for
/// `connect` not even that.
pub proof fn law_worker_error_is_kept<T>(
    outcome: WorkerOutcome,
    received: Result<Option<T>, PgWireError>,
    joined: Result<(), PgWireError>,
    unstarted: PgWireError,
)
    requires
        call_ensures(recv_after_worker::<T>, (outcome,), received),
        call_ensures(join_after_worker, (outcome,), joined),
        call_ensures(outcome_failure, (outcome,), unstarted),
    ensures
        joined is Ok <==> outcome is Finished,
        received is Ok <==> outcome is Finished,
        outcome is Finished ==> received == Ok::<Option<T>, PgWireError>(None),
        outcome is Finished ==> (unstarted matches PgWireError::Internal(text) && text@
            == "replication worker exited before the stream started"@),
        outcome matches WorkerOutcome::Failed(e) ==> joined == Err::<(), PgWireError>(e),
        outcome matches WorkerOutcome::Failed(e) ==> received == Err::<Option<T>, PgWireError>(e),
        outcome matches WorkerOutcome::Failed(e) ==> unstarted == e,
{
}

/// A worker that was lost is reported as a failed task, with all that the runtime
/// said of it at the end of the text.
pub proof fn law_lost_worker_is_reported<T>(
    text: String,
    received: Result<Option<T>, PgWireError>,
    joined: Result<(), PgWireError>,
    unstarted: PgWireError,
)
    requires
        call_ensures(recv_after_worker::<T>, (WorkerOutcome::Lost(text),), received),
        call_ensures(join_after_worker, (WorkerOutcome::Lost(text),), joined),
        call_ensures(outcome_failure, (WorkerOutcome::Lost(text),), unstarted),
    ensures
        received matches Err(PgWireError::Task(t)) && t@ == "replication worker panicked: "@
            + text@,
        joined matches Err(PgWireError::Task(t)) && t@ == "join error: "@ + text@,
        unstarted matches PgWireError::Task(t) && t@ == "replication worker panicked: "@ + text@,
{
}

/// What joining the task gave decides what a `join` returns: success exactly where
/// the task ran to its end and returned success, and its own error where it
/// returned one.
pub proof fn law_join_returns_what_the_task_did(
    joined: Result<Result<(), PgWireError>, JoinError>,
    outcome: WorkerOutcome,
    result: Result<(), PgWireError>,
)
    requires
        call_ensures(worker_outcome, (joined,), outcome),
        call_ensures(join_after_worker, (outcome,), result),
    ensures
        result is Ok <==> (joined matches Ok(Ok(_))),
        joined matches Ok(Err(e)) ==> result == Err::<(), PgWireError>(e),
        joined matches Err(lost) ==> (result matches Err(PgWireError::Task(t)) && exists|
            said: String,
        | #[trigger]
            to_string_from_display_ensures::<JoinError>(&lost, said) && t@ == "join error: "@
                + said@),
{
    if let Err(lost) = joined {
        let said = outcome->Lost_0;
        assert(to_string_from_display_ensures::<JoinError>(&lost, said));
    }
}

/// The same for a `connect` whose worker went away: it always fails, with the
/// task's own error where the task returned one.
pub proof fn law_connect_returns_what_the_task_did(
    joined: Result<Result<(), PgWireError>, JoinError>,
    e: PgWireError,
)
    requires
        call_ensures(startup_failure, (joined,), e),
    ensures
        joined matches Ok(Err(own)) ==> e == own,
        joined matches Ok(Ok(_)) ==> (e matches PgWireError::Internal(text) && text@
            == "replication worker exited before the stream started"@),
        joined matches Err(lost) ==> (e matches PgWireError::Task(t) && exists|said: String|
         #[trigger]
            to_string_from_display_ensures::<JoinError>(&lost, said) && t@
                == "replication worker panicked: "@ + said@),
{
    if let Err(lost) = joined {
        let said = choose|said: String| #[trigger]
            is_display_of(lost, said) && e@ == ErrorView::Task(
                "replication worker panicked: "@ + said@,
            );
        assert(to_string_from_display_ensures::<JoinError>(&lost, said));
    }
}

/// `shutdown` throws events away, returns an error of the channel as it is, of
/// whatever kind, and leaves the worker alone as long as messages come; on the
/// closed channel it waits for the worker, or says that it was joined before.
pub proof fn law_shutdown_stops_at_an_error<T, H>(
    slot: &mut WorkerSlot<H>,
    message: Option<Result<T, PgWireError>>,
    step: ShutdownStep<H>,
)
    requires
        call_ensures(shutdown_step::<T, H>, (slot, message), step),
    ensures
        step is Drain <==> message matches Some(Ok(_)),
        message matches Some(Err(e)) ==> step == ShutdownStep::<H>::Return(e),
        message is Some ==> final(slot)@ == old(slot)@,
        message is None ==> final(slot)@ is None,
        message is None ==> (old(slot)@ matches Some(handle) ==> step == ShutdownStep::<
            H,
        >::AwaitWorker(handle)),
        message is None && old(slot)@ is None ==> (step matches ShutdownStep::Return(
            PgWireError::Task(text),
        ) && text@ == "worker already joined"@),
{
}

/// A whole `shutdown` succeeds exactly where the channel gave no error, the worker
/// was still there and it finished without an error. Otherwise the first error of
/// the channel is what it returns; and where there is none, the worker's own error.
pub proof fn law_shutdown_succeeds_with_the_worker<T, H>(
    slot: Option<H>,
    messages: Seq<Result<T, PgWireError>>,
    outcome: OutcomeView,
    k: nat,
)
    requires
        k <= messages.len(),
        forall|i: int| 0 <= i < k ==> #[trigger] messages[i] is Ok,
        k < messages.len() ==> messages[k as int] is Err,
    ensures
        shutdown_run(slot, messages, outcome).result is Ok <==> k == messages.len() && slot is Some
            && outcome is Finished,
        k < messages.len() ==> shutdown_run(slot, messages, outcome).result == Err::<
            (),
            ErrorView,
        >(messages[k as int]->Err_0@),
        k == messages.len() && slot is Some ==> (outcome matches OutcomeView::Failed(e)
            ==> shutdown_run(slot, messages, outcome).result == Err::<(), ErrorView>(e)),
        shutdown_run(slot, messages, outcome).drained == k,
{
    law_shutdown_drains_then_ends(slot, messages, outcome, k);
}

/// `join` gives the worker that is there and takes it away; without one it says
/// that the worker was joined before.
pub proof fn law_join_takes_the_worker<H>(slot: &mut WorkerSlot<H>, step: Result<H, PgWireError>)
    requires
        call_ensures(join_step::<H>, (slot,), step),
    ensures
        final(slot)@ is None,
        old(slot)@ matches Some(handle) ==> step == Ok::<H, PgWireError>(handle),
        old(slot)@ is None ==> (step matches Err(PgWireError::Task(text)) && text@
            == "worker already joined"@),
{
}

/// An abort gets the worker that is there and takes it away.
pub proof fn law_abort_takes_the_worker<H>(slot: &mut WorkerSlot<H>, worker: Option<H>)
    requires
        call_ensures(abort_step::<H>, (slot,), worker),
    ensures
        worker == old(slot)@,
        final(slot)@ is None,
{
}

/// A client that is dropped leaves its worker to the runtime where there is one,
/// and aborts it where there is none: never both, and never another worker.
pub proof fn law_drop_settles_the_worker<H>(
    slot: &mut WorkerSlot<H>,
    in_runtime: bool,
    step: DropStep<H>,
)
    requires
        call_ensures(drop_step::<H>, (slot, in_runtime), step),
    ensures
        final(slot)@ is None,
        step is Nothing <==> old(slot)@ is None,
        step is Detach <==> old(slot)@ is Some && in_runtime,
        step is Abort <==> old(slot)@ is Some && !in_runtime,
        step matches DropStep::Detach(handle) ==> old(slot)@ == Some(handle),
        step matches DropStep::Abort(handle) ==> old(slot)@ == Some(handle),
{
}

/// Of two calls that can take the worker, made one after the other, the second is
/// left without it.
pub proof fn law_second_join_comes_too_late<H>(
    first: &mut WorkerSlot<H>,
    second: &mut WorkerSlot<H>,
    before: Option<H>,
    after: Result<H, PgWireError>,
)
    requires
        call_ensures(abort_step::<H>, (first,), before),
        *second == *final(first),
        call_ensures(join_step::<H>, (second,), after),
    ensures
        after matches Err(PgWireError::Task(text)) && text@ == "worker already joined"@,
{
}

/// A client has a running worker exactly where it has one and that has not
/// finished.
pub proof fn law_running_means_not_finished(finished: Option<bool>, running: bool)
    requires
        call_ensures(is_running, (finished,), running),
    ensures
        finished is None ==> !running,
        finished matches Some(done) ==> running == !done,
{
}

/// `connect` hands its worker over exactly where the stream has started, waits for
/// it exactly where it went away, and gives up on it exactly where time ran out. It
/// is the same worker each time.
pub proof fn law_start_follows_the_signal<H>(worker: H, signal: StartSignal, step: StartStep<H>)
    requires
        call_ensures(start_step::<H>, (worker, signal), step),
    ensures
        step is HandOver <==> signal is Started,
        step is AwaitWorker <==> signal is WorkerGone,
        step is GiveUp <==> signal is TimedOut,
        step matches StartStep::HandOver(h) ==> h == worker,
        step matches StartStep::AwaitWorker(h) ==> h == worker,
        step matches StartStep::GiveUp(h, _) ==> h == worker,
{
}

/// A limit can be made of any seconds and of less than a second of nanoseconds. If
/// it runs out, the error is a timeout whose text ends with that very limit.
pub proof fn law_timeout_names_the_limit<H>(
    secs: u64,
    nanos: u32,
    limit: Option<TimeLimit>,
    worker: H,
    signal: StartSignal,
    step: StartStep<H>,
)
    requires
        call_ensures(TimeLimit::new, (secs, nanos), limit),
        call_ensures(start_step::<H>, (worker, signal), step),
        limit matches Some(l) ==> signal == StartSignal::TimedOut(l),
    ensures
        limit is Some <==> nanos < 1_000_000_000,
        limit is Some ==> (step matches StartStep::GiveUp(
            _,
            PgWireError::Io(IoError::Described { kind, message }),
        ) && kind == IoErrorKind::TimedOut && message@
            == "replication stream did not start within "@ + duration_debug(secs, nanos)),
{
}

/// The error of a late start is a timeout, and its text ends with the text of the
/// limit, whatever that is.
pub proof fn law_timeout_text(limit: &str, e: PgWireError)
    requires
        call_ensures(start_timeout, (limit,), e),
    ensures
        e matches PgWireError::Io(IoError::Described { kind, message }) && kind
            == IoErrorKind::TimedOut && message@ == "replication stream did not start within "@
            + limit@,
{
}

/// The position to report never goes back and never runs ahead: it is the further
/// one of the two. So the order of two updates does not matter, and one that was
/// made before changes nothing.
pub proof fn law_update_keeps_the_furthest(
    applied: Lsn,
    lsn: Lsn,
    now: Lsn,
    swapped: Lsn,
    again: Lsn,
)
    requires
        call_ensures(update_applied, (applied, lsn), now),
        call_ensures(update_applied, (lsn, applied), swapped),
        call_ensures(update_applied, (now, lsn), again),
    ensures
        now.0 >= applied.0,
        now.0 >= lsn.0,
        now == applied || now == lsn,
        swapped == now,
        again == now,
{
}

} // verus!
