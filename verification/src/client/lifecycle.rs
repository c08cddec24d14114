//! What the client's calls return once the worker may have gone.

use crate::client::worker::{OutcomeView, WorkerOutcome, WorkerSlot};
use crate::error::{with_error_view, ErrorView, PgWireError};
use crate::text::join2;
use vstd::prelude::*;
use vstd::string::*;

verus! {

/// What `recv` does with what the event channel gave.
pub enum RecvStep<T, H> {
    /// It returns this.
    Return(Result<Option<T>, PgWireError>),
    /// It waits for the worker to end, and returns what that means.
    AwaitWorker(H),
}

/// What `shutdown` does with what the event channel gave.
pub enum ShutdownStep<H> {
    /// It throws the event away and waits for the next one.
    Drain,
    /// It returns this error.
    Return(PgWireError),
    /// It waits for the worker to end, and returns what that means.
    AwaitWorker(H),
}

/// What becomes of the worker when the client is dropped.
pub enum DropStep<H> {
    /// There is none.
    Nothing,
    /// The runtime sees it to its end.
    Detach(H),
    /// It is aborted.
    Abort(H),
}

/// A [`RecvStep`] with its error as a view.
pub ghost enum RecvView<T, H> {
    Return(Result<Option<T>, ErrorView>),
    AwaitWorker(H),
}

/// A [`ShutdownStep`] with its error as a view.
pub ghost enum ShutdownView<H> {
    Drain,
    Return(ErrorView),
    AwaitWorker(H),
}

impl<T, H> View for RecvStep<T, H> {
    type V = RecvView<T, H>;

    open spec fn view(&self) -> RecvView<T, H> {
        match *self {
            RecvStep::Return(result) => RecvView::Return(with_error_view(result)),
            RecvStep::AwaitWorker(handle) => RecvView::AwaitWorker(handle),
        }
    }
}

impl<H> View for ShutdownStep<H> {
    type V = ShutdownView<H>;

    open spec fn view(&self) -> ShutdownView<H> {
        match *self {
            ShutdownStep::Drain => ShutdownView::Drain,
            ShutdownStep::Return(e) => ShutdownView::Return(e@),
            ShutdownStep::AwaitWorker(handle) => ShutdownView::AwaitWorker(handle),
        }
    }
}

/// A call of the client, as far as the worker's handle is concerned.
pub ghost enum Call {
    /// `recv` or `shutdown` got a message from the event channel.
    Message,
    /// `recv` found the event channel closed.
    RecvClosed,
    /// `shutdown` found the event channel closed, or `join` was called.
    Join,
    Abort,
    Drop,
}

/// `call` takes the worker's handle where there is one.
pub open spec fn takes_worker(call: Call) -> bool {
    !(call is Message)
}

/// Whether the client still has the handle after `call`, by whether it had it
/// before.
pub open spec fn held_after(held: bool, call: Call) -> bool {
    held && !takes_worker(call)
}

/// The call that `recv` makes of what the channel gave.
pub open spec fn recv_call<T>(message: Option<Result<T, PgWireError>>) -> Call {
    if message is Some {
        Call::Message
    } else {
        Call::RecvClosed
    }
}

/// The call that `shutdown` makes of what the channel gave.
pub open spec fn shutdown_call<T>(message: Option<Result<T, PgWireError>>) -> Call {
    if message is Some {
        Call::Message
    } else {
        Call::Join
    }
}

/// What the slot holds after `call`.
pub open spec fn slot_after<H>(slot: Option<H>, call: Call) -> Option<H> {
    if held_after(slot is Some, call) {
        slot
    } else {
        None
    }
}

/// What `recv` does, by the handle it has and what the channel gave.
pub open spec fn recv_view<T, H>(
    slot: Option<H>,
    message: Option<Result<T, PgWireError>>,
) -> RecvView<T, H> {
    match message {
        Some(Ok(event)) => RecvView::Return(Ok(Some(event))),
        Some(Err(e)) => RecvView::Return(Err(e@)),
        None => match slot {
            Some(handle) => RecvView::AwaitWorker(handle),
            None => RecvView::Return(
                Err(ErrorView::Internal("replication worker already joined"@)),
            ),
        },
    }
}

/// What `recv` returns once the worker has ended.
pub open spec fn recv_end<T>(outcome: OutcomeView) -> Result<Option<T>, ErrorView> {
    match outcome {
        OutcomeView::Finished => Ok(None),
        OutcomeView::Failed(e) => Err(e),
        OutcomeView::Lost(text) => Err(ErrorView::Task("replication worker panicked: "@ + text)),
    }
}

/// Decides what `recv` does with what the event channel gave: `None` says that
/// the worker has closed it.
pub fn recv_step<T, H>(slot: &mut WorkerSlot<H>, message: Option<Result<T, PgWireError>>) -> (step:
    RecvStep<T, H>)
    ensures
        step@ == recv_view(old(slot)@, message),
        message matches Some(Ok(event)) ==> step == RecvStep::<T, H>::Return(Ok(Some(event))),
        message matches Some(Err(e)) ==> step == RecvStep::<T, H>::Return(Err(e)),
        final(slot)@ == slot_after(old(slot)@, recv_call(message)),
{
    match message {
        Some(Ok(event)) => RecvStep::Return(Ok(Some(event))),
        Some(Err(e)) => RecvStep::Return(Err(e)),
        None => match slot.take() {
            Some(handle) => RecvStep::AwaitWorker(handle),
            None => RecvStep::Return(
                Err(PgWireError::Internal("replication worker already joined".to_owned())),
            ),
        },
    }
}

/// What `recv` returns once the worker that it waited for has ended.
pub fn recv_after_worker<T>(outcome: WorkerOutcome) -> (result: Result<Option<T>, PgWireError>)
    ensures
        with_error_view(result) == recv_end::<T>(outcome@),
        outcome matches WorkerOutcome::Failed(e) ==> result == Err::<Option<T>, PgWireError>(e),
{
    match outcome {
        WorkerOutcome::Finished => Ok(None),
        WorkerOutcome::Failed(e) => Err(e),
        WorkerOutcome::Lost(text) => Err(
            PgWireError::Task(join2("replication worker panicked: ", text.as_str())),
        ),
    }
}

/// The error of a `join` that comes too late.
pub open spec fn joined_before() -> ErrorView {
    ErrorView::Task("worker already joined"@)
}

/// What `join` and `shutdown` return once the worker has ended.
pub open spec fn join_end(outcome: OutcomeView) -> Result<(), ErrorView> {
    match outcome {
        OutcomeView::Finished => Ok(()),
        OutcomeView::Failed(e) => Err(e),
        OutcomeView::Lost(text) => Err(ErrorView::Task("join error: "@ + text)),
    }
}

/// Decides what `join` does: the handle to wait for, or the error that it returns.
pub fn join_step<H>(slot: &mut WorkerSlot<H>) -> (step: Result<H, PgWireError>)
    ensures
        with_error_view(step) == (match old(slot)@ {
            Some(handle) => Ok::<H, ErrorView>(handle),
            None => Err(joined_before()),
        }),
        final(slot)@ == slot_after(old(slot)@, Call::Join),
{
    match slot.take() {
        Some(handle) => Ok(handle),
        None => Err(PgWireError::Task("worker already joined".to_owned())),
    }
}

/// What `join` and `shutdown` return once the worker has ended.
pub fn join_after_worker(outcome: WorkerOutcome) -> (result: Result<(), PgWireError>)
    ensures
        with_error_view(result) == join_end(outcome@),
        outcome matches WorkerOutcome::Failed(e) ==> result == Err::<(), PgWireError>(e),
{
    match outcome {
        WorkerOutcome::Finished => Ok(()),
        WorkerOutcome::Failed(e) => Err(e),
        WorkerOutcome::Lost(text) => Err(PgWireError::Task(join2("join error: ", text.as_str()))),
    }
}

/// What `shutdown` does, by the handle it has and what the channel gave.
pub open spec fn shutdown_view<T, H>(
    slot: Option<H>,
    message: Option<Result<T, PgWireError>>,
) -> ShutdownView<H> {
    match message {
        Some(Ok(_)) => ShutdownView::Drain,
        Some(Err(e)) => ShutdownView::Return(e@),
        None => match slot {
            Some(handle) => ShutdownView::AwaitWorker(handle),
            None => ShutdownView::Return(joined_before()),
        },
    }
}

/// Decides what `shutdown` does with what the event channel gave: `None` says
/// that the worker has closed it.
pub fn shutdown_step<T, H>(slot: &mut WorkerSlot<H>, message: Option<Result<T, PgWireError>>) -> (
    step: ShutdownStep<H>)
    ensures
        step@ == shutdown_view(old(slot)@, message),
        message matches Some(Err(e)) ==> step == ShutdownStep::<H>::Return(e),
        final(slot)@ == slot_after(old(slot)@, shutdown_call(message)),
{
    match message {
        Some(Ok(_)) => ShutdownStep::Drain,
        Some(Err(e)) => ShutdownStep::Return(e),
        None => match join_step(slot) {
            Ok(handle) => ShutdownStep::AwaitWorker(handle),
            Err(e) => ShutdownStep::Return(e),
        },
    }
}

/// The worker to abort, if there still is one.
pub fn abort_step<H>(slot: &mut WorkerSlot<H>) -> (worker: Option<H>)
    ensures
        worker == old(slot)@,
        final(slot)@ == slot_after(old(slot)@, Call::Abort),
{
    slot.take()
}

/// Decides what becomes of the worker when the client is dropped: a runtime that
/// is there sees it to its end; without one it is aborted, so that it does not
/// stay behind for ever.
pub fn drop_step<H>(slot: &mut WorkerSlot<H>, in_runtime: bool) -> (step: DropStep<H>)
    ensures
        step == (match old(slot)@ {
            None => DropStep::Nothing,
            Some(handle) => if in_runtime {
                DropStep::Detach(handle)
            } else {
                DropStep::Abort(handle)
            },
        }),
        final(slot)@ == slot_after(old(slot)@, Call::Drop),
{
    match slot.take() {
        None => DropStep::Nothing,
        Some(handle) => {
            if in_runtime {
                DropStep::Detach(handle)
            } else {
                DropStep::Abort(handle)
            }
        },
    }
}

/// Whether the worker is running, by whether its task has finished; `None` where
/// the client no longer has a worker.
pub fn is_running(finished: Option<bool>) -> (running: bool)
    ensures
        running == (finished == Some(false)),
{
    match finished {
        Some(done) => !done,
        None => false,
    }
}

/// Whether the client has the handle after all of `calls`.
pub open spec fn held_after_all(held: bool, calls: Seq<Call>) -> bool
    decreases calls.len(),
{
    if calls.len() == 0 {
        held
    } else {
        held_after(held_after_all(held, calls.drop_last()), calls.last())
    }
}

/// How many of `calls` are given the worker's handle.
pub open spec fn times_taken(held: bool, calls: Seq<Call>) -> int
    decreases calls.len(),
{
    if calls.len() == 0 {
        0
    } else {
        times_taken(held, calls.drop_last()) + if held_after_all(held, calls.drop_last())
            && takes_worker(calls.last()) {
            1int
        } else {
            0
        }
    }
}

/// The worker is waited for, detached or aborted once at most, whatever calls are
/// made in whatever order; and if no call has taken it, the client still has it.
pub proof fn law_worker_is_taken_once(calls: Seq<Call>)
    ensures
        times_taken(true, calls) == if held_after_all(true, calls) {
            0int
        } else {
            1
        },
    decreases calls.len(),
{
    if calls.len() > 0 {
        law_worker_is_taken_once(calls.drop_last());
    }
}

/// Once a call has taken the worker, no later call has it: a `join` reports that
/// the worker was joined before, and so does a `recv` on the closed channel.
pub proof fn law_taken_worker_stays_away<T, H>(before: Seq<Call>, call: Call, after: Seq<Call>)
    requires
        takes_worker(call),
    ensures
        !held_after_all(true, before + seq![call] + after),
        recv_view::<T, H>(None, None) == RecvView::<T, H>::Return(
            Err(ErrorView::Internal("replication worker already joined"@)),
        ),
        shutdown_view::<T, H>(None, None) == ShutdownView::<H>::Return(joined_before()),
    decreases after.len(),
{
    let calls = before + seq![call] + after;
    if after.len() == 0 {
        assert(calls.last() == call);
    } else {
        law_taken_worker_stays_away::<T, H>(before, call, after.drop_last());
        assert(calls.drop_last() =~= before + seq![call] + after.drop_last());
    }
}

/// What the channel gives the `k`-th `recv` once the worker has closed it with
/// `buffered` events in it.
pub open spec fn buffered_message<T>(buffered: Seq<T>, k: nat) -> Option<Result<T, PgWireError>> {
    if k < buffered.len() {
        Some(Ok(buffered[k as int]))
    } else {
        None
    }
}

/// What the client holds before the `k`-th of these calls.
pub open spec fn slot_before<T, H>(handle: H, buffered: Seq<T>, k: nat) -> Option<H>
    decreases k,
{
    if k == 0 {
        Some(handle)
    } else {
        let earlier = (k - 1) as nat;
        slot_after(
            slot_before(handle, buffered, earlier),
            recv_call(buffered_message(buffered, earlier)),
        )
    }
}

/// What the `k`-th of these calls returns, where the worker ended with `outcome`.
pub open spec fn drained<T, H>(
    handle: H,
    buffered: Seq<T>,
    outcome: OutcomeView,
    k: nat,
) -> Result<Option<T>, ErrorView> {
    match recv_view(slot_before(handle, buffered, k), buffered_message(buffered, k)) {
        RecvView::Return(result) => result,
        RecvView::AwaitWorker(_) => recv_end(outcome),
    }
}

/// Once the worker has stopped, `recv` gives the events that are still buffered,
/// in order; then how the worker ended, which is `Ok(None)` for a clean end; and
/// after that only that the worker was joined before.
pub proof fn law_buffered_events_then_end<T, H>(
    handle: H,
    buffered: Seq<T>,
    outcome: OutcomeView,
    k: nat,
)
    ensures
        drained(handle, buffered, outcome, k) == if k < buffered.len() {
            Ok::<Option<T>, ErrorView>(Some(buffered[k as int]))
        } else if k == buffered.len() {
            recv_end(outcome)
        } else {
            Err(ErrorView::Internal("replication worker already joined"@))
        },
        recv_end::<T>(OutcomeView::Finished) == Ok::<Option<T>, ErrorView>(None),
{
    lemma_slot_before(handle, buffered, k);
}

proof fn lemma_slot_before<T, H>(handle: H, buffered: Seq<T>, k: nat)
    ensures
        slot_before(handle, buffered, k) == if k <= buffered.len() {
            Some(handle)
        } else {
            None
        },
    decreases k,
{
    if k > 0 {
        lemma_slot_before(handle, buffered, (k - 1) as nat);
    }
}

/// What a whole `shutdown` comes to.
pub ghost struct ShutdownRun<H> {
    /// How many events it throws away.
    pub drained: nat,
    /// What it returns.
    pub result: Result<(), ErrorView>,
    /// What the client holds afterwards.
    pub slot: Option<H>,
}

/// What `shutdown` comes to, step by step, where the channel still gives
/// `messages` and is closed behind them, and where the worker, if it is waited
/// for, ends with `outcome`.
pub open spec fn shutdown_run<T, H>(
    slot: Option<H>,
    messages: Seq<Result<T, PgWireError>>,
    outcome: OutcomeView,
) -> ShutdownRun<H>
    decreases messages.len(),
{
    let message = if messages.len() > 0 {
        Some(messages[0])
    } else {
        None
    };
    let after = slot_after(slot, shutdown_call(message));
    match shutdown_view(slot, message) {
        ShutdownView::Drain => {
            let rest = shutdown_run(after, messages.skip(1), outcome);
            ShutdownRun { drained: rest.drained + 1, ..rest }
        },
        ShutdownView::Return(e) => ShutdownRun { drained: 0, result: Err(e), slot: after },
        ShutdownView::AwaitWorker(_) => ShutdownRun {
            drained: 0,
            result: join_end(outcome),
            slot: after,
        },
    }
}

/// `shutdown` drains the events before the first error, returns that error and
/// leaves the worker where it is. Where no error comes, it drains them all and
/// takes the worker, and returns how the worker ended, or that it was joined
/// before.
pub proof fn law_shutdown_drains_then_ends<T, H>(
    slot: Option<H>,
    messages: Seq<Result<T, PgWireError>>,
    outcome: OutcomeView,
    k: nat,
)
    requires
        k <= messages.len(),
        forall|i: int| 0 <= i < k ==> #[trigger] messages[i] is Ok,
        k < messages.len() ==> messages[k as int] is Err,
    ensures
        shutdown_run(slot, messages, outcome) == if k < messages.len() {
            ShutdownRun { drained: k, result: Err(messages[k as int]->Err_0@), slot }
        } else {
            ShutdownRun {
                drained: k,
                result: if slot is Some {
                    join_end(outcome)
                } else {
                    Err(joined_before())
                },
                slot: None,
            }
        },
    decreases k,
{
    if k > 0 {
        let rest = messages.skip(1);
        assert(messages[0] is Ok);
        assert(forall|i: int| 0 <= i < rest.len() ==> #[trigger] rest[i] == messages[i + 1]);
        law_shutdown_drains_then_ends(slot, rest, outcome, (k - 1) as nat);
    }
}

} // verus!
