//! The worker task: the handle of it, and how it ended.

use crate::error::{ErrorView, PgWireError};
use tokio::task::JoinError;
use vstd::prelude::*;
use vstd::string::*;

verus! {

/// The error of a task that did not run to its end, carried as it is.
#[verifier::external_type_specification]
#[verifier::external_body]
pub struct ExJoinError(JoinError);

/// How the worker task ended.
#[derive(Debug, Clone)]
pub enum WorkerOutcome {
    /// It ran to its end, and replication ended normally.
    Finished,
    /// It ran to its end with an error.
    Failed(PgWireError),
    /// It panicked or was cancelled; with what the runtime says of it.
    Lost(String),
}

/// A [`WorkerOutcome`] with its texts as character sequences.
pub ghost enum OutcomeView {
    Finished,
    Failed(ErrorView),
    Lost(Seq<char>),
}

impl View for WorkerOutcome {
    type V = OutcomeView;

    open spec fn view(&self) -> OutcomeView {
        match *self {
            WorkerOutcome::Finished => OutcomeView::Finished,
            WorkerOutcome::Failed(e) => OutcomeView::Failed(e@),
            WorkerOutcome::Lost(text) => OutcomeView::Lost(text@),
        }
    }
}

/// Sorts what joining the worker task gave.
pub fn worker_outcome(joined: Result<Result<(), PgWireError>, JoinError>) -> (outcome:
    WorkerOutcome)
    ensures
        match joined {
            Ok(Ok(())) => outcome == WorkerOutcome::Finished,
            Ok(Err(e)) => outcome == WorkerOutcome::Failed(e),
            Err(e) => outcome matches WorkerOutcome::Lost(text) && is_display_of(e, text),
        },
{
    match joined {
        Ok(Ok(())) => WorkerOutcome::Finished,
        Ok(Err(e)) => WorkerOutcome::Failed(e),
        Err(e) => WorkerOutcome::Lost(e.to_string()),
    }
}

/// `text` is what `e` displays as.
pub open spec fn is_display_of(e: JoinError, text: String) -> bool {
    to_string_from_display_ensures::<JoinError>(&e, text)
}

/// The handle of the worker task, until something takes it.
pub struct WorkerSlot<H> {
    handle: Option<H>,
}

impl<H> View for WorkerSlot<H> {
    type V = Option<H>;

    closed spec fn view(&self) -> Option<H> {
        self.handle
    }
}

impl<H> WorkerSlot<H> {
    /// A slot that holds `handle`.
    pub fn new(handle: H) -> (slot: Self)
        ensures
            slot@ == Some(handle),
    {
        WorkerSlot { handle: Some(handle) }
    }

    /// The handle, left in its place.
    pub fn get(&self) -> (handle: Option<&H>)
        ensures
            match handle {
                Some(h) => self@ == Some(*h),
                None => self@ is None,
            },
    {
        self.handle.as_ref()
    }

    /// Takes the handle out; there is none afterwards.
    pub fn take(&mut self) -> (handle: Option<H>)
        ensures
            handle == old(self)@,
            final(self)@ is None,
    {
        self.handle.take()
    }
}

/// A slot shows the handle that it was made with, gives it out once, and is empty
/// from then on.
pub proof fn law_slot_gives_its_handle_once<H>(
    handle: H,
    slot: WorkerSlot<H>,
    seen: Option<&H>,
    first: &mut WorkerSlot<H>,
    taken: Option<H>,
    second: &mut WorkerSlot<H>,
    again: Option<H>,
    after: Option<&H>,
)
    requires
        call_ensures(WorkerSlot::<H>::new, (handle,), slot),
        call_ensures(WorkerSlot::<H>::get, (&slot,), seen),
        *first == slot,
        call_ensures(WorkerSlot::<H>::take, (first,), taken),
        *second == *final(first),
        call_ensures(WorkerSlot::<H>::take, (second,), again),
        call_ensures(WorkerSlot::<H>::get, (&*final(second),), after),
    ensures
        seen matches Some(h) && *h == handle,
        taken == Some(handle),
        again is None,
        after is None,
{
}

} // verus!
