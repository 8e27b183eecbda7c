//! The transition table.
use vstd::prelude::*;
use vstd::string::*;
use crate::fsm::{Event, EventView, State, StateView};
use crate::time::Timestamp;

verus! {

/// The message of the `Failure` state that an event with no transition from
/// `state` leads to.
pub open spec fn wrong_combination(state: StateView, event: EventView) -> Seq<char> {
    "wrong state/event: "@ + state.name() + "/"@ + event.name()
}

/// The transition table: the state that follows `state` on `event`, where
/// `now` is the wall clock's reading at the transition.
///
/// Every pair that the table does not list leads to `Failure`.
pub open spec fn next_state(state: StateView, event: EventView, now: Timestamp) -> StateView {
    match (state, event) {
        (StateView::NotAvailable, EventView::Download) => StateView::DownloadingInProgress {
            started_at: now,
        },
        (
            StateView::DownloadingInProgress { .. },
            EventView::DownloadingComplete(p, d),
        ) => StateView::Downloaded { file_path: p, duration: d },
        (StateView::DownloadingInProgress { .. }, EventView::DownloadingError(m)) => {
            StateView::DownloadingError { details: m }
        },
        (StateView::DownloadingError { .. }, EventView::Reset) => StateView::NotAvailable,
        (StateView::Downloaded { .. }, EventView::Process(p)) => {
            StateView::ProcessingInProgress { file_path: p, started_at: now }
        },
        (StateView::Downloaded { .. }, EventView::Index(p)) => StateView::IndexingInProgress {
            file_path: p,
            started_at: now,
        },
        (
            StateView::ProcessingInProgress { .. },
            EventView::ProcessingComplete(p, d),
        ) => StateView::Processed { file_path: p, duration: d },
        (StateView::ProcessingInProgress { .. }, EventView::ProcessingError(m)) => {
            StateView::ProcessingError { details: m }
        },
        (StateView::ProcessingError { .. }, EventView::Reset) => StateView::NotAvailable,
        (StateView::Processed { .. }, EventView::Index(p)) => StateView::IndexingInProgress {
            file_path: p,
            started_at: now,
        },
        (StateView::IndexingInProgress { .. }, EventView::IndexingComplete(d)) => {
            StateView::Indexed { duration: d }
        },
        (StateView::IndexingInProgress { .. }, EventView::IndexingError(m)) => {
            StateView::IndexingError { details: m }
        },
        (StateView::IndexingError { .. }, EventView::Reset) => StateView::NotAvailable,
        (StateView::Indexed { .. }, EventView::Validate) => StateView::ValidationInProgress,
        (StateView::ValidationInProgress, EventView::ValidationComplete) => {
            StateView::Available
        },
        (StateView::ValidationInProgress, EventView::ValidationError(m)) => {
            StateView::ValidationError { details: m }
        },
        (StateView::ValidationError { .. }, EventView::Reset) => StateView::NotAvailable,
        (s, e) => StateView::Failure { message: wrong_combination(s, e) },
    }
}

/// Whether the table lists a transition from `state` on `event`.
pub open spec fn is_legal(state: StateView, event: EventView) -> bool {
    match (state, event) {
        (StateView::NotAvailable, EventView::Download) => true,
        (StateView::DownloadingInProgress { .. }, EventView::DownloadingComplete(_, _)) => true,
        (StateView::DownloadingInProgress { .. }, EventView::DownloadingError(_)) => true,
        (StateView::DownloadingError { .. }, EventView::Reset) => true,
        (StateView::Downloaded { .. }, EventView::Process(_)) => true,
        (StateView::Downloaded { .. }, EventView::Index(_)) => true,
        (StateView::ProcessingInProgress { .. }, EventView::ProcessingComplete(_, _)) => true,
        (StateView::ProcessingInProgress { .. }, EventView::ProcessingError(_)) => true,
        (StateView::ProcessingError { .. }, EventView::Reset) => true,
        (StateView::Processed { .. }, EventView::Index(_)) => true,
        (StateView::IndexingInProgress { .. }, EventView::IndexingComplete(_)) => true,
        (StateView::IndexingInProgress { .. }, EventView::IndexingError(_)) => true,
        (StateView::IndexingError { .. }, EventView::Reset) => true,
        (StateView::Indexed { .. }, EventView::Validate) => true,
        (StateView::ValidationInProgress, EventView::ValidationComplete) => true,
        (StateView::ValidationInProgress, EventView::ValidationError(_)) => true,
        (StateView::ValidationError { .. }, EventView::Reset) => true,
        _ => false,
    }
}

/// Builds the `Failure` state for an event that `state` has no use for.
fn failure(state: &State, event: &Event) -> (r: State)
    ensures
        r@ == (StateView::Failure { message: wrong_combination(state@, event@) }),
{
    let mut message = String::from_str("wrong state/event: ");
    message.append(state.name());
    message.append("/");
    message.append(event.name());
    State::Failure { message }
}

/// The state that follows `state` on `event`; `now` is the reading of the
/// wall clock, which the caller supplies.
///
/// The function is total: a pair without a transition gives `Failure`, whose
/// message names the state and the event.
pub fn next(state: &State, event: Event, now: Timestamp) -> (r: State)
    ensures
        r@ == next_state(state@, event@, now),
        r@ is Failure <==> !is_legal(state@, event@),
{
    match (state, event) {
        (State::NotAvailable, Event::Download) => State::DownloadingInProgress {
            started_at: now,
        },
        (State::DownloadingInProgress { .. }, Event::DownloadingComplete(p, d)) => {
            State::Downloaded { file_path: p, duration: d }
        },
        (State::DownloadingInProgress { .. }, Event::DownloadingError(m)) => {
            State::DownloadingError { details: m }
        },
        (State::DownloadingError { .. }, Event::Reset) => State::NotAvailable,
        (State::Downloaded { .. }, Event::Process(p)) => State::ProcessingInProgress {
            file_path: p,
            started_at: now,
        },
        (State::Downloaded { .. }, Event::Index(p)) => State::IndexingInProgress {
            file_path: p,
            started_at: now,
        },
        (State::ProcessingInProgress { .. }, Event::ProcessingComplete(p, d)) => {
            State::Processed { file_path: p, duration: d }
        },
        (State::ProcessingInProgress { .. }, Event::ProcessingError(m)) => {
            State::ProcessingError { details: m }
        },
        (State::ProcessingError { .. }, Event::Reset) => State::NotAvailable,
        (State::Processed { .. }, Event::Index(p)) => State::IndexingInProgress {
            file_path: p,
            started_at: now,
        },
        (State::IndexingInProgress { .. }, Event::IndexingComplete(d)) => State::Indexed {
            duration: d,
        },
        (State::IndexingInProgress { .. }, Event::IndexingError(m)) => State::IndexingError {
            details: m,
        },
        (State::IndexingError { .. }, Event::Reset) => State::NotAvailable,
        (State::Indexed { .. }, Event::Validate) => State::ValidationInProgress,
        (State::ValidationInProgress, Event::ValidationComplete) => State::Available,
        (State::ValidationInProgress, Event::ValidationError(m)) => State::ValidationError {
            details: m,
        },
        (State::ValidationError { .. }, Event::Reset) => State::NotAvailable,
        (s, e) => failure(s, &e),
    }
}

} // verus!
