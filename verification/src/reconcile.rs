//! Reconciliation: the sweep over the monitored rooms, then the sweep over
//! the categories.
//!
//! The order matters. The first sweep drops the rows that no longer stand
//! for a room with members; the second finds the rooms with members that no
//! row stands for. After both, the rows and the rooms agree. The second
//! sweep is made whether or not the first went through.

use crate::categories::{
    category_next, cleanup_categories_monitored_rooms, CategoryOutcome, CategoryState,
    CategoryStateView,
};
use crate::gateway::{request_view, response_view, Request, RequestView, Response, ResponseView};
use crate::sweep::{
    cleanup_db_monitored_rooms, sweep_next, SweepOutcome, SweepState, SweepStateView,
};
use vstd::prelude::*;

verus! {

/// How a reconciliation ended: how each of its two sweeps did.
#[derive(Clone, Copy, Debug, PartialEq, Eq, Structural)]
pub struct ReconcileOutcome {
    pub rooms: SweepOutcome,
    pub categories: CategoryOutcome,
}

/// Where a reconciliation stands.
#[derive(Debug)]
pub enum ReconcileState {
    /// The sweep over the monitored rooms is under way.
    Rooms { bot_id: i64, first: SweepState },
    /// The sweep over the monitored rooms ended as `rooms`, and the sweep
    /// over the categories is under way.
    Categories { rooms: SweepOutcome, second: CategoryState },
    /// Both sweeps are over.
    Finished(ReconcileOutcome),
}

/// A [`ReconcileState`] as mathematical values.
pub enum ReconcileStateView {
    Rooms { bot_id: i64, first: SweepStateView },
    Categories { rooms: SweepOutcome, second: CategoryStateView },
    Finished(ReconcileOutcome),
}

impl View for ReconcileState {
    type V = ReconcileStateView;

    open spec fn view(&self) -> ReconcileStateView {
        match self {
            ReconcileState::Rooms { bot_id, first } => ReconcileStateView::Rooms {
                bot_id: *bot_id,
                first: first@,
            },
            ReconcileState::Categories { rooms, second } => ReconcileStateView::Categories {
                rooms: *rooms,
                second: second@,
            },
            ReconcileState::Finished(outcome) => ReconcileStateView::Finished(*outcome),
        }
    }
}

/// Where a reconciliation stands after a step of its second sweep, whose
/// first sweep ended as `rooms`.
pub open spec fn in_categories(
    rooms: SweepOutcome,
    step: (CategoryStateView, Option<RequestView>),
) -> (ReconcileStateView, Option<RequestView>) {
    match step.0 {
        CategoryStateView::Finished(categories) => (
            ReconcileStateView::Finished(ReconcileOutcome { rooms, categories }),
            None,
        ),
        second => (ReconcileStateView::Categories { rooms, second }, step.1),
    }
}

/// Where a reconciliation stands after a step of its first sweep. Once the
/// first sweep is over, the second begins at once.
pub open spec fn in_rooms(bot_id: i64, step: (SweepStateView, Option<RequestView>)) -> (
    ReconcileStateView,
    Option<RequestView>,
) {
    match step.0 {
        SweepStateView::Finished(rooms) => in_categories(
            rooms,
            category_next(CategoryStateView::Start { bot_id }, None),
        ),
        first => (ReconcileStateView::Rooms { bot_id, first }, step.1),
    }
}

/// The step that a reconciliation takes in `state` on `answer`: the state
/// it goes to, and what it asks next, if anything.
pub open spec fn reconcile_next(state: ReconcileStateView, answer: Option<ResponseView>) -> (
    ReconcileStateView,
    Option<RequestView>,
) {
    match state {
        ReconcileStateView::Rooms { bot_id, first } => in_rooms(bot_id, sweep_next(first, answer)),
        ReconcileStateView::Categories { rooms, second } => in_categories(
            rooms,
            category_next(second, answer),
        ),
        ReconcileStateView::Finished(outcome) => (ReconcileStateView::Finished(outcome), None),
    }
}

impl ReconcileState {
    /// The state in which a reconciliation begins. Rooms that the platform
    /// records no owner for will belong to `bot_id`.
    pub fn start(bot_id: i64) -> (state: ReconcileState)
        ensures
            state@ == (ReconcileStateView::Rooms { bot_id, first: SweepStateView::Start }),
    {
        ReconcileState::Rooms { bot_id, first: SweepState::start() }
    }

    /// How the reconciliation ended, once it has.
    pub fn outcome(&self) -> (outcome: Option<ReconcileOutcome>)
        ensures
            outcome == (match self@ {
                ReconcileStateView::Finished(o) => Some(o),
                _ => None,
            }),
    {
        match self {
            ReconcileState::Finished(o) => Some(*o),
            _ => None,
        }
    }
}

/// Takes a step of the second sweep into the reconciliation.
fn enter_categories(rooms: SweepOutcome, step: (CategoryState, Option<Request>)) -> (next: (
    ReconcileState,
    Option<Request>,
))
    ensures
        (next.0@, request_view(next.1)) == in_categories(rooms, (step.0@, request_view(step.1))),
{
    let (second, request) = step;
    match second.outcome() {
        Some(categories) => (
            ReconcileState::Finished(ReconcileOutcome { rooms, categories }),
            None,
        ),
        None => (ReconcileState::Categories { rooms, second }, request),
    }
}

/// One step of a reconciliation. The caller begins with
/// [`ReconcileState::start`] and no answer, makes the request that a step
/// returns, and hands the answer to the next step, until a step returns no
/// request.
pub fn run_reconciliation_sweep(state: ReconcileState, answer: Option<Response>) -> (next: (
    ReconcileState,
    Option<Request>,
))
    ensures
        (next.0@, request_view(next.1)) == reconcile_next(state@, response_view(answer)),
{
    match state {
        ReconcileState::Rooms { bot_id, first } => {
            let (first, request) = cleanup_db_monitored_rooms(first, answer);
            match first.outcome() {
                Some(rooms) => enter_categories(
                    rooms,
                    cleanup_categories_monitored_rooms(CategoryState::start(bot_id), None),
                ),
                None => (ReconcileState::Rooms { bot_id, first }, request),
            }
        },
        ReconcileState::Categories { rooms, second } => enter_categories(
            rooms,
            cleanup_categories_monitored_rooms(second, answer),
        ),
        ReconcileState::Finished(outcome) => (ReconcileState::Finished(outcome), None),
    }
}

} // verus!
