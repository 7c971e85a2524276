//! Teardown: a user leaves a monitored room, and the room goes if it is
//! empty.
//!
//! The platform decides whether a room exists. A monitored room that the
//! platform no longer has is treated as an empty one: its row and what is
//! staged for it are cleared all the same.

use crate::cache::{remove_guest_cache, SavedRoomCache, StagedGuests};
use crate::gateway::{
    request_view, response_view, ChannelLookup, ErrorKind, Request, RequestView, Response,
    ResponseView,
};
use crate::records::MonitoredAutoRoom;
use vstd::prelude::*;

verus! {

/// How a teardown ended.
#[derive(Clone, Copy, Debug, PartialEq, Eq, Structural)]
pub enum ReapOutcome {
    /// The channel left is no monitored room: nothing was done.
    NotMonitored,
    /// The room still has members: it stays.
    Occupied,
    /// The room is gone from the platform, and its row from the store.
    Removed,
    /// The teardown was given up.
    Failed(ErrorKind),
}

/// Where a teardown stands.
#[derive(Clone, Copy, Debug, PartialEq, Eq, Structural)]
pub enum ReapState {
    /// Nothing has been asked yet.
    Start { channel_id: i64 },
    /// The store was asked whether the channel is a monitored room.
    Checking { channel_id: i64 },
    /// The platform was asked to resolve the room.
    Resolving { channel_id: i64 },
    /// The platform was asked to delete the room.
    Deleting { channel_id: i64 },
    /// The store was asked to remove the room's row.
    Forgetting { channel_id: i64 },
    /// The teardown is over.
    Finished(ReapOutcome),
}

/// What a lookup of a monitored room means for its teardown.
#[derive(Clone, Copy, Debug, PartialEq, Eq, Structural)]
pub enum Occupancy {
    /// The platform has no voice channel under the id that answers to it.
    Gone,
    /// The room is there and nobody is in it.
    Empty,
    /// The room is there and has members.
    Occupied,
}

/// Reads a lookup of `channel_id`. Only a voice channel that reports the id
/// it was looked up under counts as there; it is empty when it has no member
/// at the moment of the lookup.
pub open spec fn occupancy_of(channel_id: i64, lookup: ChannelLookup) -> Occupancy {
    match lookup {
        ChannelLookup::Room(room) => if room.id != channel_id {
            Occupancy::Gone
        } else if room.members == 0 {
            Occupancy::Empty
        } else {
            Occupancy::Occupied
        },
        _ => Occupancy::Gone,
    }
}

/// Reads a lookup of `channel_id`.
pub fn occupancy(channel_id: i64, lookup: &ChannelLookup) -> (found: Occupancy)
    ensures
        found == occupancy_of(channel_id, *lookup),
{
    match lookup {
        ChannelLookup::Room(room) => {
            if room.id != channel_id {
                Occupancy::Gone
            } else if room.members == 0 {
                Occupancy::Empty
            } else {
                Occupancy::Occupied
            }
        },
        _ => Occupancy::Gone,
    }
}

/// What a step of a teardown does: the state it goes to, what it asks next,
/// and the room whose staged guests it drops, if it drops any.
pub struct ReapStep {
    pub state: ReapState,
    pub request: Option<RequestView>,
    pub evicted: Option<i64>,
}

/// The step a teardown takes in `state` on `answer`.
pub open spec fn reap_next(state: ReapState, answer: Option<ResponseView>) -> ReapStep {
    match state {
        ReapState::Start { channel_id } => ReapStep {
            state: ReapState::Checking { channel_id },
            request: Some(RequestView::MonitoredExists { channel_id }),
            evicted: None,
        },
        ReapState::Checking { channel_id } => match answer {
            Some(ResponseView::Exists(true)) => ReapStep {
                state: ReapState::Resolving { channel_id },
                request: Some(RequestView::ResolveChannel { channel_id }),
                evicted: None,
            },
            _ => ReapStep {
                state: ReapState::Finished(ReapOutcome::NotMonitored),
                request: None,
                evicted: None,
            },
        },
        ReapState::Resolving { channel_id } => match answer {
            Some(ResponseView::Channel(lookup)) => match occupancy_of(channel_id, lookup) {
                Occupancy::Occupied => ReapStep {
                    state: ReapState::Finished(ReapOutcome::Occupied),
                    request: None,
                    evicted: None,
                },
                Occupancy::Empty => ReapStep {
                    state: ReapState::Deleting { channel_id },
                    request: Some(RequestView::DeleteChannel { channel_id }),
                    evicted: None,
                },
                Occupancy::Gone => ReapStep {
                    state: ReapState::Forgetting { channel_id },
                    request: Some(RequestView::RemoveMonitored { channel_id }),
                    evicted: Some(channel_id),
                },
            },
            Some(ResponseView::Failed) => ReapStep {
                state: ReapState::Finished(ReapOutcome::Failed(ErrorKind::PlatformError)),
                request: None,
                evicted: None,
            },
            _ => ReapStep {
                state: ReapState::Finished(ReapOutcome::Failed(ErrorKind::InvariantViolation)),
                request: None,
                evicted: None,
            },
        },
        ReapState::Deleting { channel_id } => match answer {
            Some(ResponseView::Done) | Some(ResponseView::Gone) => ReapStep {
                state: ReapState::Forgetting { channel_id },
                request: Some(RequestView::RemoveMonitored { channel_id }),
                evicted: Some(channel_id),
            },
            _ => ReapStep {
                state: ReapState::Finished(ReapOutcome::Failed(ErrorKind::PlatformError)),
                request: None,
                evicted: None,
            },
        },
        ReapState::Forgetting { channel_id } => match answer {
            Some(ResponseView::Done) | Some(ResponseView::Gone) => ReapStep {
                state: ReapState::Finished(ReapOutcome::Removed),
                request: None,
                evicted: None,
            },
            _ => ReapStep {
                state: ReapState::Finished(ReapOutcome::Failed(ErrorKind::StoreError)),
                request: None,
                evicted: None,
            },
        },
        ReapState::Finished(outcome) => ReapStep {
            state: ReapState::Finished(outcome),
            request: None,
            evicted: None,
        },
    }
}

/// The step a teardown by room id takes: it is that of a teardown after a
/// leave, but for the start, where it does not ask the store whether the
/// room is monitored and resolves the room at once.
pub open spec fn reap_by_id_next(state: ReapState, answer: Option<ResponseView>) -> ReapStep {
    match state {
        ReapState::Start { channel_id } => ReapStep {
            state: ReapState::Resolving { channel_id },
            request: Some(RequestView::ResolveChannel { channel_id }),
            evicted: None,
        },
        _ => reap_next(state, answer),
    }
}

/// The cache after a step that evicts `evicted`.
pub open spec fn after_eviction(cache: Map<i64, StagedGuests>, evicted: Option<i64>) -> Map<
    i64,
    StagedGuests,
> {
    match evicted {
        Some(room) => cache.remove(room),
        None => cache,
    }
}

impl ReapState {
    /// The state in which the teardown of `channel_id` begins.
    pub fn start(channel_id: i64) -> (state: ReapState)
        ensures
            state == (ReapState::Start { channel_id }),
    {
        ReapState::Start { channel_id }
    }

    /// How the teardown ended, once it has.
    pub fn outcome(&self) -> (outcome: Option<ReapOutcome>)
        ensures
            outcome == (match *self {
                ReapState::Finished(o) => Some(o),
                _ => None,
            }),
    {
        match self {
            ReapState::Finished(o) => Some(*o),
            _ => None,
        }
    }
}

/// One step of the teardown that follows a leave. The caller begins with
/// [`ReapState::start`] and no answer, makes the request that a step
/// returns, and hands the answer to the next step, until a step returns no
/// request. The step that learns that the room is gone drops what is staged
/// for it in `cache`.
pub fn remove_channel_by_voicestate(
    state: ReapState,
    answer: Option<Response>,
    cache: &mut SavedRoomCache,
) -> (next: (ReapState, Option<Request>))
    ensures
        next.0 == reap_next(state, response_view(answer)).state,
        request_view(next.1) == reap_next(state, response_view(answer)).request,
        final(cache)@ == after_eviction(
            old(cache)@,
            reap_next(state, response_view(answer)).evicted,
        ),
{
    match state {
        ReapState::Start { channel_id } => (
            ReapState::Checking { channel_id },
            Some(MonitoredAutoRoom::is_monitored(channel_id)),
        ),
        ReapState::Checking { channel_id } => match answer {
            Some(Response::Exists(true)) => (
                ReapState::Resolving { channel_id },
                Some(Request::ResolveChannel { channel_id }),
            ),
            _ => (ReapState::Finished(ReapOutcome::NotMonitored), None),
        },
        ReapState::Resolving { channel_id } => match answer {
            Some(Response::Channel(lookup)) => match occupancy(channel_id, &lookup) {
                Occupancy::Occupied => (ReapState::Finished(ReapOutcome::Occupied), None),
                Occupancy::Empty => (
                    ReapState::Deleting { channel_id },
                    Some(Request::DeleteChannel { channel_id }),
                ),
                Occupancy::Gone => {
                    remove_guest_cache(cache, channel_id);
                    (
                        ReapState::Forgetting { channel_id },
                        Some(MonitoredAutoRoom::remove(channel_id)),
                    )
                },
            },
            Some(Response::Failed) => (
                ReapState::Finished(ReapOutcome::Failed(ErrorKind::PlatformError)),
                None,
            ),
            _ => (ReapState::Finished(ReapOutcome::Failed(ErrorKind::InvariantViolation)), None),
        },
        ReapState::Deleting { channel_id } => match answer {
            Some(Response::Done) | Some(Response::Gone) => {
                remove_guest_cache(cache, channel_id);
                (
                    ReapState::Forgetting { channel_id },
                    Some(MonitoredAutoRoom::remove(channel_id)),
                )
            },
            _ => (ReapState::Finished(ReapOutcome::Failed(ErrorKind::PlatformError)), None),
        },
        ReapState::Forgetting { channel_id } => match answer {
            Some(Response::Done) | Some(Response::Gone) => (
                ReapState::Finished(ReapOutcome::Removed),
                None,
            ),
            _ => (ReapState::Finished(ReapOutcome::Failed(ErrorKind::StoreError)), None),
        },
        ReapState::Finished(outcome) => (ReapState::Finished(outcome), None),
    }
}

/// One step of the teardown of a room known by its id. It goes as
/// [`remove_channel_by_voicestate`] does, without asking the store first
/// whether the room is monitored.
pub fn remove_channel_by_id_proccessing(
    state: ReapState,
    answer: Option<Response>,
    cache: &mut SavedRoomCache,
) -> (next: (ReapState, Option<Request>))
    ensures
        next.0 == reap_by_id_next(state, response_view(answer)).state,
        request_view(next.1) == reap_by_id_next(state, response_view(answer)).request,
        final(cache)@ == after_eviction(
            old(cache)@,
            reap_by_id_next(state, response_view(answer)).evicted,
        ),
{
    match state {
        ReapState::Start { channel_id } => (
            ReapState::Resolving { channel_id },
            Some(Request::ResolveChannel { channel_id }),
        ),
        _ => remove_channel_by_voicestate(state, answer, cache),
    }
}

} // verus!
