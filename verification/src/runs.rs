//! Runs of the operations against the model of [`crate::world`].
//!
//! A run of an operation takes its steps in turn: each request is served by
//! the model under the next [`Fate`], and the answer goes into the next
//! step. A run makes at most as many requests as it is given fates.

use crate::cache::StagedGuests;
use crate::categories::{category_next, distinct, CategoryOutcome, CategoryStateView};
use crate::gateway::{CategoryRecordView, ResponseView};
use crate::permissions::GUEST_ALLOW;
use crate::profiles::{
    after_staging, invite_next, load_next, save_next, InviteState, LoadOutcomeView, LoadStateView,
    SaveStateView,
};
use crate::provision::{provision_next, ProvisionStateView};
use crate::reaper::{after_eviction, reap_next, ReapState};
use crate::reconcile::{in_categories, reconcile_next, ReconcileStateView};
use crate::records::AutoRoomView;
use crate::sweep::{sorted_out, sweep_next, CleanUpDbResultView, SweepOutcome, SweepStateView};
use crate::world::{category_ids, has_profile, has_room, Access, Fate, Platform, Store, World};
use vstd::prelude::*;

verus! {

/// A run of provisioning from `state`, which was reached with `answer`, in
/// the world `world`: the world and the state it ends in. The run makes at
/// most as many requests as there are `fates`.
pub open spec fn provisioning(
    world: World,
    state: ProvisionStateView,
    answer: Option<ResponseView>,
    fates: Seq<Fate>,
) -> (World, ProvisionStateView)
    decreases fates.len(),
{
    let (next, request) = provision_next(state, answer);
    match request {
        Some(r) if fates.len() > 0 => {
            let (served, reply) = world.serve(r, fates.first());
            provisioning(served, next, Some(reply), fates.drop_first())
        },
        _ => (world, next),
    }
}

/// A run of a teardown after a leave, from `state`, which was reached with
/// `answer`, in the world `world` and with the staged guests `cache`: the
/// world, the cache and the state it ends in. The run makes at most as many
/// requests as there are `fates`.
pub open spec fn reaping(
    world: World,
    cache: Map<i64, StagedGuests>,
    state: ReapState,
    answer: Option<ResponseView>,
    fates: Seq<Fate>,
) -> (World, Map<i64, StagedGuests>, ReapState)
    decreases fates.len(),
{
    let step = reap_next(state, answer);
    let staged = after_eviction(cache, step.evicted);
    match step.request {
        Some(r) if fates.len() > 0 => {
            let (served, reply) = world.serve(r, fates.first());
            reaping(served, staged, step.state, Some(reply), fates.drop_first())
        },
        _ => (world, staged, step.state),
    }
}

/// A run of the sweep over the monitored rooms from `state`, which was
/// reached with `answer`, in the world `world`: the world and the state it
/// ends in. The run makes at most as many requests as there are `fates`.
pub open spec fn sweeping(
    world: World,
    state: SweepStateView,
    answer: Option<ResponseView>,
    fates: Seq<Fate>,
) -> (World, SweepStateView)
    decreases fates.len(),
{
    let (next, request) = sweep_next(state, answer);
    match request {
        Some(r) if fates.len() > 0 => {
            let (served, reply) = world.serve(r, fates.first());
            sweeping(served, next, Some(reply), fates.drop_first())
        },
        _ => (world, next),
    }
}

/// A run of the sweep over the categories from `state`, which was reached
/// with `answer`, in the world `world`: the world and the state it ends in.
/// The run makes at most as many requests as there are `fates`.
pub open spec fn category_sweeping(
    world: World,
    state: CategoryStateView,
    answer: Option<ResponseView>,
    fates: Seq<Fate>,
) -> (World, CategoryStateView)
    decreases fates.len(),
{
    let (next, request) = category_next(state, answer);
    match request {
        Some(r) if fates.len() > 0 => {
            let (served, reply) = world.serve(r, fates.first());
            category_sweeping(served, next, Some(reply), fates.drop_first())
        },
        _ => (world, next),
    }
}

/// What the sweep over the monitored rooms finds in `world`.
pub open spec fn found_in(world: World) -> CleanUpDbResultView {
    sorted_out(world.platform.lookups(world.store.monitored))
}

/// What the platform of `world` finds under the categories of the
/// templates, each category once.
pub open spec fn categories_in(world: World) -> Seq<CategoryRecordView> {
    world.platform.category_lookups(distinct(category_ids(world.store.templates)))
}

/// Whether the platform has a voice channel with members under `id`.
pub open spec fn occupied(platform: Platform, id: i64) -> bool {
    platform.channels.contains_key(id) && platform.channels[id].voice
        && platform.channels[id].members > 0
}

/// Whether every monitored room is a voice channel with members.
pub open spec fn settled(world: World) -> bool {
    forall|i: int|
        0 <= i < world.store.monitored.len() ==> occupied(
            world.platform,
            (#[trigger] world.store.monitored[i]).channel_id,
        )
}

/// Whether some template places its rooms under `category_id`.
pub open spec fn names_category(templates: Seq<AutoRoomView>, category_id: i64) -> bool {
    exists|i: int| 0 <= i < templates.len() && #[trigger] templates[i].category_id == category_id
}

/// Whether the platform lists `channel_id` under the category `category_id`.
pub open spec fn listed_under(platform: Platform, category_id: i64, channel_id: i64) -> bool {
    platform.categories.contains_key(category_id) && platform.categories[category_id].contains(
        channel_id,
    )
}

/// Whether every voice channel with members under a category that a
/// template names is a monitored room.
pub open spec fn all_adopted(world: World) -> bool {
    forall|category_id: i64, channel_id: i64|
        names_category(world.store.templates, category_id) && #[trigger] listed_under(
            world.platform,
            category_id,
            channel_id,
        ) && occupied(world.platform, channel_id) ==> has_room(world.store.monitored, channel_id)
}

/// A full reconciliation: the sweep over the monitored rooms under the
/// fates `rooms`, then the sweep over the categories under the fates
/// `categories`. The world it ends in, and the states the two sweeps end
/// in.
pub open spec fn reconciling(
    world: World,
    bot_id: i64,
    rooms: Seq<Fate>,
    categories: Seq<Fate>,
) -> (World, SweepStateView, CategoryStateView) {
    let (swept, rooms_state) = sweeping(world, SweepStateView::Start, None, rooms);
    let (after, categories_state) = category_sweeping(
        swept,
        CategoryStateView::Start { bot_id },
        None,
        categories,
    );
    (after, rooms_state, categories_state)
}

/// Whether a reconciliation went through: both sweeps ended as `Swept`.
pub open spec fn went_through(
    rooms_state: SweepStateView,
    categories_state: CategoryStateView,
) -> bool {
    &&& rooms_state matches SweepStateView::Finished(SweepOutcome::Swept(_))
    &&& categories_state matches CategoryStateView::Finished(CategoryOutcome::Swept(_))
}

/// A run of saving a room from `state`, which was reached with `answer`, in
/// the world `world`: the world and the state it ends in. The run makes at
/// most as many requests as there are `fates`.
pub open spec fn saving(
    world: World,
    state: SaveStateView,
    answer: Option<ResponseView>,
    fates: Seq<Fate>,
) -> (World, SaveStateView)
    decreases fates.len(),
{
    let (next, request) = save_next(state, answer);
    match request {
        Some(r) if fates.len() > 0 => {
            let (served, reply) = world.serve(r, fates.first());
            saving(served, next, Some(reply), fates.drop_first())
        },
        _ => (world, next),
    }
}

/// A run of replaying a profile from `state`, which was reached with
/// `answer`, in the world `world`: the world and the state it ends in. The
/// run makes at most as many requests as there are `fates`.
pub open spec fn loading(
    world: World,
    state: LoadStateView,
    answer: Option<ResponseView>,
    fates: Seq<Fate>,
) -> (World, LoadStateView)
    decreases fates.len(),
{
    let step = load_next(state, answer);
    match step.request {
        Some(r) if fates.len() > 0 => {
            let (served, reply) = world.serve(r, fates.first());
            loading(served, step.state, Some(reply), fates.drop_first())
        },
        _ => (world, step.state),
    }
}

/// Whether every guest row belongs to a profile that is in the store.
pub open spec fn guests_have_profiles(store: Store) -> bool {
    forall|i: int|
        0 <= i < store.guests.len() ==> has_profile(
            store.profiles,
            (#[trigger] store.guests[i]).savedroom_id as int,
        )
}

/// Whether `user_id` holds exactly the guest's permissions on `room`.
pub open spec fn is_guest(platform: Platform, room: i64, user_id: i64) -> bool {
    &&& platform.channels.contains_key(room)
    &&& platform.channels[room].access.contains_key(user_id)
    &&& platform.channels[room].access[user_id] == (Access { allow: GUEST_ALLOW, deny: 0 })
}

/// The guests that replaying has granted by the time it is in `state`.
pub open spec fn granted_by(state: LoadStateView) -> Seq<i64> {
    match state {
        LoadStateView::Granting { granted, .. } => granted,
        LoadStateView::Finished(LoadOutcomeView::Loaded { granted }) => granted,
        _ => Seq::empty(),
    }
}

/// A run of an invitation from `state`, which was reached with `answer`, in
/// the world `world` and with the staged guests `cache`: the world, the
/// cache and the state it ends in.
pub open spec fn inviting(
    world: World,
    cache: Map<i64, StagedGuests>,
    state: InviteState,
    answer: Option<ResponseView>,
    fates: Seq<Fate>,
) -> (World, Map<i64, StagedGuests>, InviteState)
    decreases fates.len(),
{
    let step = invite_next(state, answer);
    let staged = after_staging(cache, step.staged);
    match step.request {
        Some(r) if fates.len() > 0 => {
            let (served, reply) = world.serve(r, fates.first());
            inviting(served, staged, step.state, Some(reply), fates.drop_first())
        },
        _ => (world, staged, step.state),
    }
}

/// The fates that a run of the sweep over the monitored rooms leaves
/// unused.
pub open spec fn fates_after_sweeping(
    world: World,
    state: SweepStateView,
    answer: Option<ResponseView>,
    fates: Seq<Fate>,
) -> Seq<Fate>
    decreases fates.len(),
{
    let (next, request) = sweep_next(state, answer);
    match request {
        Some(r) if fates.len() > 0 => {
            let (served, reply) = world.serve(r, fates.first());
            fates_after_sweeping(served, next, Some(reply), fates.drop_first())
        },
        _ => fates,
    }
}

/// A run of a reconciliation from `state`, which was reached with `answer`,
/// in the world `world`: the world and the state it ends in. The run makes
/// at most as many requests as there are `fates`.
pub open spec fn reconciliation(
    world: World,
    state: ReconcileStateView,
    answer: Option<ResponseView>,
    fates: Seq<Fate>,
) -> (World, ReconcileStateView)
    decreases fates.len(),
{
    let (next, request) = reconcile_next(state, answer);
    match request {
        Some(r) if fates.len() > 0 => {
            let (served, reply) = world.serve(r, fates.first());
            reconciliation(served, next, Some(reply), fates.drop_first())
        },
        _ => (world, next),
    }
}

/// The state of a reconciliation whose first sweep ended as `rooms` and
/// whose second sweep is in `sweep`.
pub open spec fn second_sweep_in(
    rooms: SweepOutcome,
    sweep: CategoryStateView,
) -> ReconcileStateView {
    in_categories(rooms, (sweep, None)).0
}

/// The state in which a reconciliation with `bot_id` as the owner of last
/// resort begins.
pub open spec fn reconciliation_start(bot_id: i64) -> ReconcileStateView {
    ReconcileStateView::Rooms { bot_id, first: SweepStateView::Start }
}

/// Whether a reconciliation is over and both of its sweeps went through.
pub open spec fn reconciled(state: ReconcileStateView) -> bool {
    &&& state matches ReconcileStateView::Finished(outcome)
    &&& outcome.rooms is Swept
    &&& outcome.categories is Swept
}

} // verus!
