//! What the operations achieve, proved against the model of
//! [`crate::world`].
//!
//! The laws hold for every world and for every choice of fates, but where a
//! law names the fates it leaves out.

use crate::bitrate::bitrate_of;
use crate::cache::{stage_guest, StagedGuests};
use crate::categories::plan_of;
use crate::gateway::{ErrorKind, RequestView, ResponseView};
use crate::lemmas::{
    lemma_adopted_is_occupied, lemma_adopted_sweep, lemma_category_sweeping, lemma_deletable,
    lemma_doomed_is_empty, lemma_empty_is_not_occupied, lemma_guests_of_add, lemma_guests_of_none,
    lemma_guests_of_rows, lemma_kept_is_occupied, lemma_loading_all, lemma_loading_any,
    lemma_occupied_is_adopted, lemma_reconciliation_in_rooms, lemma_rooms_with_absent,
    lemma_rooms_without, lemma_settled_sweep, lemma_sweeping, lemma_templates_left,
};
use crate::permissions::OWNER_ALLOW;
use crate::profiles::{
    guest_grant, save_begins, InviteOutcome, InviteState, LoadOutcomeView, LoadStateView,
    SaveStateView,
};
use crate::provision::{room_name_of, JoinEventView, ProvisionOutcome, ProvisionStateView};
use crate::reaper::{ReapOutcome, ReapState};
use crate::records::{guest_rows, DeleteStrategyView, MonitoredAutoRoom};
use crate::runs::{
    all_adopted, categories_in, category_sweeping, fates_after_sweeping, found_in, granted_by,
    guests_have_profiles, inviting, is_guest, listed_under, loading, names_category, occupied,
    provisioning, reaping, reconciled, reconciliation, reconciliation_start, reconciling, saving,
    settled, sweeping, went_through,
};
use crate::sweep::SweepStateView;
use crate::world::{
    guests_of, has_profile, has_room, room_of_owner, rooms_without, template_of, Access, Fate,
    World,
};
use vstd::prelude::*;

verus! {

/// Provisioning that succeeds leaves a room that is what the template asks
/// for, owned by the user who joined, and monitored.
///
/// Whatever the world and whatever fails: if a run for a join event ends as
/// `Provisioned`, then the channel joined is the origin of a template; the
/// room is on the platform, under that template's category, named after the
/// user and the template's suffix, with the bitrate of the guild's tier; the
/// user who joined holds the owner's permissions on it; and a monitored row
/// for the room with that user as owner is in the store.
pub proof fn law_provisioned_room_is_owned_and_monitored(
    world: World,
    event: JoinEventView,
    fates: Seq<Fate>,
)
    ensures
        ({
            let (after, state) = provisioning(world, ProvisionStateView::Start(event), None, fates);
            state matches ProvisionStateView::Finished(
                ProvisionOutcome::Provisioned { room, owner, moved },
            ) ==> {
                &&& owner == event.user_id
                &&& template_of(world.store.templates, event.channel_id) matches Some(template)
                &&& after.platform.channels.contains_key(room)
                &&& after.platform.channels[room].voice
                &&& after.platform.channels[room].category_id == Some(template.category_id)
                &&& after.platform.channels[room].name == room_name_of(
                    event.user_name,
                    template.suffix,
                )
                &&& after.platform.channels[room].bitrate == bitrate_of(event.premium_tier)
                &&& after.platform.channels[room].access.contains_key(owner)
                &&& after.platform.channels[room].access[owner] == (Access {
                    allow: OWNER_ALLOW,
                    deny: 0,
                })
                &&& after.store.monitored.contains(
                    MonitoredAutoRoom { channel_id: room, owner_id: event.user_id },
                )
            }
        }),
{
    reveal_with_fuel(provisioning, 7);
    let (after, state) = provisioning(world, ProvisionStateView::Start(event), None, fates);
    if let ProvisionStateView::Finished(ProvisionOutcome::Provisioned { room, owner, moved }) =
        state {
        let rest1 = fates.drop_first();
        let rest2 = rest1.drop_first();
        let rest3 = rest2.drop_first();
        let rest4 = rest3.drop_first();
        assert(rest1.first() == fates[1]);
        assert(rest2.first() == fates[2]);
        assert(rest3.first() == fates[3]);
        assert(rest4.first() == fates[4]);
        let row = MonitoredAutoRoom { channel_id: room, owner_id: event.user_id };
        assert(after.store.monitored[world.store.monitored.len() as int] == row);
    }
}

/// Provisioning succeeds where nothing stands in its way.
///
/// If the channel joined is the origin of a template, the template's
/// category is on the platform, the id that the platform picks for the new
/// room is neither in use there nor recorded as monitored, and none of the
/// five calls fails, then the run ends as `Provisioned`, with the room under
/// the id that the platform picked and the user moved into it.
pub proof fn law_provisioning_succeeds(world: World, event: JoinEventView, fates: Seq<Fate>)
    requires
        fates.len() >= 5,
        forall|i: int| 0 <= i < 5 ==> !(#[trigger] fates[i]).fails,
        template_of(world.store.templates, event.channel_id) matches Some(template)
            && world.platform.categories.contains_key(template.category_id),
        !world.platform.channels.contains_key(fates[1].fresh_id),
        !has_room(world.store.monitored, fates[1].fresh_id),
    ensures
        provisioning(world, ProvisionStateView::Start(event), None, fates).1
            == ProvisionStateView::Finished(
            ProvisionOutcome::Provisioned {
                room: fates[1].fresh_id,
                owner: event.user_id,
                moved: true,
            },
        ),
{
    reveal_with_fuel(provisioning, 7);
    let rest1 = fates.drop_first();
    let rest2 = rest1.drop_first();
    let rest3 = rest2.drop_first();
    let rest4 = rest3.drop_first();
    assert(!fates[0].fails && !fates[1].fails && !fates[2].fails && !fates[3].fails
        && !fates[4].fails);
    assert(rest1.first() == fates[1]);
    assert(rest2.first() == fates[2]);
    assert(rest3.first() == fates[3]);
    assert(rest4.first() == fates[4]);
}

/// Provisioning that fails on the platform's side leaves no room behind,
/// where the room can be deleted again.
///
/// If a run for a join event ends as failed by the platform, and the
/// deletion that answers a failed grant does not fail itself, then the
/// platform has the channels that it had before, and the store is as it
/// was.
pub proof fn law_failed_grant_leaves_no_room(world: World, event: JoinEventView, fates: Seq<Fate>)
    requires
        provisioning(world, ProvisionStateView::Start(event), None, fates).1
            == ProvisionStateView::Finished(ProvisionOutcome::Failed(ErrorKind::PlatformError)),
        fates.len() >= 4 ==> !fates[3].fails,
    ensures
        ({
            let after = provisioning(world, ProvisionStateView::Start(event), None, fates).0;
            &&& after.platform.channels == world.platform.channels
            &&& after.store == world.store
        }),
{
    reveal_with_fuel(provisioning, 7);
    let after = provisioning(world, ProvisionStateView::Start(event), None, fates).0;
    if fates.len() >= 4 {
        let rest1 = fates.drop_first();
        let rest2 = rest1.drop_first();
        let rest3 = rest2.drop_first();
        assert(rest1.first() == fates[1]);
        assert(rest2.first() == fates[2]);
        assert(rest3.first() == fates[3]);
        let room = fates[1].fresh_id;
        assert(seq![room].to_set() =~= Set::<i64>::empty().insert(room)) by {
            assert(seq![room][0] == room);
        }
        assert(after.platform.channels =~= world.platform.channels);
    } else if fates.len() == 3 {
        let rest1 = fates.drop_first();
        let rest2 = rest1.drop_first();
        assert(rest1.first() == fates[1]);
        assert(rest2.first() == fates[2]);
    } else if fates.len() == 2 {
        let rest1 = fates.drop_first();
        assert(rest1.first() == fates[1]);
    }
}

/// A leave from a monitored room that is gone from the platform clears the
/// room's row and what is staged for it.
///
/// If `channel_id` is recorded as monitored, the platform has no channel
/// under that id, and none of the three calls of the run fails, then the
/// teardown ends as `Removed`, no monitored row for `channel_id` is left,
/// the other rows are as they were, and nothing is staged for the room.
pub proof fn law_leave_from_vanished_room_clears_row(
    world: World,
    cache: Map<i64, StagedGuests>,
    channel_id: i64,
    fates: Seq<Fate>,
)
    requires
        has_room(world.store.monitored, channel_id),
        !world.platform.channels.contains_key(channel_id),
        fates.len() >= 3,
        forall|i: int| 0 <= i < 3 ==> !(#[trigger] fates[i]).fails,
    ensures
        ({
            let (after, staged, state) = reaping(
                world,
                cache,
                ReapState::Start { channel_id },
                None,
                fates,
            );
            &&& state == ReapState::Finished(ReapOutcome::Removed)
            &&& !has_room(after.store.monitored, channel_id)
            &&& after.store.monitored == rooms_without(world.store.monitored, seq![channel_id])
            &&& after.platform == world.platform
            &&& staged == cache.remove(channel_id)
        }),
{
    reveal_with_fuel(reaping, 5);
    let rest1 = fates.drop_first();
    let rest2 = rest1.drop_first();
    assert(!fates[0].fails && !fates[1].fails && !fates[2].fails);
    assert(rest1.first() == fates[1]);
    assert(rest2.first() == fates[2]);
    lemma_rooms_without(world.store.monitored, seq![channel_id]);
    let left = rooms_without(world.store.monitored, seq![channel_id]);
    if has_room(left, channel_id) {
        let i = choose|i: int| 0 <= i < left.len() && #[trigger] left[i].channel_id == channel_id;
        assert(left.contains(left[i]));
        assert(seq![channel_id].contains(channel_id)) by {
            assert(seq![channel_id][0] == channel_id);
        }
    }
}

/// A leave from a monitored room that nobody is in removes the room and
/// its row, and drops what is staged for it.
///
/// If `channel_id` is recorded as monitored, the platform has a voice
/// channel without members under that id, and none of the four calls of the
/// run fails, then the teardown ends as `Removed`, the channel is gone from
/// the platform, no monitored row for it is left, and nothing is staged for
/// the room.
pub proof fn law_leave_from_empty_room_removes_it(
    world: World,
    cache: Map<i64, StagedGuests>,
    channel_id: i64,
    fates: Seq<Fate>,
)
    requires
        has_room(world.store.monitored, channel_id),
        world.platform.channels.contains_key(channel_id),
        world.platform.channels[channel_id].voice,
        world.platform.channels[channel_id].members == 0,
        fates.len() >= 4,
        forall|i: int| 0 <= i < 4 ==> !(#[trigger] fates[i]).fails,
    ensures
        ({
            let (after, staged, state) = reaping(
                world,
                cache,
                ReapState::Start { channel_id },
                None,
                fates,
            );
            &&& state == ReapState::Finished(ReapOutcome::Removed)
            &&& after.platform.channels == world.platform.channels.remove(channel_id)
            &&& !has_room(after.store.monitored, channel_id)
            &&& after.store.monitored == rooms_without(world.store.monitored, seq![channel_id])
            &&& staged == cache.remove(channel_id)
        }),
{
    reveal_with_fuel(reaping, 6);
    let rest1 = fates.drop_first();
    let rest2 = rest1.drop_first();
    let rest3 = rest2.drop_first();
    assert(!fates[0].fails && !fates[1].fails && !fates[2].fails && !fates[3].fails);
    assert(rest1.first() == fates[1]);
    assert(rest2.first() == fates[2]);
    assert(rest3.first() == fates[3]);
    assert(seq![channel_id].to_set() =~= Set::<i64>::empty().insert(channel_id)) by {
        assert(seq![channel_id][0] == channel_id);
    }
    let after = reaping(world, cache, ReapState::Start { channel_id }, None, fates).0;
    assert(after.platform.channels =~= world.platform.channels.remove(channel_id));
    lemma_rooms_without(world.store.monitored, seq![channel_id]);
    let left = rooms_without(world.store.monitored, seq![channel_id]);
    if has_room(left, channel_id) {
        let i = choose|i: int| 0 <= i < left.len() && #[trigger] left[i].channel_id == channel_id;
        assert(left.contains(left[i]));
        assert(seq![channel_id].contains(channel_id)) by {
            assert(seq![channel_id][0] == channel_id);
        }
    }
}

/// A leave from a room that still has members changes nothing, and neither
/// does a leave from a channel that is no monitored room.
///
/// Whatever fails: if `channel_id` is not recorded as monitored, or the
/// platform has a voice channel with members under that id, then the
/// teardown leaves the platform, the store and the staged guests as they
/// were. It ends as `NotMonitored` or as `Occupied` unless the lookup of the
/// room fails.
pub proof fn law_leave_from_live_room_changes_nothing(
    world: World,
    cache: Map<i64, StagedGuests>,
    channel_id: i64,
    fates: Seq<Fate>,
)
    requires
        !has_room(world.store.monitored, channel_id) || occupied(world.platform, channel_id),
    ensures
        ({
            let (after, staged, state) = reaping(
                world,
                cache,
                ReapState::Start { channel_id },
                None,
                fates,
            );
            &&& after == world
            &&& staged == cache
            &&& fates.len() >= 2 && !fates[1].fails ==> state == ReapState::Finished(
                ReapOutcome::NotMonitored,
            ) || state == ReapState::Finished(ReapOutcome::Occupied)
        }),
{
    reveal_with_fuel(reaping, 4);
    if fates.len() >= 2 {
        let rest1 = fates.drop_first();
        assert(rest1.first() == fates[1]);
    }
}

/// An invitation lets the guest into the inviter's room and stages the
/// guest.
///
/// If the inviter owns a monitored room that the platform has, and neither
/// call fails, then the invitation ends as `Invited` for that room, the
/// guest holds the guest's permissions on it, and the guest is staged for
/// the room. An invitation that ends otherwise stages nobody.
pub proof fn law_invitation_grants_and_stages(
    world: World,
    cache: Map<i64, StagedGuests>,
    inviter_id: i64,
    guest_id: i64,
    fates: Seq<Fate>,
)
    ensures
        ({
            let state = inviting(
                world,
                cache,
                InviteState::Start { inviter_id, guest_id },
                None,
                fates,
            ).2;
            let found = room_of_owner(world.store.monitored, inviter_id);
            fates.len() >= 2 && !fates[0].fails && !fates[1].fails && found is Some
                && world.platform.channels.contains_key(found->0.channel_id) ==> state is Finished
                && state->Finished_0 is Invited
        }),
        ({
            let (after, staged, state) = inviting(
                world,
                cache,
                InviteState::Start { inviter_id, guest_id },
                None,
                fates,
            );
            state matches InviteState::Finished(InviteOutcome::Invited { room }) ==> {
                &&& room_of_owner(world.store.monitored, inviter_id) matches Some(found)
                &&& found.channel_id == room
                &&& is_guest(after.platform, room, guest_id)
                &&& staged == stage_guest(cache, room, inviter_id, guest_id)
            }
        }),
        ({
            let (after, staged, state) = inviting(
                world,
                cache,
                InviteState::Start { inviter_id, guest_id },
                None,
                fates,
            );
            !(state is Finished && state->Finished_0 is Invited) ==> staged == cache
        }),
{
    reveal_with_fuel(inviting, 4);
    if fates.len() >= 2 {
        let rest1 = fates.drop_first();
        assert(rest1.first() == fates[1]);
    }
}

/// The two sweeps make the store and the platform agree.
///
/// After the two sweeps, run one after the other, both went through, every
/// monitored room is a voice channel with members, and every voice channel
/// with members under a template's category is monitored: a room that was
/// created but never recorded is recorded now.
pub proof fn law_reconciliation_converges(
    world: World,
    bot_id: i64,
    rooms: Seq<Fate>,
    categories: Seq<Fate>,
)
    requires
        went_through(
            reconciling(world, bot_id, rooms, categories).1,
            reconciling(world, bot_id, rooms, categories).2,
        ),
    ensures
        settled(reconciling(world, bot_id, rooms, categories).0),
        all_adopted(reconciling(world, bot_id, rooms, categories).0),
{
    let swept = sweeping(world, SweepStateView::Start, None, rooms).0;
    let after = reconciling(world, bot_id, rooms, categories).0;
    lemma_sweeping(world, rooms);
    lemma_category_sweeping(swept, bot_id, categories);
    let found = found_in(world);
    let plan = plan_of(categories_in(swept), bot_id);

    assert forall|i: int| 0 <= i < swept.store.monitored.len() implies occupied(
        swept.platform,
        (#[trigger] swept.store.monitored[i]).channel_id,
    ) by {
        let room = swept.store.monitored[i];
        assert(swept.store.monitored.contains(room));
        lemma_kept_is_occupied(world, room);
        if swept.platform.channels != world.platform.channels {
            let gone = world.platform.deletable(found.are_empty, rooms[2]);
            if gone.contains(room.channel_id) {
                lemma_deletable(world.platform, found.are_empty, rooms[2], room.channel_id);
                lemma_empty_is_not_occupied(world, room.channel_id);
            }
        }
    }
    lemma_rooms_with_absent(swept.store.monitored, plan.adopted);
    assert forall|i: int| 0 <= i < after.store.monitored.len() implies occupied(
        after.platform,
        (#[trigger] after.store.monitored[i]).channel_id,
    ) by {
        let room = after.store.monitored[i];
        if i < swept.store.monitored.len() {
            assert(room == swept.store.monitored[i]);
        } else {
            assert(plan.adopted.contains(room));
            lemma_adopted_is_occupied(swept, bot_id, room);
        }
        assert(occupied(swept.platform, room.channel_id));
        if after.platform.channels != swept.platform.channels {
            let gone = swept.platform.deletable(plan.doomed, categories[2]);
            if gone.contains(room.channel_id) {
                lemma_deletable(swept.platform, plan.doomed, categories[2], room.channel_id);
                lemma_doomed_is_empty(swept, bot_id, room.channel_id);
            }
        }
    }
    assert forall|category_id: i64, channel_id: i64|
        names_category(after.store.templates, category_id) && #[trigger] listed_under(
            after.platform,
            category_id,
            channel_id,
        ) && occupied(after.platform, channel_id) implies has_room(
        after.store.monitored,
        channel_id,
    ) by {
        lemma_templates_left(
            swept.store.templates,
            DeleteStrategyView::ManyByCategoryId(plan.outdated),
            category_id,
        );
        assert(names_category(swept.store.templates, category_id));
        assert(listed_under(swept.platform, category_id, channel_id));
        assert(occupied(swept.platform, channel_id));
        lemma_occupied_is_adopted(swept, bot_id, category_id, channel_id);
        let j = choose|j: int|
            0 <= j < plan.adopted.len() && (#[trigger] plan.adopted[j]).channel_id == channel_id;
        assert(has_room(after.store.monitored, plan.adopted[j].channel_id));
    }
}

/// The two sweeps run twice leave the monitored rows that running them once
/// leaves.
///
/// If the two sweeps, run one after the other, both go through, then
/// running them again with nothing happening in between leaves every
/// monitored row where it is and adds none, whatever fails the second
/// time.
pub proof fn law_reconciling_twice_is_reconciling_once(
    world: World,
    bot_id: i64,
    rooms: Seq<Fate>,
    categories: Seq<Fate>,
    rooms_again: Seq<Fate>,
    categories_again: Seq<Fate>,
)
    requires
        went_through(
            reconciling(world, bot_id, rooms, categories).1,
            reconciling(world, bot_id, rooms, categories).2,
        ),
    ensures
        reconciling(
            reconciling(world, bot_id, rooms, categories).0,
            bot_id,
            rooms_again,
            categories_again,
        ).0.store.monitored == reconciling(world, bot_id, rooms, categories).0.store.monitored,
{
    let once = reconciling(world, bot_id, rooms, categories).0;
    law_reconciliation_converges(world, bot_id, rooms, categories);
    lemma_settled_sweep(once, rooms_again);
    let swept = sweeping(once, SweepStateView::Start, None, rooms_again).0;
    assert(all_adopted(swept));
    lemma_adopted_sweep(swept, bot_id, categories_again);
}

/// A reconciliation run as one operation makes the store and the platform
/// agree.
///
/// After a run of the reconciliation in which both sweeps went through,
/// every monitored room is a voice channel with members, and every voice
/// channel with members under a template's category is monitored.
pub proof fn law_run_reconciliation_sweep_converges(world: World, bot_id: i64, fates: Seq<Fate>)
    requires
        reconciled(reconciliation(world, reconciliation_start(bot_id), None, fates).1),
    ensures
        settled(reconciliation(world, reconciliation_start(bot_id), None, fates).0),
        all_adopted(reconciliation(world, reconciliation_start(bot_id), None, fates).0),
{
    lemma_reconciliation_in_rooms(world, bot_id, SweepStateView::Start, None, fates);
    let left = fates_after_sweeping(world, SweepStateView::Start, None, fates);
    law_reconciliation_converges(world, bot_id, fates, left);
}

/// Running the reconciliation twice leaves the monitored rows that running
/// it once leaves.
///
/// If a run of the reconciliation ends with both sweeps through, then a
/// second run that follows it with nothing happening in between leaves
/// every monitored row where it is and adds none, whatever fails in the
/// second and however far it gets.
pub proof fn law_run_reconciliation_sweep_twice_is_once(
    world: World,
    bot_id: i64,
    fates: Seq<Fate>,
    fates_again: Seq<Fate>,
)
    requires
        reconciled(reconciliation(world, reconciliation_start(bot_id), None, fates).1),
    ensures
        reconciliation(
            reconciliation(world, reconciliation_start(bot_id), None, fates).0,
            reconciliation_start(bot_id),
            None,
            fates_again,
        ).0.store.monitored == reconciliation(
            world,
            reconciliation_start(bot_id),
            None,
            fates,
        ).0.store.monitored,
{
    let once = reconciliation(world, reconciliation_start(bot_id), None, fates).0;
    law_run_reconciliation_sweep_converges(world, bot_id, fates);
    lemma_reconciliation_in_rooms(once, bot_id, SweepStateView::Start, None, fates_again);
    lemma_settled_sweep(once, fates_again);
    let swept = sweeping(once, SweepStateView::Start, None, fates_again).0;
    let left = fates_after_sweeping(once, SweepStateView::Start, None, fates_again);
    assert(all_adopted(swept));
    lemma_adopted_sweep(swept, bot_id, left);
}

/// A run of the reconciliation goes through where the store does not fail
/// and the platform resolves: of its nine calls, the two deletions of
/// channels may fail.
pub proof fn law_run_reconciliation_sweep_goes_through(
    world: World,
    bot_id: i64,
    fates: Seq<Fate>,
)
    requires
        fates.len() >= 9,
        forall|i: int| 0 <= i < 9 && i != 2 && i != 6 ==> !(#[trigger] fates[i]).fails,
    ensures
        reconciled(reconciliation(world, reconciliation_start(bot_id), None, fates).1),
{
    lemma_reconciliation_in_rooms(world, bot_id, SweepStateView::Start, None, fates);
    let left = fates_after_sweeping(world, SweepStateView::Start, None, fates);
    assert(left == fates.skip(4)) by {
        reveal_with_fuel(fates_after_sweeping, 6);
        let r1 = fates.drop_first();
        let r2 = r1.drop_first();
        let r3 = r2.drop_first();
        assert(!fates[0].fails && !fates[1].fails && !fates[3].fails);
        assert(r1.first() == fates[1]);
        assert(r2.first() == fates[2]);
        assert(r3.first() == fates[3]);
        assert(r3.drop_first() =~= fates.skip(4));
    }
    assert(!fates[0].fails && !fates[1].fails && !fates[3].fails);
    assert(!fates[4].fails && !fates[5].fails && !fates[7].fails && !fates[8].fails);
    law_reconciliation_goes_through(world, bot_id, fates, left);
}

/// The two sweeps, run one after the other, go through where the store does
/// not fail and the platform resolves: the two deletions of channels are
/// made as well as may be, and may fail.
pub proof fn law_reconciliation_goes_through(
    world: World,
    bot_id: i64,
    rooms: Seq<Fate>,
    categories: Seq<Fate>,
)
    requires
        rooms.len() >= 4,
        categories.len() >= 5,
        !rooms[0].fails && !rooms[1].fails && !rooms[3].fails,
        !categories[0].fails && !categories[1].fails && !categories[3].fails
            && !categories[4].fails,
    ensures
        went_through(
            reconciling(world, bot_id, rooms, categories).1,
            reconciling(world, bot_id, rooms, categories).2,
        ),
{
    reveal_with_fuel(sweeping, 6);
    reveal_with_fuel(category_sweeping, 7);
    let r1 = rooms.drop_first();
    let r2 = r1.drop_first();
    let r3 = r2.drop_first();
    assert(r1.first() == rooms[1]);
    assert(r2.first() == rooms[2]);
    assert(r3.first() == rooms[3]);
    let c1 = categories.drop_first();
    let c2 = c1.drop_first();
    let c3 = c2.drop_first();
    let c4 = c3.drop_first();
    assert(c1.first() == categories[1]);
    assert(c2.first() == categories[2]);
    assert(c3.first() == categories[3]);
    assert(c4.first() == categories[4]);
}

/// Replaying a profile grants guest access to exactly the guests that were
/// staged when the room was saved.
///
/// Let a room with staged guests, no more than a list can hold, be saved,
/// in a store whose guest rows all belong to profiles, and let the run end
/// as `Saved`. Let the profile then be replayed on a room that the platform
/// has, with no call failing. Then replaying ends with a list of granted
/// guests that holds each guest staged before the save once and nobody
/// else, and each of them holds the guest's permissions on the room.
pub proof fn law_replay_grants_the_staged_guests(
    world: World,
    cache: Map<i64, StagedGuests>,
    room_id: i64,
    room_name: Seq<char>,
    category_id: Option<i64>,
    name: Option<Seq<char>>,
    start: SaveStateView,
    save_fates: Seq<Fate>,
    target: i64,
    owner_id: i64,
    load_fates: Seq<Fate>,
)
    requires
        guests_have_profiles(world.store),
        save_begins(cache, room_id, room_name, category_id, name, start),
        saving(world, start, None, save_fates).1 is Finished,
        saving(world, start, None, save_fates).1->Finished_0 is Saved,
        world.platform.channels.contains_key(target),
        cache[room_id].guests.len() <= usize::MAX,
        load_fates.len() > cache[room_id].guests.len(),
        forall|i: int| 0 <= i < load_fates.len() ==> !(#[trigger] load_fates[i]).fails,
    ensures
        ({
            let (saved, end) = saving(world, start, None, save_fates);
            let profile_id = end->Finished_0->profile_id;
            let (after, state) = loading(
                saved,
                LoadStateView::Start { room: target, owner_id, profile_id },
                None,
                load_fates,
            );
            &&& state matches LoadStateView::Finished(LoadOutcomeView::Loaded { granted })
            &&& granted.no_duplicates()
            &&& granted.to_set() == cache[room_id].guests
            &&& forall|guest_id: i64|
                cache[room_id].guests.contains(guest_id) ==> is_guest(
                    after.platform,
                    target,
                    guest_id,
                )
        }),
{
    reveal_with_fuel(saving, 4);
    let (saved, end) = saving(world, start, None, save_fates);
    let rest1 = save_fates.drop_first();
    assert(save_fates.len() >= 2);
    assert(rest1.first() == save_fates[1]);
    let guests = start->Start_guests;
    let profile_id = end->Finished_0->profile_id;
    assert(saved.store.guests == world.store.guests + guest_rows(profile_id, guests));
    assert(!has_profile(world.store.profiles, profile_id as int));
    assert forall|i: int| 0 <= i < world.store.guests.len() implies (
    #[trigger] world.store.guests[i]).savedroom_id != profile_id by {
        assert(has_profile(world.store.profiles, world.store.guests[i].savedroom_id as int));
    }
    lemma_guests_of_none(world.store.guests, profile_id);
    lemma_guests_of_rows(profile_id, guests);
    lemma_guests_of_add(world.store.guests, guest_rows(profile_id, guests), profile_id);
    assert(guests_of(saved.store.guests, profile_id) =~= guests);
    guests.unique_seq_to_set();
    assert(guests.len() == cache[room_id].guests.len());
    assert(guests.len() > 0) by {
        if guests.len() == 0 {
            assert(guests.to_set() =~= Set::<i64>::empty());
        }
    }

    reveal_with_fuel(loading, 3);
    let load_rest = load_fates.drop_first();
    assert(!load_fates[0].fails);
    assert(!load_fates[1].fails);
    assert(load_rest.first() == load_fates[1]);
    let (granting_world, reply) = saved.serve(
        guest_grant(target, guests[0]),
        load_rest.first(),
    );
    assert(saved.platform == world.platform);
    assert(reply == ResponseView::Done);
    let tail = load_rest.drop_first();
    assert forall|i: int| 0 <= i < tail.len() implies !(#[trigger] tail[i]).fails by {
        assert(tail[i] == load_fates[i + 2]);
    }
    lemma_loading_all(granting_world, target, owner_id, guests, 0, Seq::empty(), tail);
    assert(Seq::<i64>::empty() + guests.skip(0) =~= guests);
    let (after, state) = loading(
        saved,
        LoadStateView::Start { room: target, owner_id, profile_id },
        None,
        load_fates,
    );
    assert forall|guest_id: i64| cache[room_id].guests.contains(guest_id) implies is_guest(
        after.platform,
        target,
        guest_id,
    ) by {
        assert(guests.to_set().contains(guest_id));
        assert(guests.contains(guest_id));
        let j = choose|j: int| 0 <= j < guests.len() && guests[j] == guest_id;
        assert(is_guest(after.platform, target, guests[j]));
    }
}

/// Replaying a profile never grants anyone who was not saved with it.
///
/// Whatever the world and whatever fails: every guest that a run of
/// replaying lists as granted is a guest of the profile in the store.
pub proof fn law_replay_grants_only_saved_guests(
    world: World,
    room: i64,
    owner_id: i64,
    profile_id: i32,
    fates: Seq<Fate>,
    guest_id: i64,
)
    requires
        granted_by(
            loading(world, LoadStateView::Start { room, owner_id, profile_id }, None, fates).1,
        ).contains(guest_id),
    ensures
        guests_of(world.store.guests, profile_id).contains(guest_id),
{
    reveal_with_fuel(loading, 3);
    let guests = guests_of(world.store.guests, profile_id);
    if fates.len() >= 2 && !fates[0].fails && guests.len() > 0 {
        let rest = fates.drop_first();
        assert(rest.first() == fates[1]);
        let (served, reply) = world.serve(guest_grant(room, guests[0]), fates[1]);
        lemma_loading_any(
            served,
            room,
            owner_id,
            guests,
            0,
            Seq::empty(),
            Some(reply),
            rest.drop_first(),
            guest_id,
        );
    }
}

/// Granting the same access again changes nothing: the second call
/// succeeds, and the platform is as the first left it.
pub proof fn law_grant_is_idempotent(
    world: World,
    channel_id: i64,
    user_id: i64,
    allow: u64,
    deny: u64,
    first: Fate,
    second: Fate,
)
    requires
        !first.fails,
        !second.fails,
        world.platform.channels.contains_key(channel_id),
    ensures
        ({
            let request = RequestView::SetAccess { channel_id, user_id, allow, deny };
            let (once, reply) = world.serve(request, first);
            let (twice, reply_again) = once.serve(request, second);
            &&& reply == ResponseView::Done
            &&& reply_again == ResponseView::Done
            &&& twice == once
        }),
{
    let request = RequestView::SetAccess { channel_id, user_id, allow, deny };
    let (once, reply) = world.serve(request, first);
    let (twice, reply_again) = once.serve(request, second);
    let entries = once.platform.channels[channel_id].access;
    assert(twice.platform.channels[channel_id].access =~= entries);
    assert(twice.platform.channels =~= once.platform.channels);
}

/// Staging the same guest again changes nothing.
pub proof fn law_staging_is_idempotent(
    cache: Map<i64, StagedGuests>,
    channel: i64,
    owner_id: i64,
    other_owner: i64,
    guest_id: i64,
)
    ensures
        stage_guest(stage_guest(cache, channel, owner_id, guest_id), channel, other_owner, guest_id)
            == stage_guest(cache, channel, owner_id, guest_id),
{
    let once = stage_guest(cache, channel, owner_id, guest_id);
    let twice = stage_guest(once, channel, other_owner, guest_id);
    assert(twice[channel].guests =~= once[channel].guests);
    assert(twice =~= once);
}

/// The two writes of the sweep over the categories do not depend on their
/// order: removing the templates of outdated categories and recording the
/// rooms found leave the same store either way.
pub proof fn law_category_writes_commute(
    world: World,
    outdated: Seq<i64>,
    adopted: Seq<MonitoredAutoRoom>,
    first: Fate,
    second: Fate,
)
    ensures
        ({
            let prune = RequestView::DeleteTemplates(
                DeleteStrategyView::ManyByCategoryId(outdated),
            );
            let adopt = RequestView::InsertMonitoredIfAbsent(adopted);
            let pruned_first = world.serve(prune, first).0.serve(adopt, second).0;
            let adopted_first = world.serve(adopt, second).0.serve(prune, first).0;
            pruned_first == adopted_first
        }),
{
}

} // verus!
