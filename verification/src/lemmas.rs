//! What the laws of [`crate::laws`] are proved from.

use crate::categories::{
    adopted_of, adopted_room, adopted_rooms, category_next, distinct, doomed_of, doomed_rooms,
    is_outdated, lemma_distinct, plan_of, CategoryStateView,
};
use crate::gateway::{
    CategoryRecordView, ChannelLookup, CleanUpDbRecord, ResponseView, RoomSnapshot,
};
use crate::profiles::{guest_grant, load_next, LoadOutcomeView, LoadStateView};
use crate::reconcile::{reconcile_next, ReconcileStateView};
use crate::records::{
    guest_rows, AutoRoomView, DeleteStrategyView, MonitoredAutoRoom, SavedRoomGuest,
};
use crate::runs::{
    all_adopted, categories_in, category_sweeping, fates_after_sweeping, found_in, granted_by,
    is_guest, listed_under, loading, names_category, occupied, reconciliation, second_sweep_in,
    settled, sweeping,
};
use crate::sweep::{
    class_of, ids_of_class, lemma_ids_of_class, lemma_ids_to_delete, sweep_next, RoomClass,
    SweepOutcome, SweepStateView,
};
use crate::world::{
    category_ids, guests_of, has_room, rooms_with_absent, rooms_without, templates_left, Fate,
    Platform, World,
};
use vstd::prelude::*;

verus! {

/// A row is left by a removal exactly if it was there and its id is not
/// among those removed.
pub proof fn lemma_rooms_without(monitored: Seq<MonitoredAutoRoom>, ids: Seq<i64>)
    ensures
        forall|room: MonitoredAutoRoom| #[trigger]
            rooms_without(monitored, ids).contains(room) <==> monitored.contains(room)
                && !ids.contains(room.channel_id),
    decreases monitored.len(),
{
    if monitored.len() > 0 {
        let shorter = monitored.drop_last();
        let last = monitored.last();
        lemma_rooms_without(shorter, ids);
        let left = rooms_without(monitored, ids);
        let left_before = rooms_without(shorter, ids);
        assert forall|room: MonitoredAutoRoom| #[trigger]
            left.contains(room) <==> monitored.contains(room) && !ids.contains(
                room.channel_id,
            ) by {
            if left.contains(room) {
                let k = choose|k: int| 0 <= k < left.len() && left[k] == room;
                if k < left_before.len() {
                    assert(left_before[k] == room);
                    assert(left_before.contains(room));
                    assert(shorter.contains(room));
                    let j = choose|j: int| 0 <= j < shorter.len() && shorter[j] == room;
                    assert(monitored[j] == room);
                } else {
                    assert(monitored[monitored.len() - 1] == room);
                }
            }
            if monitored.contains(room) && !ids.contains(room.channel_id) {
                let j = choose|j: int| 0 <= j < monitored.len() && monitored[j] == room;
                if j < shorter.len() {
                    assert(shorter[j] == room);
                    assert(shorter.contains(room));
                    assert(left_before.contains(room));
                    let k = choose|k: int| 0 <= k < left_before.len() && left_before[k] == room;
                    assert(left[k] == room);
                } else {
                    assert(left[left.len() - 1] == room);
                }
            }
        }
    }
}

/// What a run of the sweep over the monitored rooms can do to the world: it
/// touches nothing but the monitored rows and the channels; the rows are as
/// they were, or without those to delete; the channels are as they were, or
/// without the empty rooms that could be deleted. A run that ends as `Swept`
/// has removed the rows.
pub proof fn lemma_sweeping(world: World, fates: Seq<Fate>)
    ensures
        ({
            let (after, state) = sweeping(world, SweepStateView::Start, None, fates);
            let found = found_in(world);
            &&& after.store.templates == world.store.templates
            &&& after.store.profiles == world.store.profiles
            &&& after.store.guests == world.store.guests
            &&& after.platform.categories == world.platform.categories
            &&& after.store.monitored == world.store.monitored || after.store.monitored
                == rooms_without(world.store.monitored, found.ids_to_delete())
            &&& after.platform.channels == world.platform.channels || (fates.len() >= 3
                && after.platform.channels == world.platform.channels.remove_keys(
                world.platform.deletable(found.are_empty, fates[2]).to_set(),
            ))
            &&& state is Finished && state->Finished_0 is Swept ==> after.store.monitored
                == rooms_without(world.store.monitored, found.ids_to_delete())
        }),
{
    reveal_with_fuel(sweeping, 6);
    if fates.len() >= 4 {
        let rest1 = fates.drop_first();
        let rest2 = rest1.drop_first();
        let rest3 = rest2.drop_first();
        assert(rest1.first() == fates[1]);
        assert(rest2.first() == fates[2]);
        assert(rest3.first() == fates[3]);
    } else if fates.len() == 3 {
        let rest1 = fates.drop_first();
        let rest2 = rest1.drop_first();
        assert(rest1.first() == fates[1]);
        assert(rest2.first() == fates[2]);
    } else if fates.len() == 2 {
        let rest1 = fates.drop_first();
        assert(rest1.first() == fates[1]);
    }
}

/// What a run of the sweep over the categories can do to the world: the
/// monitored rows are as they were, or with the rooms found recorded where
/// absent; the templates are as they were, or without those of the outdated
/// categories; the channels are as they were, or without the channels
/// without members that could be deleted; the categories are as they were.
/// A run that ends as `Swept` has made both writes to the store.
pub proof fn lemma_category_sweeping(world: World, bot_id: i64, fates: Seq<Fate>)
    ensures
        ({
            let (after, state) = category_sweeping(
                world,
                CategoryStateView::Start { bot_id },
                None,
                fates,
            );
            let plan = plan_of(categories_in(world), bot_id);
            &&& after.platform.categories == world.platform.categories
            &&& after.store.monitored == world.store.monitored || after.store.monitored
                == rooms_with_absent(world.store.monitored, plan.adopted)
            &&& after.store.templates == world.store.templates || after.store.templates
                == templates_left(
                world.store.templates,
                DeleteStrategyView::ManyByCategoryId(plan.outdated),
            )
            &&& after.platform.channels == world.platform.channels || (fates.len() >= 3
                && after.platform.channels == world.platform.channels.remove_keys(
                world.platform.deletable(plan.doomed, fates[2]).to_set(),
            ))
            &&& state is Finished && state->Finished_0 is Swept ==> {
                &&& after.store.monitored == rooms_with_absent(
                    world.store.monitored,
                    plan.adopted,
                )
                &&& after.store.templates == templates_left(
                    world.store.templates,
                    DeleteStrategyView::ManyByCategoryId(plan.outdated),
                )
            }
        }),
{
    reveal_with_fuel(category_sweeping, 7);
    if fates.len() >= 5 {
        let rest1 = fates.drop_first();
        let rest2 = rest1.drop_first();
        let rest3 = rest2.drop_first();
        let rest4 = rest3.drop_first();
        assert(rest1.first() == fates[1]);
        assert(rest2.first() == fates[2]);
        assert(rest3.first() == fates[3]);
        assert(rest4.first() == fates[4]);
    } else if fates.len() == 4 {
        let rest1 = fates.drop_first();
        let rest2 = rest1.drop_first();
        let rest3 = rest2.drop_first();
        assert(rest1.first() == fates[1]);
        assert(rest2.first() == fates[2]);
        assert(rest3.first() == fates[3]);
    } else if fates.len() == 3 {
        let rest1 = fates.drop_first();
        let rest2 = rest1.drop_first();
        assert(rest1.first() == fates[1]);
        assert(rest2.first() == fates[2]);
    } else if fates.len() == 2 {
        let rest1 = fates.drop_first();
        assert(rest1.first() == fates[1]);
    }
}

/// A class that no room of `records` is of has no ids.
pub proof fn lemma_class_absent(records: Seq<CleanUpDbRecord>, class: RoomClass)
    requires
        forall|i: int| 0 <= i < records.len() ==> class_of(#[trigger] records[i]) != class,
    ensures
        ids_of_class(records, class) == Seq::<i64>::empty(),
    decreases records.len(),
{
    if records.len() > 0 {
        let shorter = records.drop_last();
        assert forall|i: int| 0 <= i < shorter.len() implies class_of(#[trigger] shorter[i])
            != class by {
            assert(shorter[i] == records[i]);
        }
        lemma_class_absent(shorter, class);
        assert(records.last() == records[records.len() - 1]);
    }
}

/// Removing rows by ids that no row has removes nothing.
pub proof fn lemma_rooms_without_none(monitored: Seq<MonitoredAutoRoom>, ids: Seq<i64>)
    requires
        forall|i: int|
            0 <= i < monitored.len() ==> !ids.contains((#[trigger] monitored[i]).channel_id),
    ensures
        rooms_without(monitored, ids) == monitored,
    decreases monitored.len(),
{
    if monitored.len() > 0 {
        let shorter = monitored.drop_last();
        assert forall|i: int| 0 <= i < shorter.len() implies !ids.contains(
            (#[trigger] shorter[i]).channel_id,
        ) by {
            assert(shorter[i] == monitored[i]);
        }
        lemma_rooms_without_none(shorter, ids);
        assert(monitored.last() == monitored[monitored.len() - 1]);
        assert(shorter.push(monitored.last()) =~= monitored);
    } else {
        assert(rooms_without(monitored, ids) =~= monitored);
    }
}

/// Recording rooms where absent keeps the rows that were there, in their
/// places; adds only rooms of those handed over; and leaves a row for the
/// id of each room handed over.
pub proof fn lemma_rooms_with_absent(
    monitored: Seq<MonitoredAutoRoom>,
    rooms: Seq<MonitoredAutoRoom>,
)
    ensures
        monitored.len() <= rooms_with_absent(monitored, rooms).len(),
        forall|i: int|
            0 <= i < monitored.len() ==> #[trigger] rooms_with_absent(monitored, rooms)[i]
                == monitored[i],
        forall|i: int|
            monitored.len() <= i < rooms_with_absent(monitored, rooms).len() ==> rooms.contains(
                #[trigger] rooms_with_absent(monitored, rooms)[i],
            ),
        forall|j: int|
            0 <= j < rooms.len() ==> has_room(
                rooms_with_absent(monitored, rooms),
                (#[trigger] rooms[j]).channel_id,
            ),
    decreases rooms.len(),
{
    if rooms.len() > 0 {
        let first = rooms.first();
        let rest = rooms.drop_first();
        let grown = if has_room(monitored, first.channel_id) {
            monitored
        } else {
            monitored.push(first)
        };
        let result = rooms_with_absent(monitored, rooms);
        assert(result == rooms_with_absent(grown, rest));
        lemma_rooms_with_absent(grown, rest);
        assert forall|i: int| 0 <= i < monitored.len() implies #[trigger] result[i]
            == monitored[i] by {
            assert(grown[i] == monitored[i]);
        }
        assert forall|i: int| monitored.len() <= i < result.len() implies rooms.contains(
            #[trigger] result[i],
        ) by {
            if i < grown.len() {
                assert(result[i] == grown[i]);
                assert(rooms[0] == first);
            } else {
                assert(rest.contains(result[i]));
                let j = choose|j: int| 0 <= j < rest.len() && rest[j] == result[i];
                assert(rooms[j + 1] == result[i]);
            }
        }
        assert forall|j: int| 0 <= j < rooms.len() implies has_room(
            result,
            (#[trigger] rooms[j]).channel_id,
        ) by {
            if j == 0 {
                assert(has_room(grown, first.channel_id)) by {
                    if !has_room(monitored, first.channel_id) {
                        assert(grown[monitored.len() as int].channel_id == first.channel_id);
                    }
                }
                let k = choose|k: int|
                    0 <= k < grown.len() && #[trigger] grown[k].channel_id == first.channel_id;
                assert(result[k] == grown[k]);
            } else {
                assert(rest[j - 1] == rooms[j]);
            }
        }
    }
}

/// Recording rooms whose ids are all recorded already changes nothing.
pub proof fn lemma_rooms_with_absent_none(
    monitored: Seq<MonitoredAutoRoom>,
    rooms: Seq<MonitoredAutoRoom>,
)
    requires
        forall|j: int|
            0 <= j < rooms.len() ==> has_room(monitored, (#[trigger] rooms[j]).channel_id),
    ensures
        rooms_with_absent(monitored, rooms) == monitored,
    decreases rooms.len(),
{
    if rooms.len() > 0 {
        let rest = rooms.drop_first();
        assert(has_room(monitored, rooms[0].channel_id));
        assert forall|j: int| 0 <= j < rest.len() implies has_room(
            monitored,
            (#[trigger] rest[j]).channel_id,
        ) by {
            assert(rest[j] == rooms[j + 1]);
        }
        lemma_rooms_with_absent_none(monitored, rest);
    }
}

/// A deletion of several channels deletes only channels it was asked to
/// delete.
pub proof fn lemma_deletable(platform: Platform, ids: Seq<i64>, fate: Fate, id: i64)
    requires
        platform.deletable(ids, fate).contains(id),
    ensures
        ids.contains(id),
    decreases ids.len(),
{
    if ids.len() > 0 {
        let shorter = ids.drop_last();
        let before = platform.deletable(shorter, fate);
        let all = platform.deletable(ids, fate);
        let k = choose|k: int| 0 <= k < all.len() && all[k] == id;
        if k < before.len() {
            assert(before[k] == id);
            lemma_deletable(platform, shorter, fate, id);
            let j = choose|j: int| 0 <= j < shorter.len() && shorter[j] == id;
            assert(ids[j] == id);
        } else {
            assert(ids[ids.len() - 1] == id);
        }
    }
}

/// The rooms that a platform reports among `listed` are the voice channels
/// it has under those ids.
pub proof fn lemma_rooms_among(platform: Platform, listed: Seq<i64>, child: RoomSnapshot)
    ensures
        platform.rooms_among(listed).contains(child) <==> listed.contains(child.id)
            && platform.lookup(child.id) == ChannelLookup::Room(child),
    decreases listed.len(),
{
    if listed.len() > 0 {
        let shorter = listed.drop_last();
        let last = listed.last();
        let before = platform.rooms_among(shorter);
        let all = platform.rooms_among(listed);
        lemma_rooms_among(platform, shorter, child);
        if all.contains(child) {
            let k = choose|k: int| 0 <= k < all.len() && all[k] == child;
            if k < before.len() {
                assert(before[k] == child);
                assert(before.contains(child));
                let j = choose|j: int| 0 <= j < shorter.len() && shorter[j] == child.id;
                assert(listed[j] == child.id);
            } else {
                assert(listed[listed.len() - 1] == child.id);
            }
        }
        if listed.contains(child.id) && platform.lookup(child.id) == ChannelLookup::Room(child) {
            let j = choose|j: int| 0 <= j < listed.len() && listed[j] == child.id;
            if j < shorter.len() {
                assert(shorter[j] == child.id);
                assert(before.contains(child));
                let k = choose|k: int| 0 <= k < before.len() && before[k] == child;
                assert(all[k] == child);
            } else {
                assert(all[all.len() - 1] == child);
            }
        }
    }
}

/// The rooms adopted from the channels of one category are those of the
/// channels with members.
pub proof fn lemma_adopted_of(children: Seq<RoomSnapshot>, bot_id: i64, room: MonitoredAutoRoom)
    ensures
        adopted_of(children, bot_id).contains(room) <==> exists|j: int|
            0 <= j < children.len() && (#[trigger] children[j]).members > 0 && adopted_room(
                children[j],
                bot_id,
            ) == room,
    decreases children.len(),
{
    if children.len() > 0 {
        let shorter = children.drop_last();
        let before = adopted_of(shorter, bot_id);
        let all = adopted_of(children, bot_id);
        lemma_adopted_of(shorter, bot_id, room);
        if all.contains(room) {
            let k = choose|k: int| 0 <= k < all.len() && all[k] == room;
            if k < before.len() {
                assert(before[k] == room);
                assert(before.contains(room));
                let j = choose|j: int|
                    0 <= j < shorter.len() && (#[trigger] shorter[j]).members > 0 && adopted_room(
                        shorter[j],
                        bot_id,
                    ) == room;
                assert(children[j] == shorter[j]);
            } else {
                assert(children[children.len() - 1].members > 0);
            }
        }
        if exists|j: int|
            0 <= j < children.len() && (#[trigger] children[j]).members > 0 && adopted_room(
                children[j],
                bot_id,
            ) == room {
            let j = choose|j: int|
                0 <= j < children.len() && (#[trigger] children[j]).members > 0 && adopted_room(
                    children[j],
                    bot_id,
                ) == room;
            if j < shorter.len() {
                assert(shorter[j] == children[j]);
                assert(before.contains(room));
                let k = choose|k: int| 0 <= k < before.len() && before[k] == room;
                assert(all[k] == room);
            } else {
                assert(all[all.len() - 1] == room);
            }
        }
    }
}

/// The channels doomed among those of one category are those without
/// members.
pub proof fn lemma_doomed_of(children: Seq<RoomSnapshot>, id: i64)
    requires
        doomed_of(children).contains(id),
    ensures
        exists|j: int|
            0 <= j < children.len() && (#[trigger] children[j]).members == 0 && children[j].id
                == id,
    decreases children.len(),
{
    if children.len() > 0 {
        let shorter = children.drop_last();
        let before = doomed_of(shorter);
        let all = doomed_of(children);
        let k = choose|k: int| 0 <= k < all.len() && all[k] == id;
        if k < before.len() {
            assert(before[k] == id);
            lemma_doomed_of(shorter, id);
            let j = choose|j: int|
                0 <= j < shorter.len() && (#[trigger] shorter[j]).members == 0 && shorter[j].id
                    == id;
            assert(children[j] == shorter[j]);
        } else {
            assert(children[children.len() - 1].members == 0);
        }
    }
}

/// A room adopted from `records` is adopted from the channels of one of its
/// categories that is not outdated, and the other way round.
pub proof fn lemma_adopted_rooms(
    records: Seq<CategoryRecordView>,
    bot_id: i64,
    room: MonitoredAutoRoom,
)
    ensures
        adopted_rooms(records, bot_id).contains(room) <==> exists|i: int|
            0 <= i < records.len() && !is_outdated(#[trigger] records[i]) && adopted_of(
                records[i].children,
                bot_id,
            ).contains(room),
    decreases records.len(),
{
    if records.len() > 0 {
        let shorter = records.drop_last();
        let last = records.last();
        let before = adopted_rooms(shorter, bot_id);
        let all = adopted_rooms(records, bot_id);
        let added = adopted_of(last.children, bot_id);
        lemma_adopted_rooms(shorter, bot_id, room);
        if all.contains(room) {
            let k = choose|k: int| 0 <= k < all.len() && all[k] == room;
            if k < before.len() {
                assert(before[k] == room);
                assert(before.contains(room));
                let i = choose|i: int|
                    0 <= i < shorter.len() && !is_outdated(#[trigger] shorter[i]) && adopted_of(
                        shorter[i].children,
                        bot_id,
                    ).contains(room);
                assert(records[i] == shorter[i]);
            } else {
                assert(added[k - before.len()] == room);
                assert(records[records.len() - 1] == last);
            }
        }
        if exists|i: int|
            0 <= i < records.len() && !is_outdated(#[trigger] records[i]) && adopted_of(
                records[i].children,
                bot_id,
            ).contains(room) {
            let i = choose|i: int|
                0 <= i < records.len() && !is_outdated(#[trigger] records[i]) && adopted_of(
                    records[i].children,
                    bot_id,
                ).contains(room);
            if i < shorter.len() {
                assert(shorter[i] == records[i]);
                assert(before.contains(room));
                let k = choose|k: int| 0 <= k < before.len() && before[k] == room;
                assert(all[k] == room);
            } else {
                let k = choose|k: int| 0 <= k < added.len() && added[k] == room;
                assert(all[before.len() + k] == room);
            }
        }
    }
}

/// A channel doomed in `records` is doomed among the channels of one of its
/// categories that is not outdated.
pub proof fn lemma_doomed_rooms(records: Seq<CategoryRecordView>, id: i64)
    requires
        doomed_rooms(records).contains(id),
    ensures
        exists|i: int|
            0 <= i < records.len() && !is_outdated(#[trigger] records[i]) && doomed_of(
                records[i].children,
            ).contains(id),
    decreases records.len(),
{
    if records.len() > 0 {
        let shorter = records.drop_last();
        let last = records.last();
        let before = doomed_rooms(shorter);
        let all = doomed_rooms(records);
        let k = choose|k: int| 0 <= k < all.len() && all[k] == id;
        if k < before.len() {
            assert(before[k] == id);
            lemma_doomed_rooms(shorter, id);
            let i = choose|i: int|
                0 <= i < shorter.len() && !is_outdated(#[trigger] shorter[i]) && doomed_of(
                    shorter[i].children,
                ).contains(id);
            assert(records[i] == shorter[i]);
        } else {
            assert(doomed_of(last.children)[k - before.len()] == id);
            assert(records[records.len() - 1] == last);
        }
    }
}

/// A room that the sweep over the categories records is a voice channel
/// with members, listed under a category that a template names.
pub proof fn lemma_adopted_is_occupied(world: World, bot_id: i64, room: MonitoredAutoRoom)
    requires
        plan_of(categories_in(world), bot_id).adopted.contains(room),
    ensures
        occupied(world.platform, room.channel_id),
        exists|category_id: i64|
            names_category(world.store.templates, category_id) && #[trigger] listed_under(
                world.platform,
                category_id,
                room.channel_id,
            ),
{
    let ids = distinct(category_ids(world.store.templates));
    let records = categories_in(world);
    lemma_adopted_rooms(records, bot_id, room);
    let i = choose|i: int|
        0 <= i < records.len() && !is_outdated(#[trigger] records[i]) && adopted_of(
            records[i].children,
            bot_id,
        ).contains(room);
    let category_id = ids[i];
    assert(records[i] == world.platform.category(category_id));
    lemma_adopted_of(records[i].children, bot_id, room);
    let children = records[i].children;
    let j = choose|j: int|
        0 <= j < children.len() && (#[trigger] children[j]).members > 0 && adopted_room(
            children[j],
            bot_id,
        ) == room;
    let child = children[j];
    assert(children.contains(child));
    lemma_rooms_among(world.platform, world.platform.categories[category_id], child);
    lemma_distinct(category_ids(world.store.templates));
    assert(ids.contains(category_id));
    assert(category_ids(world.store.templates).contains(category_id));
    let t = choose|t: int|
        0 <= t < category_ids(world.store.templates).len() && category_ids(
            world.store.templates,
        )[t] == category_id;
    assert(world.store.templates[t].category_id == category_id);
    assert(names_category(world.store.templates, category_id));
    assert(listed_under(world.platform, category_id, room.channel_id));
}

/// Every voice channel with members that is listed under a category that a
/// template names is recorded by the sweep over the categories.
pub proof fn lemma_occupied_is_adopted(
    world: World,
    bot_id: i64,
    category_id: i64,
    channel_id: i64,
)
    requires
        names_category(world.store.templates, category_id),
        listed_under(world.platform, category_id, channel_id),
        occupied(world.platform, channel_id),
    ensures
        exists|j: int|
            0 <= j < plan_of(categories_in(world), bot_id).adopted.len() && (#[trigger] plan_of(
                categories_in(world),
                bot_id,
            ).adopted[j]).channel_id == channel_id,
{
    let all_ids = category_ids(world.store.templates);
    let ids = distinct(all_ids);
    let records = categories_in(world);
    let t = choose|t: int|
        0 <= t < world.store.templates.len() && #[trigger] world.store.templates[t].category_id
            == category_id;
    assert(all_ids[t] == category_id);
    assert(all_ids.contains(category_id));
    lemma_distinct(all_ids);
    assert(ids.contains(category_id));
    let i = choose|i: int| 0 <= i < ids.len() && ids[i] == category_id;
    assert(records[i] == world.platform.category(category_id));
    let child = world.platform.snapshot(channel_id);
    lemma_rooms_among(world.platform, world.platform.categories[category_id], child);
    let children = records[i].children;
    assert(children.contains(child));
    let c = choose|c: int| 0 <= c < children.len() && children[c] == child;
    let room = adopted_room(child, bot_id);
    lemma_adopted_of(children, bot_id, room);
    assert(children[c].members > 0 && adopted_room(children[c], bot_id) == room);
    assert(adopted_of(children, bot_id).contains(room));
    lemma_adopted_rooms(records, bot_id, room);
    let adopted = plan_of(records, bot_id).adopted;
    assert(adopted.contains(room));
    let j = choose|j: int| 0 <= j < adopted.len() && adopted[j] == room;
    assert(adopted[j].channel_id == channel_id);
}

/// A channel that the sweep over the categories deletes has no members.
pub proof fn lemma_doomed_is_empty(world: World, bot_id: i64, id: i64)
    requires
        plan_of(categories_in(world), bot_id).doomed.contains(id),
    ensures
        !occupied(world.platform, id),
{
    let ids = distinct(category_ids(world.store.templates));
    let records = categories_in(world);
    lemma_doomed_rooms(records, id);
    let i = choose|i: int|
        0 <= i < records.len() && !is_outdated(#[trigger] records[i]) && doomed_of(
            records[i].children,
        ).contains(id);
    assert(records[i] == world.platform.category(ids[i]));
    let children = records[i].children;
    lemma_doomed_of(children, id);
    let j = choose|j: int|
        0 <= j < children.len() && (#[trigger] children[j]).members == 0 && children[j].id == id;
    assert(children.contains(children[j]));
    lemma_rooms_among(world.platform, world.platform.categories[ids[i]], children[j]);
}

/// A room that the sweep over the monitored rooms deletes has no members.
pub proof fn lemma_empty_is_not_occupied(world: World, id: i64)
    requires
        found_in(world).are_empty.contains(id),
    ensures
        !occupied(world.platform, id),
{
    let records = world.platform.lookups(world.store.monitored);
    lemma_ids_of_class(records, RoomClass::Empty, id);
    let i = choose|i: int|
        0 <= i < records.len() && records[i].autoroom.channel_id == id && class_of(
            #[trigger] records[i],
        ) == RoomClass::Empty;
    assert(records[i].channel == world.platform.lookup(id));
}

/// A row that the sweep over the monitored rooms leaves is the row of a
/// voice channel with members.
pub proof fn lemma_kept_is_occupied(world: World, room: MonitoredAutoRoom)
    requires
        rooms_without(world.store.monitored, found_in(world).ids_to_delete()).contains(room),
    ensures
        world.store.monitored.contains(room),
        occupied(world.platform, room.channel_id),
{
    let monitored = world.store.monitored;
    let records = world.platform.lookups(monitored);
    lemma_rooms_without(monitored, found_in(world).ids_to_delete());
    assert(monitored.contains(room));
    let j = choose|j: int| 0 <= j < monitored.len() && monitored[j] == room;
    lemma_ids_to_delete(records, room.channel_id);
    assert(records[j].autoroom == room);
    assert(records[j].channel == world.platform.lookup(room.channel_id));
    assert(class_of(records[j]) == RoomClass::HasMembers);
}

/// A template that a removal leaves was there before.
pub proof fn lemma_templates_left(
    templates: Seq<AutoRoomView>,
    strategy: DeleteStrategyView,
    category_id: i64,
)
    requires
        names_category(templates_left(templates, strategy), category_id),
    ensures
        names_category(templates, category_id),
    decreases templates.len(),
{
    if templates.len() > 0 {
        let shorter = templates.drop_last();
        let before = templates_left(shorter, strategy);
        let left = templates_left(templates, strategy);
        let k = choose|k: int| 0 <= k < left.len() && #[trigger] left[k].category_id == category_id;
        if k < before.len() {
            assert(before[k].category_id == category_id);
            lemma_templates_left(shorter, strategy, category_id);
            let i = choose|i: int|
                0 <= i < shorter.len() && #[trigger] shorter[i].category_id == category_id;
            assert(templates[i].category_id == category_id);
        } else {
            assert(templates[templates.len() - 1].category_id == category_id);
        }
    }
}

/// In a world where every monitored room is a voice channel with members,
/// the sweep over the monitored rooms changes nothing that a sweep reads,
/// whatever fails.
pub proof fn lemma_settled_sweep(world: World, fates: Seq<Fate>)
    requires
        settled(world),
    ensures
        ({
            let after = sweeping(world, SweepStateView::Start, None, fates).0;
            &&& after.store.monitored == world.store.monitored
            &&& after.store.templates == world.store.templates
            &&& after.platform == world.platform
        }),
{
    let monitored = world.store.monitored;
    let records = world.platform.lookups(monitored);
    assert forall|i: int| 0 <= i < records.len() implies class_of(#[trigger] records[i])
        == RoomClass::HasMembers by {
        assert(occupied(world.platform, monitored[i].channel_id));
    }
    lemma_class_absent(records, RoomClass::NotAGuildChannel);
    lemma_class_absent(records, RoomClass::NotMatchId);
    lemma_class_absent(records, RoomClass::Empty);
    let found = found_in(world);
    assert(found.ids_to_delete() =~= Seq::<i64>::empty());
    lemma_rooms_without_none(monitored, found.ids_to_delete());
    lemma_sweeping(world, fates);
    let after = sweeping(world, SweepStateView::Start, None, fates).0;
    if fates.len() >= 3 {
        let gone = world.platform.deletable(found.are_empty, fates[2]);
        assert(gone =~= Seq::<i64>::empty());
        assert(world.platform.channels.remove_keys(gone.to_set()) =~= world.platform.channels);
    }
    assert(after.platform.channels == world.platform.channels);
}

/// In a world where every voice channel with members under a template's
/// category is monitored, the sweep over the categories leaves the
/// monitored rows as they are, whatever fails.
pub proof fn lemma_adopted_sweep(world: World, bot_id: i64, fates: Seq<Fate>)
    requires
        all_adopted(world),
    ensures
        category_sweeping(world, CategoryStateView::Start { bot_id }, None, fates).0.store.monitored
            == world.store.monitored,
{
    let adopted = plan_of(categories_in(world), bot_id).adopted;
    assert forall|j: int| 0 <= j < adopted.len() implies has_room(
        world.store.monitored,
        (#[trigger] adopted[j]).channel_id,
    ) by {
        assert(adopted.contains(adopted[j]));
        lemma_adopted_is_occupied(world, bot_id, adopted[j]);
    }
    lemma_rooms_with_absent_none(world.store.monitored, adopted);
    lemma_category_sweeping(world, bot_id, fates);
}

/// The guests of a profile in two runs of rows are those in the first, then
/// those in the second.
pub proof fn lemma_guests_of_add(first: Seq<SavedRoomGuest>, second: Seq<SavedRoomGuest>, id: i32)
    ensures
        guests_of(first + second, id) == guests_of(first, id) + guests_of(second, id),
    decreases second.len(),
{
    if second.len() == 0 {
        assert(first + second =~= first);
        assert(guests_of(first, id) + guests_of(second, id) =~= guests_of(first, id));
    } else {
        let shorter = second.drop_last();
        lemma_guests_of_add(first, shorter, id);
        assert((first + second).drop_last() =~= first + shorter);
        assert((first + second).last() == second.last());
        if second.last().savedroom_id == id {
            assert(guests_of(first + second, id) =~= guests_of(first, id) + guests_of(
                second,
                id,
            ));
        }
    }
}

/// The rows written for the guests of a profile hold exactly those guests,
/// in order.
pub proof fn lemma_guests_of_rows(id: i32, guests: Seq<i64>)
    ensures
        guests_of(guest_rows(id, guests), id) == guests,
    decreases guests.len(),
{
    if guests.len() == 0 {
        assert(guests_of(guest_rows(id, guests), id) =~= guests);
    } else {
        let shorter = guests.drop_last();
        lemma_guests_of_rows(id, shorter);
        assert(guest_rows(id, guests).drop_last() =~= guest_rows(id, shorter));
        assert(guest_rows(id, guests).last().guest_id == guests.last());
        assert(shorter.push(guests.last()) =~= guests);
    }
}

/// A profile that no row names has no guests.
pub proof fn lemma_guests_of_none(rows: Seq<SavedRoomGuest>, id: i32)
    requires
        forall|i: int| 0 <= i < rows.len() ==> (#[trigger] rows[i]).savedroom_id != id,
    ensures
        guests_of(rows, id) == Seq::<i64>::empty(),
    decreases rows.len(),
{
    if rows.len() > 0 {
        let shorter = rows.drop_last();
        assert forall|i: int| 0 <= i < shorter.len() implies (#[trigger] shorter[i]).savedroom_id
            != id by {
            assert(shorter[i] == rows[i]);
        }
        lemma_guests_of_none(shorter, id);
        assert(rows.last() == rows[rows.len() - 1]);
    }
}

/// Replaying from a grant that was made, with no grant failing from there
/// on: every guest from `next` on ends up granted, after those granted
/// before, and holds the guest's permissions on the room.
pub proof fn lemma_loading_all(
    world: World,
    room: i64,
    owner_id: i64,
    guests: Seq<i64>,
    next: usize,
    granted: Seq<i64>,
    fates: Seq<Fate>,
)
    requires
        next < guests.len(),
        guests.len() <= usize::MAX,
        fates.len() >= guests.len() - next - 1,
        forall|i: int| 0 <= i < fates.len() ==> !(#[trigger] fates[i]).fails,
        is_guest(world.platform, room, guests[next as int]),
    ensures
        ({
            let (after, state) = loading(
                world,
                LoadStateView::Granting { room, owner_id, guests, next, granted },
                Some(ResponseView::Done),
                fates,
            );
            &&& state == LoadStateView::Finished(
                LoadOutcomeView::Loaded { granted: granted + guests.skip(next as int) },
            )
            &&& forall|j: int|
                next <= j < guests.len() ==> is_guest(after.platform, room, guests[j])
            &&& forall|user_id: i64|
                is_guest(world.platform, room, user_id) ==> is_guest(after.platform, room, user_id)
            &&& after.store == world.store
        }),
    decreases guests.len() - next,
{
    reveal_with_fuel(loading, 2);
    let state = LoadStateView::Granting { room, owner_id, guests, next, granted };
    let now = granted.push(guests[next as int]);
    if next + 1 < guests.len() {
        let following = (next + 1) as usize;
        let (served, reply) = world.serve(
            guest_grant(room, guests[following as int]),
            fates.first(),
        );
        assert(!fates[0].fails);
        assert(reply == ResponseView::Done);
        let rest = fates.drop_first();
        assert forall|i: int| 0 <= i < rest.len() implies !(#[trigger] rest[i]).fails by {
            assert(rest[i] == fates[i + 1]);
        }
        lemma_loading_all(served, room, owner_id, guests, following, now, rest);
        assert(now + guests.skip(following as int) =~= granted + guests.skip(next as int));
        let after = loading(served, LoadStateView::Granting {
            room,
            owner_id,
            guests,
            next: following,
            granted: now,
        }, Some(ResponseView::Done), rest).0;
        assert forall|user_id: i64| is_guest(world.platform, room, user_id) implies is_guest(
            after.platform,
            room,
            user_id,
        ) by {
            assert(is_guest(served.platform, room, user_id));
        }
        assert(is_guest(served.platform, room, guests[next as int]));
    } else {
        assert(now =~= granted + guests.skip(next as int));
    }
}

/// Replaying grants no one but guests of the profile, whatever fails: from
/// a state in which the guests `guests` are being granted, every guest that
/// is granted at the end was granted before or is one of `guests`.
pub proof fn lemma_loading_any(
    world: World,
    room: i64,
    owner_id: i64,
    guests: Seq<i64>,
    next: usize,
    granted: Seq<i64>,
    answer: Option<ResponseView>,
    fates: Seq<Fate>,
    guest_id: i64,
)
    requires
        granted_by(
            loading(
                world,
                LoadStateView::Granting { room, owner_id, guests, next, granted },
                answer,
                fates,
            ).1,
        ).contains(guest_id),
    ensures
        granted.contains(guest_id) || guests.contains(guest_id),
    decreases fates.len(),
{
    reveal_with_fuel(loading, 2);
    let state = LoadStateView::Granting { room, owner_id, guests, next, granted };
    let step = load_next(state, answer);
    if next < guests.len() {
        let now = if answer == Some(ResponseView::Done) {
            granted.push(guests[next as int])
        } else {
            granted
        };
        let following = (next + 1) as usize;
        if now.contains(guest_id) {
            let k = choose|k: int| 0 <= k < now.len() && now[k] == guest_id;
            if k < granted.len() {
                assert(granted[k] == guest_id);
            } else {
                assert(guests[next as int] == guest_id);
            }
        } else if following < guests.len() && fates.len() > 0 {
            let (served, reply) = world.serve(step.request->0, fates.first());
            lemma_loading_any(
                served,
                room,
                owner_id,
                guests,
                following,
                now,
                Some(reply),
                fates.drop_first(),
                guest_id,
            );
        }
    }
}

/// A reconciliation that is in its second sweep goes as that sweep goes.
pub proof fn lemma_reconciliation_in_categories(
    world: World,
    rooms: SweepOutcome,
    sweep: CategoryStateView,
    answer: Option<ResponseView>,
    fates: Seq<Fate>,
)
    ensures
        reconciliation(
            world,
            ReconcileStateView::Categories { rooms, second: sweep },
            answer,
            fates,
        ) == (
            category_sweeping(world, sweep, answer, fates).0,
            second_sweep_in(rooms, category_sweeping(world, sweep, answer, fates).1),
        ),
    decreases fates.len(),
{
    let (next, request) = category_next(sweep, answer);
    if !(next is Finished) && request is Some && fates.len() > 0 {
        let (served, reply) = world.serve(request->0, fates.first());
        lemma_reconciliation_in_categories(served, rooms, next, Some(reply), fates.drop_first());
    }
}

/// A reconciliation that is in its first sweep goes as that sweep goes, and
/// then, with the fates that are left, as the second sweep goes from its
/// start.
pub proof fn lemma_reconciliation_in_rooms(
    world: World,
    bot_id: i64,
    sweep: SweepStateView,
    answer: Option<ResponseView>,
    fates: Seq<Fate>,
)
    ensures
        ({
            let (swept, state) = sweeping(world, sweep, answer, fates);
            let left = fates_after_sweeping(world, sweep, answer, fates);
            let (after, end) = reconciliation(
                world,
                ReconcileStateView::Rooms { bot_id, first: sweep },
                answer,
                fates,
            );
            match state {
                SweepStateView::Finished(rooms) => {
                    let second = category_sweeping(
                        swept,
                        CategoryStateView::Start { bot_id },
                        None,
                        left,
                    );
                    after == second.0 && end == second_sweep_in(rooms, second.1)
                },
                _ => after == swept && end == (ReconcileStateView::Rooms { bot_id, first: state }),
            }
        }),
    decreases fates.len(),
{
    let (next, request) = sweep_next(sweep, answer);
    match next {
        SweepStateView::Finished(rooms) => {
            let start = CategoryStateView::Start { bot_id };
            lemma_reconciliation_in_categories(world, rooms, start, None, fates);
            assert(reconcile_next(ReconcileStateView::Rooms { bot_id, first: sweep }, answer)
                == reconcile_next(ReconcileStateView::Categories { rooms, second: start }, None));
        },
        _ => {
            if request is Some && fates.len() > 0 {
                let (served, reply) = world.serve(request->0, fates.first());
                lemma_reconciliation_in_rooms(
                    served,
                    bot_id,
                    next,
                    Some(reply),
                    fates.drop_first(),
                );
            }
        },
    }
}

} // verus!
