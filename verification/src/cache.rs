//! The guest staging cache: who was invited into each live room.
//!
//! The cache lives in memory only. A record is made at the first guest grant
//! for a room, grows with every further grant, is read when the room is saved
//! as a profile, and is dropped when the room is torn down. The caller guards
//! one cache with one lock, taken for the length of one call.

use std::collections::{HashMap, HashSet};
use vstd::prelude::*;
use vstd::std_specs::hash::spec_hash_keys_iter;
use vstd::std_specs::iter::IteratorSpec;

verus! {

broadcast use {vstd::std_specs::hash::group_hash_axioms, vstd::group_vstd_default};

/// What is staged for one live room: its owner, and the guests invited since
/// it was created.
#[derive(Debug)]
pub struct SaveRoomCacheRecord {
    owner_id: i64,
    guests: HashSet<i64>,
}

/// A [`SaveRoomCacheRecord`] as mathematical values.
pub struct StagedGuests {
    pub owner_id: i64,
    pub guests: Set<i64>,
}

impl View for SaveRoomCacheRecord {
    type V = StagedGuests;

    closed spec fn view(&self) -> StagedGuests {
        StagedGuests { owner_id: self.owner_id, guests: self.guests@ }
    }
}

/// The record of a room owned by `owner_id` whose first guest, if any, is
/// `guest`.
pub open spec fn fresh_record(owner_id: i64, guest: Option<i64>) -> StagedGuests {
    StagedGuests {
        owner_id,
        guests: match guest {
            Some(g) => Set::empty().insert(g),
            None => Set::empty(),
        },
    }
}

impl SaveRoomCacheRecord {
    /// A record for a room of `owner_id`, with `guest` as its only guest, or
    /// with none.
    pub fn new(owner_id: i64, guest: Option<i64>) -> (record: SaveRoomCacheRecord)
        ensures
            record@ == fresh_record(owner_id, guest),
            record@.guests.finite(),
    {
        let mut record = SaveRoomCacheRecord { owner_id, guests: HashSet::new() };
        if let Some(guest_id) = guest {
            record.guests.insert(guest_id);
        }
        record
    }

    /// The owner of the room.
    pub fn owner_id(&self) -> (owner_id: i64)
        ensures
            owner_id == self@.owner_id,
    {
        self.owner_id
    }

    /// Adds a guest; one that is staged already stays staged once.
    pub fn add_guest(&mut self, guest_id: i64)
        ensures
            final(self)@ == (StagedGuests {
                owner_id: old(self)@.owner_id,
                guests: old(self)@.guests.insert(guest_id),
            }),
    {
        self.guests.insert(guest_id);
    }

    /// Whether `guest_id` is staged.
    pub fn has_guest(&self, guest_id: i64) -> (staged: bool)
        ensures
            staged == self@.guests.contains(guest_id),
    {
        self.guests.contains(&guest_id)
    }

    /// Whether no guest is staged.
    pub fn is_empty(&self) -> (empty: bool)
        ensures
            empty == self@.guests.is_empty(),
    {
        self.guests.is_empty()
    }

    /// The staged guests, each once, in no particular order.
    pub fn guests(&self) -> (list: Vec<i64>)
        ensures
            list@.no_duplicates(),
            list@.to_set() == self@.guests,
    {
        let mut list: Vec<i64> = Vec::new();
        for guest in it: self.guests.iter()
            invariant
                it.seq() == spec_hash_keys_iter(&self.guests).remaining(),
                list@.len() == it.index(),
                forall|i: int| 0 <= i < list@.len() ==> list@[i] == *it.seq()[i],
        {
            list.push(*guest);
        }
        assert(list@ =~= spec_hash_keys_iter(&self.guests).remaining().unref());
        proof {
            let refs = spec_hash_keys_iter(&self.guests).remaining();
            assert forall|i: int, j: int|
                0 <= i < list@.len() && 0 <= j < list@.len() && i != j implies list@[i]
                != list@[j] by {
                assert(refs[i] != refs[j]);
            }
        }
        list
    }
}

impl Clone for SaveRoomCacheRecord {
    fn clone(&self) -> (copy: Self)
        ensures
            copy@ == self@,
    {
        let list = self.guests();
        let mut guests: HashSet<i64> = HashSet::new();
        let mut i: usize = 0;
        while i < list.len()
            invariant
                i <= list.len(),
                forall|g: i64| guests@.contains(g) <==> list@.take(i as int).contains(g),
            decreases list.len() - i,
        {
            guests.insert(list[i]);
            proof {
                let shorter = list@.take(i as int);
                let longer = list@.take(i + 1);
                assert(longer =~= shorter.push(list@[i as int]));
                assert forall|g: i64| guests@.contains(g) <==> longer.contains(g) by {
                    if shorter.contains(g) {
                        let j = choose|j: int| 0 <= j < shorter.len() && shorter[j] == g;
                        assert(longer[j] == g);
                    }
                    if g == list@[i as int] {
                        assert(longer[i as int] == g);
                    }
                    if longer.contains(g) {
                        let j = choose|j: int| 0 <= j < longer.len() && longer[j] == g;
                        if j < i {
                            assert(shorter[j] == g);
                        }
                    }
                }
            }
            i += 1;
        }
        assert(list@.take(i as int) =~= list@);
        assert(guests@ =~= self.guests@);
        SaveRoomCacheRecord { owner_id: self.owner_id, guests }
    }
}

/// The staged guests of every live room that has any, by room id.
#[derive(Debug)]
pub struct SavedRoomCache {
    rooms: HashMap<i64, SaveRoomCacheRecord>,
}

impl View for SavedRoomCache {
    type V = Map<i64, StagedGuests>;

    closed spec fn view(&self) -> Map<i64, StagedGuests> {
        Map::new(|room: i64| self.rooms@.contains_key(room), |room: i64| self.rooms@[room]@)
    }
}

/// The cache after a guest grant on `channel` by `owner_id` for `guest_id`:
/// a room without a record gets one for `owner_id`; then the guest is added
/// to the room's record, whose owner stays who it was.
pub open spec fn stage_guest(
    cache: Map<i64, StagedGuests>,
    channel: i64,
    owner_id: i64,
    guest_id: i64,
) -> Map<i64, StagedGuests> {
    let before = if cache.contains_key(channel) {
        cache[channel]
    } else {
        fresh_record(owner_id, None)
    };
    cache.insert(
        channel,
        StagedGuests { owner_id: before.owner_id, guests: before.guests.insert(guest_id) },
    )
}

impl SavedRoomCache {
    /// A cache with no room in it.
    pub fn new() -> (cache: SavedRoomCache)
        ensures
            cache@ == Map::<i64, StagedGuests>::empty(),
    {
        let cache = SavedRoomCache { rooms: HashMap::new() };
        assert(cache@ =~= Map::<i64, StagedGuests>::empty());
        cache
    }

    /// The record of `channel_id`, if the room has one.
    pub fn get(&self, channel_id: i64) -> (record: Option<SaveRoomCacheRecord>)
        ensures
            (match record {
                Some(r) => self@.contains_key(channel_id) && r@ == self@[channel_id],
                None => !self@.contains_key(channel_id),
            }),
    {
        match self.rooms.get(&channel_id) {
            Some(record) => Some(record.clone()),
            None => None,
        }
    }

    /// Whether `channel_id` has a record.
    pub fn contains(&self, channel_id: i64) -> (found: bool)
        ensures
            found == self@.contains_key(channel_id),
    {
        self.rooms.contains_key(&channel_id)
    }
}

/// Records that `owner_id` granted `guest_id` guest access to `channel`.
pub fn add_guest_to_cache(cache: &mut SavedRoomCache, channel: i64, owner_id: i64, guest_id: i64)
    ensures
        final(cache)@ == stage_guest(old(cache)@, channel, owner_id, guest_id),
{
    let ghost before = cache@;
    let record = match cache.rooms.remove(&channel) {
        Some(mut record) => {
            record.add_guest(guest_id);
            record
        },
        None => SaveRoomCacheRecord::new(owner_id, Some(guest_id)),
    };
    cache.rooms.insert(channel, record);
    assert(cache@ =~= stage_guest(before, channel, owner_id, guest_id));
}

/// Drops what is staged for `channel_id`; a room without a record is left
/// as it is.
pub fn remove_guest_cache(cache: &mut SavedRoomCache, channel_id: i64)
    ensures
        final(cache)@ == old(cache)@.remove(channel_id),
{
    let ghost before = cache@;
    cache.rooms.remove(&channel_id);
    assert(cache@ =~= before.remove(channel_id));
}

} // verus!
