//! The sweep over the monitored rooms: what the store believes is held
//! against what the platform has.
//!
//! Every monitored room is resolved on the platform. A room that does not
//! resolve to a voice channel, or resolves to one with another id, is
//! outdated: its row goes. A room with members stays. A room without members
//! is deleted on the platform, and its row goes too.

use crate::gateway::{
    request_view, response_view, ChannelLookup, CleanUpDbRecord, ErrorKind, Request, RequestView,
    Response, ResponseView,
};
use crate::records::MonitoredAutoRoom;
use vstd::prelude::*;

verus! {

/// What the sweep makes of one monitored room.
#[derive(Clone, Copy, Debug, PartialEq, Eq, Structural)]
pub enum RoomClass {
    /// The lookup failed, or found something that is no voice channel of a
    /// guild.
    NotAGuildChannel,
    /// The lookup found a voice channel that reports another id.
    NotMatchId,
    /// The room is there and has members.
    HasMembers,
    /// The room is there and nobody is in it.
    Empty,
}

/// The class of a monitored room, by what the platform found under its id.
pub open spec fn class_of(record: CleanUpDbRecord) -> RoomClass {
    match record.channel {
        ChannelLookup::Room(room) => if room.id != record.autoroom.channel_id {
            RoomClass::NotMatchId
        } else if room.members > 0 {
            RoomClass::HasMembers
        } else {
            RoomClass::Empty
        },
        _ => RoomClass::NotAGuildChannel,
    }
}

/// The class of a monitored room.
pub fn classify(record: &CleanUpDbRecord) -> (class: RoomClass)
    ensures
        class == class_of(*record),
{
    match record.channel {
        ChannelLookup::Room(room) => {
            if room.id != record.autoroom.channel_id {
                RoomClass::NotMatchId
            } else if room.members > 0 {
                RoomClass::HasMembers
            } else {
                RoomClass::Empty
            }
        },
        _ => RoomClass::NotAGuildChannel,
    }
}

/// The ids of the rooms of `records` that are of class `class`, in the order
/// of `records`.
pub open spec fn ids_of_class(records: Seq<CleanUpDbRecord>, class: RoomClass) -> Seq<i64>
    decreases records.len(),
{
    if records.len() == 0 {
        Seq::empty()
    } else {
        let before = ids_of_class(records.drop_last(), class);
        if class_of(records.last()) == class {
            before.push(records.last().autoroom.channel_id)
        } else {
            before
        }
    }
}

/// The rooms of a sweep by class, but for those that stay.
#[derive(Debug, Default)]
pub struct CleanUpDbResult {
    pub not_a_guild_channel: Vec<i64>,
    pub not_match_ids: Vec<i64>,
    pub are_empty: Vec<i64>,
}

/// A [`CleanUpDbResult`] as mathematical values.
pub struct CleanUpDbResultView {
    pub not_a_guild_channel: Seq<i64>,
    pub not_match_ids: Seq<i64>,
    pub are_empty: Seq<i64>,
}

impl CleanUpDbResultView {
    /// The ids of the rooms whose rows are outdated: first those that are no
    /// voice channel, then those with another id.
    pub open spec fn outdated(self) -> Seq<i64> {
        self.not_a_guild_channel + self.not_match_ids
    }

    /// The ids of the rows to remove: the outdated ones, then the empty
    /// rooms.
    pub open spec fn ids_to_delete(self) -> Seq<i64> {
        self.outdated() + self.are_empty
    }
}

impl View for CleanUpDbResult {
    type V = CleanUpDbResultView;

    open spec fn view(&self) -> CleanUpDbResultView {
        CleanUpDbResultView {
            not_a_guild_channel: self.not_a_guild_channel@,
            not_match_ids: self.not_match_ids@,
            are_empty: self.are_empty@,
        }
    }
}

/// What a sweep finds in `records`.
pub open spec fn sorted_out(records: Seq<CleanUpDbRecord>) -> CleanUpDbResultView {
    CleanUpDbResultView {
        not_a_guild_channel: ids_of_class(records, RoomClass::NotAGuildChannel),
        not_match_ids: ids_of_class(records, RoomClass::NotMatchId),
        are_empty: ids_of_class(records, RoomClass::Empty),
    }
}

/// `first` followed by `second`.
pub fn concat_ids(first: &Vec<i64>, second: &Vec<i64>) -> (both: Vec<i64>)
    ensures
        both@ == first@ + second@,
{
    let mut both: Vec<i64> = Vec::new();
    let mut i: usize = 0;
    while i < first.len()
        invariant
            i <= first.len(),
            both@ == first@.take(i as int),
        decreases first.len() - i,
    {
        both.push(first[i]);
        assert(both@ =~= first@.take(i + 1));
        i += 1;
    }
    assert(first@.take(i as int) =~= first@);
    let mut j: usize = 0;
    while j < second.len()
        invariant
            j <= second.len(),
            both@ == first@ + second@.take(j as int),
        decreases second.len() - j,
    {
        both.push(second[j]);
        assert(both@ =~= first@ + second@.take(j + 1));
        j += 1;
    }
    assert(second@.take(j as int) =~= second@);
    both
}

impl CleanUpDbResult {
    /// Sorts the rooms of `records` by class.
    pub fn of(records: &Vec<CleanUpDbRecord>) -> (result: CleanUpDbResult)
        ensures
            result@ == sorted_out(records@),
    {
        let mut result = CleanUpDbResult {
            not_a_guild_channel: Vec::new(),
            not_match_ids: Vec::new(),
            are_empty: Vec::new(),
        };
        let mut i: usize = 0;
        while i < records.len()
            invariant
                i <= records.len(),
                result@ == sorted_out(records@.take(i as int)),
            decreases records.len() - i,
        {
            let record = &records[i];
            proof {
                assert(records@.take(i + 1).drop_last() =~= records@.take(i as int));
            }
            match classify(record) {
                RoomClass::NotAGuildChannel => {
                    result.not_a_guild_channel.push(record.autoroom.channel_id);
                },
                RoomClass::NotMatchId => {
                    result.not_match_ids.push(record.autoroom.channel_id);
                },
                RoomClass::Empty => {
                    result.are_empty.push(record.autoroom.channel_id);
                },
                RoomClass::HasMembers => {},
            }
            i += 1;
        }
        assert(records@.take(i as int) =~= records@);
        result
    }

    /// The ids of the rooms whose rows are outdated.
    pub fn outdated(&self) -> (ids: Vec<i64>)
        ensures
            ids@ == self@.outdated(),
    {
        concat_ids(&self.not_a_guild_channel, &self.not_match_ids)
    }

    /// The ids of the rows to remove.
    pub fn ids_to_delete(&self) -> (ids: Vec<i64>)
        ensures
            ids@ == self@.ids_to_delete(),
    {
        let outdated = self.outdated();
        concat_ids(&outdated, &self.are_empty)
    }
}

/// A row is to be removed exactly if its room is of a class other than
/// `HasMembers`: the list of ids to delete holds the id of every such room
/// of `records`, and of no other.
pub proof fn lemma_ids_to_delete(records: Seq<CleanUpDbRecord>, id: i64)
    ensures
        sorted_out(records).ids_to_delete().contains(id) <==> exists|i: int|
            0 <= i < records.len() && records[i].autoroom.channel_id == id && class_of(
                #[trigger] records[i],
            ) != RoomClass::HasMembers,
{
    let result = sorted_out(records);
    lemma_ids_of_class(records, RoomClass::NotAGuildChannel, id);
    lemma_ids_of_class(records, RoomClass::NotMatchId, id);
    lemma_ids_of_class(records, RoomClass::Empty, id);
    let listed = result.ids_to_delete();
    if listed.contains(id) {
        let k = choose|k: int| 0 <= k < listed.len() && listed[k] == id;
        if k < result.not_a_guild_channel.len() {
            assert(result.not_a_guild_channel[k] == id);
        } else if k < result.outdated().len() {
            assert(result.not_match_ids[k - result.not_a_guild_channel.len()] == id);
        } else {
            assert(result.are_empty[k - result.outdated().len()] == id);
        }
    }
    if exists|i: int|
        0 <= i < records.len() && records[i].autoroom.channel_id == id && class_of(
            #[trigger] records[i],
        ) != RoomClass::HasMembers {
        let i = choose|i: int|
            0 <= i < records.len() && records[i].autoroom.channel_id == id && class_of(
                #[trigger] records[i],
            ) != RoomClass::HasMembers;
        let class = class_of(records[i]);
        if class == RoomClass::NotAGuildChannel {
            let k = choose|k: int|
                0 <= k < result.not_a_guild_channel.len() && result.not_a_guild_channel[k] == id;
            assert(listed[k] == id);
        } else if class == RoomClass::NotMatchId {
            let k = choose|k: int|
                0 <= k < result.not_match_ids.len() && result.not_match_ids[k] == id;
            assert(listed[result.not_a_guild_channel.len() + k] == id);
        } else {
            let k = choose|k: int| 0 <= k < result.are_empty.len() && result.are_empty[k] == id;
            assert(listed[result.outdated().len() + k] == id);
        }
    }
}

/// The ids of a class are those of the rooms of that class.
pub proof fn lemma_ids_of_class(records: Seq<CleanUpDbRecord>, class: RoomClass, id: i64)
    ensures
        ids_of_class(records, class).contains(id) <==> exists|i: int|
            0 <= i < records.len() && records[i].autoroom.channel_id == id && class_of(
                #[trigger] records[i],
            ) == class,
    decreases records.len(),
{
    if records.len() > 0 {
        let before = records.drop_last();
        let last = records.last();
        lemma_ids_of_class(before, class, id);
        let ids = ids_of_class(records, class);
        let ids_before = ids_of_class(before, class);
        if ids.contains(id) {
            let k = choose|k: int| 0 <= k < ids.len() && ids[k] == id;
            if k < ids_before.len() {
                assert(ids_before[k] == id);
                let i = choose|i: int|
                    0 <= i < before.len() && before[i].autoroom.channel_id == id && class_of(
                        #[trigger] before[i],
                    ) == class;
                assert(records[i] == before[i]);
            } else {
                assert(records[records.len() - 1] == last);
            }
        }
        if exists|i: int|
            0 <= i < records.len() && records[i].autoroom.channel_id == id && class_of(
                #[trigger] records[i],
            ) == class {
            let i = choose|i: int|
                0 <= i < records.len() && records[i].autoroom.channel_id == id && class_of(
                    #[trigger] records[i],
                ) == class;
            if i < before.len() {
                assert(before[i] == records[i]);
                let k = choose|k: int| 0 <= k < ids_before.len() && ids_before[k] == id;
                assert(ids[k] == id);
            } else {
                assert(ids[ids.len() - 1] == id);
            }
        }
    }
}

/// Every room of a sweep is of exactly one class: the four classes hold as
/// many rooms together as were swept.
pub proof fn law_classes_partition_the_rooms(records: Seq<CleanUpDbRecord>)
    ensures
        ids_of_class(records, RoomClass::NotAGuildChannel).len() + ids_of_class(
            records,
            RoomClass::NotMatchId,
        ).len() + ids_of_class(records, RoomClass::Empty).len() + ids_of_class(
            records,
            RoomClass::HasMembers,
        ).len() == records.len(),
    decreases records.len(),
{
    if records.len() > 0 {
        law_classes_partition_the_rooms(records.drop_last());
    }
}

/// What a sweep counted: the monitored rooms it began with, those among them
/// whose rows were outdated, and those that were empty and were deleted.
#[derive(Clone, Copy, Debug, PartialEq, Eq, Structural)]
pub struct SweepSummary {
    pub monitored: usize,
    pub outdated: usize,
    pub empty_deleted: usize,
}

/// How a sweep ended.
#[derive(Clone, Copy, Debug, PartialEq, Eq, Structural)]
pub enum SweepOutcome {
    /// The sweep went through.
    Swept(SweepSummary),
    /// The sweep was given up.
    Failed(ErrorKind),
}

/// Where a sweep over the monitored rooms stands.
#[derive(Debug)]
pub enum SweepState {
    /// Nothing has been asked yet.
    Start,
    /// The store was asked for the monitored rooms.
    Listing,
    /// The platform was asked to resolve the `monitored` rooms.
    Resolving { monitored: usize },
    /// The platform was asked to delete the empty rooms. The rows in
    /// `ids_to_delete` are to go next.
    Deleting { ids_to_delete: Vec<i64>, summary: SweepSummary },
    /// The store was asked to remove the rows.
    Forgetting { summary: SweepSummary },
    /// The sweep is over.
    Finished(SweepOutcome),
}

/// A [`SweepState`] as mathematical values.
pub enum SweepStateView {
    Start,
    Listing,
    Resolving { monitored: usize },
    Deleting { ids_to_delete: Seq<i64>, summary: SweepSummary },
    Forgetting { summary: SweepSummary },
    Finished(SweepOutcome),
}

impl View for SweepState {
    type V = SweepStateView;

    open spec fn view(&self) -> SweepStateView {
        match self {
            SweepState::Start => SweepStateView::Start,
            SweepState::Listing => SweepStateView::Listing,
            SweepState::Resolving { monitored } => SweepStateView::Resolving {
                monitored: *monitored,
            },
            SweepState::Deleting { ids_to_delete, summary } => SweepStateView::Deleting {
                ids_to_delete: ids_to_delete@,
                summary: *summary,
            },
            SweepState::Forgetting { summary } => SweepStateView::Forgetting { summary: *summary },
            SweepState::Finished(outcome) => SweepStateView::Finished(*outcome),
        }
    }
}

/// What a sweep that began with `monitored` rooms counts in `records`.
pub open spec fn summary_of(monitored: usize, records: Seq<CleanUpDbRecord>) -> SweepSummary {
    SweepSummary {
        monitored,
        outdated: sorted_out(records).outdated().len() as usize,
        empty_deleted: sorted_out(records).are_empty.len() as usize,
    }
}

/// The step that a sweep over the monitored rooms takes in `state` on
/// `answer`: the state it goes to, and what it asks next, if anything.
pub open spec fn sweep_next(state: SweepStateView, answer: Option<ResponseView>) -> (
    SweepStateView,
    Option<RequestView>,
) {
    match state {
        SweepStateView::Start => (SweepStateView::Listing, Some(RequestView::AllMonitored)),
        SweepStateView::Listing => match answer {
            Some(ResponseView::AllMonitored(rooms)) => (
                SweepStateView::Resolving { monitored: rooms.len() as usize },
                Some(RequestView::ResolveRooms(rooms)),
            ),
            Some(ResponseView::Failed) => (
                SweepStateView::Finished(SweepOutcome::Failed(ErrorKind::StoreError)),
                None,
            ),
            _ => (
                SweepStateView::Finished(SweepOutcome::Failed(ErrorKind::InvariantViolation)),
                None,
            ),
        },
        SweepStateView::Resolving { monitored } => match answer {
            Some(ResponseView::Rooms(records)) => (
                SweepStateView::Deleting {
                    ids_to_delete: sorted_out(records).ids_to_delete(),
                    summary: summary_of(monitored, records),
                },
                Some(RequestView::DeleteChannels(sorted_out(records).are_empty)),
            ),
            Some(ResponseView::Failed) => (
                SweepStateView::Finished(SweepOutcome::Failed(ErrorKind::PlatformError)),
                None,
            ),
            _ => (
                SweepStateView::Finished(SweepOutcome::Failed(ErrorKind::InvariantViolation)),
                None,
            ),
        },
        SweepStateView::Deleting { ids_to_delete, summary } => (
            SweepStateView::Forgetting { summary },
            Some(RequestView::RemoveManyMonitored(ids_to_delete)),
        ),
        SweepStateView::Forgetting { summary } => match answer {
            Some(ResponseView::Done) => (
                SweepStateView::Finished(SweepOutcome::Swept(summary)),
                None,
            ),
            _ => (SweepStateView::Finished(SweepOutcome::Failed(ErrorKind::StoreError)), None),
        },
        SweepStateView::Finished(outcome) => (SweepStateView::Finished(outcome), None),
    }
}

impl SweepState {
    /// The state in which a sweep begins.
    pub fn start() -> (state: SweepState)
        ensures
            state@ == SweepStateView::Start,
    {
        SweepState::Start
    }

    /// How the sweep ended, once it has.
    pub fn outcome(&self) -> (outcome: Option<SweepOutcome>)
        ensures
            outcome == (match self@ {
                SweepStateView::Finished(o) => Some(o),
                _ => None,
            }),
    {
        match self {
            SweepState::Finished(o) => Some(*o),
            _ => None,
        }
    }
}

/// One step of the sweep over the monitored rooms. The caller begins with
/// [`SweepState::start`] and no answer, makes the request that a step
/// returns, and hands the answer to the next step, until a step returns no
/// request. A room that cannot be deleted on the platform does not stop the
/// sweep: its row goes with the others.
pub fn cleanup_db_monitored_rooms(state: SweepState, answer: Option<Response>) -> (next: (
    SweepState,
    Option<Request>,
))
    ensures
        (next.0@, request_view(next.1)) == sweep_next(state@, response_view(answer)),
{
    match state {
        SweepState::Start => (SweepState::Listing, Some(MonitoredAutoRoom::get_all())),
        SweepState::Listing => match answer {
            Some(Response::AllMonitored(rooms)) => (
                SweepState::Resolving { monitored: rooms.len() },
                Some(Request::ResolveRooms(rooms)),
            ),
            Some(Response::Failed) => (
                SweepState::Finished(SweepOutcome::Failed(ErrorKind::StoreError)),
                None,
            ),
            _ => (SweepState::Finished(SweepOutcome::Failed(ErrorKind::InvariantViolation)), None),
        },
        SweepState::Resolving { monitored } => match answer {
            Some(Response::Rooms(records)) => {
                let result = CleanUpDbResult::of(&records);
                let ids_to_delete = result.ids_to_delete();
                let summary = SweepSummary {
                    monitored,
                    outdated: result.outdated().len(),
                    empty_deleted: result.are_empty.len(),
                };
                (
                    SweepState::Deleting { ids_to_delete, summary },
                    Some(Request::DeleteChannels(result.are_empty)),
                )
            },
            Some(Response::Failed) => (
                SweepState::Finished(SweepOutcome::Failed(ErrorKind::PlatformError)),
                None,
            ),
            _ => (SweepState::Finished(SweepOutcome::Failed(ErrorKind::InvariantViolation)), None),
        },
        SweepState::Deleting { ids_to_delete, summary } => (
            SweepState::Forgetting { summary },
            Some(MonitoredAutoRoom::remove_many(ids_to_delete)),
        ),
        SweepState::Forgetting { summary } => match answer {
            Some(Response::Done) => (SweepState::Finished(SweepOutcome::Swept(summary)), None),
            _ => (SweepState::Finished(SweepOutcome::Failed(ErrorKind::StoreError)), None),
        },
        SweepState::Finished(outcome) => (SweepState::Finished(outcome), None),
    }
}

} // verus!
