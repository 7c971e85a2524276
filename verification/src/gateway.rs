//! What the controller asks of its two collaborators, and what they answer.
//!
//! The platform creates, deletes and resolves channels, sets access-control
//! entries and moves members. The store keeps the tables of
//! [`crate::records`]. The controller never calls either: each of its
//! operations hands out a [`Request`], and takes the [`Response`] to it in
//! its next step.

use crate::records::{
    AutoRoom, AutoRoomDeleteStrategy, AutoRoomView, DeleteStrategyView, MonitoredAutoRoom,
    SavedRoom, SavedRoomDTO, SavedRoomDTOView, SavedRoomGuest,
};
use vstd::prelude::*;

verus! {

/// The platform's form of an id that a record holds. Records hold ids as
/// signed numbers; the platform names things by positive numbers only, so
/// an id that is not positive names nothing there.
pub open spec fn platform_id_of(id: i64) -> Option<u64> {
    if id > 0 {
        Some(id as u64)
    } else {
        None
    }
}

/// The record's form of an id of the platform. An id too large for a record
/// has none, and neither has 0, which the platform gives to nothing.
pub open spec fn record_id_of(id: u64) -> Option<i64> {
    if 0 < id <= i64::MAX {
        Some(id as i64)
    } else {
        None
    }
}

/// The platform's form of an id that a record holds.
pub fn platform_id(id: i64) -> (platform: Option<u64>)
    ensures
        platform == platform_id_of(id),
{
    if id > 0 {
        Some(id as u64)
    } else {
        None
    }
}

/// The record's form of an id of the platform.
pub fn record_id(id: u64) -> (record: Option<i64>)
    ensures
        record == record_id_of(id),
{
    if 0 < id && id <= i64::MAX as u64 {
        Some(id as i64)
    } else {
        None
    }
}

/// The two forms of an id lead back to each other.
pub proof fn law_id_round_trip(record: i64, platform: u64)
    ensures
        platform_id_of(record) == Some(platform) <==> record_id_of(platform) == Some(record),
{
}

/// The number under which the platform sends the kind "voice channel of a
/// guild".
pub const KIND_VOICE: u8 = 2;

/// The number under which the platform sends the kind "stage channel of a
/// guild".
pub const KIND_STAGE: u8 = 13;

/// Whether a channel of the kind numbered `kind` can hold a room: voice
/// channels and stage channels can.
pub fn is_voice_capable(kind: u8) -> (capable: bool)
    ensures
        capable == (kind == KIND_VOICE || kind == KIND_STAGE),
{
    kind == KIND_VOICE || kind == KIND_STAGE
}

/// How many members of a channel can be resolved, where `listed` is the
/// length of the platform's list of them, if the platform gave one. A list
/// that cannot be had resolves nobody.
pub fn resolvable_members(listed: Option<usize>) -> (members: u64)
    ensures
        members == (match listed {
            Some(n) => n as u64,
            None => 0,
        }),
{
    match listed {
        Some(n) => n as u64,
        None => 0,
    }
}

/// The status with which the platform refuses to delete what it does not
/// have.
pub const STATUS_NOT_FOUND: u16 = 404;

/// The answer to the deletion of a channel, where `refused` is the status
/// with which the platform refused it, if it did, and `None` inside stands
/// for a failure without a status. A channel that was gone already is
/// `Gone`, which counts as deleted.
pub fn deletion_answer(refused: Option<Option<u16>>) -> (answer: Response)
    ensures
        answer@ == (match refused {
            None => ResponseView::Done,
            Some(Some(status)) if status == STATUS_NOT_FOUND => ResponseView::Gone,
            Some(_) => ResponseView::Failed,
        }),
{
    match refused {
        None => Response::Done,
        Some(Some(status)) => {
            if status == STATUS_NOT_FOUND {
                Response::Gone
            } else {
                Response::Failed
            }
        },
        Some(None) => Response::Failed,
    }
}

/// Why an operation ended without doing what it was asked.
#[derive(Clone, Copy, Debug, PartialEq, Eq, Structural)]
pub enum ErrorKind {
    /// A template, room, category or profile is not there.
    NotFound,
    /// A call to the platform failed.
    PlatformError,
    /// A call to the store failed.
    StoreError,
    /// An answer did not fit the request it was given to.
    InvariantViolation,
}

/// A voice channel as the platform reports it: its id, the user recorded as
/// its owner if any, and how many members are in it.
#[derive(Clone, Copy, Debug, PartialEq, Eq, Structural)]
pub struct RoomSnapshot {
    pub id: i64,
    pub owner_id: Option<i64>,
    pub members: u64,
}

/// What the platform found under a channel id.
#[derive(Clone, Copy, Debug, PartialEq, Eq, Structural)]
pub enum ChannelLookup {
    /// The lookup failed: there is no such channel.
    Missing,
    /// Something is there, but it is no voice channel of a guild.
    NotVoice,
    /// A voice channel of a guild.
    Room(RoomSnapshot),
}

/// A monitored room together with what the platform found under its id.
#[derive(Clone, Copy, Debug, PartialEq, Eq, Structural)]
pub struct CleanUpDbRecord {
    pub channel: ChannelLookup,
    pub autoroom: MonitoredAutoRoom,
}

/// What the platform found under a category id: the id of what it resolved
/// to, if anything, and the voice channels placed under it.
#[derive(Debug)]
pub struct CategoryRecord {
    pub requested: i64,
    pub resolved: Option<i64>,
    pub children: Vec<RoomSnapshot>,
}

/// A [`CategoryRecord`] as mathematical values.
pub struct CategoryRecordView {
    pub requested: i64,
    pub resolved: Option<i64>,
    pub children: Seq<RoomSnapshot>,
}

impl View for CategoryRecord {
    type V = CategoryRecordView;

    open spec fn view(&self) -> CategoryRecordView {
        CategoryRecordView {
            requested: self.requested,
            resolved: self.resolved,
            children: self.children@,
        }
    }
}

/// The views of a list of category records, in order.
pub open spec fn category_views(records: Seq<CategoryRecord>) -> Seq<CategoryRecordView> {
    Seq::new(records.len(), |i: int| records[i]@)
}

/// A call for the caller to make on the controller's behalf.
#[derive(Debug)]
pub enum Request {
    /// Store: the template whose origin channel is `channel_id`.
    FindTemplate { channel_id: i64 },
    /// Store: a template that places its rooms under `category_id`.
    FindTemplateByCategory { category_id: i64 },
    /// Store: the placement category of every template.
    AllCategoryIds,
    /// Store: remove the templates that the strategy selects, and with them
    /// the profiles saved under those templates.
    DeleteTemplates(AutoRoomDeleteStrategy),
    /// Store: whether a monitored room with this id is recorded.
    MonitoredExists { channel_id: i64 },
    /// Store: a monitored room that belongs to `owner_id`.
    FindMonitoredByOwner { owner_id: i64 },
    /// Store: every monitored room.
    AllMonitored,
    /// Store: record a monitored room.
    InsertMonitored(MonitoredAutoRoom),
    /// Store: record each of these rooms unless its id is recorded already.
    InsertMonitoredIfAbsent(Vec<MonitoredAutoRoom>),
    /// Store: remove the monitored room with this id, if there is one.
    RemoveMonitored { channel_id: i64 },
    /// Store: remove the monitored rooms with these ids.
    RemoveManyMonitored(Vec<i64>),
    /// Store: save a profile and its guests, both or neither.
    InsertProfile { profile: SavedRoomDTO, guests: Vec<i64> },
    /// Store: the guests of a saved profile.
    ProfileGuests { profile_id: i32 },
    /// Platform: create a voice channel under a category.
    CreateVoiceChannel { guild_id: i64, category_id: i64, name: String, bitrate: u32 },
    /// Platform: delete a channel.
    DeleteChannel { channel_id: i64 },
    /// Platform: delete each of these channels; one that cannot be deleted
    /// does not keep the others.
    DeleteChannels(Vec<i64>),
    /// Platform: set the access-control entry of `user_id` on `channel_id`.
    SetAccess { channel_id: i64, user_id: i64, allow: u64, deny: u64 },
    /// Platform: move a member of the guild into a channel.
    MoveMember { guild_id: i64, user_id: i64, channel_id: i64 },
    /// Platform: resolve a channel id.
    ResolveChannel { channel_id: i64 },
    /// Platform: resolve the channel of each of these rooms, all at once.
    ResolveRooms(Vec<MonitoredAutoRoom>),
    /// Platform: resolve each of these category ids, all at once.
    ResolveCategories(Vec<i64>),
}

/// A [`Request`] as mathematical values.
pub enum RequestView {
    FindTemplate { channel_id: i64 },
    FindTemplateByCategory { category_id: i64 },
    AllCategoryIds,
    DeleteTemplates(DeleteStrategyView),
    MonitoredExists { channel_id: i64 },
    FindMonitoredByOwner { owner_id: i64 },
    AllMonitored,
    InsertMonitored(MonitoredAutoRoom),
    InsertMonitoredIfAbsent(Seq<MonitoredAutoRoom>),
    RemoveMonitored { channel_id: i64 },
    RemoveManyMonitored(Seq<i64>),
    InsertProfile { profile: SavedRoomDTOView, guests: Seq<i64> },
    ProfileGuests { profile_id: i32 },
    CreateVoiceChannel { guild_id: i64, category_id: i64, name: Seq<char>, bitrate: u32 },
    DeleteChannel { channel_id: i64 },
    DeleteChannels(Seq<i64>),
    SetAccess { channel_id: i64, user_id: i64, allow: u64, deny: u64 },
    MoveMember { guild_id: i64, user_id: i64, channel_id: i64 },
    ResolveChannel { channel_id: i64 },
    ResolveRooms(Seq<MonitoredAutoRoom>),
    ResolveCategories(Seq<i64>),
}

impl View for Request {
    type V = RequestView;

    open spec fn view(&self) -> RequestView {
        match self {
            Request::FindTemplate { channel_id } => RequestView::FindTemplate {
                channel_id: *channel_id,
            },
            Request::FindTemplateByCategory { category_id } => RequestView::FindTemplateByCategory {
                category_id: *category_id,
            },
            Request::AllCategoryIds => RequestView::AllCategoryIds,
            Request::DeleteTemplates(strategy) => RequestView::DeleteTemplates(strategy@),
            Request::MonitoredExists { channel_id } => RequestView::MonitoredExists {
                channel_id: *channel_id,
            },
            Request::FindMonitoredByOwner { owner_id } => RequestView::FindMonitoredByOwner {
                owner_id: *owner_id,
            },
            Request::AllMonitored => RequestView::AllMonitored,
            Request::InsertMonitored(room) => RequestView::InsertMonitored(*room),
            Request::InsertMonitoredIfAbsent(rooms) => RequestView::InsertMonitoredIfAbsent(rooms@),
            Request::RemoveMonitored { channel_id } => RequestView::RemoveMonitored {
                channel_id: *channel_id,
            },
            Request::RemoveManyMonitored(ids) => RequestView::RemoveManyMonitored(ids@),
            Request::InsertProfile { profile, guests } => RequestView::InsertProfile {
                profile: profile@,
                guests: guests@,
            },
            Request::ProfileGuests { profile_id } => RequestView::ProfileGuests {
                profile_id: *profile_id,
            },
            Request::CreateVoiceChannel {
                guild_id,
                category_id,
                name,
                bitrate,
            } => RequestView::CreateVoiceChannel {
                guild_id: *guild_id,
                category_id: *category_id,
                name: name@,
                bitrate: *bitrate,
            },
            Request::DeleteChannel { channel_id } => RequestView::DeleteChannel {
                channel_id: *channel_id,
            },
            Request::DeleteChannels(ids) => RequestView::DeleteChannels(ids@),
            Request::SetAccess { channel_id, user_id, allow, deny } => RequestView::SetAccess {
                channel_id: *channel_id,
                user_id: *user_id,
                allow: *allow,
                deny: *deny,
            },
            Request::MoveMember { guild_id, user_id, channel_id } => RequestView::MoveMember {
                guild_id: *guild_id,
                user_id: *user_id,
                channel_id: *channel_id,
            },
            Request::ResolveChannel { channel_id } => RequestView::ResolveChannel {
                channel_id: *channel_id,
            },
            Request::ResolveRooms(rooms) => RequestView::ResolveRooms(rooms@),
            Request::ResolveCategories(ids) => RequestView::ResolveCategories(ids@),
        }
    }
}

/// The answer to a [`Request`].
#[derive(Debug)]
pub enum Response {
    /// The call failed.
    Failed,
    /// The call was made and has nothing to report.
    Done,
    /// What was to be deleted was gone already.
    Gone,
    /// To `FindTemplate` and `FindTemplateByCategory`.
    Template(Option<AutoRoom>),
    /// To `AllCategoryIds`.
    CategoryIds(Vec<i64>),
    /// To `MonitoredExists`.
    Exists(bool),
    /// To `FindMonitoredByOwner`.
    Monitored(Option<MonitoredAutoRoom>),
    /// To `AllMonitored`.
    AllMonitored(Vec<MonitoredAutoRoom>),
    /// To `InsertProfile`: the id of the new profile.
    ProfileId(i32),
    /// To `ProfileGuests`.
    Guests(Vec<i64>),
    /// To `CreateVoiceChannel`: the id of the new channel.
    Created { channel_id: i64 },
    /// To `DeleteChannels`: the ids of those that are deleted now.
    Deleted(Vec<i64>),
    /// To `ResolveChannel`.
    Channel(ChannelLookup),
    /// To `ResolveRooms`: one record per room, in any order.
    Rooms(Vec<CleanUpDbRecord>),
    /// To `ResolveCategories`: one record per id, in any order.
    Categories(Vec<CategoryRecord>),
}

/// A [`Response`] as mathematical values.
pub enum ResponseView {
    Failed,
    Done,
    Gone,
    Template(Option<AutoRoomView>),
    CategoryIds(Seq<i64>),
    Exists(bool),
    Monitored(Option<MonitoredAutoRoom>),
    AllMonitored(Seq<MonitoredAutoRoom>),
    ProfileId(i32),
    Guests(Seq<i64>),
    Created { channel_id: i64 },
    Deleted(Seq<i64>),
    Channel(ChannelLookup),
    Rooms(Seq<CleanUpDbRecord>),
    Categories(Seq<CategoryRecordView>),
}

impl View for Response {
    type V = ResponseView;

    open spec fn view(&self) -> ResponseView {
        match self {
            Response::Failed => ResponseView::Failed,
            Response::Done => ResponseView::Done,
            Response::Gone => ResponseView::Gone,
            Response::Template(template) => ResponseView::Template(
                match template {
                    Some(t) => Some(t@),
                    None => None,
                },
            ),
            Response::CategoryIds(ids) => ResponseView::CategoryIds(ids@),
            Response::Exists(exists) => ResponseView::Exists(*exists),
            Response::Monitored(room) => ResponseView::Monitored(*room),
            Response::AllMonitored(rooms) => ResponseView::AllMonitored(rooms@),
            Response::ProfileId(id) => ResponseView::ProfileId(*id),
            Response::Guests(guests) => ResponseView::Guests(guests@),
            Response::Created { channel_id } => ResponseView::Created { channel_id: *channel_id },
            Response::Deleted(ids) => ResponseView::Deleted(ids@),
            Response::Channel(lookup) => ResponseView::Channel(*lookup),
            Response::Rooms(records) => ResponseView::Rooms(records@),
            Response::Categories(records) => ResponseView::Categories(category_views(records@)),
        }
    }
}

/// The view of a request that may be absent.
pub open spec fn request_view(request: Option<Request>) -> Option<RequestView> {
    match request {
        Some(r) => Some(r@),
        None => None,
    }
}

/// The view of an answer that may be absent.
pub open spec fn response_view(response: Option<Response>) -> Option<ResponseView> {
    match response {
        Some(r) => Some(r@),
        None => None,
    }
}

impl AutoRoom {
    /// The request for the template whose origin channel is `channel_id`.
    pub fn get_by_channel_id(channel_id: i64) -> (request: Request)
        ensures
            request@ == (RequestView::FindTemplate { channel_id }),
    {
        Request::FindTemplate { channel_id }
    }

    /// The request for a template that places its rooms under
    /// `category_id`.
    pub fn get_by_category_id(category_id: i64) -> (request: Request)
        ensures
            request@ == (RequestView::FindTemplateByCategory { category_id }),
    {
        Request::FindTemplateByCategory { category_id }
    }

    /// The request to remove the templates that `strategy` selects.
    pub fn delete(strategy: AutoRoomDeleteStrategy) -> (request: Request)
        ensures
            request@ == RequestView::DeleteTemplates(strategy@),
    {
        Request::DeleteTemplates(strategy)
    }

    /// The request for the placement category of every template.
    pub fn get_all_category_ids() -> (request: Request)
        ensures
            request@ == RequestView::AllCategoryIds,
    {
        Request::AllCategoryIds
    }
}

impl MonitoredAutoRoom {
    /// The request that asks whether `channel_id` is a monitored room.
    pub fn is_monitored(channel_id: i64) -> (request: Request)
        ensures
            request@ == (RequestView::MonitoredExists { channel_id }),
    {
        Request::MonitoredExists { channel_id }
    }

    /// The request to remove the row of `channel_id`.
    pub fn remove(channel_id: i64) -> (request: Request)
        ensures
            request@ == (RequestView::RemoveMonitored { channel_id }),
    {
        Request::RemoveMonitored { channel_id }
    }

    /// The request to record `channel_id` as a monitored room of `owner_id`.
    pub fn new(channel_id: i64, owner_id: i64) -> (request: Request)
        ensures
            request@ == RequestView::InsertMonitored(MonitoredAutoRoom { channel_id, owner_id }),
    {
        Request::InsertMonitored(MonitoredAutoRoom { channel_id, owner_id })
    }

    /// The request for a monitored room that belongs to `owner_id`.
    pub fn get_by_owner_id(owner_id: i64) -> (request: Request)
        ensures
            request@ == (RequestView::FindMonitoredByOwner { owner_id }),
    {
        Request::FindMonitoredByOwner { owner_id }
    }

    /// The request for every monitored room.
    pub fn get_all() -> (request: Request)
        ensures
            request@ == RequestView::AllMonitored,
    {
        Request::AllMonitored
    }

    /// The request to remove the rows of the rooms `ids`.
    pub fn remove_many(ids: Vec<i64>) -> (request: Request)
        ensures
            request@ == RequestView::RemoveManyMonitored(ids@),
    {
        Request::RemoveManyMonitored(ids)
    }
}

impl SavedRoom {
    /// The request to save `savedroom` with the guests `guests`, both or
    /// neither.
    pub fn insert(savedroom: SavedRoomDTO, guests: Vec<i64>) -> (request: Request)
        ensures
            request@ == (RequestView::InsertProfile { profile: savedroom@, guests: guests@ }),
    {
        Request::InsertProfile { profile: savedroom, guests }
    }
}

impl SavedRoomGuest {
    /// The request for the guests of the profile `savedroom_id`.
    pub fn get_guests(savedroom_id: i32) -> (request: Request)
        ensures
            request@ == (RequestView::ProfileGuests { profile_id: savedroom_id }),
    {
        Request::ProfileGuests { profile_id: savedroom_id }
    }
}

} // verus!
