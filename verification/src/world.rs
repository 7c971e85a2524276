//! A model of the two collaborators: what the platform and the store hold,
//! and how each request changes it and is answered.
//!
//! The model is ghost: nothing here runs. It says what the controller takes
//! its collaborators to do, so that what an operation achieves as a whole
//! can be stated and proved. Where a call may fail, or where the platform
//! picks an id, the outcome is left to a [`Fate`].

use crate::gateway::{
    CategoryRecordView, ChannelLookup, CleanUpDbRecord, RequestView, ResponseView, RoomSnapshot,
};
use crate::records::{
    guest_rows, AutoRoomView, DeleteStrategyView, MonitoredAutoRoom, SavedRoomGuest,
    SavedRoomView,
};
use vstd::prelude::*;

verus! {

/// The access-control entry of one user on one channel.
pub struct Access {
    pub allow: u64,
    pub deny: u64,
}

/// A channel on the platform.
pub struct Channel {
    /// Whether it is a voice channel of a guild.
    pub voice: bool,
    pub category_id: Option<i64>,
    pub owner_id: Option<i64>,
    /// How many members are in it.
    pub members: u64,
    pub name: Seq<char>,
    pub bitrate: u32,
    /// The access-control entries, by user.
    pub access: Map<i64, Access>,
}

/// What the platform holds: the channels by id, and for each category the
/// ids listed under it, in the platform's order.
pub struct Platform {
    pub channels: Map<i64, Channel>,
    pub categories: Map<i64, Seq<i64>>,
}

/// What the store holds: the rows of its four tables, each in table order.
pub struct Store {
    pub templates: Seq<AutoRoomView>,
    pub monitored: Seq<MonitoredAutoRoom>,
    pub profiles: Seq<SavedRoomView>,
    pub guests: Seq<SavedRoomGuest>,
}

/// The platform and the store together.
pub struct World {
    pub platform: Platform,
    pub store: Store,
}

/// What is left open about one call: whether it fails as a whole, the id
/// given to what it creates, and the channels that a deletion of several
/// cannot delete.
pub struct Fate {
    pub fails: bool,
    pub fresh_id: i64,
    pub stuck: Set<i64>,
}

/// The first template with origin channel `channel_id`.
pub open spec fn template_of(templates: Seq<AutoRoomView>, channel_id: i64) -> Option<AutoRoomView>
    decreases templates.len(),
{
    if templates.len() == 0 {
        None
    } else if templates.first().channel_id == channel_id {
        Some(templates.first())
    } else {
        template_of(templates.drop_first(), channel_id)
    }
}

/// The first template that places its rooms under `category_id`.
pub open spec fn template_under(templates: Seq<AutoRoomView>, category_id: i64) -> Option<
    AutoRoomView,
>
    decreases templates.len(),
{
    if templates.len() == 0 {
        None
    } else if templates.first().category_id == category_id {
        Some(templates.first())
    } else {
        template_under(templates.drop_first(), category_id)
    }
}

/// The placement category of every template, in table order.
pub open spec fn category_ids(templates: Seq<AutoRoomView>) -> Seq<i64> {
    Seq::new(templates.len(), |i: int| templates[i].category_id)
}

/// The templates that `strategy` leaves.
pub open spec fn templates_left(templates: Seq<AutoRoomView>, strategy: DeleteStrategyView) -> Seq<
    AutoRoomView,
>
    decreases templates.len(),
{
    if templates.len() == 0 {
        Seq::empty()
    } else {
        let before = templates_left(templates.drop_last(), strategy);
        if strategy.selects(templates.last().channel_id, templates.last().category_id) {
            before
        } else {
            before.push(templates.last())
        }
    }
}

/// Whether a template with origin channel `channel_id` is in the table.
pub open spec fn has_template(templates: Seq<AutoRoomView>, channel_id: i64) -> bool {
    exists|i: int| 0 <= i < templates.len() && #[trigger] templates[i].channel_id == channel_id
}

/// The profiles whose template is still in `templates`.
pub open spec fn profiles_left(profiles: Seq<SavedRoomView>, templates: Seq<AutoRoomView>) -> Seq<
    SavedRoomView,
>
    decreases profiles.len(),
{
    if profiles.len() == 0 {
        Seq::empty()
    } else {
        let before = profiles_left(profiles.drop_last(), templates);
        if has_template(templates, profiles.last().autoroom_id) {
            before.push(profiles.last())
        } else {
            before
        }
    }
}

/// Whether a profile with id `profile_id` is in the table.
pub open spec fn has_profile(profiles: Seq<SavedRoomView>, profile_id: int) -> bool {
    exists|i: int| 0 <= i < profiles.len() && #[trigger] profiles[i].id == profile_id
}

/// The guest rows whose profile is still in `profiles`.
pub open spec fn guests_left(guests: Seq<SavedRoomGuest>, profiles: Seq<SavedRoomView>) -> Seq<
    SavedRoomGuest,
>
    decreases guests.len(),
{
    if guests.len() == 0 {
        Seq::empty()
    } else {
        let before = guests_left(guests.drop_last(), profiles);
        if has_profile(profiles, guests.last().savedroom_id as int) {
            before.push(guests.last())
        } else {
            before
        }
    }
}

/// The guests of profile `profile_id`, in table order.
pub open spec fn guests_of(guests: Seq<SavedRoomGuest>, profile_id: i32) -> Seq<i64>
    decreases guests.len(),
{
    if guests.len() == 0 {
        Seq::empty()
    } else {
        let before = guests_of(guests.drop_last(), profile_id);
        if guests.last().savedroom_id == profile_id {
            before.push(guests.last().guest_id)
        } else {
            before
        }
    }
}

/// Whether a monitored room with id `channel_id` is recorded.
pub open spec fn has_room(monitored: Seq<MonitoredAutoRoom>, channel_id: i64) -> bool {
    exists|i: int| 0 <= i < monitored.len() && #[trigger] monitored[i].channel_id == channel_id
}

/// The first monitored room that belongs to `owner_id`.
pub open spec fn room_of_owner(monitored: Seq<MonitoredAutoRoom>, owner_id: i64) -> Option<
    MonitoredAutoRoom,
>
    decreases monitored.len(),
{
    if monitored.len() == 0 {
        None
    } else if monitored.first().owner_id == owner_id {
        Some(monitored.first())
    } else {
        room_of_owner(monitored.drop_first(), owner_id)
    }
}

/// The monitored rooms but those with an id in `ids`, in table order.
pub open spec fn rooms_without(monitored: Seq<MonitoredAutoRoom>, ids: Seq<i64>) -> Seq<
    MonitoredAutoRoom,
>
    decreases monitored.len(),
{
    if monitored.len() == 0 {
        Seq::empty()
    } else {
        let before = rooms_without(monitored.drop_last(), ids);
        if ids.contains(monitored.last().channel_id) {
            before
        } else {
            before.push(monitored.last())
        }
    }
}

/// The monitored rooms after each of `rooms` was recorded in turn, unless
/// its id was recorded by then.
pub open spec fn rooms_with_absent(
    monitored: Seq<MonitoredAutoRoom>,
    rooms: Seq<MonitoredAutoRoom>,
) -> Seq<MonitoredAutoRoom>
    decreases rooms.len(),
{
    if rooms.len() == 0 {
        monitored
    } else if has_room(monitored, rooms.first().channel_id) {
        rooms_with_absent(monitored, rooms.drop_first())
    } else {
        rooms_with_absent(monitored.push(rooms.first()), rooms.drop_first())
    }
}

impl Platform {
    /// The channel `channel_id` as the platform reports it.
    pub open spec fn snapshot(self, channel_id: i64) -> RoomSnapshot {
        RoomSnapshot {
            id: channel_id,
            owner_id: self.channels[channel_id].owner_id,
            members: self.channels[channel_id].members,
        }
    }

    /// What a lookup of `channel_id` finds.
    pub open spec fn lookup(self, channel_id: i64) -> ChannelLookup {
        if !self.channels.contains_key(channel_id) {
            ChannelLookup::Missing
        } else if !self.channels[channel_id].voice {
            ChannelLookup::NotVoice
        } else {
            ChannelLookup::Room(self.snapshot(channel_id))
        }
    }

    /// What a lookup of each of `rooms` finds, in the order of `rooms`.
    pub open spec fn lookups(self, rooms: Seq<MonitoredAutoRoom>) -> Seq<CleanUpDbRecord> {
        Seq::new(
            rooms.len(),
            |i: int|
                CleanUpDbRecord { channel: self.lookup(rooms[i].channel_id), autoroom: rooms[i] },
        )
    }

    /// The voice channels among `listed` that the platform has, in order.
    pub open spec fn rooms_among(self, listed: Seq<i64>) -> Seq<RoomSnapshot>
        decreases listed.len(),
    {
        if listed.len() == 0 {
            Seq::empty()
        } else {
            let before = self.rooms_among(listed.drop_last());
            if self.lookup(listed.last()) is Room {
                before.push(self.snapshot(listed.last()))
            } else {
                before
            }
        }
    }

    /// What a lookup of the category `category_id` finds.
    pub open spec fn category(self, category_id: i64) -> CategoryRecordView {
        if self.categories.contains_key(category_id) {
            CategoryRecordView {
                requested: category_id,
                resolved: Some(category_id),
                children: self.rooms_among(self.categories[category_id]),
            }
        } else {
            CategoryRecordView { requested: category_id, resolved: None, children: Seq::empty() }
        }
    }

    /// What a lookup of each of `ids` finds, in the order of `ids`.
    pub open spec fn category_lookups(self, ids: Seq<i64>) -> Seq<CategoryRecordView> {
        Seq::new(ids.len(), |i: int| self.category(ids[i]))
    }

    /// The channels among `ids` that a deletion under `fate` deletes: those
    /// that are there and not stuck, in order.
    pub open spec fn deletable(self, ids: Seq<i64>, fate: Fate) -> Seq<i64>
        decreases ids.len(),
    {
        if ids.len() == 0 {
            Seq::empty()
        } else {
            let before = self.deletable(ids.drop_last(), fate);
            if self.channels.contains_key(ids.last()) && !fate.stuck.contains(ids.last()) {
                before.push(ids.last())
            } else {
                before
            }
        }
    }

    /// The platform without the channels `ids`.
    pub open spec fn without(self, ids: Seq<i64>) -> Platform {
        Platform { channels: self.channels.remove_keys(ids.to_set()), categories: self.categories }
    }

    /// The platform with the entry of `user_id` on `channel_id` set.
    pub open spec fn with_access(self, channel_id: i64, user_id: i64, access: Access) -> Platform {
        let channel = self.channels[channel_id];
        Platform {
            channels: self.channels.insert(
                channel_id,
                Channel { access: channel.access.insert(user_id, access), ..channel },
            ),
            categories: self.categories,
        }
    }

    /// The platform with one more member in `channel_id`.
    pub open spec fn with_member(self, channel_id: i64) -> Platform {
        let channel = self.channels[channel_id];
        let members = if channel.members < u64::MAX {
            (channel.members + 1) as u64
        } else {
            channel.members
        };
        Platform {
            channels: self.channels.insert(channel_id, Channel { members, ..channel }),
            categories: self.categories,
        }
    }

    /// The platform with a new, empty voice channel `channel_id` under
    /// `category_id`.
    pub open spec fn with_room(
        self,
        channel_id: i64,
        category_id: i64,
        name: Seq<char>,
        bitrate: u32,
    ) -> Platform {
        Platform {
            channels: self.channels.insert(
                channel_id,
                Channel {
                    voice: true,
                    category_id: Some(category_id),
                    owner_id: None,
                    members: 0,
                    name,
                    bitrate,
                    access: Map::empty(),
                },
            ),
            categories: self.categories.insert(
                category_id,
                self.categories[category_id].push(channel_id),
            ),
        }
    }
}

impl World {
    /// The world after the platform served `request` under `fate`, and the
    /// platform's answer. A call that fails changes nothing.
    pub open spec fn serve_platform(self, request: RequestView, fate: Fate) -> (
        World,
        ResponseView,
    ) {
        let platform = self.platform;
        match request {
            RequestView::CreateVoiceChannel {
                guild_id,
                category_id,
                name,
                bitrate,
            } => if fate.fails || platform.channels.contains_key(fate.fresh_id)
                || !platform.categories.contains_key(category_id) {
                (self, ResponseView::Failed)
            } else {
                (
                    World {
                        platform: platform.with_room(fate.fresh_id, category_id, name, bitrate),
                        ..self
                    },
                    ResponseView::Created { channel_id: fate.fresh_id },
                )
            },
            RequestView::DeleteChannel { channel_id } => if fate.fails {
                (self, ResponseView::Failed)
            } else if !platform.channels.contains_key(channel_id) {
                (self, ResponseView::Gone)
            } else {
                (World { platform: platform.without(seq![channel_id]), ..self }, ResponseView::Done)
            },
            RequestView::DeleteChannels(ids) => if fate.fails {
                (self, ResponseView::Failed)
            } else {
                (
                    World { platform: platform.without(platform.deletable(ids, fate)), ..self },
                    ResponseView::Deleted(platform.deletable(ids, fate)),
                )
            },
            RequestView::SetAccess { channel_id, user_id, allow, deny } => if fate.fails
                || !platform.channels.contains_key(channel_id) {
                (self, ResponseView::Failed)
            } else {
                (
                    World {
                        platform: platform.with_access(channel_id, user_id, Access { allow, deny }),
                        ..self
                    },
                    ResponseView::Done,
                )
            },
            RequestView::MoveMember { guild_id, user_id, channel_id } => if fate.fails
                || !platform.channels.contains_key(channel_id) {
                (self, ResponseView::Failed)
            } else {
                (World { platform: platform.with_member(channel_id), ..self }, ResponseView::Done)
            },
            RequestView::ResolveChannel { channel_id } => if fate.fails {
                (self, ResponseView::Failed)
            } else {
                (self, ResponseView::Channel(platform.lookup(channel_id)))
            },
            RequestView::ResolveRooms(rooms) => if fate.fails {
                (self, ResponseView::Failed)
            } else {
                (self, ResponseView::Rooms(platform.lookups(rooms)))
            },
            RequestView::ResolveCategories(ids) => if fate.fails {
                (self, ResponseView::Failed)
            } else {
                (self, ResponseView::Categories(platform.category_lookups(ids)))
            },
            _ => (self, ResponseView::Failed),
        }
    }

    /// The world after the store served `request` under `fate`, and the
    /// store's answer. A call that fails changes nothing.
    pub open spec fn serve_store(self, request: RequestView, fate: Fate) -> (World, ResponseView) {
        let store = self.store;
        if fate.fails {
            (self, ResponseView::Failed)
        } else {
            match request {
                RequestView::FindTemplate { channel_id } => (
                    self,
                    ResponseView::Template(template_of(store.templates, channel_id)),
                ),
                RequestView::FindTemplateByCategory { category_id } => (
                    self,
                    ResponseView::Template(template_under(store.templates, category_id)),
                ),
                RequestView::AllCategoryIds => (
                    self,
                    ResponseView::CategoryIds(category_ids(store.templates)),
                ),
                RequestView::DeleteTemplates(strategy) => {
                    let templates = templates_left(store.templates, strategy);
                    let profiles = profiles_left(store.profiles, templates);
                    (
                        World {
                            store: Store {
                                templates,
                                profiles,
                                guests: guests_left(store.guests, profiles),
                                ..store
                            },
                            ..self
                        },
                        ResponseView::Done,
                    )
                },
                RequestView::MonitoredExists { channel_id } => (
                    self,
                    ResponseView::Exists(has_room(store.monitored, channel_id)),
                ),
                RequestView::FindMonitoredByOwner { owner_id } => (
                    self,
                    ResponseView::Monitored(room_of_owner(store.monitored, owner_id)),
                ),
                RequestView::AllMonitored => (self, ResponseView::AllMonitored(store.monitored)),
                RequestView::InsertMonitored(room) => if has_room(
                    store.monitored,
                    room.channel_id,
                ) {
                    (self, ResponseView::Failed)
                } else {
                    (
                        World {
                            store: Store { monitored: store.monitored.push(room), ..store },
                            ..self
                        },
                        ResponseView::Done,
                    )
                },
                RequestView::InsertMonitoredIfAbsent(rooms) => (
                    World {
                        store: Store {
                            monitored: rooms_with_absent(store.monitored, rooms),
                            ..store
                        },
                        ..self
                    },
                    ResponseView::Done,
                ),
                RequestView::RemoveMonitored { channel_id } => if has_room(
                    store.monitored,
                    channel_id,
                ) {
                    (
                        World {
                            store: Store {
                                monitored: rooms_without(store.monitored, seq![channel_id]),
                                ..store
                            },
                            ..self
                        },
                        ResponseView::Done,
                    )
                } else {
                    (self, ResponseView::Gone)
                },
                RequestView::RemoveManyMonitored(ids) => (
                    World {
                        store: Store { monitored: rooms_without(store.monitored, ids), ..store },
                        ..self
                    },
                    ResponseView::Done,
                ),
                RequestView::InsertProfile { profile, guests } => if has_profile(
                    store.profiles,
                    fate.fresh_id as int,
                ) || !has_template(store.templates, profile.autoroom_id) || fate.fresh_id
                    < i32::MIN || fate.fresh_id > i32::MAX {
                    (self, ResponseView::Failed)
                } else {
                    let id = fate.fresh_id as i32;
                    (
                        World {
                            store: Store {
                                profiles: store.profiles.push(
                                    SavedRoomView {
                                        id,
                                        owner_id: profile.owner_id,
                                        name: profile.name,
                                        room_name: profile.room_name,
                                        autoroom_id: profile.autoroom_id,
                                    },
                                ),
                                guests: store.guests + guest_rows(id, guests),
                                ..store
                            },
                            ..self
                        },
                        ResponseView::ProfileId(id),
                    )
                },
                RequestView::ProfileGuests { profile_id } => (
                    self,
                    ResponseView::Guests(guests_of(store.guests, profile_id)),
                ),
                _ => (self, ResponseView::Failed),
            }
        }
    }

    /// The world after `request` was served under `fate`, and the answer.
    pub open spec fn serve(self, request: RequestView, fate: Fate) -> (World, ResponseView) {
        match request {
            RequestView::CreateVoiceChannel { .. }
            | RequestView::DeleteChannel { .. }
            | RequestView::DeleteChannels(_)
            | RequestView::SetAccess { .. }
            | RequestView::MoveMember { .. }
            | RequestView::ResolveChannel { .. }
            | RequestView::ResolveRooms(_)
            | RequestView::ResolveCategories(_) => self.serve_platform(request, fate),
            _ => self.serve_store(request, fate),
        }
    }
}

} // verus!
