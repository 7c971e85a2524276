//! The operations run to their end against a platform and a store that live
//! in memory.

use std::collections::HashMap;

use autoroom::bitrate::PremiumTier;
use autoroom::cache::{add_guest_to_cache, SavedRoomCache};
use autoroom::categories::{
    cleanup_categories_monitored_rooms, CategoryOutcome, CategoryState, CategorySummary,
};
use autoroom::gateway::{
    CategoryRecord, ChannelLookup, CleanUpDbRecord, ErrorKind, Request, Response, RoomSnapshot,
};
use autoroom::profiles::{
    invite, load, save, InviteOutcome, InviteState, LoadState, RoomInfo, SaveOutcome, SaveState,
};
use autoroom::provision::{create_proccessing, JoinEvent, ProvisionOutcome, ProvisionState};
use autoroom::reaper::{
    remove_channel_by_id_proccessing, remove_channel_by_voicestate, ReapOutcome, ReapState,
};
use autoroom::reconcile::{run_reconciliation_sweep, ReconcileOutcome, ReconcileState};
use autoroom::records::{AutoRoom, MonitoredAutoRoom, SavedRoom, SavedRoomGuest};
use autoroom::sweep::{cleanup_db_monitored_rooms, SweepOutcome, SweepState, SweepSummary};

struct Channel {
    voice: bool,
    owner_id: Option<i64>,
    members: u64,
    name: String,
    bitrate: u32,
    category_id: Option<i64>,
    access: HashMap<i64, (u64, u64)>,
}

/// A platform and a store in memory. `failing` holds the numbers of the
/// calls that are to fail, counted from 0 over the life of the world.
struct World {
    channels: HashMap<i64, Channel>,
    categories: HashMap<i64, Vec<i64>>,
    templates: Vec<AutoRoom>,
    monitored: Vec<MonitoredAutoRoom>,
    profiles: Vec<SavedRoom>,
    guests: Vec<SavedRoomGuest>,
    next_channel: i64,
    next_profile: i32,
    calls: usize,
    failing: Vec<usize>,
    log: Vec<String>,
}

fn world() -> World {
    World {
        channels: HashMap::new(),
        categories: HashMap::new(),
        templates: Vec::new(),
        monitored: Vec::new(),
        profiles: Vec::new(),
        guests: Vec::new(),
        next_channel: 1000,
        next_profile: 1,
        calls: 0,
        failing: Vec::new(),
        log: Vec::new(),
    }
}

fn room(world: &mut World, id: i64, category_id: Option<i64>, members: u64) {
    world.channels.insert(
        id,
        Channel {
            voice: true,
            owner_id: None,
            members,
            name: format!("room {}", id),
            bitrate: 96000,
            category_id,
            access: HashMap::new(),
        },
    );
    if let Some(category) = category_id {
        world.categories.entry(category).or_default().push(id);
    }
}

fn lookup(world: &World, id: i64) -> ChannelLookup {
    match world.channels.get(&id) {
        None => ChannelLookup::Missing,
        Some(channel) if !channel.voice => ChannelLookup::NotVoice,
        Some(channel) => ChannelLookup::Room(RoomSnapshot {
            id,
            owner_id: channel.owner_id,
            members: channel.members,
        }),
    }
}

fn serve(world: &mut World, request: Request) -> Response {
    let call = world.calls;
    world.calls += 1;
    world.log.push(format!("{:?}", request));
    if world.failing.contains(&call) {
        return Response::Failed;
    }
    match request {
        Request::FindTemplate { channel_id } => Response::Template(
            world.templates.iter().find(|t| t.channel_id == channel_id).cloned(),
        ),
        Request::FindTemplateByCategory { category_id } => Response::Template(
            world.templates.iter().find(|t| t.category_id == category_id).cloned(),
        ),
        Request::AllCategoryIds => {
            Response::CategoryIds(world.templates.iter().map(|t| t.category_id).collect())
        }
        Request::DeleteTemplates(strategy) => {
            world.templates.retain(|t| !strategy.selects(t));
            let templates: Vec<i64> = world.templates.iter().map(|t| t.channel_id).collect();
            world.profiles.retain(|p| templates.contains(&p.autoroom_id));
            let profiles: Vec<i64> = world.profiles.iter().map(|p| p.id() as i64).collect();
            world.guests.retain(|g| profiles.contains(&g.savedroom_id));
            Response::Done
        }
        Request::MonitoredExists { channel_id } => {
            Response::Exists(world.monitored.iter().any(|r| r.channel_id == channel_id))
        }
        Request::FindMonitoredByOwner { owner_id } => {
            Response::Monitored(world.monitored.iter().find(|r| r.owner_id == owner_id).copied())
        }
        Request::AllMonitored => Response::AllMonitored(world.monitored.clone()),
        Request::InsertMonitored(row) => {
            if world.monitored.iter().any(|r| r.channel_id == row.channel_id) {
                return Response::Failed;
            }
            world.monitored.push(row);
            Response::Done
        }
        Request::InsertMonitoredIfAbsent(rows) => {
            for row in rows {
                if !world.monitored.iter().any(|r| r.channel_id == row.channel_id) {
                    world.monitored.push(row);
                }
            }
            Response::Done
        }
        Request::RemoveMonitored { channel_id } => {
            let before = world.monitored.len();
            world.monitored.retain(|r| r.channel_id != channel_id);
            if world.monitored.len() < before {
                Response::Done
            } else {
                Response::Gone
            }
        }
        Request::RemoveManyMonitored(ids) => {
            world.monitored.retain(|r| !ids.contains(&r.channel_id));
            Response::Done
        }
        Request::InsertProfile { profile, guests } => {
            if !world.templates.iter().any(|t| t.channel_id == profile.autoroom_id) {
                return Response::Failed;
            }
            let id = world.next_profile;
            world.next_profile += 1;
            world.guests.extend(SavedRoomGuest::insert_many(id, &guests));
            world.profiles.push(SavedRoom::new(id, profile));
            Response::ProfileId(id)
        }
        Request::ProfileGuests { profile_id } => Response::Guests(
            world
                .guests
                .iter()
                .filter(|g| g.savedroom_id == profile_id as i64)
                .map(|g| g.guest_id)
                .collect(),
        ),
        Request::CreateVoiceChannel { guild_id: _, category_id, name, bitrate } => {
            if !world.categories.contains_key(&category_id) {
                return Response::Failed;
            }
            let id = world.next_channel;
            world.next_channel += 1;
            room(world, id, Some(category_id), 0);
            let channel = world.channels.get_mut(&id).unwrap();
            channel.name = name;
            channel.bitrate = bitrate;
            Response::Created { channel_id: id }
        }
        Request::DeleteChannel { channel_id } => match world.channels.remove(&channel_id) {
            Some(_) => Response::Done,
            None => Response::Gone,
        },
        Request::DeleteChannels(ids) => {
            let mut deleted = Vec::new();
            for id in ids {
                if world.channels.remove(&id).is_some() {
                    deleted.push(id);
                }
            }
            Response::Deleted(deleted)
        }
        Request::SetAccess { channel_id, user_id, allow, deny } => {
            match world.channels.get_mut(&channel_id) {
                Some(channel) => {
                    channel.access.insert(user_id, (allow, deny));
                    Response::Done
                }
                None => Response::Failed,
            }
        }
        Request::MoveMember { guild_id: _, user_id: _, channel_id } => {
            match world.channels.get_mut(&channel_id) {
                Some(channel) => {
                    channel.members += 1;
                    Response::Done
                }
                None => Response::Failed,
            }
        }
        Request::ResolveChannel { channel_id } => Response::Channel(lookup(world, channel_id)),
        Request::ResolveRooms(rows) => Response::Rooms(
            rows.iter()
                .map(|row| CleanUpDbRecord {
                    channel: lookup(world, row.channel_id),
                    autoroom: *row,
                })
                .collect(),
        ),
        Request::ResolveCategories(ids) => Response::Categories(
            ids.iter()
                .map(|id| match world.categories.get(id) {
                    None => CategoryRecord { requested: *id, resolved: None, children: vec![] },
                    Some(listed) => CategoryRecord {
                        requested: *id,
                        resolved: Some(*id),
                        children: listed
                            .iter()
                            .filter_map(|child| match lookup(world, *child) {
                                ChannelLookup::Room(snapshot) => Some(snapshot),
                                _ => None,
                            })
                            .collect(),
                    },
                })
                .collect(),
        ),
    }
}

fn provision(world: &mut World, event: JoinEvent) -> ProvisionOutcome {
    let mut state = ProvisionState::start(event);
    let mut answer = None;
    loop {
        let (next, request) = create_proccessing(state, answer);
        state = next;
        match request {
            Some(request) => answer = Some(serve(world, request)),
            None => return state.outcome().unwrap(),
        }
    }
}

fn reap(world: &mut World, cache: &mut SavedRoomCache, channel_id: i64) -> ReapOutcome {
    let mut state = ReapState::start(channel_id);
    let mut answer = None;
    loop {
        let (next, request) = remove_channel_by_voicestate(state, answer, cache);
        state = next;
        match request {
            Some(request) => answer = Some(serve(world, request)),
            None => return state.outcome().unwrap(),
        }
    }
}

fn reap_by_id(world: &mut World, cache: &mut SavedRoomCache, channel_id: i64) -> ReapOutcome {
    let mut state = ReapState::start(channel_id);
    let mut answer = None;
    loop {
        let (next, request) = remove_channel_by_id_proccessing(state, answer, cache);
        state = next;
        match request {
            Some(request) => answer = Some(serve(world, request)),
            None => return state.outcome().unwrap(),
        }
    }
}

fn sweep_rooms(world: &mut World) -> SweepOutcome {
    let mut state = SweepState::start();
    let mut answer = None;
    loop {
        let (next, request) = cleanup_db_monitored_rooms(state, answer);
        state = next;
        match request {
            Some(request) => answer = Some(serve(world, request)),
            None => return state.outcome().unwrap(),
        }
    }
}

fn sweep_categories(world: &mut World, bot_id: i64) -> CategoryOutcome {
    let mut state = CategoryState::start(bot_id);
    let mut answer = None;
    loop {
        let (next, request) = cleanup_categories_monitored_rooms(state, answer);
        state = next;
        match request {
            Some(request) => answer = Some(serve(world, request)),
            None => return state.outcome().unwrap(),
        }
    }
}

fn reconcile(world: &mut World, bot_id: i64) -> ReconcileOutcome {
    let mut state = ReconcileState::start(bot_id);
    let mut answer = None;
    loop {
        let (next, request) = run_reconciliation_sweep(state, answer);
        state = next;
        match request {
            Some(request) => answer = Some(serve(world, request)),
            None => return state.outcome().unwrap(),
        }
    }
}

fn invite_guest(
    world: &mut World,
    cache: &mut SavedRoomCache,
    inviter_id: i64,
    guest_id: i64,
) -> InviteOutcome {
    let mut state = InviteState::start(inviter_id, guest_id);
    let mut answer = None;
    loop {
        let (next, request) = invite(state, answer, cache);
        state = next;
        match request {
            Some(request) => answer = Some(serve(world, request)),
            None => return state.outcome().unwrap(),
        }
    }
}

fn save_room(
    world: &mut World,
    cache: &SavedRoomCache,
    info: RoomInfo,
    name: Option<String>,
) -> SaveOutcome {
    let mut state = SaveState::start(info, name, cache);
    let mut answer = None;
    loop {
        if let Some(outcome) = state.outcome() {
            return outcome;
        }
        let (next, request) = save(state, answer);
        state = next;
        answer = request.map(|request| serve(world, request));
    }
}

fn replay(
    world: &mut World,
    cache: &mut SavedRoomCache,
    room: i64,
    owner_id: i64,
    profile_id: i32,
) -> Result<Vec<i64>, ErrorKind> {
    let mut state = LoadState::start(room, owner_id, profile_id);
    let mut answer = None;
    loop {
        let (next, request) = load(state, answer, cache);
        state = next;
        match request {
            Some(request) => answer = Some(serve(world, request)),
            None => {
                return match state.granted() {
                    Some(granted) => Ok(granted),
                    None => Err(state.failure().unwrap()),
                };
            }
        }
    }
}

fn join(channel_id: i64, user_id: i64, user_name: &str, tier: PremiumTier) -> JoinEvent {
    JoinEvent {
        channel_id,
        guild_id: 1,
        user_id,
        user_name: user_name.to_string(),
        premium_tier: tier,
    }
}

fn lobby(world: &mut World, channel_id: i64, category_id: i64, suffix: &str) {
    world.categories.entry(category_id).or_default();
    world.templates.push(AutoRoom::new(channel_id, 1, category_id, Some(suffix.to_string())));
}

fn rows(world: &World) -> Vec<(i64, i64)> {
    world.monitored.iter().map(|r| (r.channel_id, r.owner_id)).collect()
}

fn sorted(mut ids: Vec<i64>) -> Vec<i64> {
    ids.sort();
    ids
}

#[test]
fn join_on_template_channel_provisions_owned_room() {
    let mut w = world();
    lobby(&mut w, 100, 200, "room");
    let outcome = provision(&mut w, join(100, 7, "U1", PremiumTier::Tier1));
    let new_id = 1000;
    assert_eq!(outcome, ProvisionOutcome::Provisioned { room: new_id, owner: 7, moved: true });
    assert_eq!(w.channels.len(), 1);
    let created = &w.channels[&new_id];
    assert_eq!(created.name, "U1's room");
    assert_eq!(created.bitrate, 128000);
    assert_eq!(created.category_id, Some(200));
    assert!(created.voice);
    assert_eq!(created.access[&7], (0xC0_0C10, 0));
    assert_eq!(created.members, 1);
    assert_eq!(rows(&w), vec![(new_id, 7)]);
}

#[test]
fn provisioning_asks_in_order() {
    let mut w = world();
    lobby(&mut w, 100, 200, "room");
    provision(&mut w, join(100, 7, "U1", PremiumTier::Tier1));
    assert_eq!(
        w.log,
        vec![
            "FindTemplate { channel_id: 100 }".to_string(),
            "CreateVoiceChannel { guild_id: 1, category_id: 200, name: \"U1's room\", \
             bitrate: 128000 }"
                .to_string(),
            "SetAccess { channel_id: 1000, user_id: 7, allow: 12586000, deny: 0 }".to_string(),
            "MoveMember { guild_id: 1, user_id: 7, channel_id: 1000 }".to_string(),
            "InsertMonitored(MonitoredAutoRoom { channel_id: 1000, owner_id: 7 })".to_string(),
        ]
    );
}

#[test]
fn join_elsewhere_is_ignored() {
    let mut w = world();
    lobby(&mut w, 100, 200, "room");
    let outcome = provision(&mut w, join(101, 7, "U1", PremiumTier::Tier0));
    assert_eq!(outcome, ProvisionOutcome::Ignored);
    assert!(w.channels.is_empty());
    assert!(w.monitored.is_empty());
    assert_eq!(w.calls, 1);
}

#[test]
fn template_lookup_failure_ends_provisioning() {
    let mut w = world();
    lobby(&mut w, 100, 200, "room");
    w.failing = vec![0];
    let outcome = provision(&mut w, join(100, 7, "U1", PremiumTier::Tier0));
    assert_eq!(outcome, ProvisionOutcome::Failed(ErrorKind::StoreError));
    assert!(w.channels.is_empty());
}

#[test]
fn creation_failure_ends_provisioning() {
    let mut w = world();
    lobby(&mut w, 100, 200, "room");
    w.failing = vec![1];
    let outcome = provision(&mut w, join(100, 7, "U1", PremiumTier::Tier0));
    assert_eq!(outcome, ProvisionOutcome::Failed(ErrorKind::PlatformError));
    assert!(w.channels.is_empty());
    assert!(w.monitored.is_empty());
}

#[test]
fn grant_failure_deletes_the_new_room() {
    let mut w = world();
    lobby(&mut w, 100, 200, "room");
    w.failing = vec![2];
    let outcome = provision(&mut w, join(100, 7, "U1", PremiumTier::Tier0));
    assert_eq!(outcome, ProvisionOutcome::Failed(ErrorKind::PlatformError));
    assert!(w.channels.is_empty());
    assert!(w.monitored.is_empty());
    assert_eq!(w.log.last().unwrap(), "DeleteChannel { channel_id: 1000 }");
}

#[test]
fn move_failure_does_not_abort() {
    let mut w = world();
    lobby(&mut w, 100, 200, "room");
    w.failing = vec![3];
    let outcome = provision(&mut w, join(100, 7, "U1", PremiumTier::Tier0));
    assert_eq!(outcome, ProvisionOutcome::Provisioned { room: 1000, owner: 7, moved: false });
    assert_eq!(w.channels[&1000].members, 0);
    assert_eq!(rows(&w), vec![(1000, 7)]);
}

#[test]
fn record_failure_leaves_an_orphan_that_the_category_sweep_adopts() {
    let mut w = world();
    lobby(&mut w, 100, 200, "room");
    w.failing = vec![4];
    let outcome = provision(&mut w, join(100, 7, "U1", PremiumTier::Tier0));
    assert_eq!(outcome, ProvisionOutcome::Failed(ErrorKind::StoreError));
    assert!(w.channels.contains_key(&1000));
    assert!(w.monitored.is_empty());

    let swept = sweep_categories(&mut w, 42);
    assert_eq!(
        swept,
        CategoryOutcome::Swept(CategorySummary {
            categories: 1,
            outdated: 0,
            adopted: 1,
            deleted: 0,
        })
    );
    assert_eq!(rows(&w), vec![(1000, 42)]);
}

#[test]
fn unknown_tier_provisions_at_lowest_bitrate() {
    let mut w = world();
    lobby(&mut w, 100, 200, "den");
    provision(&mut w, join(100, 7, "Ann", PremiumTier::Unknown(9)));
    assert_eq!(w.channels[&1000].bitrate, 96000);
    assert_eq!(w.channels[&1000].name, "Ann's den");
}

#[test]
fn leave_from_vanished_room_removes_row() {
    let mut w = world();
    w.monitored.push(MonitoredAutoRoom { channel_id: 5, owner_id: 7 });
    w.monitored.push(MonitoredAutoRoom { channel_id: 6, owner_id: 8 });
    let mut cache = SavedRoomCache::new();
    add_guest_to_cache(&mut cache, 5, 7, 9);
    let outcome = reap(&mut w, &mut cache, 5);
    assert_eq!(outcome, ReapOutcome::Removed);
    assert_eq!(rows(&w), vec![(6, 8)]);
    assert!(!cache.contains(5));
}

#[test]
fn leave_from_empty_room_deletes_it() {
    let mut w = world();
    room(&mut w, 5, Some(200), 0);
    w.monitored.push(MonitoredAutoRoom { channel_id: 5, owner_id: 7 });
    let mut cache = SavedRoomCache::new();
    add_guest_to_cache(&mut cache, 5, 7, 9);
    add_guest_to_cache(&mut cache, 6, 8, 9);
    assert_eq!(reap(&mut w, &mut cache, 5), ReapOutcome::Removed);
    assert!(!w.channels.contains_key(&5));
    assert!(w.monitored.is_empty());
    assert!(!cache.contains(5));
    assert!(cache.contains(6));
}

#[test]
fn leave_from_occupied_room_keeps_it() {
    let mut w = world();
    room(&mut w, 5, Some(200), 2);
    w.monitored.push(MonitoredAutoRoom { channel_id: 5, owner_id: 7 });
    let mut cache = SavedRoomCache::new();
    add_guest_to_cache(&mut cache, 5, 7, 9);
    assert_eq!(reap(&mut w, &mut cache, 5), ReapOutcome::Occupied);
    assert!(w.channels.contains_key(&5));
    assert_eq!(rows(&w), vec![(5, 7)]);
    assert!(cache.contains(5));
}

#[test]
fn leave_from_unmonitored_channel_is_a_no_op() {
    let mut w = world();
    room(&mut w, 5, Some(200), 0);
    let mut cache = SavedRoomCache::new();
    assert_eq!(reap(&mut w, &mut cache, 5), ReapOutcome::NotMonitored);
    assert!(w.channels.contains_key(&5));
    assert_eq!(w.calls, 1);
}

#[test]
fn failed_existence_check_is_a_no_op() {
    let mut w = world();
    room(&mut w, 5, Some(200), 0);
    w.monitored.push(MonitoredAutoRoom { channel_id: 5, owner_id: 7 });
    w.failing = vec![0];
    let mut cache = SavedRoomCache::new();
    assert_eq!(reap(&mut w, &mut cache, 5), ReapOutcome::NotMonitored);
    assert!(w.channels.contains_key(&5));
    assert_eq!(rows(&w), vec![(5, 7)]);
}

#[test]
fn failed_platform_delete_surfaces_and_keeps_row() {
    let mut w = world();
    room(&mut w, 5, Some(200), 0);
    w.monitored.push(MonitoredAutoRoom { channel_id: 5, owner_id: 7 });
    w.failing = vec![2];
    let mut cache = SavedRoomCache::new();
    add_guest_to_cache(&mut cache, 5, 7, 9);
    assert_eq!(reap(&mut w, &mut cache, 5), ReapOutcome::Failed(ErrorKind::PlatformError));
    assert_eq!(rows(&w), vec![(5, 7)]);
    assert!(cache.contains(5));
}

#[test]
fn failed_row_delete_surfaces_after_room_is_gone() {
    let mut w = world();
    room(&mut w, 5, Some(200), 0);
    w.monitored.push(MonitoredAutoRoom { channel_id: 5, owner_id: 7 });
    w.failing = vec![3];
    let mut cache = SavedRoomCache::new();
    add_guest_to_cache(&mut cache, 5, 7, 9);
    assert_eq!(reap(&mut w, &mut cache, 5), ReapOutcome::Failed(ErrorKind::StoreError));
    assert!(!w.channels.contains_key(&5));
    assert_eq!(rows(&w), vec![(5, 7)]);
    assert!(!cache.contains(5));

    assert_eq!(
        sweep_rooms(&mut w),
        SweepOutcome::Swept(SweepSummary { monitored: 1, outdated: 1, empty_deleted: 0 })
    );
    assert!(w.monitored.is_empty());
}

#[test]
fn teardown_by_id_skips_the_existence_check() {
    let mut w = world();
    room(&mut w, 5, Some(200), 0);
    w.monitored.push(MonitoredAutoRoom { channel_id: 5, owner_id: 7 });
    let mut cache = SavedRoomCache::new();
    assert_eq!(reap_by_id(&mut w, &mut cache, 5), ReapOutcome::Removed);
    assert_eq!(w.log[0], "ResolveChannel { channel_id: 5 }");
    assert_eq!(w.calls, 3);
    assert!(w.monitored.is_empty());
    assert!(!w.channels.contains_key(&5));
}

#[test]
fn teardown_by_id_of_an_unrecorded_room_reports_gone_row_as_removed() {
    let mut w = world();
    room(&mut w, 5, Some(200), 0);
    let mut cache = SavedRoomCache::new();
    assert_eq!(reap_by_id(&mut w, &mut cache, 5), ReapOutcome::Removed);
    assert!(!w.channels.contains_key(&5));
}

#[test]
fn sweep_removes_empty_and_missing_rooms() {
    let mut w = world();
    room(&mut w, 1, None, 0);
    w.monitored.push(MonitoredAutoRoom { channel_id: 1, owner_id: 7 });
    w.monitored.push(MonitoredAutoRoom { channel_id: 2, owner_id: 8 });
    let outcome = sweep_rooms(&mut w);
    assert_eq!(
        outcome,
        SweepOutcome::Swept(SweepSummary { monitored: 2, outdated: 1, empty_deleted: 1 })
    );
    assert!(!w.channels.contains_key(&1));
    assert!(w.monitored.is_empty());
    assert!(w.log.contains(&"DeleteChannels([1])".to_string()));
    assert!(w.log.contains(&"RemoveManyMonitored([2, 1])".to_string()));
}

#[test]
fn sweep_keeps_rooms_with_members() {
    let mut w = world();
    room(&mut w, 1, None, 3);
    room(&mut w, 2, None, 0);
    w.monitored.push(MonitoredAutoRoom { channel_id: 1, owner_id: 7 });
    w.monitored.push(MonitoredAutoRoom { channel_id: 2, owner_id: 8 });
    sweep_rooms(&mut w);
    assert_eq!(rows(&w), vec![(1, 7)]);
    assert!(w.channels.contains_key(&1));
    assert!(!w.channels.contains_key(&2));
}

#[test]
fn sweep_drops_rows_of_channels_that_are_not_voice() {
    let mut w = world();
    room(&mut w, 1, None, 3);
    w.channels.get_mut(&1).unwrap().voice = false;
    w.monitored.push(MonitoredAutoRoom { channel_id: 1, owner_id: 7 });
    assert_eq!(
        sweep_rooms(&mut w),
        SweepOutcome::Swept(SweepSummary { monitored: 1, outdated: 1, empty_deleted: 0 })
    );
    assert!(w.monitored.is_empty());
    assert!(w.channels.contains_key(&1));
}

#[test]
fn sweep_survives_failed_platform_deletion() {
    let mut w = world();
    room(&mut w, 1, None, 0);
    w.monitored.push(MonitoredAutoRoom { channel_id: 1, owner_id: 7 });
    w.failing = vec![2];
    assert_eq!(
        sweep_rooms(&mut w),
        SweepOutcome::Swept(SweepSummary { monitored: 1, outdated: 0, empty_deleted: 1 })
    );
    assert!(w.monitored.is_empty());
    assert!(w.channels.contains_key(&1));
}

#[test]
fn sweep_store_failures_are_reported() {
    let mut w = world();
    room(&mut w, 1, None, 0);
    w.monitored.push(MonitoredAutoRoom { channel_id: 1, owner_id: 7 });
    w.failing = vec![0];
    assert_eq!(sweep_rooms(&mut w), SweepOutcome::Failed(ErrorKind::StoreError));
    assert_eq!(rows(&w), vec![(1, 7)]);
    assert!(w.channels.contains_key(&1));

    let mut w = world();
    room(&mut w, 1, None, 0);
    w.monitored.push(MonitoredAutoRoom { channel_id: 1, owner_id: 7 });
    w.failing = vec![3];
    assert_eq!(sweep_rooms(&mut w), SweepOutcome::Failed(ErrorKind::StoreError));
    assert_eq!(rows(&w), vec![(1, 7)]);
    assert!(!w.channels.contains_key(&1));
}

#[test]
fn sweep_platform_failure_is_reported() {
    let mut w = world();
    w.monitored.push(MonitoredAutoRoom { channel_id: 1, owner_id: 7 });
    w.failing = vec![1];
    assert_eq!(sweep_rooms(&mut w), SweepOutcome::Failed(ErrorKind::PlatformError));
    assert_eq!(rows(&w), vec![(1, 7)]);
}

#[test]
fn category_sweep_prunes_adopts_and_deletes() {
    let mut w = world();
    lobby(&mut w, 100, 200, "room");
    lobby(&mut w, 101, 200, "den");
    lobby(&mut w, 102, 300, "gone");
    w.categories.remove(&300);
    room(&mut w, 1, Some(200), 2);
    room(&mut w, 2, Some(200), 0);
    room(&mut w, 3, Some(200), 1);
    w.channels.get_mut(&3).unwrap().owner_id = Some(8);
    w.monitored.push(MonitoredAutoRoom { channel_id: 3, owner_id: 9 });
    let outcome = sweep_categories(&mut w, 42);
    assert_eq!(
        outcome,
        CategoryOutcome::Swept(CategorySummary {
            categories: 2,
            outdated: 1,
            adopted: 2,
            deleted: 1,
        })
    );
    assert_eq!(rows(&w), vec![(3, 9), (1, 42)]);
    assert!(!w.channels.contains_key(&2));
    assert!(w.channels.contains_key(&1));
    let left: Vec<i64> = w.templates.iter().map(|t| t.channel_id).collect();
    assert_eq!(left, vec![100, 101]);
    assert!(w.log.contains(&"ResolveCategories([200, 300])".to_string()));
}

#[test]
fn category_sweep_cascades_to_profiles() {
    let mut w = world();
    lobby(&mut w, 100, 200, "room");
    lobby(&mut w, 102, 300, "gone");
    room(&mut w, 5, Some(300), 1);
    let mut cache = SavedRoomCache::new();
    add_guest_to_cache(&mut cache, 5, 7, 9);
    let info = RoomInfo { id: 5, name: "r".to_string(), category_id: Some(300) };
    assert_eq!(save_room(&mut w, &cache, info, None), SaveOutcome::Saved { profile_id: 1 });
    assert_eq!(w.profiles.len(), 1);
    assert_eq!(w.guests.len(), 1);
    w.categories.remove(&300);
    sweep_categories(&mut w, 42);
    assert!(w.profiles.is_empty());
    assert!(w.guests.is_empty());
}

#[test]
fn category_sweep_store_failures_are_reported() {
    let mut w = world();
    lobby(&mut w, 100, 200, "room");
    room(&mut w, 1, Some(200), 2);
    w.failing = vec![0];
    assert_eq!(sweep_categories(&mut w, 42), CategoryOutcome::Failed(ErrorKind::StoreError));
    assert!(w.monitored.is_empty());

    let mut w = world();
    lobby(&mut w, 100, 200, "room");
    lobby(&mut w, 102, 300, "gone");
    w.categories.remove(&300);
    room(&mut w, 1, Some(200), 2);
    w.failing = vec![3];
    assert_eq!(sweep_categories(&mut w, 42), CategoryOutcome::Failed(ErrorKind::StoreError));
    assert_eq!(rows(&w), vec![(1, 42)]);
    assert_eq!(w.templates.len(), 2);

    let mut w = world();
    lobby(&mut w, 100, 200, "room");
    room(&mut w, 1, Some(200), 2);
    w.failing = vec![1];
    assert_eq!(sweep_categories(&mut w, 42), CategoryOutcome::Failed(ErrorKind::PlatformError));
}

#[test]
fn reconciling_twice_is_reconciling_once() {
    let mut w = world();
    lobby(&mut w, 100, 200, "room");
    lobby(&mut w, 102, 300, "gone");
    w.categories.remove(&300);
    room(&mut w, 1, Some(200), 2);
    room(&mut w, 2, Some(200), 0);
    room(&mut w, 3, None, 1);
    room(&mut w, 4, None, 0);
    w.monitored.push(MonitoredAutoRoom { channel_id: 3, owner_id: 7 });
    w.monitored.push(MonitoredAutoRoom { channel_id: 4, owner_id: 8 });
    w.monitored.push(MonitoredAutoRoom { channel_id: 5, owner_id: 9 });
    assert!(matches!(sweep_rooms(&mut w), SweepOutcome::Swept(_)));
    assert!(matches!(sweep_categories(&mut w, 42), CategoryOutcome::Swept(_)));
    let once = rows(&w);
    assert_eq!(once, vec![(3, 7), (1, 42)]);
    assert_eq!(
        sweep_rooms(&mut w),
        SweepOutcome::Swept(SweepSummary { monitored: 2, outdated: 0, empty_deleted: 0 })
    );
    assert_eq!(
        sweep_categories(&mut w, 42),
        CategoryOutcome::Swept(CategorySummary {
            categories: 1,
            outdated: 0,
            adopted: 1,
            deleted: 0,
        })
    );
    assert_eq!(rows(&w), once);
}

#[test]
fn invitation_grants_and_stages() {
    let mut w = world();
    room(&mut w, 5, Some(200), 1);
    w.monitored.push(MonitoredAutoRoom { channel_id: 5, owner_id: 7 });
    let mut cache = SavedRoomCache::new();
    assert_eq!(invite_guest(&mut w, &mut cache, 7, 9), InviteOutcome::Invited { room: 5 });
    assert_eq!(w.channels[&5].access[&9], (0xC00, 0));
    let record = cache.get(5).unwrap();
    assert_eq!(record.owner_id(), 7);
    assert_eq!(record.guests(), vec![9]);
}

#[test]
fn invitation_twice_is_invitation_once() {
    let mut w = world();
    room(&mut w, 5, Some(200), 1);
    w.monitored.push(MonitoredAutoRoom { channel_id: 5, owner_id: 7 });
    let mut cache = SavedRoomCache::new();
    assert_eq!(invite_guest(&mut w, &mut cache, 7, 9), InviteOutcome::Invited { room: 5 });
    assert_eq!(invite_guest(&mut w, &mut cache, 7, 9), InviteOutcome::Invited { room: 5 });
    assert_eq!(w.channels[&5].access.len(), 1);
    assert_eq!(w.channels[&5].access[&9], (0xC00, 0));
    assert_eq!(cache.get(5).unwrap().guests(), vec![9]);
}

#[test]
fn invitation_without_a_room_is_not_found() {
    let mut w = world();
    let mut cache = SavedRoomCache::new();
    assert_eq!(
        invite_guest(&mut w, &mut cache, 7, 9),
        InviteOutcome::Failed(ErrorKind::NotFound)
    );
    assert!(!cache.contains(5));
}

#[test]
fn failed_grant_stages_nothing() {
    let mut w = world();
    room(&mut w, 5, Some(200), 1);
    w.monitored.push(MonitoredAutoRoom { channel_id: 5, owner_id: 7 });
    w.failing = vec![1];
    let mut cache = SavedRoomCache::new();
    assert_eq!(
        invite_guest(&mut w, &mut cache, 7, 9),
        InviteOutcome::Failed(ErrorKind::PlatformError)
    );
    assert!(!cache.contains(5));
    assert!(w.channels[&5].access.is_empty());

    let mut w = world();
    w.monitored.push(MonitoredAutoRoom { channel_id: 5, owner_id: 7 });
    w.failing = vec![0];
    assert_eq!(
        invite_guest(&mut w, &mut cache, 7, 9),
        InviteOutcome::Failed(ErrorKind::StoreError)
    );
}

#[test]
fn saved_guest_is_regranted_on_replay() {
    let mut w = world();
    lobby(&mut w, 100, 200, "room");
    room(&mut w, 5, Some(200), 1);
    w.monitored.push(MonitoredAutoRoom { channel_id: 5, owner_id: 7 });
    let mut cache = SavedRoomCache::new();
    assert_eq!(invite_guest(&mut w, &mut cache, 7, 9), InviteOutcome::Invited { room: 5 });

    let info = RoomInfo { id: 5, name: "U1's room".to_string(), category_id: Some(200) };
    let outcome = save_room(&mut w, &cache, info, Some("weekend".to_string()));
    assert_eq!(outcome, SaveOutcome::Saved { profile_id: 1 });
    assert_eq!(w.profiles.len(), 1);
    assert_eq!(w.profiles[0].id(), 1);
    assert_eq!(w.profiles[0].owner_id, 7);
    assert_eq!(w.profiles[0].name, "weekend");
    assert_eq!(w.profiles[0].room_name, "U1's room");
    assert_eq!(w.profiles[0].autoroom_id, 100);
    assert_eq!(w.guests, vec![SavedRoomGuest { savedroom_id: 1, guest_id: 9 }]);
    assert!(cache.contains(5));

    room(&mut w, 6, Some(200), 1);
    let granted = replay(&mut w, &mut cache, 6, 7, 1).unwrap();
    assert_eq!(granted, vec![9]);
    assert_eq!(w.channels[&6].access.len(), 1);
    assert_eq!(w.channels[&6].access[&9], (0xC00, 0));
    assert_eq!(cache.get(6).unwrap().guests(), vec![9]);
    assert_eq!(cache.get(6).unwrap().owner_id(), 7);
}

#[test]
fn replay_grants_exactly_the_staged_guests() {
    let mut w = world();
    lobby(&mut w, 100, 200, "room");
    room(&mut w, 5, Some(200), 1);
    let mut cache = SavedRoomCache::new();
    for guest in [11, 12, 13, 12, 14] {
        add_guest_to_cache(&mut cache, 5, 7, guest);
    }
    let info = RoomInfo { id: 5, name: "r".to_string(), category_id: Some(200) };
    let outcome = save_room(&mut w, &cache, info, None);
    assert_eq!(outcome, SaveOutcome::Saved { profile_id: 1 });
    assert_eq!(w.profiles[0].name, "r");

    room(&mut w, 6, Some(200), 1);
    let granted = replay(&mut w, &mut cache, 6, 7, 1).unwrap();
    assert_eq!(sorted(granted), vec![11, 12, 13, 14]);
    assert_eq!(sorted(w.channels[&6].access.keys().copied().collect()), vec![11, 12, 13, 14]);
    assert_eq!(sorted(cache.get(6).unwrap().guests()), vec![11, 12, 13, 14]);
}

#[test]
fn replay_passes_over_a_failed_grant() {
    let mut w = world();
    lobby(&mut w, 100, 200, "room");
    room(&mut w, 6, Some(200), 1);
    w.profiles.push(SavedRoom::new(
        3,
        autoroom::records::SavedRoomDTO {
            owner_id: 7,
            name: "n".to_string(),
            room_name: "r".to_string(),
            autoroom_id: 100,
        },
    ));
    w.guests = SavedRoomGuest::insert_many(3, &vec![11, 12, 13]);
    w.failing = vec![2];
    let mut cache = SavedRoomCache::new();
    let granted = replay(&mut w, &mut cache, 6, 7, 3).unwrap();
    assert_eq!(granted, vec![11, 13]);
    assert!(!w.channels[&6].access.contains_key(&12));
    assert_eq!(sorted(cache.get(6).unwrap().guests()), vec![11, 13]);
}

#[test]
fn replay_of_an_empty_profile_grants_nobody() {
    let mut w = world();
    room(&mut w, 6, Some(200), 1);
    let mut cache = SavedRoomCache::new();
    assert_eq!(replay(&mut w, &mut cache, 6, 7, 3), Ok(vec![]));
    assert_eq!(w.calls, 1);
    assert!(!cache.contains(6));
}

#[test]
fn replay_store_failure_is_reported() {
    let mut w = world();
    w.failing = vec![0];
    let mut cache = SavedRoomCache::new();
    assert_eq!(replay(&mut w, &mut cache, 6, 7, 3), Err(ErrorKind::StoreError));
}

#[test]
fn nothing_staged_is_nothing_to_save() {
    let mut w = world();
    lobby(&mut w, 100, 200, "room");
    let cache = SavedRoomCache::new();
    let info = RoomInfo { id: 5, name: "r".to_string(), category_id: Some(200) };
    assert_eq!(save_room(&mut w, &cache, info, None), SaveOutcome::NothingToSave);
    assert_eq!(w.calls, 0);
}

#[test]
fn room_outside_category_cannot_be_saved() {
    let mut w = world();
    let mut cache = SavedRoomCache::new();
    add_guest_to_cache(&mut cache, 5, 7, 9);
    let info = RoomInfo { id: 5, name: "r".to_string(), category_id: None };
    assert_eq!(save_room(&mut w, &cache, info, None), SaveOutcome::OutsideCategory);
    assert_eq!(w.calls, 0);
}

#[test]
fn room_outside_template_cannot_be_saved() {
    let mut w = world();
    lobby(&mut w, 100, 200, "room");
    let mut cache = SavedRoomCache::new();
    add_guest_to_cache(&mut cache, 5, 7, 9);
    let info = RoomInfo { id: 5, name: "r".to_string(), category_id: Some(201) };
    assert_eq!(
        save_room(&mut w, &cache, info, None),
        SaveOutcome::OutsideTemplate { category_id: 201 }
    );
    assert!(w.profiles.is_empty());
}

#[test]
fn save_store_failures_are_reported() {
    for failing in [0, 1] {
        let mut w = world();
        lobby(&mut w, 100, 200, "room");
        w.failing = vec![failing];
        let mut cache = SavedRoomCache::new();
        add_guest_to_cache(&mut cache, 5, 7, 9);
        let info = RoomInfo { id: 5, name: "r".to_string(), category_id: Some(200) };
        assert_eq!(
            save_room(&mut w, &cache, info, None),
            SaveOutcome::Failed(ErrorKind::StoreError)
        );
        assert!(w.profiles.is_empty());
        assert!(w.guests.is_empty());
    }
}

#[test]
fn reconciliation_sweeps_rooms_then_categories() {
    let mut w = world();
    lobby(&mut w, 100, 200, "room");
    room(&mut w, 1, Some(200), 2);
    room(&mut w, 2, Some(200), 0);
    w.monitored.push(MonitoredAutoRoom { channel_id: 2, owner_id: 7 });
    w.monitored.push(MonitoredAutoRoom { channel_id: 3, owner_id: 8 });
    let outcome = reconcile(&mut w, 42);
    assert_eq!(
        outcome,
        ReconcileOutcome {
            rooms: SweepOutcome::Swept(SweepSummary {
                monitored: 2,
                outdated: 1,
                empty_deleted: 1,
            }),
            categories: CategoryOutcome::Swept(CategorySummary {
                categories: 1,
                outdated: 0,
                adopted: 1,
                deleted: 0,
            }),
        }
    );
    assert_eq!(rows(&w), vec![(1, 42)]);
    assert_eq!(
        w.log,
        vec![
            "AllMonitored".to_string(),
            "ResolveRooms([MonitoredAutoRoom { channel_id: 2, owner_id: 7 }, \
             MonitoredAutoRoom { channel_id: 3, owner_id: 8 }])"
                .to_string(),
            "DeleteChannels([2])".to_string(),
            "RemoveManyMonitored([3, 2])".to_string(),
            "AllCategoryIds".to_string(),
            "ResolveCategories([200])".to_string(),
            "DeleteChannels([])".to_string(),
            "DeleteTemplates(ManyByCategoryId([]))".to_string(),
            "InsertMonitoredIfAbsent([MonitoredAutoRoom { channel_id: 1, owner_id: 42 }])"
                .to_string(),
        ]
    );
}

#[test]
fn reconciliation_twice_is_reconciliation_once() {
    let mut w = world();
    lobby(&mut w, 100, 200, "room");
    lobby(&mut w, 102, 300, "gone");
    w.categories.remove(&300);
    room(&mut w, 1, Some(200), 2);
    room(&mut w, 2, Some(200), 0);
    room(&mut w, 3, None, 1);
    w.monitored.push(MonitoredAutoRoom { channel_id: 3, owner_id: 7 });
    w.monitored.push(MonitoredAutoRoom { channel_id: 5, owner_id: 9 });
    reconcile(&mut w, 42);
    let once = rows(&w);
    assert_eq!(once, vec![(3, 7), (1, 42)]);
    let again = reconcile(&mut w, 42);
    assert_eq!(rows(&w), once);
    assert_eq!(
        again.rooms,
        SweepOutcome::Swept(SweepSummary { monitored: 2, outdated: 0, empty_deleted: 0 })
    );
    w.failing = vec![w.calls + 3];
    reconcile(&mut w, 42);
    assert_eq!(rows(&w), once);
}

#[test]
fn categories_are_swept_after_a_failed_room_sweep() {
    let mut w = world();
    lobby(&mut w, 100, 200, "room");
    room(&mut w, 1, Some(200), 2);
    w.monitored.push(MonitoredAutoRoom { channel_id: 9, owner_id: 7 });
    w.failing = vec![0];
    let outcome = reconcile(&mut w, 42);
    assert_eq!(outcome.rooms, SweepOutcome::Failed(ErrorKind::StoreError));
    assert_eq!(
        outcome.categories,
        CategoryOutcome::Swept(CategorySummary {
            categories: 1,
            outdated: 0,
            adopted: 1,
            deleted: 0,
        })
    );
    assert_eq!(rows(&w), vec![(9, 7), (1, 42)]);
}
