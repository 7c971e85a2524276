use autoroom::categories::{distinct_ids, CategoryPlan};
use autoroom::gateway::{
    deletion_answer, is_voice_capable, platform_id, record_id, resolvable_members, CategoryRecord,
    ChannelLookup, CleanUpDbRecord, Response, RoomSnapshot,
};
use autoroom::reaper::{occupancy, Occupancy};
use autoroom::records::MonitoredAutoRoom;
use autoroom::sweep::{classify, concat_ids, CleanUpDbResult, RoomClass};

fn record(channel_id: i64, channel: ChannelLookup) -> CleanUpDbRecord {
    CleanUpDbRecord { channel, autoroom: MonitoredAutoRoom { channel_id, owner_id: 7 } }
}

fn found(id: i64, members: u64) -> ChannelLookup {
    ChannelLookup::Room(RoomSnapshot { id, owner_id: None, members })
}

fn child(id: i64, owner_id: Option<i64>, members: u64) -> RoomSnapshot {
    RoomSnapshot { id, owner_id, members }
}

#[test]
fn classes_of_single_rooms() {
    assert_eq!(classify(&record(1, ChannelLookup::Missing)), RoomClass::NotAGuildChannel);
    assert_eq!(classify(&record(1, ChannelLookup::NotVoice)), RoomClass::NotAGuildChannel);
    assert_eq!(classify(&record(1, found(2, 5))), RoomClass::NotMatchId);
    assert_eq!(classify(&record(1, found(2, 0))), RoomClass::NotMatchId);
    assert_eq!(classify(&record(1, found(1, 1))), RoomClass::HasMembers);
    assert_eq!(classify(&record(1, found(1, u64::MAX))), RoomClass::HasMembers);
    assert_eq!(classify(&record(1, found(1, 0))), RoomClass::Empty);
}

#[test]
fn rooms_are_sorted_by_class_in_order() {
    let records = vec![
        record(1, found(1, 0)),
        record(2, ChannelLookup::Missing),
        record(3, found(3, 4)),
        record(4, found(40, 4)),
        record(5, ChannelLookup::NotVoice),
        record(6, found(6, 0)),
    ];
    let result = CleanUpDbResult::of(&records);
    assert_eq!(result.not_a_guild_channel, vec![2, 5]);
    assert_eq!(result.not_match_ids, vec![4]);
    assert_eq!(result.are_empty, vec![1, 6]);
    assert_eq!(result.outdated(), vec![2, 5, 4]);
    assert_eq!(result.ids_to_delete(), vec![2, 5, 4, 1, 6]);
}

#[test]
fn nothing_swept_nothing_found() {
    let result = CleanUpDbResult::of(&vec![]);
    assert!(result.not_a_guild_channel.is_empty());
    assert!(result.not_match_ids.is_empty());
    assert!(result.are_empty.is_empty());
    assert!(result.outdated().is_empty());
    assert!(result.ids_to_delete().is_empty());
}

#[test]
fn concat_keeps_order() {
    assert_eq!(concat_ids(&vec![1, 2], &vec![3]), vec![1, 2, 3]);
    assert_eq!(concat_ids(&vec![], &vec![3, 3]), vec![3, 3]);
    assert_eq!(concat_ids(&vec![4], &vec![]), vec![4]);
    assert!(concat_ids(&vec![], &vec![]).is_empty());
}

#[test]
fn occupancy_of_a_lookup() {
    assert_eq!(occupancy(1, &ChannelLookup::Missing), Occupancy::Gone);
    assert_eq!(occupancy(1, &ChannelLookup::NotVoice), Occupancy::Gone);
    assert_eq!(occupancy(1, &found(2, 0)), Occupancy::Gone);
    assert_eq!(occupancy(1, &found(2, 3)), Occupancy::Gone);
    assert_eq!(occupancy(1, &found(1, 0)), Occupancy::Empty);
    assert_eq!(occupancy(1, &found(1, 1)), Occupancy::Occupied);
}

#[test]
fn distinct_keeps_first_occurrences() {
    assert_eq!(distinct_ids(&vec![200, 300, 200, 100, 300]), vec![200, 300, 100]);
    assert_eq!(distinct_ids(&vec![5, 5, 5]), vec![5]);
    assert!(distinct_ids(&vec![]).is_empty());
}

#[test]
fn plan_for_categories() {
    let records = vec![
        CategoryRecord {
            requested: 200,
            resolved: Some(200),
            children: vec![child(1, Some(8), 2), child(2, None, 0), child(3, None, 1)],
        },
        CategoryRecord { requested: 300, resolved: None, children: vec![child(4, None, 1)] },
        CategoryRecord { requested: 400, resolved: Some(401), children: vec![child(5, None, 0)] },
        CategoryRecord { requested: 500, resolved: Some(500), children: vec![child(6, None, 0)] },
    ];
    let plan = CategoryPlan::of(&records, 42);
    assert_eq!(plan.outdated, vec![300, 400]);
    assert_eq!(
        plan.adopted,
        vec![
            MonitoredAutoRoom { channel_id: 1, owner_id: 8 },
            MonitoredAutoRoom { channel_id: 3, owner_id: 42 },
        ]
    );
    assert_eq!(plan.doomed, vec![2, 6]);
}

#[test]
fn plan_for_no_categories() {
    let plan = CategoryPlan::of(&vec![], 42);
    assert!(plan.outdated.is_empty());
    assert!(plan.adopted.is_empty());
    assert!(plan.doomed.is_empty());
}

#[test]
fn voice_and_stage_channels_can_hold_rooms() {
    assert!(is_voice_capable(2));
    assert!(is_voice_capable(13));
    assert!(is_voice_capable(u8::from(serenity::model::channel::ChannelType::Voice)));
    assert!(is_voice_capable(u8::from(serenity::model::channel::ChannelType::Stage)));
    assert!(!is_voice_capable(u8::from(serenity::model::channel::ChannelType::Text)));
    assert!(!is_voice_capable(u8::from(serenity::model::channel::ChannelType::Category)));
    assert!(!is_voice_capable(0));
    assert!(!is_voice_capable(255));
}

#[test]
fn unlisted_members_resolve_to_none() {
    assert_eq!(resolvable_members(None), 0);
    assert_eq!(resolvable_members(Some(0)), 0);
    assert_eq!(resolvable_members(Some(3)), 3);
}

#[test]
fn deletion_answers() {
    assert!(matches!(deletion_answer(None), Response::Done));
    assert!(matches!(deletion_answer(Some(Some(404))), Response::Gone));
    assert!(matches!(deletion_answer(Some(Some(403))), Response::Failed));
    assert!(matches!(deletion_answer(Some(Some(500))), Response::Failed));
    assert!(matches!(deletion_answer(Some(None)), Response::Failed));
}

#[test]
fn ids_of_records_and_of_the_platform() {
    assert_eq!(platform_id(1), Some(1));
    assert_eq!(platform_id(i64::MAX), Some(i64::MAX as u64));
    assert_eq!(platform_id(0), None);
    assert_eq!(platform_id(-5), None);
    assert_eq!(record_id(1), Some(1));
    assert_eq!(record_id(i64::MAX as u64), Some(i64::MAX));
    assert_eq!(record_id(i64::MAX as u64 + 1), None);
    assert_eq!(record_id(u64::MAX), None);
    assert_eq!(record_id(0), None);
}
