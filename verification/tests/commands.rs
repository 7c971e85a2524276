use autoroom::cache::SavedRoomCache;
use autoroom::checks::{
    get_user_guild_voice_channel, get_user_voice_channel, get_voice_channel_category,
    have_ctx_guild_id, is_admin_or_owner, parse_ctx_guild_id, CommandFailure,
};
use autoroom::gateway::{Request, Response};
use autoroom::profiles::{confirm_guest_grant, find_profile};
use autoroom::provision::room_name;
use autoroom::records::{
    AutoRoom, AutoRoomDeleteStrategy, MonitoredAutoRoom, SavedRoom, SavedRoomDTO, SavedRoomGuest,
};

fn profile(id: i32, name: &str) -> SavedRoom {
    SavedRoom::new(
        id,
        SavedRoomDTO {
            owner_id: 7,
            name: name.to_string(),
            room_name: format!("room of {}", id),
            autoroom_id: 100,
        },
    )
}

#[test]
fn bot_owners_and_guild_owner_are_admitted() {
    assert!(is_admin_or_owner(7, &vec![1, 7], None));
    assert!(is_admin_or_owner(7, &vec![], Some(7)));
    assert!(is_admin_or_owner(7, &vec![7], Some(8)));
    assert!(!is_admin_or_owner(7, &vec![1, 2], Some(8)));
    assert!(!is_admin_or_owner(7, &vec![], None));
}

#[test]
fn guild_of_a_command() {
    assert_eq!(parse_ctx_guild_id(Some(3)), Ok(3));
    assert_eq!(parse_ctx_guild_id(None), Err(CommandFailure::OutsideGuild));
    assert!(have_ctx_guild_id(Some(3)));
    assert!(!have_ctx_guild_id(None));
}

#[test]
fn voice_channel_of_a_user() {
    assert_eq!(get_user_voice_channel(true, Some(Some(5))), Ok(5));
    assert_eq!(get_user_voice_channel(true, Some(None)), Err(CommandFailure::NotConnected));
    assert_eq!(get_user_voice_channel(true, None), Err(CommandFailure::NotConnected));
    assert_eq!(get_user_voice_channel(false, Some(Some(5))), Err(CommandFailure::OutsideGuild));
    assert_eq!(get_user_voice_channel(false, None), Err(CommandFailure::OutsideGuild));
}

#[test]
fn category_of_a_voice_channel() {
    assert_eq!(get_voice_channel_category(5, Some(200)), Ok(200));
    assert_eq!(
        get_voice_channel_category(5, None),
        Err(CommandFailure::OutsideCategory { channel_id: 5 })
    );
}

#[test]
fn room_names() {
    assert_eq!(room_name(&"U1".to_string(), &"room".to_string()), "U1's room");
    assert_eq!(room_name(&"".to_string(), &"".to_string()), "'s ");
    assert_eq!(room_name(&"Zoë".to_string(), &"den of 7".to_string()), "Zoë's den of 7");
}

#[test]
fn first_profile_with_the_name_is_chosen() {
    let profiles = vec![profile(1, "weekday"), profile(2, "weekend"), profile(3, "weekend")];
    let chosen = find_profile(&profiles, &"weekend".to_string()).unwrap();
    assert_eq!(chosen.id(), 2);
    assert_eq!(chosen.room_name, "room of 2");
    let first = find_profile(&profiles, &"weekday".to_string()).unwrap();
    assert_eq!(first.id(), 1);
    assert!(find_profile(&profiles, &"week".to_string()).is_none());
    assert!(find_profile(&vec![], &"weekend".to_string()).is_none());
}

#[test]
fn guild_voice_channel_of_a_user() {
    assert_eq!(get_user_guild_voice_channel(true, Some(Some(5)), true), Ok(5));
    assert_eq!(
        get_user_guild_voice_channel(true, Some(Some(5)), false),
        Err(CommandFailure::OutsideAutoroomGuild)
    );
    assert_eq!(
        get_user_guild_voice_channel(true, Some(None), true),
        Err(CommandFailure::NotConnected)
    );
    assert_eq!(get_user_guild_voice_channel(true, None, false), Err(CommandFailure::NotConnected));
    assert_eq!(
        get_user_guild_voice_channel(false, Some(Some(5)), true),
        Err(CommandFailure::OutsideGuild)
    );
}

#[test]
fn requests_for_the_store() {
    assert!(matches!(
        AutoRoom::get_by_channel_id(100),
        Request::FindTemplate { channel_id: 100 }
    ));
    assert!(matches!(
        AutoRoom::get_by_category_id(200),
        Request::FindTemplateByCategory { category_id: 200 }
    ));
    assert!(matches!(AutoRoom::get_all_category_ids(), Request::AllCategoryIds));
    match AutoRoom::delete(AutoRoomDeleteStrategy::ManyByCategoryId(vec![1, 2])) {
        Request::DeleteTemplates(AutoRoomDeleteStrategy::ManyByCategoryId(ids)) => {
            assert_eq!(ids, vec![1, 2])
        }
        other => panic!("unexpected request {:?}", other),
    }
    assert!(matches!(
        MonitoredAutoRoom::is_monitored(5),
        Request::MonitoredExists { channel_id: 5 }
    ));
    assert!(matches!(MonitoredAutoRoom::remove(5), Request::RemoveMonitored { channel_id: 5 }));
    assert!(matches!(
        MonitoredAutoRoom::new(5, 7),
        Request::InsertMonitored(MonitoredAutoRoom { channel_id: 5, owner_id: 7 })
    ));
    assert!(matches!(
        MonitoredAutoRoom::get_by_owner_id(7),
        Request::FindMonitoredByOwner { owner_id: 7 }
    ));
    assert!(matches!(MonitoredAutoRoom::get_all(), Request::AllMonitored));
    match MonitoredAutoRoom::remove_many(vec![2, 1]) {
        Request::RemoveManyMonitored(ids) => assert_eq!(ids, vec![2, 1]),
        other => panic!("unexpected request {:?}", other),
    }
    assert!(matches!(
        SavedRoomGuest::get_guests(3),
        Request::ProfileGuests { profile_id: 3 }
    ));
    let dto = SavedRoomDTO {
        owner_id: 7,
        name: "n".to_string(),
        room_name: "r".to_string(),
        autoroom_id: 100,
    };
    match SavedRoom::insert(dto, vec![9]) {
        Request::InsertProfile { profile, guests } => {
            assert_eq!(profile.owner_id, 7);
            assert_eq!(profile.name, "n");
            assert_eq!(profile.room_name, "r");
            assert_eq!(profile.autoroom_id, 100);
            assert_eq!(guests, vec![9]);
        }
        other => panic!("unexpected request {:?}", other),
    }
}

#[test]
fn grant_confirmation_stages_only_made_grants() {
    let mut cache = SavedRoomCache::new();
    assert!(!confirm_guest_grant(&Some(Response::Failed), &mut cache, 5, 7, 9));
    assert!(!confirm_guest_grant(&None, &mut cache, 5, 7, 9));
    assert!(!confirm_guest_grant(&Some(Response::Gone), &mut cache, 5, 7, 9));
    assert!(!cache.contains(5));
    assert!(confirm_guest_grant(&Some(Response::Done), &mut cache, 5, 7, 9));
    assert_eq!(cache.get(5).unwrap().guests(), vec![9]);
    assert_eq!(cache.get(5).unwrap().owner_id(), 7);
}
