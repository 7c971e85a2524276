use autoroom::records::{
    contains_id, AutoRoom, AutoRoomDeleteStrategy, MonitoredAutoRoom, SavedRoom, SavedRoomDTO,
    SavedRoomGuest,
};

fn template(channel_id: i64, category_id: i64) -> AutoRoom {
    AutoRoom::new(channel_id, 1, category_id, None)
}

#[test]
fn template_without_suffix_is_called_room() {
    let t = AutoRoom::new(100, 1, 200, None);
    assert_eq!(t.channel_id, 100);
    assert_eq!(t.guild_id, 1);
    assert_eq!(t.category_id, 200);
    assert_eq!(t.suffix, "room");
}

#[test]
fn template_keeps_given_suffix() {
    let t = AutoRoom::new(100, 1, 200, Some("den".to_string()));
    assert_eq!(t.suffix, "den");
    let copy = t.clone();
    assert_eq!(copy.suffix, "den");
    assert_eq!(copy.channel_id, 100);
}

#[test]
fn delete_strategies_select_by_their_column() {
    let t = template(100, 200);
    assert!(AutoRoomDeleteStrategy::SingleByChannelId(100).selects(&t));
    assert!(!AutoRoomDeleteStrategy::SingleByChannelId(200).selects(&t));
    assert!(AutoRoomDeleteStrategy::SingleByCategoryId(200).selects(&t));
    assert!(!AutoRoomDeleteStrategy::SingleByCategoryId(100).selects(&t));
    assert!(AutoRoomDeleteStrategy::ManyByChannelId(vec![1, 100]).selects(&t));
    assert!(!AutoRoomDeleteStrategy::ManyByChannelId(vec![1, 200]).selects(&t));
    assert!(AutoRoomDeleteStrategy::ManyByCategoryId(vec![200, 3]).selects(&t));
    assert!(!AutoRoomDeleteStrategy::ManyByCategoryId(vec![]).selects(&t));
}

#[test]
fn contains_id_finds_only_what_is_there() {
    assert!(contains_id(&vec![3, 1, 2], 2));
    assert!(contains_id(&vec![3, 1, 2], 3));
    assert!(!contains_id(&vec![3, 1, 2], 4));
    assert!(!contains_id(&vec![], 0));
}

#[test]
fn saved_room_keeps_its_id_and_fields() {
    let dto = SavedRoomDTO {
        owner_id: 7,
        name: "weekend".to_string(),
        room_name: "U1's room".to_string(),
        autoroom_id: 100,
    };
    let saved = SavedRoom::new(12, dto.clone());
    assert_eq!(saved.id(), 12);
    assert_eq!(saved.owner_id, 7);
    assert_eq!(saved.name, "weekend");
    assert_eq!(saved.room_name, "U1's room");
    assert_eq!(saved.autoroom_id, 100);
    let back = SavedRoomDTO::from(saved.clone());
    assert_eq!(back.owner_id, dto.owner_id);
    assert_eq!(back.name, dto.name);
    assert_eq!(back.room_name, dto.room_name);
    assert_eq!(back.autoroom_id, dto.autoroom_id);
    assert_eq!(saved.id(), 12);
}

#[test]
fn guest_rows_pair_each_guest_with_the_profile() {
    let rows = SavedRoomGuest::insert_many(4, &vec![9, 8, 9]);
    assert_eq!(
        rows,
        vec![
            SavedRoomGuest { savedroom_id: 4, guest_id: 9 },
            SavedRoomGuest { savedroom_id: 4, guest_id: 8 },
            SavedRoomGuest { savedroom_id: 4, guest_id: 9 },
        ]
    );
    assert!(SavedRoomGuest::insert_many(4, &vec![]).is_empty());
    assert_eq!(
        SavedRoomGuest::insert_many(-1, &vec![5]),
        vec![SavedRoomGuest { savedroom_id: -1, guest_id: 5 }]
    );
}

#[test]
fn monitored_rooms_compare_by_fields() {
    let a = MonitoredAutoRoom { channel_id: 1, owner_id: 7 };
    assert_eq!(a, MonitoredAutoRoom { channel_id: 1, owner_id: 7 });
    assert_ne!(a, MonitoredAutoRoom { channel_id: 1, owner_id: 8 });
    assert_ne!(a, MonitoredAutoRoom { channel_id: 2, owner_id: 7 });
}
