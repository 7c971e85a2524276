use autoroom::cache::{
    add_guest_to_cache, remove_guest_cache, SaveRoomCacheRecord, SavedRoomCache,
};

fn sorted(mut ids: Vec<i64>) -> Vec<i64> {
    ids.sort();
    ids
}

#[test]
fn new_record_with_and_without_a_guest() {
    let empty = SaveRoomCacheRecord::new(7, None);
    assert_eq!(empty.owner_id(), 7);
    assert!(empty.is_empty());
    assert!(empty.guests().is_empty());

    let one = SaveRoomCacheRecord::new(7, Some(9));
    assert_eq!(one.owner_id(), 7);
    assert!(!one.is_empty());
    assert_eq!(one.guests(), vec![9]);
    assert!(one.has_guest(9));
    assert!(!one.has_guest(7));
}

#[test]
fn record_holds_each_guest_once() {
    let mut record = SaveRoomCacheRecord::new(7, Some(9));
    record.add_guest(10);
    record.add_guest(9);
    record.add_guest(11);
    assert_eq!(sorted(record.guests()), vec![9, 10, 11]);
    assert_eq!(record.owner_id(), 7);
}

#[test]
fn clone_is_independent() {
    let mut record = SaveRoomCacheRecord::new(7, Some(9));
    let copy = record.clone();
    record.add_guest(10);
    assert_eq!(copy.guests(), vec![9]);
    assert_eq!(copy.owner_id(), 7);
    assert_eq!(sorted(record.guests()), vec![9, 10]);
}

#[test]
fn first_grant_creates_the_record_with_the_owner() {
    let mut cache = SavedRoomCache::new();
    assert!(!cache.contains(5));
    assert!(cache.get(5).is_none());
    add_guest_to_cache(&mut cache, 5, 7, 9);
    assert!(cache.contains(5));
    let record = cache.get(5).unwrap();
    assert_eq!(record.owner_id(), 7);
    assert_eq!(record.guests(), vec![9]);
}

#[test]
fn later_grants_add_guests_and_keep_the_owner() {
    let mut cache = SavedRoomCache::new();
    add_guest_to_cache(&mut cache, 5, 7, 9);
    add_guest_to_cache(&mut cache, 5, 8, 10);
    add_guest_to_cache(&mut cache, 5, 7, 9);
    add_guest_to_cache(&mut cache, 6, 8, 11);
    let record = cache.get(5).unwrap();
    assert_eq!(record.owner_id(), 7);
    assert_eq!(sorted(record.guests()), vec![9, 10]);
    let other = cache.get(6).unwrap();
    assert_eq!(other.owner_id(), 8);
    assert_eq!(other.guests(), vec![11]);
}

#[test]
fn eviction_drops_one_room_only() {
    let mut cache = SavedRoomCache::new();
    add_guest_to_cache(&mut cache, 5, 7, 9);
    add_guest_to_cache(&mut cache, 6, 8, 11);
    remove_guest_cache(&mut cache, 5);
    assert!(!cache.contains(5));
    assert!(cache.contains(6));
    remove_guest_cache(&mut cache, 5);
    remove_guest_cache(&mut cache, 99);
    assert!(cache.contains(6));
    assert_eq!(cache.get(6).unwrap().guests(), vec![11]);
}
