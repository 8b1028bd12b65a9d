use buzzer::registry::RoomRegistry;

#[test]
fn get_or_create_is_idempotent() {
    let mut reg: RoomRegistry<&str> = RoomRegistry::new();
    assert!(reg.get_or_create(7, "first"));
    assert!(!reg.get_or_create(7, "second"));
    assert_eq!(reg.get(7), Some(&"first"));
    assert_eq!(reg.len(), 1);
}

#[test]
fn rooms_are_kept_apart() {
    let mut reg: RoomRegistry<u32> = RoomRegistry::new();
    reg.get_or_create(1, 10);
    reg.get_or_create(2, 20);
    assert_eq!(reg.get(1), Some(&10));
    assert_eq!(reg.get(2), Some(&20));
    assert_eq!(reg.get(3), None);
    assert_eq!(reg.len(), 2);
}

#[test]
fn remove_if_empty_only_when_no_members_remain() {
    let mut reg: RoomRegistry<u32> = RoomRegistry::new();
    reg.get_or_create(u128::MAX, 1);
    assert!(!reg.remove_if_empty(u128::MAX, 3));
    assert!(reg.contains(u128::MAX));
    assert!(reg.remove_if_empty(u128::MAX, 0));
    assert!(!reg.contains(u128::MAX));
    assert!(!reg.remove_if_empty(u128::MAX, 0));
}

#[test]
fn room_recreated_after_reclaim() {
    let mut reg: RoomRegistry<u32> = RoomRegistry::new();
    reg.get_or_create(5, 1);
    reg.remove_if_empty(5, 0);
    assert!(reg.get_or_create(5, 2));
    assert_eq!(reg.get(5), Some(&2));
}
