use buzzer::components::{apply_server_message, is_host, GlobalState, GlobalStateAction, Index, UserData, UserEdit};
use buzzer::websocket::{RoomState, ServerMessage};

#[test]
fn reduce_replaces_user() {
    let g = GlobalState::new();
    assert!(g.user.is_none());
    let g = g.reduce(GlobalStateAction::ReplaceUser(UserData { name: "A".to_string(), token: "t".to_string() }));
    let u = g.user.unwrap();
    assert_eq!(u.name, "A");
    assert_eq!(u.token, "t");
}

#[test]
fn user_edit_marks_input() {
    let mut e = UserEdit::new();
    assert_eq!(e.class(), None);
    e.input_changed(String::new());
    assert_eq!(e.class(), Some("is-warning"));
    e.input_changed("bo".to_string());
    assert_eq!(e.class(), Some("is-success"));
}

#[test]
fn user_edit_save() {
    let mut e = UserEdit::new();
    assert!(e.save().is_none());
    assert_eq!(e.class(), Some("is-danger"));
    e.input_changed("bo".to_string());
    let login = e.save().unwrap();
    assert_eq!(login.username, "bo");
    assert_eq!(e.class(), Some("is-loading"));
}

#[test]
fn server_messages_update_shown_room() {
    let mut shown = RoomState { members: vec![], host: String::new(), buzzed: None };
    let snap = RoomState { members: vec!["A".to_string(), "B".to_string()], host: "A".to_string(), buzzed: None };
    apply_server_message(&mut shown, ServerMessage::State(snap));
    assert_eq!(shown.members, vec!["A".to_string(), "B".to_string()]);
    apply_server_message(&mut shown, ServerMessage::Buzzed(Some("B".to_string())));
    assert_eq!(shown.buzzed, Some("B".to_string()));
    assert_eq!(shown.host, "A");
    assert!(is_host(&shown, &"A".to_string()));
    assert!(!is_host(&shown, &"B".to_string()));
}

#[test]
fn index_reads_typed_room_id() {
    let mut idx = Index::new();
    assert_eq!(idx.chosen(), None);
    idx.input_changed("550e8400-e29b-41d4-a716-446655440000");
    assert_eq!(idx.chosen(), Some(0x550e8400_e29b_41d4_a716_446655440000));
    assert_eq!(idx.class(), Some("is-success"));
    idx.input_changed("550e8400e29b41d4a716446655440000");
    assert_eq!(idx.chosen(), Some(0x550e8400_e29b_41d4_a716_446655440000));
}

#[test]
fn index_rejects_bad_room_id() {
    let mut idx = Index::new();
    idx.input_changed("not a room");
    assert_eq!(idx.chosen(), None);
    assert_eq!(idx.class(), Some("is-warning"));
    idx.input_changed("");
    assert_eq!(idx.chosen(), None);
}

#[test]
fn index_room_id_parsed_marks_field() {
    let mut idx = Index::new();
    idx.room_id_parsed(Some(9));
    assert_eq!((idx.chosen(), idx.class()), (Some(9), Some("is-success")));
    idx.room_id_parsed(None);
    assert_eq!((idx.chosen(), idx.class()), (None, Some("is-warning")));
}

#[test]
fn index_join_without_room_marks_error() {
    let mut idx = Index::new();
    assert_eq!(idx.join_room(), None);
    assert_eq!(idx.class(), Some("is-danger"));
    idx.room_id_parsed(Some(3));
    assert_eq!(idx.join_room(), Some(3));
    assert_eq!(idx.class(), Some("is-success"));
}

#[test]
fn index_create_room_picks_fresh_id() {
    let mut idx = Index::new();
    let a = idx.create_room();
    assert_eq!(idx.chosen(), Some(a));
    let b = idx.create_room();
    assert_ne!(a, b);
    assert_eq!((b >> 76) & 0xf, 4);
}
