use buzzer::rooms::{RoomState, UserData};
use buzzer::session::{handle_client_message, step, SessionAction, SessionEvent, SessionPhase};
use buzzer::websocket::ClientMessage;

#[test]
fn accepted_join_sends_snapshot() {
    assert_eq!(step(SessionPhase::Connecting, SessionEvent::JoinAccepted), (SessionPhase::Joined, SessionAction::SendSnapshot));
}

#[test]
fn refused_join_rejects_without_leaving() {
    assert_eq!(step(SessionPhase::Connecting, SessionEvent::JoinRefused), (SessionPhase::Closed, SessionAction::Reject));
}

#[test]
fn messages_are_applied_while_joined() {
    assert_eq!(
        step(SessionPhase::Joined, SessionEvent::Inbound(ClientMessage::Buzz)),
        (SessionPhase::Joined, SessionAction::Apply(ClientMessage::Buzz))
    );
    assert_eq!(
        step(SessionPhase::Joined, SessionEvent::Inbound(ClientMessage::FreeBuzzer)),
        (SessionPhase::Joined, SessionAction::Apply(ClientMessage::FreeBuzzer))
    );
}

#[test]
fn leave_message_and_closed_transport_leave() {
    assert_eq!(
        step(SessionPhase::Joined, SessionEvent::Inbound(ClientMessage::Leave)),
        (SessionPhase::Closing, SessionAction::Leave)
    );
    assert_eq!(step(SessionPhase::Joined, SessionEvent::TransportClosed), (SessionPhase::Closing, SessionAction::Leave));
}

#[test]
fn malformed_message_is_dropped() {
    assert_eq!(step(SessionPhase::Joined, SessionEvent::Malformed), (SessionPhase::Joined, SessionAction::Idle));
}

#[test]
fn empty_room_is_reclaimed_after_leave() {
    assert_eq!(step(SessionPhase::Closing, SessionEvent::Left(0)), (SessionPhase::Closed, SessionAction::Reclaim));
    assert_eq!(step(SessionPhase::Closing, SessionEvent::Left(2)), (SessionPhase::Closed, SessionAction::Idle));
}

#[test]
fn closed_session_stays_closed() {
    assert_eq!(step(SessionPhase::Closed, SessionEvent::JoinAccepted), (SessionPhase::Closed, SessionAction::Idle));
    assert_eq!(step(SessionPhase::Connecting, SessionEvent::TransportClosed), (SessionPhase::Closed, SessionAction::Idle));
}

#[test]
fn client_messages_drive_the_room() {
    let mut room = RoomState::new();
    let a = UserData { name: "A".to_string() };
    let b = UserData { name: "B".to_string() };
    room.join_member(UserData { name: "A".to_string() });
    room.join_member(UserData { name: "B".to_string() });
    assert_eq!(handle_client_message(&mut room, &b, ClientMessage::Buzz), Some(()));
    assert_eq!(room.buzzed(), Some("B".to_string()));
    assert_eq!(handle_client_message(&mut room, &a, ClientMessage::Buzz), Some(()));
    assert_eq!(room.buzzed(), Some("B".to_string()));
    assert_eq!(handle_client_message(&mut room, &b, ClientMessage::FreeBuzzer), Some(()));
    assert_eq!(room.buzzed(), Some("B".to_string()));
    assert_eq!(handle_client_message(&mut room, &a, ClientMessage::FreeBuzzer), Some(()));
    assert_eq!(room.buzzed(), None);
    assert_eq!(handle_client_message(&mut room, &a, ClientMessage::Leave), None);
    assert_eq!(room.num_members(), 2);
}
