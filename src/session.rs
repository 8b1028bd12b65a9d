//! Decisions of one client connection to a room.
//!
//! The server drives each connection through `Connecting → Joined → Closing
//! → Closed`: it performs the action that `step` returns and reports back
//! what happened as the next event.
use vstd::prelude::*;
use crate::rooms::{RoomState, UserData};
use crate::websocket::ClientMessage;

verus! {

/// Where a connection stands.
#[derive(Clone, Copy, Debug, PartialEq, Eq, Structural)]
pub enum SessionPhase {
    /// Identity resolved, join not yet answered.
    Connecting,
    /// Member of the room, exchanging messages.
    Joined,
    /// Leaving the room.
    Closing,
    /// Finished; nothing more happens.
    Closed,
}

/// What happened since the last step.
#[derive(Clone, Copy, Debug, PartialEq, Eq, Structural)]
pub enum SessionEvent {
    /// The room accepted the join.
    JoinAccepted,
    /// The room refused the join: the name is taken.
    JoinRefused,
    /// The client sent a message that decoded.
    Inbound(ClientMessage),
    /// The client sent a message that did not decode.
    Malformed,
    /// The transport closed, failed, or a send to the client failed.
    TransportClosed,
    /// The leave went through; this many members remain.
    Left(usize),
}

/// What the server is to do next.
#[derive(Clone, Copy, Debug, PartialEq, Eq, Structural)]
pub enum SessionAction {
    /// Nothing.
    Idle,
    /// Send the room's snapshot, then forward the room's events.
    SendSnapshot,
    /// End the connection with an error the client can tell apart.
    Reject,
    /// Apply the client's message to the room.
    Apply(ClientMessage),
    /// Leave the room.
    Leave,
    /// Remove the room from the registry if it is still empty.
    Reclaim,
}

/// The transition table of a connection.
pub open spec fn transition(phase: SessionPhase, event: SessionEvent) -> (SessionPhase, SessionAction) {
    match (phase, event) {
        (SessionPhase::Connecting, SessionEvent::JoinAccepted) => (SessionPhase::Joined, SessionAction::SendSnapshot),
        (SessionPhase::Connecting, SessionEvent::JoinRefused) => (SessionPhase::Closed, SessionAction::Reject),
        (SessionPhase::Connecting, SessionEvent::TransportClosed) => (SessionPhase::Closed, SessionAction::Idle),
        (SessionPhase::Joined, SessionEvent::Inbound(ClientMessage::Leave)) => (SessionPhase::Closing, SessionAction::Leave),
        (SessionPhase::Joined, SessionEvent::Inbound(m)) => (SessionPhase::Joined, SessionAction::Apply(m)),
        (SessionPhase::Joined, SessionEvent::TransportClosed) => (SessionPhase::Closing, SessionAction::Leave),
        (SessionPhase::Closing, SessionEvent::Left(n)) => (
            SessionPhase::Closed,
            if n == 0 { SessionAction::Reclaim } else { SessionAction::Idle },
        ),
        _ => (phase, SessionAction::Idle),
    }
}

/// A connection leaves the room only from `Joined`, so a refused join never
/// removes the member who holds the name; it reclaims a room only right
/// after its own leave found the room empty; and once closed it stays
/// closed and does nothing.
pub proof fn lemma_session_order(phase: SessionPhase, event: SessionEvent)
    ensures
        transition(phase, event).1 == SessionAction::Leave ==> phase == SessionPhase::Joined,
        transition(phase, event).1 == SessionAction::Reclaim ==> phase == SessionPhase::Closing
            && event == SessionEvent::Left(0),
        transition(phase, event).1 == SessionAction::Reject ==> transition(phase, event).0
            == SessionPhase::Closed,
        phase == SessionPhase::Closed ==> transition(phase, event) == (SessionPhase::Closed, SessionAction::Idle),
{
}

/// Next phase and action of a connection. A malformed message is dropped;
/// a refused join ends the connection without leaving, so the member who
/// holds the name stays.
pub fn step(phase: SessionPhase, event: SessionEvent) -> (r: (SessionPhase, SessionAction))
    ensures
        r == transition(phase, event),
{
    match (phase, event) {
        (SessionPhase::Connecting, SessionEvent::JoinAccepted) => (SessionPhase::Joined, SessionAction::SendSnapshot),
        (SessionPhase::Connecting, SessionEvent::JoinRefused) => (SessionPhase::Closed, SessionAction::Reject),
        (SessionPhase::Connecting, SessionEvent::TransportClosed) => (SessionPhase::Closed, SessionAction::Idle),
        (SessionPhase::Joined, SessionEvent::Inbound(ClientMessage::Leave)) => (SessionPhase::Closing, SessionAction::Leave),
        (SessionPhase::Joined, SessionEvent::Inbound(m)) => (SessionPhase::Joined, SessionAction::Apply(m)),
        (SessionPhase::Joined, SessionEvent::TransportClosed) => (SessionPhase::Closing, SessionAction::Leave),
        (SessionPhase::Closing, SessionEvent::Left(n)) => (
            SessionPhase::Closed,
            if n == 0 { SessionAction::Reclaim } else { SessionAction::Idle },
        ),
        _ => (phase, SessionAction::Idle),
    }
}

/// Apply a client's message to the room on behalf of `user_data`. A buzz
/// claims the buzzer if it is free; freeing is done only for the host and
/// silently ignored for anybody else. `None` means the client asked to
/// leave and the session is to close.
pub fn handle_client_message(room: &mut RoomState, user_data: &UserData, client_msg: ClientMessage) -> (r: Option<()>)
    requires
        old(room).wf(),
    ensures
        final(room).wf(),
        match client_msg {
            ClientMessage::Buzz => r is Some && final(room)@ == old(room)@.buzzed_by(user_data.name@),
            ClientMessage::FreeBuzzer => r is Some && final(room)@ == old(room)@.freed_by(user_data.name@),
            ClientMessage::Leave => r is None && final(room)@ == old(room)@,
        },
{
    match client_msg {
        ClientMessage::Buzz => {
            let _ = room.buzz(&user_data.name);
            Some(())
        },
        ClientMessage::FreeBuzzer => {
            let _ = room.free_buzzer(&user_data.name);
            Some(())
        },
        ClientMessage::Leave => None,
    }
}

} // verus!
