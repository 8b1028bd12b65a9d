//! Messages exchanged with a connected client.
use vstd::prelude::*;

verus! {

/// Message from server to client.
pub enum ServerMessage {
    /// Current state of the room
    State(RoomState),
    /// Who buzzed
    Buzzed(Option<String>),
}

/// Message from client to server.
#[derive(Clone, Copy, Debug, PartialEq, Eq, Structural)]
pub enum ClientMessage {
    /// Press the buzzer
    Buzz,
    /// Free the buzzer
    FreeBuzzer,
    /// Leave
    Leave,
}

/// Snapshot of a room as sent to clients.
pub struct RoomState {
    /// Room members (names)
    pub members: Vec<String>,
    /// Host
    pub host: String,
    /// Buzzing person
    pub buzzed: Option<String>,
}

/// What a snapshot says: the member names in order, the host, who buzzed.
#[verifier::ext_equal]
pub struct RoomView {
    pub members: Seq<Seq<char>>,
    pub host: Seq<char>,
    pub buzzed: Option<Seq<char>>,
}

/// What a server message says.
pub enum MessageView {
    State(RoomView),
    Buzzed(Option<Seq<char>>),
}

/// The text of an optional name.
pub open spec fn opt_view(o: Option<String>) -> Option<Seq<char>> {
    match o {
        Some(s) => Some(s@),
        None => None,
    }
}

/// The texts of a list of names.
pub open spec fn names_view(v: Seq<String>) -> Seq<Seq<char>> {
    v.map_values(|s: String| s@)
}

impl View for RoomState {
    type V = RoomView;

    open spec fn view(&self) -> RoomView {
        RoomView { members: names_view(self.members@), host: self.host@, buzzed: opt_view(self.buzzed) }
    }
}

impl View for ServerMessage {
    type V = MessageView;

    open spec fn view(&self) -> MessageView {
        match self {
            ServerMessage::State(s) => MessageView::State(s@),
            ServerMessage::Buzzed(b) => MessageView::Buzzed(opt_view(*b)),
        }
    }
}

/// Clone an optional name.
pub fn clone_name(o: &Option<String>) -> (r: Option<String>)
    ensures
        opt_view(r) == opt_view(*o),
{
    match o {
        Some(s) => Some(s.clone()),
        None => None,
    }
}

} // verus!
