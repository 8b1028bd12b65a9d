//! State kept by the browser client.
use vstd::prelude::*;
use crate::api::LoginInfo;
use crate::websocket::{RoomState, ServerMessage};

verus! {

/// The signed-in user, as the client remembers it.
pub struct UserData {
    /// Username
    pub name: String,
    /// Login token
    pub token: String,
}

/// Global client state.
pub struct GlobalState {
    /// User data
    pub user: Option<UserData>,
}

/// Actions on the global state.
pub enum GlobalStateAction {
    /// Set the `user` field to the `UserData`.
    ReplaceUser(UserData),
}

impl GlobalState {
    /// No user signed in yet.
    pub fn new() -> (r: Self)
        ensures
            r.user is None,
    {
        GlobalState { user: None }
    }

    /// The state after `action`.
    pub fn reduce(&self, action: GlobalStateAction) -> (r: GlobalState)
        ensures
            match action {
                GlobalStateAction::ReplaceUser(u) => r.user == Some(u),
            },
    {
        let next = match action {
            GlobalStateAction::ReplaceUser(user_data) => user_data,
        };
        GlobalState { user: Some(next) }
    }
}

/// The name form: what has been typed and how the field is marked.
pub struct UserEdit {
    /// Value of the name input field
    input_name: String,
    /// Additional CSS class of the input field
    input_class: Option<&'static str>,
}

impl UserEdit {
    /// An empty, unmarked form.
    pub fn new() -> (r: Self)
        ensures
            r.input_name().len() == 0,
            r.input_class() is None,
    {
        UserEdit { input_name: String::new(), input_class: None }
    }

    /// What has been typed.
    pub closed spec fn input_name(&self) -> Seq<char> {
        self.input_name@
    }

    /// How the field is marked.
    pub closed spec fn input_class(&self) -> Option<&'static str> {
        self.input_class
    }

    /// The field's mark, read.
    pub fn class(&self) -> (r: Option<&'static str>)
        ensures
            r == self.input_class(),
    {
        self.input_class
    }

    /// The user typed: keep the value and mark the field as acceptable or not.
    pub fn input_changed(&mut self, value: String)
        ensures
            final(self).input_name() == value@,
            final(self).input_class() == Some(if value@.len() > 0 { "is-success" } else { "is-warning" }),
    {
        let valid = !value.as_str().is_empty();
        self.input_name = value;
        self.input_class = Some(if valid { "is-success" } else { "is-warning" });
    }

    /// The user saved: an acceptable name yields the login to send and marks
    /// the field as loading; an empty one marks it as wrong and yields nothing.
    pub fn save(&mut self) -> (r: Option<LoginInfo>)
        ensures
            final(self).input_name() == old(self).input_name(),
            r is Some <==> old(self).input_name().len() > 0,
            r matches Some(l) ==> l.username@ == old(self).input_name(),
            final(self).input_class() == Some(
                if old(self).input_name().len() > 0 { "is-loading" } else { "is-danger" },
            ),
    {
        let login_info = LoginInfo { username: self.input_name.clone() };
        if login_info.is_valid() {
            self.input_class = Some("is-loading");
            Some(login_info)
        } else {
            self.input_class = Some("is-danger");
            None
        }
    }
}

/// The room identifier that a text denotes, as uuid's parser reads it (any
/// of its formats), or nothing. It depends on the text alone.
pub uninterp spec fn parsed_room_id(s: Seq<char>) -> Option<u128>;

/// Relies on uuid's `Uuid::parse_str`, taken as 128 bits. An empty text is
/// no identifier: the parser accepts only texts of 32, 36, 38 or 45 bytes.
#[verifier::external_body]
fn parse_room_id(s: &str) -> (r: Option<u128>)
    ensures
        r == parsed_room_id(s@),
        s@.len() == 0 ==> r is None,
{
    match uuid::Uuid::parse_str(s) {
        Ok(id) => Some(id.as_u128()),
        Err(_) => None,
    }
}

/// Relies on uuid's `Uuid::new_v4`, taken as 128 bits: a random identifier.
#[verifier::external_body]
fn random_room_id() -> (r: u128) {
    uuid::Uuid::new_v4().as_u128()
}

/// The start page's room form: the room to join and how the field is marked.
pub struct Index {
    /// Room ID to join
    room_id: Option<u128>,
    /// Additional CSS class of the input field
    input_class: Option<&'static str>,
}

impl Index {
    /// No room chosen, field unmarked.
    pub fn new() -> (r: Self)
        ensures
            r.room_id() is None,
            r.input_class() is None,
    {
        Index { room_id: None, input_class: None }
    }

    /// The room chosen so far.
    pub closed spec fn room_id(&self) -> Option<u128> {
        self.room_id
    }

    /// How the field is marked.
    pub closed spec fn input_class(&self) -> Option<&'static str> {
        self.input_class
    }

    /// The room chosen so far, read.
    pub fn chosen(&self) -> (r: Option<u128>)
        ensures
            r == self.room_id(),
    {
        self.room_id
    }

    /// The field's mark, read.
    pub fn class(&self) -> (r: Option<&'static str>)
        ensures
            r == self.input_class(),
    {
        self.input_class
    }

    /// The typed text was read as `parsed`: keep it and mark the field as
    /// acceptable or not.
    pub fn room_id_parsed(&mut self, parsed: Option<u128>)
        ensures
            final(self).room_id() == parsed,
            final(self).input_class() == Some(if parsed is Some { "is-success" } else { "is-warning" }),
    {
        self.input_class = Some(if parsed.is_some() { "is-success" } else { "is-warning" });
        self.room_id = parsed;
    }

    /// The user typed `value` into the room field.
    pub fn input_changed(&mut self, value: &str)
        ensures
            final(self).room_id() == parsed_room_id(value@),
            final(self).input_class() == Some(
                if parsed_room_id(value@) is Some { "is-success" } else { "is-warning" },
            ),
    {
        let parsed = parse_room_id(value);
        self.room_id_parsed(parsed);
    }

    /// The user asked to join: the chosen room, or nothing and the field is
    /// marked as wrong.
    pub fn join_room(&mut self) -> (r: Option<u128>)
        ensures
            r == old(self).room_id(),
            final(self).room_id() == old(self).room_id(),
            final(self).input_class() == (if r is Some {
                old(self).input_class()
            } else {
                Some("is-danger")
            }),
    {
        if self.room_id.is_none() {
            self.input_class = Some("is-danger");
        }
        self.room_id
    }

    /// The user asked for a new room: a fresh random one is chosen.
    pub fn create_room(&mut self) -> (r: u128)
        ensures
            final(self).room_id() == Some(r),
            final(self).input_class() == old(self).input_class(),
    {
        let id = random_room_id();
        self.room_id = Some(id);
        id
    }
}

/// The room as the client shows it after `msg` arrived: a snapshot replaces
/// it, a buzz notice replaces who buzzed.
pub fn apply_server_message(state: &mut RoomState, msg: ServerMessage)
    ensures
        match msg {
            ServerMessage::State(s) => *final(state) == s,
            ServerMessage::Buzzed(b) => final(state).members == old(state).members
                && final(state).host == old(state).host && final(state).buzzed == b,
        },
{
    match msg {
        ServerMessage::State(s) => {
            *state = s;
        },
        ServerMessage::Buzzed(b) => {
            state.buzzed = b;
        },
    }
}

/// Whether `my_name` hosts the shown room, and so may free the buzzer.
pub fn is_host(state: &RoomState, my_name: &String) -> (r: bool)
    ensures
        r == (state.host@ == my_name@),
{
    state.host == *my_name
}

} // verus!
