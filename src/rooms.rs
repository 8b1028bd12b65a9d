//! The state of one buzzer room and its transitions.
//!
//! Every operation takes the whole room at once (`&mut self`), so a caller
//! that holds a room behind one lock sees each operation as a single atomic
//! step. Successful changes leave exactly one event in the room's outbox;
//! the server drains the outbox under the same lock and broadcasts it.
use vstd::prelude::*;
use crate::api::LoginInfo;
use crate::websocket::{self, clone_name, names_view, opt_view, MessageView, RoomView, ServerMessage};

verus! {

/// User data
pub struct UserData {
    /// Username
    pub name: String,
}

impl From<LoginInfo> for UserData {
    fn from(login: LoginInfo) -> Self {
        Self { name: login.username }
    }
}

impl vstd::std_specs::convert::FromSpecImpl<LoginInfo> for UserData {
    open spec fn obeys_from_spec() -> bool {
        true
    }

    open spec fn from_spec(v: LoginInfo) -> Self {
        UserData { name: v.username }
    }
}

/// Why a buzzer operation did not change the room.
#[derive(Clone, Copy, Debug, PartialEq, Eq, Structural)]
pub enum RoomError {
    /// Somebody already holds the buzzer; the call changed nothing.
    AlreadyBuzzed,
    /// Only the host may free the buzzer.
    NotHost,
}

/// Abstract state of a room: member names in the order they joined, the
/// host, who holds the buzzer, and the events not yet handed out.
#[verifier::ext_equal]
pub struct RoomModel {
    pub members: Seq<Seq<char>>,
    pub host: Seq<char>,
    pub buzzed: Option<Seq<char>>,
    pub events: Seq<MessageView>,
}

impl RoomModel {
    /// The snapshot that clients are sent.
    pub open spec fn snapshot(self) -> RoomView {
        RoomView { members: self.members, host: self.host, buzzed: self.buzzed }
    }

    /// Names are unique; the host is a member, and is empty exactly when
    /// there is nobody to be host.
    pub open spec fn wf(self) -> bool {
        &&& self.members.no_duplicates()
        &&& self.members.len() == 0 ==> self.host.len() == 0
        &&& self.members.len() > 0 ==> self.members.contains(self.host)
    }

    /// Whether `name` may free the buzzer.
    pub open spec fn is_host(self, name: Seq<char>) -> bool {
        self.members.len() > 0 && self.host == name
    }

    /// The room after `name` asks to join: unchanged if the name is taken,
    /// otherwise the name is appended, becomes host if it is the first
    /// member, and the new snapshot is published.
    pub open spec fn joined(self, name: Seq<char>) -> RoomModel {
        if self.members.contains(name) {
            self
        } else {
            let members = self.members.push(name);
            let host = if self.members.len() == 0 { name } else { self.host };
            let after = RoomView { members, host, buzzed: self.buzzed };
            RoomModel { members, host, buzzed: self.buzzed, events: self.events.push(MessageView::State(after)) }
        }
    }

    /// The host after the current host left and `rest` remain: the member
    /// that joined earliest, or nobody.
    pub open spec fn successor(rest: Seq<Seq<char>>) -> Seq<char> {
        if rest.len() == 0 { Seq::empty() } else { rest[0] }
    }

    /// The room after `name` leaves: unchanged if it is not a member,
    /// otherwise the name is removed, a departing host is succeeded, and the
    /// new snapshot is published. A buzz held by the leaver stays set.
    pub open spec fn left(self, name: Seq<char>) -> RoomModel {
        if !self.members.contains(name) {
            self
        } else {
            let members = self.members.remove_value(name);
            let host = if self.host == name { Self::successor(members) } else { self.host };
            let after = RoomView { members, host, buzzed: self.buzzed };
            RoomModel { members, host, buzzed: self.buzzed, events: self.events.push(MessageView::State(after)) }
        }
    }

    /// The room after the buzzer slot is set to `b` and that is published.
    pub open spec fn with_buzzed(self, b: Option<Seq<char>>) -> RoomModel {
        RoomModel { buzzed: b, events: self.events.push(MessageView::Buzzed(b)), ..self }
    }

    /// The room after `name` buzzes: the first claim wins, later ones change
    /// nothing.
    pub open spec fn buzzed_by(self, name: Seq<char>) -> RoomModel {
        if self.buzzed is Some { self } else { self.with_buzzed(Some(name)) }
    }

    /// The room after `name` asks to free the buzzer: only the host can.
    pub open spec fn freed_by(self, name: Seq<char>) -> RoomModel {
        if self.is_host(name) { self.with_buzzed(None) } else { self }
    }
}

/// The room after `names` join one after another.
pub open spec fn joined_all(m: RoomModel, names: Seq<Seq<char>>) -> RoomModel
    decreases names.len(),
{
    if names.len() == 0 {
        m
    } else {
        joined_all(m, names.drop_last()).joined(names.last())
    }
}

/// Where `name` stands among the members, if it is one.
proof fn lemma_position(members: Seq<Seq<char>>, name: Seq<char>) -> (i: int)
    requires
        members.no_duplicates(),
        members.contains(name),
    ensures
        0 <= i < members.len(),
        members[i] == name,
        members.remove_value(name) == members.remove(i),
{
    members.index_of_first_ensures(name);
    members.index_of_first(name).unwrap()
}

/// Joining keeps the room's invariant.
pub proof fn lemma_joined_wf(m: RoomModel, name: Seq<char>)
    requires
        m.wf(),
    ensures
        m.joined(name).wf(),
{
    if !m.members.contains(name) {
        let after = m.joined(name).members;
        assert forall|i: int, j: int| 0 <= i < after.len() && 0 <= j < after.len() && i != j
            implies after[i] != after[j] by {
            if i == m.members.len() as int {
                assert(m.members.contains(m.members[j]));
            } else if j == m.members.len() as int {
                assert(m.members.contains(m.members[i]));
            }
        }
        if m.members.len() == 0 {
            assert(after[0] == name);
        } else {
            let k = choose|k: int| 0 <= k < m.members.len() && m.members[k] == m.host;
            assert(after[k] == m.host);
        }
    }
}

/// Leaving keeps the room's invariant, and removes exactly one member.
pub proof fn lemma_left_wf(m: RoomModel, name: Seq<char>)
    requires
        m.wf(),
    ensures
        m.left(name).wf(),
        m.members.contains(name) ==> m.left(name).members.len() == m.members.len() - 1,
        m.members.contains(name) ==> !m.left(name).members.contains(name),
        forall|i: int| 0 <= i < m.members.len() && m.members[i] == name
            ==> #[trigger] m.members.remove(i) == m.left(name).members,
{
    if m.members.contains(name) {
        let i = lemma_position(m.members, name);
        let rest = m.members.remove(i);
        assert forall|a: int, b: int| 0 <= a < rest.len() && 0 <= b < rest.len() && a != b
            implies rest[a] != rest[b] by {
            let a0 = if a < i { a } else { a + 1 };
            let b0 = if b < i { b } else { b + 1 };
            assert(rest[a] == m.members[a0]);
            assert(rest[b] == m.members[b0]);
        }
        let host = m.left(name).host;
        if rest.len() > 0 {
            if m.host == name {
                assert(rest[0] == host);
            } else {
                let k = choose|k: int| 0 <= k < m.members.len() && m.members[k] == m.host;
                assert(k != i);
                let k1 = if k < i { k } else { k - 1 };
                assert(rest[k1] == m.host);
            }
        }
        assert forall|k: int| 0 <= k < rest.len() implies rest[k] != name by {
            let k0 = if k < i { k } else { k + 1 };
            assert(rest[k] == m.members[k0]);
        }
    }
}

/// Joining an empty room with pairwise distinct names admits every one of
/// them, in order: the room counts as many members as there were names, and
/// the first name is host.
pub proof fn lemma_distinct_joins(m: RoomModel, names: Seq<Seq<char>>)
    requires
        m.wf(),
        m.members.len() == 0,
        names.no_duplicates(),
    ensures
        joined_all(m, names).members == names,
        joined_all(m, names).members.len() == names.len(),
        names.len() > 0 ==> joined_all(m, names).host == names[0],
    decreases names.len(),
{
    if names.len() > 0 {
        let init = names.drop_last();
        assert(init.no_duplicates());
        lemma_distinct_joins(m, init);
        assert(!init.contains(names.last())) by {
            if init.contains(names.last()) {
                let k = choose|k: int| 0 <= k < init.len() && init[k] == names.last();
                assert(names[k] == names[names.len() - 1]);
            }
        }
        assert(init.push(names.last()) =~= names);
    }
}

/// The host stays host while others join or leave.
pub proof fn lemma_host_kept(m: RoomModel, name: Seq<char>)
    requires
        m.wf(),
        m.members.len() > 0,
        name != m.host,
    ensures
        m.joined(name).host == m.host,
        m.left(name).host == m.host,
{
}

/// A join under a name already present is refused and changes nothing, the
/// member count included.
pub proof fn lemma_duplicate_join(m: RoomModel, name: Seq<char>)
    requires
        m.members.contains(name),
    ensures
        m.joined(name) == m,
        m.joined(name).members.len() == m.members.len(),
{
}

/// When the host leaves, a member that is still present becomes host; when
/// the last member leaves, nobody is host and the room is empty.
pub proof fn lemma_host_handoff(m: RoomModel)
    requires
        m.wf(),
        m.members.len() > 0,
    ensures
        m.left(m.host).members.len() == m.members.len() - 1,
        !m.left(m.host).members.contains(m.host),
        m.members.len() > 1 ==> m.left(m.host).members.contains(m.left(m.host).host),
        m.members.len() == 1 ==> m.left(m.host).members.len() == 0 && m.left(m.host).host.len() == 0,
{
    lemma_left_wf(m, m.host);
}

/// Two different members buzz an unbuzzed room one after the other: the
/// first holds the buzzer, and the second claim finds it taken and changes
/// nothing, whichever of the two came first.
pub proof fn lemma_buzz_race(m: RoomModel, a: Seq<char>, b: Seq<char>)
    requires
        m.buzzed is None,
        a != b,
    ensures
        m.buzzed_by(a).buzzed == Some(a),
        m.buzzed_by(a).buzzed is Some,
        m.buzzed_by(a).buzzed_by(b) == m.buzzed_by(a),
        m.buzzed_by(b).buzzed == Some(b),
        m.buzzed_by(b).buzzed_by(a) == m.buzzed_by(b),
{
}

/// Only the host frees the buzzer: anybody else leaves it as it is, and the
/// host always leaves it free.
pub proof fn lemma_free_by_host_only(m: RoomModel, who: Seq<char>)
    ensures
        !m.is_host(who) ==> m.freed_by(who).buzzed == m.buzzed,
        !m.is_host(who) ==> m.freed_by(who) == m,
        m.is_host(who) ==> m.freed_by(who).buzzed is None,
{
}

/// Each change publishes exactly one event, describing the room after the
/// change; a refused operation publishes nothing.
pub proof fn lemma_one_event_per_change(m: RoomModel, name: Seq<char>)
    ensures
        m.members.contains(name) ==> m.joined(name) == m,
        !m.members.contains(name) ==> m.joined(name).events == m.events.push(
            MessageView::State(m.joined(name).snapshot()),
        ),
        !m.members.contains(name) ==> m.left(name) == m,
        m.members.contains(name) ==> m.left(name).events == m.events.push(
            MessageView::State(m.left(name).snapshot()),
        ),
        m.buzzed is Some ==> m.buzzed_by(name) == m,
        m.buzzed is None ==> m.buzzed_by(name).events == m.events.push(
            MessageView::Buzzed(m.buzzed_by(name).buzzed),
        ),
        !m.is_host(name) ==> m.freed_by(name) == m,
        m.is_host(name) ==> m.freed_by(name).events == m.events.push(
            MessageView::Buzzed(m.freed_by(name).buzzed),
        ),
{
}

/// One buzzer room.
pub struct RoomState {
    /// Members in the order they joined.
    members: Vec<UserData>,
    /// Current host of the room.
    host: String,
    /// The user who buzzed.
    buzzed: Option<String>,
    /// Events produced and not yet taken for broadcasting.
    events: Vec<ServerMessage>,
}

impl View for RoomState {
    type V = RoomModel;

    closed spec fn view(&self) -> RoomModel {
        RoomModel {
            members: self.members@.map_values(|u: UserData| u.name@),
            host: self.host@,
            buzzed: opt_view(self.buzzed),
            events: self.events@.map_values(|m: ServerMessage| m@),
        }
    }
}

impl RoomState {
    /// The room's invariant.
    pub open spec fn wf(&self) -> bool {
        self@.wf()
    }

    /// An empty room: no members, no host, no buzz, no pending events.
    pub fn new() -> (r: Self)
        ensures
            r.wf(),
            r@.members.len() == 0,
            r@.host.len() == 0,
            r@.buzzed is None,
            r@.events.len() == 0,
    {
        let r = RoomState { members: Vec::new(), host: String::new(), buzzed: None, events: Vec::new() };
        assert(r@.members =~= Seq::<Seq<char>>::empty());
        r
    }

    /// Index of the member called `name`, if any.
    fn position(&self, name: &String) -> (r: Option<usize>)
        ensures
            match r {
                Some(i) => {
                    &&& i < self@.members.len()
                    &&& self@.members[i as int] == name@
                    &&& forall|j: int| 0 <= j < i ==> self@.members[j] != name@
                },
                None => !self@.members.contains(name@),
            },
    {
        let mut i: usize = 0;
        while i < self.members.len()
            invariant
                i <= self.members.len(),
                forall|j: int| 0 <= j < i ==> self@.members[j] != name@,
            decreases self.members.len() - i,
        {
            if self.members[i].name == *name {
                return Some(i);
            }
            i = i + 1;
        }
        None
    }

    /// Names of the members, in the order they joined.
    pub fn members(&self) -> (r: Vec<String>)
        ensures
            names_view(r@) == self@.members,
    {
        let mut r: Vec<String> = Vec::new();
        let mut i: usize = 0;
        while i < self.members.len()
            invariant
                i <= self.members.len(),
                r@.len() == i,
                names_view(r@) == self@.members.subrange(0, i as int),
            decreases self.members.len() - i,
        {
            let ghost old_r = r@;
            let name = self.members[i].name.clone();
            assert(name@ == self@.members[i as int]);
            r.push(name);
            i = i + 1;
            assert(names_view(r@) =~= self@.members.subrange(0, i as int)) by {
                assert forall|j: int| 0 <= j < i implies names_view(r@)[j] == self@.members[j] by {
                    assert(names_view(r@)[j] == r@[j]@);
                    if j < i - 1 {
                        assert(r@[j] == old_r[j]);
                        assert(names_view(old_r)[j] == old_r[j]@);
                        assert(self@.members.subrange(0, i - 1)[j] == self@.members[j]);
                    } else {
                        assert(r@[j] == name);
                    }
                }
            }
        }
        assert(self@.members.subrange(0, i as int) =~= self@.members);
        r
    }

    /// Number of members currently in the room.
    pub fn num_members(&self) -> (r: usize)
        ensures
            r == self@.members.len(),
    {
        self.members.len()
    }

    /// Whether the room is currently empty.
    pub fn is_empty(&self) -> (r: bool)
        ensures
            r == (self@.members.len() == 0),
    {
        self.members.len() == 0
    }

    /// The current host of the room.
    pub fn host(&self) -> (r: String)
        ensures
            r@ == self@.host,
    {
        self.host.clone()
    }

    /// Who currently holds the buzzer.
    pub fn buzzed(&self) -> (r: Option<String>)
        ensures
            opt_view(r) == self@.buzzed,
    {
        clone_name(&self.buzzed)
    }

    /// Snapshot of the room.
    pub fn state(&self) -> (r: websocket::RoomState)
        ensures
            r@ == self@.snapshot(),
    {
        let members = self.members();
        websocket::RoomState { members, host: self.host.clone(), buzzed: clone_name(&self.buzzed) }
    }

    /// Set who holds the buzzer, and publish it.
    pub fn set_buzzed(&mut self, name: Option<String>)
        ensures
            final(self)@ == old(self)@.with_buzzed(opt_view(name)),
    {
        let published = clone_name(&name);
        self.buzzed = name;
        self.events.push(ServerMessage::Buzzed(published));
        assert(self@.events =~= old(self)@.events.push(MessageView::Buzzed(opt_view(name))));
    }

    /// Join a new member unless somebody of that name is present. Returns
    /// the number of members afterwards, or `None` if the name was taken.
    pub fn join_member(&mut self, user: UserData) -> (r: Option<usize>)
        requires
            old(self).wf(),
        ensures
            final(self).wf(),
            final(self)@ == old(self)@.joined(user.name@),
            r == (if old(self)@.members.contains(user.name@) {
                None
            } else {
                Some((old(self)@.members.len() + 1) as usize)
            }),
    {
        let ghost pre = self@;
        let ghost name = user.name@;
        if self.position(&user.name).is_some() {
            return None;
        }
        if self.members.len() == 0 {
            self.host = user.name.clone();
        }
        self.members.push(user);
        let n = self.members.len();
        assert(self@.members =~= pre.members.push(name));
        let snapshot = self.state();
        self.events.push(ServerMessage::State(snapshot));
        assert(self@.events =~= pre.joined(name).events);
        proof {
            lemma_joined_wf(pre, name);
        }
        Some(n)
    }

    /// Remove a member if present. A departing host is succeeded by the
    /// member that joined earliest. Returns the number of members afterwards
    /// (zero: the room can be reclaimed), or `None` if nobody of that name
    /// was present.
    pub fn leave_member(&mut self, name: &String) -> (r: Option<usize>)
        requires
            old(self).wf(),
        ensures
            final(self).wf(),
            final(self)@ == old(self)@.left(name@),
            forall|i: int| 0 <= i < old(self)@.members.len() && old(self)@.members[i] == name@
                ==> #[trigger] old(self)@.members.remove(i) == final(self)@.members,
            r == (if old(self)@.members.contains(name@) {
                Some((old(self)@.members.len() - 1) as usize)
            } else {
                None
            }),
    {
        let ghost pre = self@;
        let pos = self.position(name);
        match pos {
            None => None,
            Some(i) => {
                proof {
                    pre.members.index_of_first_ensures(name@);
                    let k = pre.members.index_of_first(name@).unwrap();
                    assert(k == i as int);
                }
                let gone = self.members.remove(i);
                let ghost rest = pre.members.remove(i as int);
                assert(self@.members =~= rest);
                if gone.name == self.host {
                    if self.members.len() == 0 {
                        self.host = String::new();
                    } else {
                        self.host = self.members[0].name.clone();
                    }
                }
                assert(self@.host == pre.left(name@).host);
                let n = self.members.len();
                let snapshot = self.state();
                self.events.push(ServerMessage::State(snapshot));
                assert(self@.events =~= pre.left(name@).events);
                proof {
                    lemma_left_wf(pre, name@);
                }
                Some(n)
            }
        }
    }

    /// Claim the buzzer for `name`. The first claim wins; while somebody
    /// holds it, further claims change nothing and report `AlreadyBuzzed`.
    pub fn buzz(&mut self, name: &String) -> (r: Result<(), RoomError>)
        ensures
            final(self)@ == old(self)@.buzzed_by(name@),
            r == (if old(self)@.buzzed is Some { Err(RoomError::AlreadyBuzzed) } else { Ok(()) }),
    {
        if self.buzzed.is_some() {
            return Err(RoomError::AlreadyBuzzed);
        }
        self.set_buzzed(Some(name.clone()));
        Ok(())
    }

    /// Free the buzzer on behalf of `requested_by`, which must be the host.
    pub fn free_buzzer(&mut self, requested_by: &String) -> (r: Result<(), RoomError>)
        ensures
            final(self)@ == old(self)@.freed_by(requested_by@),
            r == (if old(self)@.is_host(requested_by@) { Ok(()) } else { Err(RoomError::NotHost) }),
    {
        if self.members.len() > 0 && self.host == *requested_by {
            self.set_buzzed(None);
            Ok(())
        } else {
            Err(RoomError::NotHost)
        }
    }

    /// Hand out the pending events, oldest first, and clear the outbox.
    pub fn take_events(&mut self) -> (r: Vec<ServerMessage>)
        ensures
            r@.map_values(|m: ServerMessage| m@) == old(self)@.events,
            final(self)@ == (RoomModel { events: Seq::empty(), ..old(self)@ }),
    {
        let mut r: Vec<ServerMessage> = Vec::new();
        std::mem::swap(&mut r, &mut self.events);
        assert(self@.events =~= Seq::<MessageView>::empty());
        r
    }
}

impl Default for RoomState {
    fn default() -> (r: Self)
        ensures
            r.wf(),
            r@.members.len() == 0,
            r@.buzzed is None,
            r@.events.len() == 0,
    {
        Self::new()
    }
}

} // verus!
