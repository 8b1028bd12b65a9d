//! The map from room identifiers to rooms.
//!
//! A room is created by the first join to its identifier and reclaimed when a
//! leave finds it empty. The server keeps the registry behind a lock of its
//! own, separate from the rooms' locks, and always takes it before a room's.
//! A join happens under the registry's lock, and `remove_if_empty` takes the
//! member count read under the room's lock while the registry's lock is
//! held, so check and removal form one step with respect to `get_or_create`
//! and the join that follows it.
use vstd::prelude::*;

verus! {

broadcast use vstd::std_specs::hash::group_hash_axioms;

/// Rooms by identifier (the 128 bits of a UUID). `H` is the handle through
/// which sessions share a room.
pub struct RoomRegistry<H> {
    rooms: std::collections::HashMap<u128, H>,
}

impl<H> View for RoomRegistry<H> {
    type V = Map<u128, H>;

    closed spec fn view(&self) -> Map<u128, H> {
        self.rooms@
    }
}

impl<H> RoomRegistry<H> {
    /// A registry without rooms.
    pub fn new() -> (r: Self)
        ensures
            r@ == Map::<u128, H>::empty(),
    {
        RoomRegistry { rooms: std::collections::HashMap::new() }
    }

    /// Number of rooms.
    pub fn len(&self) -> (r: usize)
        ensures
            r == self@.len(),
    {
        self.rooms.len()
    }

    /// Whether room `id` exists.
    pub fn contains(&self, id: u128) -> (r: bool)
        ensures
            r == self@.contains_key(id),
    {
        self.rooms.contains_key(&id)
    }

    /// The room `id`, if it exists.
    pub fn get(&self, id: u128) -> (r: Option<&H>)
        ensures
            match r {
                Some(h) => self@.contains_key(id) && *h == self@[id],
                None => !self@.contains_key(id),
            },
    {
        self.rooms.get(&id)
    }

    /// Make sure room `id` exists: an existing room is kept as it is, else
    /// `fresh` is registered under `id`. Returns whether `fresh` was taken.
    pub fn get_or_create(&mut self, id: u128, fresh: H) -> (created: bool)
        ensures
            created == !old(self)@.contains_key(id),
            final(self)@ == (if created { old(self)@.insert(id, fresh) } else { old(self)@ }),
            final(self)@.contains_key(id),
    {
        if self.rooms.contains_key(&id) {
            false
        } else {
            self.rooms.insert(id, fresh);
            true
        }
    }

    /// Remove room `id` if `remaining`, its member count read under the
    /// room's lock, is zero. Returns whether a room was removed.
    pub fn remove_if_empty(&mut self, id: u128, remaining: usize) -> (removed: bool)
        ensures
            removed == (old(self)@.contains_key(id) && remaining == 0),
            final(self)@ == (if remaining == 0 { old(self)@.remove(id) } else { old(self)@ }),
    {
        if remaining != 0 {
            return false;
        }
        let gone = self.rooms.remove(&id);
        assert(self@ =~= old(self)@.remove(id));
        gone.is_some()
    }
}

} // verus!
