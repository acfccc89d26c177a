//! The per-guild opaque data slot.
//!
//! Callers may hang a value of their own choosing off each guild. The slot
//! is independent of the node registry -- snapshots of a node do not copy
//! it, and a node's removal does not clear it -- and a guild's slot is
//! either absent or holds the caller's payload: reading never fills it by
//! itself, initialization is an explicit operation.

use vstd::prelude::*;
use std::collections::HashMap;

verus! {

broadcast use vstd::std_specs::hash::group_hash_axioms;

/// The per-guild data slots, holding payloads of the caller-chosen type.
pub struct DataStore<D> {
    map: HashMap<u64, D>,
}

impl<D> DataStore<D> {
    /// The slots: a map from guild to the stored payload.
    pub closed spec fn view(&self) -> Map<u64, D> {
        self.map@
    }

    /// A store with every slot absent.
    pub fn new() -> (r: Self)
        ensures
            r@ == Map::<u64, D>::empty(),
    {
        DataStore { map: HashMap::new() }
    }

    /// The guild's stored payload, when the slot is filled.
    pub fn get_data(&self, guild_id: u64) -> (r: Option<&D>)
        ensures
            (match r {
                Some(d) => self@.contains_key(guild_id) && *d == self@[guild_id],
                None => !self@.contains_key(guild_id),
            }),
    {
        self.map.get(&guild_id)
    }

    /// The guild's stored payload; an absent slot is first filled with the
    /// given default, and only then.
    pub fn get_data_or_init(&mut self, guild_id: u64, default: D) -> (r: &D)
        ensures
            final(self)@ == (if old(self)@.contains_key(guild_id) {
                old(self)@
            } else {
                old(self)@.insert(guild_id, default)
            }),
            final(self)@.contains_key(guild_id),
            *r == final(self)@[guild_id],
    {
        if !self.map.contains_key(&guild_id) {
            self.map.insert(guild_id, default);
        }
        self.map.get(&guild_id).unwrap()
    }

    /// Store a payload in the guild's slot, replacing what was there.
    pub fn set_data(&mut self, guild_id: u64, data: D)
        ensures
            final(self)@ == old(self)@.insert(guild_id, data),
    {
        self.map.insert(guild_id, data);
    }

    /// Clear the guild's slot. Idempotent.
    pub fn remove_data(&mut self, guild_id: u64)
        ensures
            final(self)@ == old(self)@.remove(guild_id),
    {
        self.map.remove(&guild_id);
    }
}

} // verus!
