//! One marker cache per guild, created on first use and kept for good.
use vstd::prelude::*;

use crate::guild_cache::{GuildCache, Markers};
use crate::ids::{GuildId, UserId};
use std::collections::HashMap;

verus! {

broadcast use vstd::std_specs::hash::group_hash_axioms;

/// The markers of guild `g` in a registry whose caches hold `m`; a guild with
/// no cache yet has none.
pub open spec fn markers_of(m: Map<u64, Markers>, g: u64) -> Markers {
    if m.contains_key(g) {
        m[g]
    } else {
        Markers::empty()
    }
}

/// The caches of every guild seen so far.
pub struct CacheRegistry {
    caches: HashMap<u64, GuildCache>,
}

impl View for CacheRegistry {
    type V = Map<u64, Markers>;

    closed spec fn view(&self) -> Map<u64, Markers> {
        self.caches@.map_values(|c: GuildCache| c@)
    }
}

impl CacheRegistry {
    /// Every cache in the registry is well formed.
    pub closed spec fn wf(&self) -> bool {
        forall|g: u64| #[trigger] self.caches@.contains_key(g) ==> self.caches@[g].wf()
    }

    /// A registry with no caches.
    pub fn new() -> (r: CacheRegistry)
        ensures
            r.wf(),
            r@ == Map::<u64, Markers>::empty(),
    {
        let r = CacheRegistry { caches: HashMap::new() };
        assert(r@ =~= Map::<u64, Markers>::empty());
        r
    }

    /// Takes the cache of `guild` out of the registry, or a new empty one.
    fn take(&mut self, guild: GuildId) -> (r: GuildCache)
        requires
            old(self).wf(),
        ensures
            final(self).wf(),
            r.wf(),
            r@ == markers_of(old(self)@, guild.0),
            final(self)@ == old(self)@.remove(guild.0),
    {
        let r = match self.caches.remove(&guild.0) {
            Some(c) => c,
            None => GuildCache::new(),
        };
        assert(self@ =~= old(self)@.remove(guild.0));
        r
    }

    /// Puts the cache of `guild` back.
    fn put(&mut self, guild: GuildId, cache: GuildCache)
        requires
            old(self).wf(),
            cache.wf(),
        ensures
            final(self).wf(),
            final(self)@ == old(self)@.insert(guild.0, cache@),
    {
        self.caches.insert(guild.0, cache);
        assert(self@ =~= old(self)@.insert(guild.0, cache@));
    }

    /// Registers an empty cache for `guild` unless it has one; markers are kept.
    pub fn get_or_create(&mut self, guild: GuildId)
        requires
            old(self).wf(),
        ensures
            final(self).wf(),
            final(self)@ == old(self)@.insert(guild.0, markers_of(old(self)@, guild.0)),
    {
        let c = self.take(guild);
        self.put(guild, c);
        assert(self@ =~= old(self)@.insert(guild.0, markers_of(old(self)@, guild.0)));
    }

    /// Whether `user` holds a pending ban marker in `guild`.
    pub fn is_pending_ban(&self, guild: GuildId, user: UserId) -> (r: bool)
        requires
            self.wf(),
        ensures
            r == markers_of(self@, guild.0).banned.contains(user.0),
    {
        match self.caches.get(&guild.0) {
            Some(c) => c.is_pending_ban(user),
            None => false,
        }
    }

    /// Whether `user` holds a pending kick marker in `guild`.
    pub fn is_pending_kick(&self, guild: GuildId, user: UserId) -> (r: bool)
        requires
            self.wf(),
        ensures
            r == markers_of(self@, guild.0).kicked.contains(user.0),
    {
        match self.caches.get(&guild.0) {
            Some(c) => c.is_pending_kick(user),
            None => false,
        }
    }

    /// Marks `user` as pending ban in `guild`.
    pub fn mark_pending_ban(&mut self, guild: GuildId, user: UserId)
        requires
            old(self).wf(),
        ensures
            final(self).wf(),
            final(self)@ == old(self)@.insert(
                guild.0,
                markers_of(old(self)@, guild.0).mark_ban(user.0),
            ),
    {
        let mut c = self.take(guild);
        c.mark_pending_ban(user);
        self.put(guild, c);
        assert(self@ =~= old(self)@.insert(guild.0, markers_of(old(self)@, guild.0).mark_ban(user.0)));
    }

    /// Marks `user` as pending kick in `guild`.
    pub fn mark_pending_kick(&mut self, guild: GuildId, user: UserId)
        requires
            old(self).wf(),
        ensures
            final(self).wf(),
            final(self)@ == old(self)@.insert(
                guild.0,
                markers_of(old(self)@, guild.0).mark_kick(user.0),
            ),
    {
        let mut c = self.take(guild);
        c.mark_pending_kick(user);
        self.put(guild, c);
        assert(self@ =~= old(self)@.insert(guild.0, markers_of(old(self)@, guild.0).mark_kick(user.0)));
    }

    /// Removes the ban marker of `user` in `guild`, saying whether there was one.
    pub fn consume_if_banned(&mut self, guild: GuildId, user: UserId) -> (r: bool)
        requires
            old(self).wf(),
        ensures
            final(self).wf(),
            r == markers_of(old(self)@, guild.0).banned.contains(user.0),
            final(self)@ == old(self)@.insert(
                guild.0,
                markers_of(old(self)@, guild.0).consume_banned(user.0),
            ),
    {
        let mut c = self.take(guild);
        let r = c.consume_if_banned(user);
        self.put(guild, c);
        assert(self@ =~= old(self)@.insert(guild.0, markers_of(old(self)@, guild.0).consume_banned(user.0)));
        r
    }

    /// Removes the kick marker of `user` in `guild`, saying whether there was one.
    pub fn consume_if_kicked(&mut self, guild: GuildId, user: UserId) -> (r: bool)
        requires
            old(self).wf(),
        ensures
            final(self).wf(),
            r == markers_of(old(self)@, guild.0).kicked.contains(user.0),
            final(self)@ == old(self)@.insert(
                guild.0,
                markers_of(old(self)@, guild.0).consume_kicked(user.0),
            ),
    {
        let mut c = self.take(guild);
        let r = c.consume_if_kicked(user);
        self.put(guild, c);
        assert(self@ =~= old(self)@.insert(guild.0, markers_of(old(self)@, guild.0).consume_kicked(user.0)));
        r
    }
}

} // verus!
