//! The per-guild set of pending-cause markers.
use vstd::prelude::*;

use crate::ids::UserId;

verus! {

/// What a guild's cache holds: the users with a pending ban marker and the
/// users with a pending kick marker.
pub struct Markers {
    pub banned: Set<u64>,
    pub kicked: Set<u64>,
}

impl Markers {
    pub open spec fn empty() -> Markers {
        Markers { banned: Set::empty(), kicked: Set::empty() }
    }

    pub open spec fn mark_ban(self, u: u64) -> Markers {
        Markers { banned: self.banned.insert(u), kicked: self.kicked }
    }

    pub open spec fn mark_kick(self, u: u64) -> Markers {
        Markers { banned: self.banned, kicked: self.kicked.insert(u) }
    }

    pub open spec fn consume_banned(self, u: u64) -> Markers {
        Markers { banned: self.banned.remove(u), kicked: self.kicked }
    }

    pub open spec fn consume_kicked(self, u: u64) -> Markers {
        Markers { banned: self.banned, kicked: self.kicked.remove(u) }
    }

    /// The user holds at most one of the two markers.
    pub open spec fn at_most_one(self, u: u64) -> bool {
        !(self.banned.contains(u) && self.kicked.contains(u))
    }
}

/// One operation on the markers of a user.
#[derive(Clone, Copy, Debug, PartialEq, Eq, Structural)]
pub enum MarkerOp {
    MarkBan,
    MarkKick,
    ConsumeBanned,
    ConsumeKicked,
}

impl Markers {
    /// The markers after `op` on user `u`.
    pub open spec fn apply(self, u: u64, op: MarkerOp) -> Markers {
        match op {
            MarkerOp::MarkBan => self.mark_ban(u),
            MarkerOp::MarkKick => self.mark_kick(u),
            MarkerOp::ConsumeBanned => self.consume_banned(u),
            MarkerOp::ConsumeKicked => self.consume_kicked(u),
        }
    }

    /// The markers after the operations `ops` on user `u`, in order.
    pub open spec fn apply_all(self, u: u64, ops: Seq<MarkerOp>) -> Markers
        decreases ops.len(),
    {
        if ops.len() == 0 {
            self
        } else {
            self.apply_all(u, ops.drop_last()).apply(u, ops.last())
        }
    }

    /// `op` would give `u` a marker of one kind while it holds the other: the
    /// platform-level anomaly that the tie-break of a departure resolves.
    pub open spec fn conflicts(self, u: u64, op: MarkerOp) -> bool {
        ||| op == MarkerOp::MarkBan && self.kicked.contains(u)
        ||| op == MarkerOp::MarkKick && self.banned.contains(u)
    }
}

/// Over any run of marks and consumptions on one user that starts with at
/// most one marker and never marks the user for one cause while a marker for
/// the other is pending, the user holds at most one marker after every step.
pub proof fn lemma_at_most_one_marker(m: Markers, u: u64, ops: Seq<MarkerOp>)
    requires
        m.at_most_one(u),
        forall|i: int|
            0 <= i < ops.len() ==> !(#[trigger] m.apply_all(u, ops.take(i))).conflicts(u, ops[i]),
    ensures
        forall|i: int| 0 <= i <= ops.len() ==> (#[trigger] m.apply_all(u, ops.take(i))).at_most_one(u),
{
    assert forall|i: int| 0 <= i <= ops.len() implies (#[trigger] m.apply_all(
        u,
        ops.take(i),
    )).at_most_one(u) by {
        lemma_at_most_one_prefix(m, u, ops, i);
    }
}

proof fn lemma_at_most_one_prefix(m: Markers, u: u64, ops: Seq<MarkerOp>, n: int)
    requires
        0 <= n <= ops.len(),
        m.at_most_one(u),
        forall|i: int|
            0 <= i < ops.len() ==> !(#[trigger] m.apply_all(u, ops.take(i))).conflicts(u, ops[i]),
    ensures
        m.apply_all(u, ops.take(n)).at_most_one(u),
    decreases n,
{
    if n == 0 {
        assert(ops.take(0) =~= Seq::<MarkerOp>::empty());
    } else {
        lemma_at_most_one_prefix(m, u, ops, n - 1);
        assert(ops.take(n).drop_last() =~= ops.take(n - 1));
        assert(ops.take(n).last() == ops[n - 1]);
        assert(!m.apply_all(u, ops.take(n - 1)).conflicts(u, ops[n - 1]));
    }
}

/// A pending marker is consumed exactly once: after a mark, the first
/// consumption finds it and a second one, with no mark in between, does not;
/// marking twice before consuming still leaves a single marker.
pub proof fn lemma_consumed_once(m: Markers, u: u64)
    ensures
        m.mark_ban(u).banned.contains(u),
        !m.mark_ban(u).consume_banned(u).banned.contains(u),
        m.mark_ban(u).mark_ban(u) == m.mark_ban(u),
        m.mark_kick(u).kicked.contains(u),
        !m.mark_kick(u).consume_kicked(u).kicked.contains(u),
        m.mark_kick(u).mark_kick(u) == m.mark_kick(u),
{
    assert(m.mark_ban(u).mark_ban(u).banned =~= m.mark_ban(u).banned);
    assert(m.mark_kick(u).mark_kick(u).kicked =~= m.mark_kick(u).kicked);
}

/// The set of distinct values that a sequence holds.
pub open spec fn elems(s: Seq<u64>) -> Set<u64> {
    Set::new(|x: u64| s.contains(x))
}

/// Pending ban and kick markers of one guild.
pub struct GuildCache {
    banned_users: Vec<u64>,
    kicked_users: Vec<u64>,
}

impl View for GuildCache {
    type V = Markers;

    closed spec fn view(&self) -> Markers {
        Markers { banned: elems(self.banned_users@), kicked: elems(self.kicked_users@) }
    }
}

/// Whether `v` holds `x`.
fn holds(v: &Vec<u64>, x: u64) -> (r: bool)
    ensures
        r == v@.contains(x),
{
    let mut i: usize = 0;
    while i < v.len()
        invariant
            i <= v@.len(),
            forall|j: int| 0 <= j < i ==> v@[j] != x,
        decreases v@.len() - i,
    {
        if v[i] == x {
            return true;
        }
        i = i + 1;
    }
    false
}

/// Adds `x` to `v` unless it is there already.
fn insert_once(v: &mut Vec<u64>, x: u64)
    requires
        old(v)@.no_duplicates(),
    ensures
        final(v)@.no_duplicates(),
        elems(final(v)@) == elems(old(v)@).insert(x),
{
    let ghost s = v@;
    if !holds(v, x) {
        v.push(x);
        assert(v@[s.len() as int] == x);
        assert forall|y: u64| s.contains(y) implies v@.contains(y) by {
            let j = choose|j: int| 0 <= j < s.len() && s[j] == y;
            assert(v@[j] == y);
        }
    }
    assert(elems(v@) =~= elems(s).insert(x));
}

/// Removes `x` from `v` if it is there; says whether it was.
fn take_out(v: &mut Vec<u64>, x: u64) -> (r: bool)
    requires
        old(v)@.no_duplicates(),
    ensures
        final(v)@.no_duplicates(),
        r == elems(old(v)@).contains(x),
        elems(final(v)@) == elems(old(v)@).remove(x),
{
    let ghost s = v@;
    let mut i: usize = 0;
    while i < v.len()
        invariant
            v@ == s,
            s == old(v)@,
            s.no_duplicates(),
            i <= s.len(),
            forall|j: int| 0 <= j < i ==> s[j] != x,
        decreases s.len() - i,
    {
        if v[i] == x {
            v.swap_remove(i);
            let ghost t = v@;
            let ghost last = s.len() - 1;
            assert(t =~= s.update(i as int, s.last()).drop_last());
            assert(t.len() == last);
            assert forall|j: int| 0 <= j < t.len() implies #[trigger] t[j] == s[
                if j == i {
                    last
                } else {
                    j
                }] by {}
            assert(t.no_duplicates()) by {
                assert forall|a: int, b: int|
                    0 <= a < t.len() && 0 <= b < t.len() && a != b implies t[a] != t[b] by {
                    let ia = if a == i { last } else { a };
                    let ib = if b == i { last } else { b };
                    assert(t[a] == s[ia]);
                    assert(t[b] == s[ib]);
                }
            }
            assert forall|y: u64| #[trigger] t.contains(y) implies s.contains(y) && y != x by {
                let j = choose|j: int| 0 <= j < t.len() && t[j] == y;
                let k = if j == i { last } else { j };
                assert(s[k] == y);
                assert(s[i as int] == x);
            }
            assert forall|y: u64| s.contains(y) && y != x implies #[trigger] t.contains(y) by {
                let j = choose|j: int| 0 <= j < s.len() && s[j] == y;
                if j == last {
                    assert(t[i as int] == y);
                } else {
                    assert(t[j] == y);
                }
            }
            assert(s[i as int] == x);
            assert(elems(s).contains(x));
            assert(elems(t) =~= elems(s).remove(x));
            return true;
        }
        i = i + 1;
    }
    assert(elems(s).remove(x) =~= elems(s));
    false
}

impl GuildCache {
    /// The cache stores each marked user once per set.
    pub closed spec fn wf(&self) -> bool {
        &&& self.banned_users@.no_duplicates()
        &&& self.kicked_users@.no_duplicates()
    }

    /// An empty cache.
    pub fn new() -> (r: GuildCache)
        ensures
            r.wf(),
            r@ == Markers::empty(),
    {
        let r = GuildCache { banned_users: Vec::new(), kicked_users: Vec::new() };
        assert(r@.banned =~= Set::empty());
        assert(r@.kicked =~= Set::empty());
        r
    }

    /// Whether `user` holds a pending ban marker.
    pub fn is_pending_ban(&self, user: UserId) -> (r: bool)
        ensures
            r == self@.banned.contains(user.0),
    {
        holds(&self.banned_users, user.0)
    }

    /// Whether `user` holds a pending kick marker.
    pub fn is_pending_kick(&self, user: UserId) -> (r: bool)
        ensures
            r == self@.kicked.contains(user.0),
    {
        holds(&self.kicked_users, user.0)
    }

    /// Records that a ban of `user` was observed; a second mark changes nothing.
    pub fn mark_pending_ban(&mut self, user: UserId)
        requires
            old(self).wf(),
        ensures
            final(self).wf(),
            final(self)@ == old(self)@.mark_ban(user.0),
    {
        insert_once(&mut self.banned_users, user.0);
    }

    /// Records that a kick of `user` was observed; a second mark changes nothing.
    pub fn mark_pending_kick(&mut self, user: UserId)
        requires
            old(self).wf(),
        ensures
            final(self).wf(),
            final(self)@ == old(self)@.mark_kick(user.0),
    {
        insert_once(&mut self.kicked_users, user.0);
    }

    /// Removes the ban marker of `user`, if any, and says whether there was one.
    pub fn consume_if_banned(&mut self, user: UserId) -> (r: bool)
        requires
            old(self).wf(),
        ensures
            final(self).wf(),
            r == old(self)@.banned.contains(user.0),
            final(self)@ == old(self)@.consume_banned(user.0),
    {
        take_out(&mut self.banned_users, user.0)
    }

    /// Removes the kick marker of `user`, if any, and says whether there was one.
    pub fn consume_if_kicked(&mut self, user: UserId) -> (r: bool)
        requires
            old(self).wf(),
        ensures
            final(self).wf(),
            r == old(self)@.kicked.contains(user.0),
            final(self)@ == old(self)@.consume_kicked(user.0),
    {
        take_out(&mut self.kicked_users, user.0)
    }
}

} // verus!
