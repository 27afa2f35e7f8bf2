//! The reconciliation engine: moderation-log entries leave markers, departures
//! consume them once the grace interval has passed.
use vstd::prelude::*;

use crate::guild_cache::Markers;
use crate::ids::{ChannelId, GuildId, UserId};
use crate::notice::{reason_fields, user_fields, ChannelRole, ColorTag, Notice, NoticeField, UserProfile};
use crate::registry::{markers_of, CacheRegistry};
use std::collections::HashMap;

verus! {

broadcast use vstd::std_specs::hash::group_hash_axioms;

/// How long a departure waits, in milliseconds, before the markers are read.
pub const GRACE_INTERVAL_MS: u64 = 1000;

/// The two channels of a guild that notices go to.
#[derive(Clone, Copy, Debug, PartialEq, Eq, Structural)]
pub struct Config {
    pub transparency: u64,
    pub membership: u64,
}

/// Why a member left a guild.
#[derive(Clone, Copy, Debug, PartialEq, Eq, Structural)]
pub enum LeaveReason {
    Banned,
    Kicked,
    Voluntary,
}

/// The kind of a moderation-log entry.
#[derive(Clone, Copy, Debug, PartialEq, Eq, Structural)]
pub enum ModerationAction {
    BanAdd,
    BanRemove,
    Kick,
    Prune,
    /// Any other kind; such entries are ignored.
    Other,
}

/// One observed moderation action.
#[derive(Clone, Debug)]
pub struct ModerationLogEntry {
    pub action: ModerationAction,
    pub target_id: Option<UserId>,
    pub reason: Option<String>,
    /// For a prune: how many members it removed.
    pub members_removed: Option<u64>,
}

/// The moderation actions that are announced about a single user.
#[derive(Clone, Copy, Debug, PartialEq, Eq, Structural)]
pub enum ModerationKind {
    Ban,
    Unban,
    Kick,
}

/// What a moderation-log entry calls for.
#[derive(Clone, Debug)]
pub enum LogOutcome {
    /// Announce `kind` about the user, with the reason given, if any.
    Announce(ModerationKind, UserId, Option<String>),
    /// Announce that this many (at least one) members were pruned.
    Pruned(u64),
    /// Nothing to announce.
    Ignored,
}

/// A moderation-log entry that breaks the platform's contract.
#[derive(Clone, Copy, Debug, PartialEq, Eq, Structural)]
pub enum LogError {
    /// A ban, unban or kick entry without a target user.
    MissingTarget,
}

/// Why `u` left, given the markers of their guild: a kick marker wins over a
/// ban marker, and without either the departure was voluntary.
pub open spec fn cause_of(m: Markers, u: u64) -> LeaveReason {
    if m.kicked.contains(u) {
        LeaveReason::Kicked
    } else if m.banned.contains(u) {
        LeaveReason::Banned
    } else {
        LeaveReason::Voluntary
    }
}

/// The caches after the departure of `u` from `g` consumed both of their markers.
pub open spec fn departed(m: Map<u64, Markers>, g: u64, u: u64) -> Map<u64, Markers> {
    m.insert(g, markers_of(m, g).consume_kicked(u).consume_banned(u))
}

/// The caches after a ban of `u` in `g` was logged.
pub open spec fn ban_logged(m: Map<u64, Markers>, g: u64, u: u64) -> Map<u64, Markers> {
    m.insert(g, markers_of(m, g).mark_ban(u))
}

/// The caches after a kick of `u` in `g` was logged.
pub open spec fn kick_logged(m: Map<u64, Markers>, g: u64, u: u64) -> Map<u64, Markers> {
    m.insert(g, markers_of(m, g).mark_kick(u))
}

/// The caches after an unban of `u` in `g` was logged: a stale ban marker goes.
pub open spec fn unban_logged(m: Map<u64, Markers>, g: u64, u: u64) -> Map<u64, Markers> {
    m.insert(g, markers_of(m, g).consume_banned(u))
}

/// Whether a log entry that arrives at `t_log` (milliseconds) is recorded
/// before the departure notified at `t_removal` is classified: the
/// classification waits out the grace interval first.
pub open spec fn recorded_before_classification(t_log: int, t_removal: int) -> bool {
    t_log < t_removal + GRACE_INTERVAL_MS
}

/// The cause found for the departure of `u` from `g` notified at `t_removal`,
/// when a ban of `u` is logged at `t_log` and the caches held `m` before both.
pub open spec fn cause_with_ban_log(m: Map<u64, Markers>, g: u64, u: u64, t_log: int, t_removal: int) -> LeaveReason {
    if recorded_before_classification(t_log, t_removal) {
        cause_of(markers_of(ban_logged(m, g, u), g), u)
    } else {
        cause_of(markers_of(m, g), u)
    }
}

/// A ban logged within the grace interval of a departure, before or after its
/// notification, makes the departure a ban (unless a kick was pending).
pub proof fn lemma_ban_within_grace(m: Map<u64, Markers>, g: u64, u: u64, t_log: int, t_removal: int)
    requires
        !markers_of(m, g).kicked.contains(u),
        t_removal - GRACE_INTERVAL_MS < t_log < t_removal + GRACE_INTERVAL_MS,
    ensures
        recorded_before_classification(t_log, t_removal),
        cause_with_ban_log(m, g, u, t_log, t_removal) == LeaveReason::Banned,
{
    assert(markers_of(ban_logged(m, g, u), g) == markers_of(m, g).mark_ban(u));
}

/// A departure with no marker for the user is voluntary, and leaves the
/// guild's markers as they were.
pub proof fn lemma_unlogged_departure_voluntary(m: Map<u64, Markers>, g: u64, u: u64)
    requires
        !markers_of(m, g).banned.contains(u),
        !markers_of(m, g).kicked.contains(u),
    ensures
        cause_of(markers_of(m, g), u) == LeaveReason::Voluntary,
        markers_of(departed(m, g, u), g) == markers_of(m, g),
{
    let k = markers_of(m, g);
    assert(k.kicked.remove(u) =~= k.kicked);
    assert(k.banned.remove(u) =~= k.banned);
}

/// Departures of two different users of one guild neither read nor change
/// each other's markers: either order gives each user the same cause and
/// leaves the same caches.
pub proof fn lemma_departures_independent(m: Map<u64, Markers>, g: u64, u: u64, v: u64)
    requires
        u != v,
    ensures
        markers_of(departed(m, g, u), g).banned.contains(v) == markers_of(m, g).banned.contains(v),
        markers_of(departed(m, g, u), g).kicked.contains(v) == markers_of(m, g).kicked.contains(v),
        cause_of(markers_of(departed(m, g, u), g), v) == cause_of(markers_of(m, g), v),
        departed(departed(m, g, u), g, v) == departed(departed(m, g, v), g, u),
{
    let k = markers_of(m, g);
    let a = departed(departed(m, g, u), g, v);
    let b = departed(departed(m, g, v), g, u);
    assert(a[g].banned =~= b[g].banned);
    assert(a[g].kicked =~= b[g].kicked);
    assert(a =~= b);
}

/// The title of the notice for a departure.
pub open spec fn departure_title(reason: LeaveReason, name: Seq<char>) -> Seq<char> {
    match reason {
        LeaveReason::Voluntary => name + " left the server"@,
        LeaveReason::Banned => name + " was banned"@,
        LeaveReason::Kicked => name + " was kicked"@,
    }
}

/// The colour of the notice for a departure.
pub open spec fn departure_color(reason: LeaveReason) -> ColorTag {
    match reason {
        LeaveReason::Voluntary => ColorTag::Red,
        LeaveReason::Banned => ColorTag::DarkRed,
        LeaveReason::Kicked => ColorTag::Orange,
    }
}

/// The title of the notice for a moderation action.
pub open spec fn moderation_title(kind: ModerationKind, name: Seq<char>) -> Seq<char> {
    match kind {
        ModerationKind::Ban => name + " was banned"@,
        ModerationKind::Unban => name + " was unbanned"@,
        ModerationKind::Kick => name + " was kicked"@,
    }
}

/// The colour of the notice for a moderation action.
pub open spec fn moderation_color(kind: ModerationKind) -> ColorTag {
    match kind {
        ModerationKind::Ban => ColorTag::Red,
        ModerationKind::Unban => ColorTag::DarkGreen,
        ModerationKind::Kick => ColorTag::Orange,
    }
}

/// The notice posted to the membership channel when `user` left for `reason`.
pub fn departure_notice(reason: LeaveReason, user: &UserProfile) -> (r: Notice)
    ensures
        r.channel == ChannelRole::Membership,
        r.title@ == departure_title(reason, user.display_name@),
        r.color == departure_color(reason),
        r.fields_view() == user_fields(*user),
        r.thumbnail == user.avatar_url,
{
    let title = match reason {
        LeaveReason::Voluntary => user.display_name.clone().concat(" left the server"),
        LeaveReason::Banned => user.display_name.clone().concat(" was banned"),
        LeaveReason::Kicked => user.display_name.clone().concat(" was kicked"),
    };
    let color = match reason {
        LeaveReason::Voluntary => ColorTag::Red,
        LeaveReason::Banned => ColorTag::DarkRed,
        LeaveReason::Kicked => ColorTag::Orange,
    };
    crate::notice::profile_notice(ChannelRole::Membership, title, color, user)
}

/// The notice posted to the transparency channel for a moderation action of
/// `kind` on `target`, with the reason given, if any.
pub fn moderation_notice(kind: ModerationKind, target: &UserProfile, reason: Option<String>) -> (r:
    Notice)
    ensures
        r.channel == ChannelRole::Transparency,
        r.title@ == moderation_title(kind, target.display_name@),
        r.color == moderation_color(kind),
        r.fields_view() == user_fields(*target) + reason_fields(reason),
        r.thumbnail == target.avatar_url,
{
    let title = match kind {
        ModerationKind::Ban => target.display_name.clone().concat(" was banned"),
        ModerationKind::Unban => target.display_name.clone().concat(" was unbanned"),
        ModerationKind::Kick => target.display_name.clone().concat(" was kicked"),
    };
    let color = match kind {
        ModerationKind::Ban => ColorTag::Red,
        ModerationKind::Unban => ColorTag::DarkGreen,
        ModerationKind::Kick => ColorTag::Orange,
    };
    let mut r = crate::notice::profile_notice(ChannelRole::Transparency, title, color, target);
    let ghost before = r.fields_view();
    match reason {
        Some(s) => {
            r.fields.push(NoticeField { name: String::from_str("Reason"), value: s, inline: false });
            assert(r.fields_view() =~= before + reason_fields(reason));
        },
        None => {
            assert(r.fields_view() =~= before + reason_fields(reason));
        },
    }
    r
}

/// The bot's state: the channels of each configured guild, the marker caches,
/// and how many departures found both a kick and a ban marker pending (a
/// platform-level ordering anomaly, kept for diagnosis; it saturates).
pub struct Eikumi {
    pub configs: HashMap<u64, Config>,
    pub caches: CacheRegistry,
    pub marker_conflicts: u64,
}

/// The count of conflicting departures after one more departure, which found
/// markers `k` for user `u`.
pub open spec fn conflicts_after(count: u64, k: Markers, u: u64) -> u64 {
    if k.at_most_one(u) || count == u64::MAX {
        count
    } else {
        (count + 1) as u64
    }
}

impl Eikumi {
    /// The marker caches are well formed.
    pub open spec fn wf(&self) -> bool {
        self.caches.wf()
    }

    /// A bot for the guilds of `configs`, with no markers yet.
    pub fn new(configs: HashMap<u64, Config>) -> (r: Eikumi)
        ensures
            r.wf(),
            r.configs@ == configs@,
            r.caches@ == Map::<u64, Markers>::empty(),
            r.marker_conflicts == 0,
    {
        Eikumi { configs, caches: CacheRegistry::new(), marker_conflicts: 0 }
    }

    /// Makes sure `guild_id` has a marker cache; markers are kept.
    pub fn get_cache(&mut self, guild_id: GuildId)
        requires
            old(self).wf(),
        ensures
            final(self).wf(),
            final(self).configs@ == old(self).configs@,
            final(self).marker_conflicts == old(self).marker_conflicts,
            final(self).caches@ == old(self).caches@.insert(
                guild_id.0,
                markers_of(old(self).caches@, guild_id.0),
            ),
    {
        self.caches.get_or_create(guild_id);
    }

    /// The transparency channel of `guild_id`, if the guild is configured.
    pub fn get_transparency_channel(&self, guild_id: GuildId) -> (r: Option<ChannelId>)
        ensures
            r == (if self.configs@.contains_key(guild_id.0) {
                Some(ChannelId(self.configs@[guild_id.0].transparency))
            } else {
                None
            }),
    {
        match self.configs.get(&guild_id.0) {
            Some(c) => Some(ChannelId(c.transparency)),
            None => None,
        }
    }

    /// The membership channel of `guild_id`, if the guild is configured.
    pub fn get_membership_channel(&self, guild_id: GuildId) -> (r: Option<ChannelId>)
        ensures
            r == (if self.configs@.contains_key(guild_id.0) {
                Some(ChannelId(self.configs@[guild_id.0].membership))
            } else {
                None
            }),
    {
        match self.configs.get(&guild_id.0) {
            Some(c) => Some(ChannelId(c.membership)),
            None => None,
        }
    }

    /// The channel of `guild_id` that plays `role`, if the guild is configured.
    pub fn channel_for(&self, guild_id: GuildId, role: ChannelRole) -> (r: Option<ChannelId>)
        ensures
            r == (match role {
                ChannelRole::Membership => if self.configs@.contains_key(guild_id.0) {
                    Some(ChannelId(self.configs@[guild_id.0].membership))
                } else {
                    None
                },
                ChannelRole::Transparency => if self.configs@.contains_key(guild_id.0) {
                    Some(ChannelId(self.configs@[guild_id.0].transparency))
                } else {
                    None
                },
            }),
    {
        match role {
            ChannelRole::Membership => self.get_membership_channel(guild_id),
            ChannelRole::Transparency => self.get_transparency_channel(guild_id),
        }
    }

    /// Classifies the departure of `user` from `guild_id`, once the grace
    /// interval has passed since its notification, and consumes the user's
    /// markers.
    pub fn guild_member_removal(&mut self, guild_id: GuildId, user: UserId) -> (r: LeaveReason)
        requires
            old(self).wf(),
        ensures
            final(self).wf(),
            final(self).configs@ == old(self).configs@,
            r == cause_of(markers_of(old(self).caches@, guild_id.0), user.0),
            final(self).caches@ == departed(old(self).caches@, guild_id.0, user.0),
            final(self).marker_conflicts == conflicts_after(
                old(self).marker_conflicts,
                markers_of(old(self).caches@, guild_id.0),
                user.0,
            ),
    {
        let kicked = self.caches.consume_if_kicked(guild_id, user);
        let banned = self.caches.consume_if_banned(guild_id, user);
        assert(self.caches@ =~= departed(old(self).caches@, guild_id.0, user.0));
        if kicked && banned && self.marker_conflicts < u64::MAX {
            self.marker_conflicts = self.marker_conflicts + 1;
        }
        if kicked {
            LeaveReason::Kicked
        } else if banned {
            LeaveReason::Banned
        } else {
            LeaveReason::Voluntary
        }
    }

    /// Records a moderation-log entry of `guild_id` and says what to announce.
    pub fn guild_audit_log_entry_create(&mut self, guild_id: GuildId, entry: ModerationLogEntry) -> (r:
        Result<LogOutcome, LogError>)
        requires
            old(self).wf(),
        ensures
            final(self).wf(),
            final(self).configs@ == old(self).configs@,
            final(self).marker_conflicts == old(self).marker_conflicts,
            ({
                let g = guild_id.0;
                let m = old(self).caches@;
                let m2 = final(self).caches@;
                match entry.action {
                    ModerationAction::BanAdd => match entry.target_id {
                        Some(u) => r == Ok::<LogOutcome, LogError>(
                            LogOutcome::Announce(ModerationKind::Ban, u, entry.reason),
                        ) && m2 == ban_logged(m, g, u.0),
                        None => r == Err::<LogOutcome, LogError>(LogError::MissingTarget)
                            && m2 == m,
                    },
                    ModerationAction::BanRemove => match entry.target_id {
                        Some(u) => r == Ok::<LogOutcome, LogError>(
                            LogOutcome::Announce(ModerationKind::Unban, u, entry.reason),
                        ) && m2 == unban_logged(m, g, u.0),
                        None => r == Err::<LogOutcome, LogError>(LogError::MissingTarget)
                            && m2 == m,
                    },
                    ModerationAction::Kick => match entry.target_id {
                        Some(u) => r == Ok::<LogOutcome, LogError>(
                            LogOutcome::Announce(ModerationKind::Kick, u, entry.reason),
                        ) && m2 == kick_logged(m, g, u.0),
                        None => r == Err::<LogOutcome, LogError>(LogError::MissingTarget)
                            && m2 == m,
                    },
                    ModerationAction::Prune => m2 == m && r == Ok::<LogOutcome, LogError>(
                        match entry.members_removed {
                            Some(n) if n > 0 => LogOutcome::Pruned(n),
                            _ => LogOutcome::Ignored,
                        },
                    ),
                    ModerationAction::Other => m2 == m && r == Ok::<LogOutcome, LogError>(
                        LogOutcome::Ignored,
                    ),
                }
            }),
    {
        match entry.action {
            ModerationAction::BanAdd => match entry.target_id {
                Some(u) => {
                    self.caches.mark_pending_ban(guild_id, u);
                    Ok(LogOutcome::Announce(ModerationKind::Ban, u, entry.reason))
                },
                None => Err(LogError::MissingTarget),
            },
            ModerationAction::BanRemove => match entry.target_id {
                Some(u) => {
                    self.caches.consume_if_banned(guild_id, u);
                    Ok(LogOutcome::Announce(ModerationKind::Unban, u, entry.reason))
                },
                None => Err(LogError::MissingTarget),
            },
            ModerationAction::Kick => match entry.target_id {
                Some(u) => {
                    self.caches.mark_pending_kick(guild_id, u);
                    Ok(LogOutcome::Announce(ModerationKind::Kick, u, entry.reason))
                },
                None => Err(LogError::MissingTarget),
            },
            ModerationAction::Prune => {
                let pruned = match entry.members_removed {
                    Some(n) => n,
                    None => 0,
                };
                if pruned == 0 {
                    Ok(LogOutcome::Ignored)
                } else {
                    Ok(LogOutcome::Pruned(pruned))
                }
            },
            ModerationAction::Other => Ok(LogOutcome::Ignored),
        }
    }
}

} // verus!
