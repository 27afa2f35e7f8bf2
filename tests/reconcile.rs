use eikumi::engine::{
    departure_notice, moderation_notice, Config, Eikumi, LeaveReason, LogError, LogOutcome,
    ModerationAction, ModerationKind, ModerationLogEntry,
};
use eikumi::guild_cache::GuildCache;
use eikumi::ids::{ChannelId, GuildId, UserId};
use eikumi::notice::{join_notice, prune_notice, to_decimal, ChannelRole, ColorTag, UserProfile};
use std::collections::HashMap;

fn bot() -> Eikumi {
    let mut configs = HashMap::new();
    configs.insert(10u64, Config { transparency: 100, membership: 200 });
    Eikumi::new(configs)
}

fn entry(action: ModerationAction, target: Option<u64>, reason: Option<&str>) -> ModerationLogEntry {
    ModerationLogEntry {
        action,
        target_id: target.map(UserId),
        reason: reason.map(|r| r.to_string()),
        members_removed: None,
    }
}

fn prune_entry(count: Option<u64>) -> ModerationLogEntry {
    ModerationLogEntry {
        action: ModerationAction::Prune,
        target_id: None,
        reason: None,
        members_removed: count,
    }
}

fn profile(id: u64, name: &str, display: &str, avatar: Option<&str>) -> UserProfile {
    UserProfile {
        id: UserId(id),
        name: name.to_string(),
        display_name: display.to_string(),
        avatar_url: avatar.map(|a| a.to_string()),
    }
}

#[test]
fn marks_are_idempotent_and_consumed_once() {
    let mut c = GuildCache::new();
    let u = UserId(5);
    c.mark_pending_ban(u);
    c.mark_pending_ban(u);
    assert!(c.is_pending_ban(u));
    assert!(c.consume_if_banned(u));
    assert!(!c.consume_if_banned(u));
    c.mark_pending_kick(u);
    assert!(c.consume_if_kicked(u));
    assert!(!c.consume_if_kicked(u));
    assert!(!c.is_pending_kick(u));
}

#[test]
fn consume_leaves_other_users_alone() {
    let mut c = GuildCache::new();
    c.mark_pending_ban(UserId(1));
    c.mark_pending_ban(UserId(2));
    c.mark_pending_ban(UserId(3));
    assert!(c.consume_if_banned(UserId(1)));
    assert!(c.is_pending_ban(UserId(2)));
    assert!(c.is_pending_ban(UserId(3)));
    assert!(!c.is_pending_ban(UserId(1)));
}

#[test]
fn ban_logged_before_removal_is_banned() {
    let mut e = bot();
    let g = GuildId(10);
    let r = e.guild_audit_log_entry_create(g, entry(ModerationAction::BanAdd, Some(7), Some("spam")));
    assert!(matches!(r, Ok(LogOutcome::Announce(ModerationKind::Ban, UserId(7), Some(ref s))) if s == "spam"));
    assert_eq!(e.guild_member_removal(g, UserId(7)), LeaveReason::Banned);
    assert!(!e.caches.is_pending_ban(g, UserId(7)));
}

#[test]
fn ban_logged_during_grace_interval_is_banned() {
    // The removal of user 8 was notified first; the ban entry lands while its
    // classification waits out the grace interval, as does a kick of user 9.
    let mut e = bot();
    let g = GuildId(10);
    let r = e.guild_audit_log_entry_create(g, entry(ModerationAction::BanAdd, Some(8), None));
    assert!(r.is_ok());
    let r = e.guild_audit_log_entry_create(g, entry(ModerationAction::Kick, Some(9), None));
    assert!(r.is_ok());
    assert_eq!(e.guild_member_removal(g, UserId(8)), LeaveReason::Banned);
    assert_eq!(e.guild_member_removal(g, UserId(9)), LeaveReason::Kicked);
    assert_eq!(e.marker_conflicts, 0);
}

#[test]
fn removal_without_log_is_voluntary() {
    let mut e = bot();
    assert_eq!(e.guild_member_removal(GuildId(10), UserId(9)), LeaveReason::Voluntary);
}

#[test]
fn kick_is_classified_kicked() {
    let mut e = bot();
    let g = GuildId(10);
    let r = e.guild_audit_log_entry_create(g, entry(ModerationAction::Kick, Some(4), None));
    assert!(matches!(r, Ok(LogOutcome::Announce(ModerationKind::Kick, UserId(4), None))));
    assert_eq!(e.guild_member_removal(g, UserId(4)), LeaveReason::Kicked);
    assert_eq!(e.guild_member_removal(g, UserId(4)), LeaveReason::Voluntary);
}

#[test]
fn kick_wins_when_both_markers_are_pending() {
    let mut e = bot();
    let g = GuildId(10);
    e.caches.mark_pending_ban(g, UserId(3));
    e.caches.mark_pending_kick(g, UserId(3));
    assert_eq!(e.marker_conflicts, 0);
    assert_eq!(e.guild_member_removal(g, UserId(3)), LeaveReason::Kicked);
    assert_eq!(e.marker_conflicts, 1);
    assert!(!e.caches.is_pending_ban(g, UserId(3)));
    assert!(!e.caches.is_pending_kick(g, UserId(3)));
}

#[test]
fn markers_are_per_guild() {
    let mut e = bot();
    e.caches.mark_pending_ban(GuildId(10), UserId(3));
    assert_eq!(e.guild_member_removal(GuildId(11), UserId(3)), LeaveReason::Voluntary);
    assert_eq!(e.guild_member_removal(GuildId(10), UserId(3)), LeaveReason::Banned);
}

#[test]
fn two_departures_in_one_guild_are_independent() {
    let mut e = bot();
    let g = GuildId(10);
    e.caches.mark_pending_ban(g, UserId(1));
    e.caches.mark_pending_kick(g, UserId(2));
    assert_eq!(e.guild_member_removal(g, UserId(2)), LeaveReason::Kicked);
    assert!(e.caches.is_pending_ban(g, UserId(1)));
    assert_eq!(e.guild_member_removal(g, UserId(1)), LeaveReason::Banned);
}

#[test]
fn unban_without_marker_still_announces() {
    let mut e = bot();
    let r = e.guild_audit_log_entry_create(GuildId(10), entry(ModerationAction::BanRemove, Some(6), None));
    assert!(matches!(r, Ok(LogOutcome::Announce(ModerationKind::Unban, UserId(6), None))));
}

#[test]
fn unban_clears_stale_ban_marker() {
    let mut e = bot();
    let g = GuildId(10);
    e.guild_audit_log_entry_create(g, entry(ModerationAction::BanAdd, Some(6), None)).unwrap();
    e.guild_audit_log_entry_create(g, entry(ModerationAction::BanRemove, Some(6), None)).unwrap();
    assert!(!e.caches.is_pending_ban(g, UserId(6)));
    assert_eq!(e.guild_member_removal(g, UserId(6)), LeaveReason::Voluntary);
}

#[test]
fn missing_target_is_an_error() {
    let mut e = bot();
    for action in [ModerationAction::BanAdd, ModerationAction::BanRemove, ModerationAction::Kick] {
        let r = e.guild_audit_log_entry_create(GuildId(10), entry(action, None, Some("x")));
        assert!(matches!(r, Err(LogError::MissingTarget)));
    }
}

#[test]
fn other_actions_are_ignored() {
    let mut e = bot();
    let r = e.guild_audit_log_entry_create(GuildId(10), entry(ModerationAction::Other, Some(1), None));
    assert!(matches!(r, Ok(LogOutcome::Ignored)));
    assert!(!e.caches.is_pending_ban(GuildId(10), UserId(1)));
}

#[test]
fn prune_counts() {
    let mut e = bot();
    let g = GuildId(10);
    assert!(matches!(e.guild_audit_log_entry_create(g, prune_entry(None)), Ok(LogOutcome::Ignored)));
    assert!(matches!(e.guild_audit_log_entry_create(g, prune_entry(Some(0))), Ok(LogOutcome::Ignored)));
    assert!(matches!(e.guild_audit_log_entry_create(g, prune_entry(Some(5))), Ok(LogOutcome::Pruned(5))));
}

#[test]
fn prune_notice_grammar() {
    assert!(prune_notice(0).is_none());
    let one = prune_notice(1).unwrap();
    assert_eq!(one.title, "1 user was pruned");
    assert_eq!(one.color, ColorTag::Purple);
    assert_eq!(one.channel, ChannelRole::Transparency);
    assert_eq!(prune_notice(5).unwrap().title, "5 users were pruned");
    assert_eq!(prune_notice(12).unwrap().title, "12 users were pruned");
}

#[test]
fn decimal_rendering() {
    assert_eq!(to_decimal(0), "0");
    assert_eq!(to_decimal(9), "9");
    assert_eq!(to_decimal(10), "10");
    assert_eq!(to_decimal(1234567890), "1234567890");
    assert_eq!(to_decimal(u64::MAX), "18446744073709551615");
}

#[test]
fn departure_notices() {
    let p = profile(42, "alice_01", "Alice", Some("https://cdn/a.png"));
    let n = departure_notice(LeaveReason::Voluntary, &p);
    assert_eq!(n.title, "Alice left the server");
    assert_eq!(n.color, ColorTag::Red);
    assert_eq!(n.channel, ChannelRole::Membership);
    assert_eq!(n.thumbnail.as_deref(), Some("https://cdn/a.png"));
    assert_eq!(n.fields.len(), 2);
    assert_eq!(n.fields[0].name, "User ID");
    assert_eq!(n.fields[0].value, "42");
    assert!(n.fields[0].inline);
    assert_eq!(n.fields[1].name, "Username");
    assert_eq!(n.fields[1].value, "alice_01");
    let b = departure_notice(LeaveReason::Banned, &p);
    assert_eq!(b.title, "Alice was banned");
    assert_eq!(b.color, ColorTag::DarkRed);
    let k = departure_notice(LeaveReason::Kicked, &p);
    assert_eq!(k.title, "Alice was kicked");
    assert_eq!(k.color, ColorTag::Orange);
}

#[test]
fn moderation_notices() {
    let p = profile(7, "bob", "Bobby", None);
    let n = moderation_notice(ModerationKind::Ban, &p, Some("raiding".to_string()));
    assert_eq!(n.title, "Bobby was banned");
    assert_eq!(n.color, ColorTag::Red);
    assert_eq!(n.channel, ChannelRole::Transparency);
    assert!(n.thumbnail.is_none());
    assert_eq!(n.fields.len(), 3);
    assert_eq!(n.fields[2].name, "Reason");
    assert_eq!(n.fields[2].value, "raiding");
    assert!(!n.fields[2].inline);
    let u = moderation_notice(ModerationKind::Unban, &p, None);
    assert_eq!(u.title, "Bobby was unbanned");
    assert_eq!(u.color, ColorTag::DarkGreen);
    assert_eq!(u.fields.len(), 2);
    let k = moderation_notice(ModerationKind::Kick, &p, None);
    assert_eq!(k.title, "Bobby was kicked");
    assert_eq!(k.color, ColorTag::Orange);
}

#[test]
fn join_notice_fields() {
    let p = profile(3, "carol", "Carol", Some("https://cdn/c.png"));
    let n = join_notice(&p);
    assert_eq!(n.title, "Carol joined the server");
    assert_eq!(n.color, ColorTag::DarkGreen);
    assert_eq!(n.channel, ChannelRole::Membership);
    assert_eq!(n.fields[0].value, "3");
    assert_eq!(n.fields[1].value, "carol");
}

#[test]
fn channel_lookup() {
    let e = bot();
    assert_eq!(e.get_transparency_channel(GuildId(10)), Some(ChannelId(100)));
    assert_eq!(e.get_membership_channel(GuildId(10)), Some(ChannelId(200)));
    assert_eq!(e.channel_for(GuildId(10), ChannelRole::Membership), Some(ChannelId(200)));
    assert_eq!(e.get_transparency_channel(GuildId(11)), None);
    assert_eq!(e.channel_for(GuildId(11), ChannelRole::Transparency), None);
}

#[test]
fn get_cache_keeps_markers() {
    let mut e = bot();
    e.caches.mark_pending_kick(GuildId(10), UserId(2));
    e.get_cache(GuildId(10));
    e.get_cache(GuildId(12));
    assert!(e.caches.is_pending_kick(GuildId(10), UserId(2)));
    assert!(!e.caches.is_pending_kick(GuildId(12), UserId(2)));
}
