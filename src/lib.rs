//! Membership and moderation notices for chat communities ("guilds").
//!
//! The heart of the library is the reconciliation of two event streams that
//! arrive in no fixed order: a member-removal notification, which never says
//! why a member left, and a moderation-log entry, which says why (ban, kick)
//! but may come before, after, or never. Log entries leave a per-guild,
//! per-user marker; a removal consults (and consumes) the markers once a
//! grace interval has passed, and is classified accordingly.
pub mod ids;
pub mod guild_cache;
pub mod registry;
pub mod notice;
pub mod engine;
