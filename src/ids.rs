//! Identities of guilds, users and channels, as the platform's 64-bit snowflakes.
use vstd::prelude::*;

verus! {

/// An opaque, unique identifier of a community.
#[derive(Clone, Copy, Debug, PartialEq, Eq, Structural, Hash)]
pub struct GuildId(pub u64);

/// An opaque, unique identifier of a platform account.
#[derive(Clone, Copy, Debug, PartialEq, Eq, Structural, Hash)]
pub struct UserId(pub u64);

/// An opaque, unique identifier of a channel that notices are posted to.
#[derive(Clone, Copy, Debug, PartialEq, Eq, Structural, Hash)]
pub struct ChannelId(pub u64);

impl GuildId {
    pub fn get(&self) -> (r: u64)
        ensures
            r == self.0,
    {
        self.0
    }
}

impl UserId {
    pub fn get(&self) -> (r: u64)
        ensures
            r == self.0,
    {
        self.0
    }
}

impl ChannelId {
    pub fn get(&self) -> (r: u64)
        ensures
            r == self.0,
    {
        self.0
    }
}

} // verus!
