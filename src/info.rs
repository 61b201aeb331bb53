//! The record decoded from one response of the invite endpoint.
use vstd::prelude::*;

verus! {

/// The server part of an invite response.
#[derive(Copy, Clone, Debug, PartialEq, Eq, Structural)]
pub struct Guild {
    premium_subscription_count: i64,
}

/// One decoded invite response: the server's boosts, and its approximate
/// member and online-presence counts.
#[derive(Copy, Clone, Debug, PartialEq, Eq, Structural)]
pub struct InviteInfo {
    guild: Guild,
    approximate_member_count: i64,
    approximate_presence_count: i64,
}

impl Guild {
    pub closed spec fn boosts_spec(&self) -> i64 {
        self.premium_subscription_count
    }

    pub fn new(premium_subscription_count: i64) -> (r: Guild)
        ensures
            r.boosts_spec() == premium_subscription_count,
    {
        Guild { premium_subscription_count }
    }

    pub fn premium_subscription_count(&self) -> (r: i64)
        ensures
            r == self.boosts_spec(),
    {
        self.premium_subscription_count
    }
}

impl InviteInfo {
    pub closed spec fn members_spec(&self) -> i64 {
        self.approximate_member_count
    }

    pub closed spec fn presences_spec(&self) -> i64 {
        self.approximate_presence_count
    }

    pub closed spec fn boosts_spec(&self) -> i64 {
        self.guild.boosts_spec()
    }

    pub fn new(guild: Guild, approximate_member_count: i64, approximate_presence_count: i64) -> (r: InviteInfo)
        ensures
            r.boosts_spec() == guild.boosts_spec(),
            r.members_spec() == approximate_member_count,
            r.presences_spec() == approximate_presence_count,
    {
        InviteInfo { guild, approximate_member_count, approximate_presence_count }
    }

    pub fn guild(&self) -> (r: Guild)
        ensures
            r.boosts_spec() == self.boosts_spec(),
    {
        self.guild
    }

    pub fn approximate_member_count(&self) -> (r: i64)
        ensures
            r == self.members_spec(),
    {
        self.approximate_member_count
    }

    pub fn approximate_presence_count(&self) -> (r: i64)
        ensures
            r == self.presences_spec(),
    {
        self.approximate_presence_count
    }
}

} // verus!
