//! Polls a community server's invite endpoint and republishes its member,
//! presence and boost counts as gauges on a pull-based metrics endpoint.
use vstd::prelude::*;

pub mod gauges;
pub mod info;
pub mod poll;
pub mod prom;

verus! {

/// The invite endpoint that is polled, with approximate counts.
pub const INVITE_URL: &'static str = "https://discord.com/api/v10/invites/minecraft?with_counts=true";

/// Seconds between two polls of the invite endpoint.
pub const POLL_PERIOD_SECS: u64 = 15;

/// Port on which the metrics endpoint listens (on every interface).
pub const METRICS_PORT: u16 = 9000;

} // verus!
