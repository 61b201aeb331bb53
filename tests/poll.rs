use guild_gauges::info::{Guild, InviteInfo};
use guild_gauges::poll::{Command, Event, Phase, PollLoop};
use guild_gauges::{INVITE_URL, METRICS_PORT, POLL_PERIOD_SECS};

#[test]
fn new_loop_is_running() {
    assert_eq!(PollLoop::new().phase(), Phase::Running);
}

#[test]
fn tick_while_running_fetches() {
    let mut l = PollLoop::new();
    assert_eq!(l.on_event(Event::Tick), Command::Fetch);
    assert_eq!(l.on_event(Event::Tick), Command::Fetch);
    assert_eq!(l.phase(), Phase::Running);
}

#[test]
fn shutdown_stops_the_loop() {
    let mut l = PollLoop::new();
    assert_eq!(l.on_event(Event::Shutdown), Command::Stop);
    assert_eq!(l.phase(), Phase::Stopped);
}

#[test]
fn no_fetch_after_shutdown() {
    let mut l = PollLoop::new();
    assert_eq!(l.on_event(Event::Tick), Command::Fetch);
    assert_eq!(l.on_event(Event::Shutdown), Command::Stop);
    assert_eq!(l.on_event(Event::Tick), Command::Stop);
    assert_eq!(l.on_event(Event::Tick), Command::Stop);
    assert_eq!(l.phase(), Phase::Stopped);
}

#[test]
fn repeated_shutdown_is_harmless() {
    let mut l = PollLoop::new();
    assert_eq!(l.on_event(Event::Shutdown), Command::Stop);
    assert_eq!(l.on_event(Event::Shutdown), Command::Stop);
    assert_eq!(l.phase(), Phase::Stopped);
}

#[test]
fn invite_info_fields_read_back() {
    let info = InviteInfo::new(Guild::new(5), 1000, 200);
    assert_eq!(info.approximate_member_count(), 1000);
    assert_eq!(info.approximate_presence_count(), 200);
    assert_eq!(info.guild().premium_subscription_count(), 5);
    assert_eq!(info.guild(), Guild::new(5));
}

#[test]
fn fixed_settings() {
    assert_eq!(POLL_PERIOD_SECS, 15);
    assert_eq!(METRICS_PORT, 9000);
    assert_eq!(INVITE_URL, "https://discord.com/api/v10/invites/minecraft?with_counts=true");
}
