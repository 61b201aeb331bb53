use guild_gauges::gauges::{Gauges, Snapshot};
use guild_gauges::info::{Guild, InviteInfo};
use guild_gauges::poll::{apply_fetch, FetchError, Report};

fn record(members: i64, presences: i64, boosts: i64) -> InviteInfo {
    InviteInfo::new(Guild::new(boosts), members, presences)
}

fn has_line(text: &str, line: &str) -> bool {
    text.lines().any(|l| l == line)
}

#[test]
fn new_gauges_start_at_zero() {
    let g = Gauges::new().unwrap();
    assert_eq!(g.snapshot(), Snapshot { members: 0, presences: 0, boosts: 0 });
}

#[test]
fn render_before_any_fetch_reports_zeros() {
    let g = Gauges::new().unwrap();
    let text = g.render().unwrap();
    assert!(has_line(&text, "members 0"));
    assert!(has_line(&text, "presences 0"));
    assert!(has_line(&text, "boosts 0"));
}

#[test]
fn render_lists_help_and_type_of_each_gauge() {
    let g = Gauges::new().unwrap();
    let text = g.render().unwrap();
    assert!(has_line(&text, "# HELP members How many total members there are"));
    assert!(has_line(&text, "# TYPE members gauge"));
    assert!(has_line(&text, "# HELP presences How many members are online"));
    assert!(has_line(&text, "# TYPE presences gauge"));
    assert!(has_line(&text, "# HELP boosts How many boosts the server has"));
    assert!(has_line(&text, "# TYPE boosts gauge"));
}

#[test]
fn update_sets_all_three_gauges() {
    let mut g = Gauges::new().unwrap();
    g.update(record(1000, 200, 5));
    assert_eq!(g.snapshot(), Snapshot { members: 1000, presences: 200, boosts: 5 });
}

#[test]
fn render_after_fetch_reports_fetched_values() {
    let mut g = Gauges::new().unwrap();
    let report = apply_fetch(&mut g, Ok(record(1000, 200, 5)));
    assert_eq!(report, Report::Updated(Snapshot { members: 1000, presences: 200, boosts: 5 }));
    let text = g.render().unwrap();
    assert!(has_line(&text, "members 1000"));
    assert!(has_line(&text, "presences 200"));
    assert!(has_line(&text, "boosts 5"));
}

#[test]
fn network_failure_after_success_keeps_boosts() {
    let mut g = Gauges::new().unwrap();
    apply_fetch(&mut g, Ok(record(1000, 200, 5)));
    let report = apply_fetch(&mut g, Err(FetchError::Network));
    assert_eq!(report, Report::Failed(FetchError::Network));
    let text = g.render().unwrap();
    assert!(has_line(&text, "boosts 5"));
    assert!(has_line(&text, "members 1000"));
    assert!(has_line(&text, "presences 200"));
}

#[test]
fn decode_failure_leaves_gauges_unchanged() {
    let mut g = Gauges::new().unwrap();
    apply_fetch(&mut g, Ok(record(7, 3, 1)));
    let report = apply_fetch(&mut g, Err(FetchError::Decode));
    assert_eq!(report, Report::Failed(FetchError::Decode));
    assert_eq!(g.snapshot(), Snapshot { members: 7, presences: 3, boosts: 1 });
}

#[test]
fn failures_before_any_success_keep_zeros() {
    let mut g = Gauges::new().unwrap();
    apply_fetch(&mut g, Err(FetchError::Network));
    apply_fetch(&mut g, Err(FetchError::Decode));
    assert_eq!(g.snapshot(), Snapshot { members: 0, presences: 0, boosts: 0 });
    let text = g.render().unwrap();
    assert!(has_line(&text, "members 0"));
}

#[test]
fn last_of_several_fetches_wins() {
    let mut g = Gauges::new().unwrap();
    apply_fetch(&mut g, Ok(record(10, 2, 1)));
    apply_fetch(&mut g, Ok(record(20, 4, 2)));
    apply_fetch(&mut g, Ok(record(30, 6, 3)));
    assert_eq!(g.snapshot(), Snapshot { members: 30, presences: 6, boosts: 3 });
}

#[test]
fn negative_and_extreme_values_are_kept() {
    let mut g = Gauges::new().unwrap();
    g.update(record(i64::MAX, -1, i64::MIN));
    assert_eq!(g.snapshot(), Snapshot { members: i64::MAX, presences: -1, boosts: i64::MIN });
    let text = g.render().unwrap();
    assert!(has_line(&text, "presences -1"));
}

#[test]
fn two_gauge_sets_are_independent() {
    let mut a = Gauges::new().unwrap();
    let b = Gauges::new().unwrap();
    a.update(record(1, 2, 3));
    assert_eq!(b.snapshot(), Snapshot { members: 0, presences: 0, boosts: 0 });
}

#[test]
fn render_is_the_whole_exposition() {
    let mut g = Gauges::new().unwrap();
    g.update(record(1000, 200, 5));
    let expected = "# HELP boosts How many boosts the server has\n\
# TYPE boosts gauge\n\
boosts 5\n\
# HELP members How many total members there are\n\
# TYPE members gauge\n\
members 1000\n\
# HELP presences How many members are online\n\
# TYPE presences gauge\n\
presences 200\n";
    assert_eq!(g.render().unwrap(), expected);
}

#[test]
fn two_renders_without_update_are_identical() {
    let mut g = Gauges::new().unwrap();
    g.update(record(3, 2, 1));
    assert_eq!(g.render().unwrap(), g.render().unwrap());
}

#[test]
fn render_follows_the_latest_update() {
    let mut g = Gauges::new().unwrap();
    g.update(record(1, 1, 1));
    g.update(record(2, 3, 4));
    let text = g.render().unwrap();
    assert!(has_line(&text, "members 2"));
    assert!(has_line(&text, "presences 3"));
    assert!(has_line(&text, "boosts 4"));
    assert!(!has_line(&text, "members 1"));
}
