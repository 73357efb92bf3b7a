use codex_usage_tray::clock::{
    clock_at, countdown_at, current_month_range_text, is_later, local_clock_at, month_range,
    primary_elapsed, reset_clock_text, reset_text, reset_text_at, window_elapsed_at, Instant,
    MAX_TIMESTAMP,
};
use codex_usage_tray::notify::{PaceAlert, PaceReading, ResetWatch};

fn at(secs: i64, nanos: u32) -> Instant {
    Instant { secs, nanos }
}

#[test]
fn countdown_cases() {
    assert_eq!(countdown_at(1000, at(1000, 0)), "now");
    assert_eq!(countdown_at(900, at(1000, 0)), "now");
    assert_eq!(countdown_at(1001, at(1000, 500)), "now");
    assert_eq!(countdown_at(1059, at(1000, 0)), "0m");
    assert_eq!(countdown_at(1000 + 3700, at(1000, 0)), "1h 1m");
    assert_eq!(countdown_at(1000 + 90061, at(1000, 0)), "1d 1h");
    assert_eq!(countdown_at(1000 + 3600, at(1000, 1)), "59m");
    assert_eq!(countdown_at(1000 + 2 * 86400, at(1000, 0)), "2d 0h");
}

#[test]
fn reset_text_edges() {
    assert_eq!(reset_text(None), "n/a");
    assert_eq!(reset_text(Some(i64::MAX)), "n/a");
    assert_eq!(reset_text(Some(0)), "now");
    let far = reset_text(Some(4_000_000_000));
    assert!(far.ends_with('h') && far.contains("d "));
}

#[test]
fn reset_clock_text_edges() {
    assert_eq!(reset_clock_text(None), "n/a");
    assert_eq!(reset_clock_text(Some(i64::MIN)), "n/a");
    let t = reset_clock_text(Some(1_773_144_000));
    assert_eq!(t.len(), 5);
    assert_eq!(t.as_bytes()[2], b':');
    assert!(t.chars().filter(|c| c.is_ascii_digit()).count() == 4);
}

#[test]
fn window_elapsed_clamps() {
    assert_eq!(window_elapsed_at(1000, 1000), 18000);
    assert_eq!(window_elapsed_at(1000 + 18000, 1000), 0);
    assert_eq!(window_elapsed_at(1000 + 50000, 1000), 0);
    assert_eq!(window_elapsed_at(1000 + 9000, 1000), 9000);
    assert_eq!(window_elapsed_at(i64::MIN, i64::MAX), 18000);
    assert_eq!(primary_elapsed(None), None);
    assert_eq!(primary_elapsed(Some(0)), Some(18000));
}

#[test]
fn month_range_texts() {
    assert_eq!(month_range(2026, 1), "Jan 1 - Jan 31, 2026");
    assert_eq!(month_range(2024, 2), "Feb 1 - Feb 29, 2024");
    assert_eq!(month_range(2025, 12), "Dec 1 - Dec 31, 2025");
    assert_eq!(month_range(262143, 12), "Current month");
    assert!(current_month_range_text().contains(" - "));
}

#[test]
fn instants_order() {
    assert!(is_later(&at(2, 0), &at(1, 999)));
    assert!(is_later(&at(1, 5), &at(1, 4)));
    assert!(!is_later(&at(1, 4), &at(1, 4)));
}

#[test]
fn reset_watch_announces_moved_resets() {
    let mut w = ResetWatch::new();
    assert!(!w.observe(Some(100)));
    assert!(!w.observe(Some(100)));
    assert!(w.observe(Some(200)));
    assert!(!w.observe(Some(150)));
    assert!(!w.observe(None));
    assert!(!w.observe(Some(500)));
    assert!(w.observe(Some(600)));
}

#[test]
fn pace_alert_fires_once_per_window() {
    let fast = PaceReading { calm: false, fast: true };
    let middling = PaceReading { calm: false, fast: false };
    let calm = PaceReading { calm: true, fast: false };
    let mut a = PaceAlert::new();
    assert!(a.observe(Some(1), Some(fast)));
    assert!(!a.observe(Some(1), Some(fast)));
    assert!(!a.observe(Some(1), Some(middling)));
    assert!(!a.observe(Some(1), Some(fast)));
    assert!(!a.observe(Some(1), Some(calm)));
    assert!(a.observe(Some(1), Some(fast)));
    assert!(a.observe(Some(2), Some(fast)));
    assert!(!a.observe(Some(2), None));
    assert!(a.observe(Some(2), Some(fast)));
}

#[test]
fn clock_at_pads_two_digits() {
    assert_eq!(clock_at(7, 5), "07:05");
    assert_eq!(clock_at(23, 59), "23:59");
    assert_eq!(clock_at(0, 0), "00:00");
}

#[test]
fn reset_text_at_a_given_moment() {
    let now = Some(at(1000, 0));
    assert_eq!(reset_text_at(None, now), "n/a");
    assert_eq!(reset_text_at(Some(MAX_TIMESTAMP + 1), now), "n/a");
    assert_eq!(reset_text_at(Some(5000), None), "n/a");
    assert_eq!(reset_text_at(Some(1000 + 3700), now), "1h 1m");
    assert_eq!(reset_text_at(Some(500), now), "now");
}

#[test]
fn local_clock_follows_the_offset() {
    assert_eq!(local_clock_at(1_773_144_000, 0), "12:00");
    assert_eq!(local_clock_at(1_773_144_000, 5 * 3600 + 1800), "17:30");
    assert_eq!(local_clock_at(1_773_144_000, -13 * 3600), "23:00");
    assert_eq!(local_clock_at(-60, 0), "23:59");
    assert_eq!(local_clock_at(59, 0), "00:00");
}
