use chrono::{Datelike, NaiveDate, TimeZone, Timelike};
use codex_usage_tray::calendar::{civil_from_days, month_exists, month_length};
use codex_usage_tray::clock::{
    local_stamp_at, month_range, parse_timestamp_or_now, reset_clock_text, reset_text, Instant,
    MAX_TIMESTAMP, MIN_TIMESTAMP,
};

fn chrono_date(days: i64) -> (i32, u32, u32) {
    let d = NaiveDate::from_num_days_from_ce_opt((days + 719_163) as i32).unwrap();
    (d.year(), d.month(), d.day())
}

#[test]
fn civil_dates_match_chrono() {
    assert_eq!(civil_from_days(0), (1970, 1, 1));
    assert_eq!(civil_from_days(-1), (1969, 12, 31));
    assert_eq!(civil_from_days(20522), (2026, 3, 10));
    assert_eq!(civil_from_days(-719_162), (1, 1, 1));
    assert_eq!(civil_from_days(-96_465_292), (-262143, 1, 1));
    assert_eq!(civil_from_days(95_026_236), (262142, 12, 31));
    let mut d: i64 = -96_465_292;
    while d <= 95_026_236 {
        assert_eq!(civil_from_days(d), chrono_date(d), "day {}", d);
        d += 9_973;
    }
    for d in -800_000..800_000i64 {
        if d % 7 == 0 || (d > -1000 && d < 1000) {
            assert_eq!(civil_from_days(d), chrono_date(d), "day {}", d);
        }
    }
}

#[test]
fn month_lengths_and_existence() {
    assert_eq!(month_length(2024, 2), 29);
    assert_eq!(month_length(2023, 2), 28);
    assert_eq!(month_length(1900, 2), 28);
    assert_eq!(month_length(2000, 2), 29);
    assert_eq!(month_length(-4, 2), 29);
    assert_eq!(month_length(-100, 2), 28);
    assert_eq!(month_length(2026, 4), 30);
    assert_eq!(month_length(2026, 12), 31);
    for y in [-262143, -401, -400, -1, 0, 1, 1999, 2000, 2024, 2100, 262142] {
        for m in 1..=12u32 {
            assert!(month_exists(y, m));
            let next = if m == 12 {
                NaiveDate::from_ymd_opt(y + 1, 1, 1)
            } else {
                NaiveDate::from_ymd_opt(y, m + 1, 1)
            };
            if let Some(next) = next {
                let last = next.pred_opt().unwrap();
                assert_eq!(month_length(y, m), last.day());
            }
        }
    }
    assert!(!month_exists(262143, 1));
    assert!(!month_exists(-262144, 12));
    assert!(!month_exists(2026, 0));
    assert!(!month_exists(2026, 13));
}

#[test]
fn month_titles_match_chrono() {
    for y in [-262143, -10000, -1, 0, 7, 999, 1000, 2024, 2026, 9999, 10000, 262142] {
        for m in 1..=12u32 {
            let start = NaiveDate::from_ymd_opt(y, m, 1).unwrap();
            let next = if m == 12 {
                NaiveDate::from_ymd_opt(y + 1, 1, 1)
            } else {
                NaiveDate::from_ymd_opt(y, m + 1, 1)
            };
            let expected = match next {
                Some(n) => {
                    let end = n - chrono::Duration::days(1);
                    format!("{} - {}", start.format("%b %-d"), end.format("%b %-d, %Y"))
                }
                None => "Current month".to_string(),
            };
            assert_eq!(month_range(y, m), expected, "{} {}", y, m);
        }
    }
    assert_eq!(month_range(0, 2), "Feb 1 - Feb 29, 0000");
    assert_eq!(month_range(-1, 3), "Mar 1 - Mar 31, -0001");
    assert_eq!(month_range(10000, 6), "Jun 1 - Jun 30, +10000");
    assert_eq!(month_range(262142, 11), "Nov 1 - Nov 30, +262142");
    assert_eq!(month_range(262142, 12), "Current month");
    assert_eq!(month_range(2026, 13), "Current month");
}

#[test]
fn local_stamps_follow_the_offset() {
    let noon = Instant { secs: 1_773_144_000, nanos: 0 };
    let s = local_stamp_at(noon, 0);
    assert_eq!((s.year, s.month, s.day), (2026, 3, 10));
    let east = local_stamp_at(noon, 13 * 3600);
    assert_eq!((east.year, east.month, east.day), (2026, 3, 11));
    let west = local_stamp_at(noon, -13 * 3600);
    assert_eq!((west.year, west.month, west.day), (2026, 3, 9));
    let before_epoch = local_stamp_at(Instant { secs: -1, nanos: 0 }, 0);
    assert_eq!((before_epoch.year, before_epoch.month, before_epoch.day), (1969, 12, 31));
    let first = local_stamp_at(Instant { secs: MIN_TIMESTAMP, nanos: 0 }, 0);
    assert_eq!((first.year, first.month, first.day), (-262143, 1, 1));
    let last = local_stamp_at(Instant { secs: MAX_TIMESTAMP, nanos: 0 }, 0);
    assert_eq!((last.year, last.month, last.day), (262142, 12, 31));
}

#[test]
fn parsed_timestamps_fall_on_chrono_local_days() {
    for t in [
        "2026-03-10T12:00:00Z",
        "2026-03-10T23:59:59Z",
        "2026-03-11T00:00:00+14:00",
        "2025-12-31T23:30:00-11:00",
        "1969-12-31T23:59:59Z",
        "2024-02-29T12:00:00+05:30",
    ] {
        let s = parse_timestamp_or_now(Some(&t.to_string())).unwrap();
        let local = chrono::DateTime::parse_from_rfc3339(t).unwrap().with_timezone(&chrono::Local);
        assert_eq!(s.instant.secs, local.timestamp(), "{}", t);
        assert_eq!(s.offset, local.offset().local_minus_utc(), "{}", t);
        assert_eq!((s.year, s.month, s.day), (local.year(), local.month(), local.day()), "{}", t);
    }
}

#[test]
fn reset_texts_at_the_edges_of_chrono_dates() {
    assert_eq!(reset_text(Some(MAX_TIMESTAMP + 1)), "n/a");
    assert_eq!(reset_text(Some(MIN_TIMESTAMP - 1)), "n/a");
    assert_eq!(reset_text(Some(MIN_TIMESTAMP)), "now");
    assert!(reset_text(Some(MAX_TIMESTAMP)).ends_with('h'));
    assert_eq!(reset_clock_text(Some(MAX_TIMESTAMP + 1)), "n/a");
    assert_eq!(reset_clock_text(Some(MIN_TIMESTAMP - 1)), "n/a");
    for r in [MIN_TIMESTAMP, 0, 1_773_144_000, 1_773_170_999, MAX_TIMESTAMP] {
        let dt = chrono::Local.timestamp_opt(r, 0).single().unwrap();
        assert_eq!(reset_clock_text(Some(r)), format!("{:02}:{:02}", dt.hour(), dt.minute()));
        assert_eq!(reset_clock_text(Some(r)), dt.format("%H:%M").to_string());
    }
}
