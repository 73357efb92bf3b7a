use codex_usage_tray::cache::StatsCache;
use codex_usage_tray::clock::{now_local, parse_timestamp_or_now};
use codex_usage_tray::config::{
    clamp_refresh_seconds, load_config, load_config_text, party_mode_enabled, party_mode_markup,
    refresh_interval_markup, refresh_seconds, save_config, set_party_mode, set_refresh_seconds,
    AppConfig,
};
use codex_usage_tray::json::{parse_json, JsonNumber, JsonValue};
use codex_usage_tray::stats::{
    day_period, log_documents_of, month_period, parse_file_stats, parse_session_log, session_events,
    FileStats, Period, PeriodModel,
};
use codex_usage_tray::usage::Usage;

fn parse_doc(text: &str) -> Option<JsonValue> {
    parse_json(text)
}

fn lines(content: &str) -> Vec<JsonValue> {
    log_documents_of(content)
}

const LOG: &str = r#"{"type":"session_meta","payload":{"model":"gpt-5.4-mini-2026"}}
{"type":"event_msg","timestamp":"2026-03-10T12:00:00Z","payload":{"type":"token_count","info":{"last_token_usage":{"input_tokens":100,"cached_input_tokens":40,"output_tokens":10,"reasoning_output_tokens":3,"total_tokens":110}},"rate_limits":{"plan_type":"prolite","primary":{"used_percent":12.5,"resets_at":1773150000},"secondary":{"used_percent":40,"resets_at":1773500000}}}}
not json at all

{"type":"event_msg","timestamp":"2026-03-10T11:00:00Z","payload":{"type":"agent_message"}}
{"type":"turn_context","payload":{"model":"gpt-5"}}
{"type":"event_msg","timestamp":"2026-03-10T11:30:00Z","payload":{"type":"token_count","info":{"last_token_usage":{"input_tokens":1,"output_tokens":2,"total_tokens":3}},"rate_limits":{"primary":{"used_percent":99}}}}
{"type":"event_msg","timestamp":"2026-03-10T13:00:00Z","payload":{"type":"token_count","info":{"last_token_usage":{"input_tokens":5,"total_tokens":5}}}}
{"type":"event_msg","payload":{"type":"token_count","info":{}}}
"#;

#[test]
fn session_events_follow_the_model() {
    let events = session_events(&lines(LOG));
    assert_eq!(events.len(), 3);
    assert_eq!(events[0].model, "gpt-5.4-mini");
    assert_eq!(events[0].usage.input_tokens, 100);
    assert_eq!(events[0].usage.cached_input_tokens, 40);
    assert_eq!(events[0].usage.reasoning_output_tokens, 3);
    assert_eq!(events[0].timestamp.as_deref(), Some("2026-03-10T12:00:00Z"));
    let rate = events[0].rate_limits.as_ref().unwrap();
    assert_eq!(rate.plan_type, "prolite");
    assert_eq!(rate.primary.resets_at, Some(1773150000));
    assert_eq!(rate.primary.used_percent, Some(JsonNumber::Float(12.5f64.to_bits())));
    assert_eq!(rate.secondary.used_percent, Some(JsonNumber::PosInt(40)));
    assert_eq!(events[1].model, "gpt-5");
    assert_eq!(events[1].usage.cached_input_tokens, 0);
    let rate1 = events[1].rate_limits.as_ref().unwrap();
    assert_eq!(rate1.plan_type, "n/a");
    assert_eq!(rate1.primary.resets_at, None);
    assert_eq!(rate1.secondary.used_percent, None);
    assert!(events[2].rate_limits.is_none());
}

#[test]
fn model_defaults_to_unknown() {
    let log = r#"{"type":"event_msg","payload":{"type":"token_count","info":{"last_token_usage":{"total_tokens":9}}}}"#;
    let events = session_events(&lines(log));
    assert_eq!(events.len(), 1);
    assert_eq!(events[0].model, "unknown");
    assert!(events[0].timestamp.is_none());
}

#[test]
fn file_stats_add_up_events() {
    let stats: FileStats = parse_file_stats(&lines(LOG)).unwrap();
    assert_eq!(stats.events_seen, 3);
    assert_eq!(stats.total.total_tokens, 118);
    assert_eq!(stats.total.input_tokens, 106);
    assert_eq!(stats.by_model.get(&"gpt-5.4-mini".to_string()).unwrap().total_tokens, 110);
    assert_eq!(stats.by_model.get(&"gpt-5".to_string()).unwrap().total_tokens, 8);
    // The latest event with rate limits is the one at 12:00.
    let rate = stats.rate_limits.as_ref().unwrap();
    assert_eq!(rate.plan_type, "prolite");
    let ts = parse_timestamp_or_now(Some(&"2026-03-10T12:00:00Z".to_string())).unwrap();
    assert_eq!(stats.latest_rate_ts, Some(ts.instant));
    assert_eq!(ts.instant.secs, 1773144000);
    // Every event falls on the day of its timestamp in the local zone.
    let day = day_period(&ts);
    let month = month_period(&ts);
    let mut day_total: i64 = 0;
    for t in ["2026-03-10T12:00:00Z", "2026-03-10T11:30:00Z", "2026-03-10T13:00:00Z"] {
        let s = parse_timestamp_or_now(Some(&t.to_string())).unwrap();
        if day_period(&s) == day {
            day_total += match t {
                "2026-03-10T12:00:00Z" => 110,
                "2026-03-10T11:30:00Z" => 3,
                _ => 5,
            };
        }
    }
    assert_eq!(stats.by_period.get(&day).unwrap().total_tokens, day_total);
    assert_eq!(stats.by_period.get(&month).unwrap().total_tokens, 118);
    let key = PeriodModel { period: month, model: "gpt-5".to_string() };
    assert_eq!(stats.by_period_model.get(&key).unwrap().total_tokens, 8);
}

#[test]
fn timestamp_parses_rfc3339_instant() {
    let s = parse_timestamp_or_now(Some(&"2026-01-02T03:04:05.5+01:00".to_string())).unwrap();
    assert_eq!(s.instant.secs, 1767319445);
    assert_eq!(s.instant.nanos, 500_000_000);
    assert!((1..=12).contains(&s.month));
    let now = now_local().unwrap();
    let fallback = parse_timestamp_or_now(Some(&"yesterday".to_string())).unwrap();
    assert!(fallback.instant.secs >= now.instant.secs);
}

#[test]
fn cache_stores_and_aggregates() {
    let mut cache = StatsCache::new();
    let a = "/logs/a.jsonl".to_string();
    let b = "/logs/b.jsonl".to_string();
    assert!(cache.is_stale(&a, 10, 1));
    cache.store(a.clone(), 10, 1, parse_file_stats(&lines(LOG)).unwrap());
    assert!(!cache.is_stale(&a, 10, 1));
    assert!(cache.is_stale(&a, 11, 1));
    assert!(cache.is_stale(&a, 10, 2));
    let other = r#"{"type":"turn_context","payload":{"model":"gpt-5-nano"}}
{"type":"event_msg","timestamp":"2026-03-11T08:00:00Z","payload":{"type":"token_count","info":{"last_token_usage":{"total_tokens":1000}},"rate_limits":{"plan_type":"plus"}}}"#;
    cache.store(b.clone(), 5, 5, parse_file_stats(&lines(other)).unwrap());
    let ts = parse_timestamp_or_now(Some(&"2026-03-10T12:00:00Z".to_string())).unwrap();
    let stats = cache.stats_for(day_period(&ts), month_period(&ts));
    assert_eq!(stats.files_seen, 2);
    assert_eq!(stats.events_seen, 4);
    assert_eq!(stats.total.total_tokens, 1118);
    assert_eq!(stats.by_model.len(), 3);
    assert_eq!(stats.rate_limits.as_ref().unwrap().plan_type, "plus");
    // A second call with nothing changed gives the same statistics.
    let again = cache.stats_for(day_period(&ts), month_period(&ts));
    assert_eq!(again.total, stats.total);
    assert_eq!(again.events_seen, stats.events_seen);
    // Dropping a file that is gone.
    cache.retain_seen(&vec![b.clone()]);
    assert_eq!(cache.files().len(), 1);
    assert!(cache.is_stale(&a, 10, 1));
    let after = cache.stats_for(day_period(&ts), month_period(&ts));
    assert_eq!(after.total.total_tokens, 1000);
    assert_eq!(after.files_seen, 1);
    let fresh = cache.collect().unwrap();
    assert_eq!(fresh.total.total_tokens, 1000);
}

#[test]
fn cache_replaces_a_changed_file() {
    let mut cache = StatsCache::new();
    let a = "a".to_string();
    cache.store(a.clone(), 1, 1, parse_file_stats(&lines(LOG)).unwrap());
    cache.store(a.clone(), 2, 2, FileStats::new());
    assert_eq!(cache.files().len(), 1);
    let ts = parse_timestamp_or_now(Some(&"2026-03-10T12:00:00Z".to_string())).unwrap();
    let stats = cache.stats_for(day_period(&ts), month_period(&ts));
    assert_eq!(stats.total, Usage::default());
    assert!(stats.rate_limits.is_none());
}

#[test]
fn config_defaults_and_parsing() {
    assert_eq!(load_config(None), AppConfig { party_mode: false, refresh_seconds: 30 });
    assert_eq!(AppConfig::default(), AppConfig { party_mode: false, refresh_seconds: 30 });
    let doc = parse_doc(r#"{"party_mode": true, "refresh_seconds": 120}"#).unwrap();
    assert_eq!(load_config(Some(&doc)), AppConfig { party_mode: true, refresh_seconds: 120 });
    assert_eq!(refresh_seconds(Some(r#"{"refresh_seconds": 1}"#)), 5);
    assert_eq!(refresh_seconds(Some(r#"{"refresh_seconds": 99999}"#)), 3600);
    assert_eq!(refresh_seconds(Some(r#"{"refresh_seconds": 4294967396}"#)), 100);
    let wrong = parse_doc(r#"{"party_mode": "yes", "refresh_seconds": -3}"#).unwrap();
    assert_eq!(load_config(Some(&wrong)), AppConfig { party_mode: false, refresh_seconds: 30 });
    assert!(!party_mode_enabled(Some("[1, 2]")));
    assert!(!party_mode_enabled(Some("{not json")));
    assert_eq!(load_config_text(None), AppConfig { party_mode: false, refresh_seconds: 30 });
    assert_eq!(load_config_text(Some("")), AppConfig { party_mode: false, refresh_seconds: 30 });
    assert_eq!(clamp_refresh_seconds(0), 5);
    assert_eq!(clamp_refresh_seconds(45), 45);
    assert_eq!(clamp_refresh_seconds(u32::MAX), 3600);
}

#[test]
fn config_text_reads_back() {
    for config in [
        AppConfig { party_mode: true, refresh_seconds: 5 },
        AppConfig { party_mode: false, refresh_seconds: 3600 },
        AppConfig { party_mode: true, refresh_seconds: 300 },
    ] {
        let text = save_config(config);
        assert_eq!(load_config_text(Some(&text)), config);
        let doc = parse_doc(&text).unwrap();
        assert_eq!(load_config(Some(&doc)), config);
    }
    let wide = save_config(AppConfig { party_mode: false, refresh_seconds: u32::MAX });
    assert_eq!(load_config_text(Some(&wide)), AppConfig { party_mode: false, refresh_seconds: 3600 });
    let short = save_config(AppConfig { party_mode: true, refresh_seconds: 0 });
    assert_eq!(load_config_text(Some(&short)), AppConfig { party_mode: true, refresh_seconds: 5 });
    assert_eq!(
        save_config(AppConfig { party_mode: true, refresh_seconds: 30 }),
        "{\n  \"party_mode\": true,\n  \"refresh_seconds\": 30\n}\n"
    );
}

#[test]
fn config_setters_keep_the_other_setting() {
    let text = set_refresh_seconds(Some(r#"{"party_mode": true, "refresh_seconds": 600}"#), 2);
    assert_eq!(load_config_text(Some(&text)), AppConfig { party_mode: true, refresh_seconds: 5 });
    let text = set_party_mode(Some(&text), false);
    assert_eq!(load_config_text(Some(&text)), AppConfig { party_mode: false, refresh_seconds: 5 });
    assert_eq!(set_party_mode(Some(&text), false), text);
    let text = set_refresh_seconds(Some(&text), 86400);
    assert_eq!(refresh_seconds(Some(&text)), 3600);
    assert!(!party_mode_enabled(Some(&text)));
    assert_eq!(set_refresh_seconds(Some(&text), 86400), text);
    let from_nothing = set_party_mode(None, true);
    assert_eq!(from_nothing, "{\n  \"party_mode\": true,\n  \"refresh_seconds\": 30\n}\n");
}

#[test]
fn config_markup() {
    let text = r#"{"party_mode": true, "refresh_seconds": 90}"#;
    assert_eq!(refresh_interval_markup(Some(text)), "⏱  Refresh interval:  <b>1m 30s</b>");
    assert_eq!(party_mode_markup(Some(text)), "🎉  Party mode:  <b>On</b>");
    assert_eq!(party_mode_markup(None), "🎉  Party mode:  <b>Off</b>");
    assert_eq!(refresh_interval_markup(None), "⏱  Refresh interval:  <b>30s</b>");
}

const SPREAD: &str = r#"{"type":"session_meta","payload":{"model":"gpt-5"}}
{"type":"event_msg","timestamp":"2026-01-31T10:00:00Z","payload":{"type":"token_count","info":{"last_token_usage":{"total_tokens":7}}}}
{"type":"event_msg","timestamp":"2026-02-01T10:00:00Z","payload":{"type":"token_count","info":{"last_token_usage":{"total_tokens":11}}}}
{"type":"turn_context","payload":{"model":"o3"}}
{"type":"event_msg","timestamp":"2026-02-01T11:00:00Z","payload":{"type":"token_count","info":{"last_token_usage":{"total_tokens":13}}}}
{"type":"event_msg","timestamp":"2026-02-20T10:00:00Z","payload":{"type":"token_count","info":{"last_token_usage":{"total_tokens":17}}}}
"#;

#[test]
fn daily_and_monthly_tallies_add_up() {
    let stats = parse_file_stats(&lines(SPREAD)).unwrap();
    assert_eq!(stats.total.total_tokens, 48);
    let mut days: i64 = 0;
    let mut months: i64 = 0;
    let mut n_days = 0;
    let mut n_months = 0;
    for (p, u) in stats.by_period.entries() {
        match p {
            Period::Day { .. } => {
                days += u.total_tokens;
                n_days += 1;
            }
            Period::Month { .. } => {
                months += u.total_tokens;
                n_months += 1;
            }
        }
        let in_period: i64 = stats
            .by_period_model
            .entries()
            .iter()
            .filter(|(k, _)| k.period == *p)
            .map(|(_, v)| v.total_tokens)
            .sum();
        assert_eq!(in_period, u.total_tokens);
    }
    assert_eq!(days, 48);
    assert_eq!(months, 48);
    assert!(n_days >= 3 && n_months >= 2);
    let by_model: i64 = stats.by_model.entries().iter().map(|(_, u)| u.total_tokens).sum();
    assert_eq!(by_model, 48);
    assert_eq!(stats.by_model.get(&"o3".to_string()).unwrap().total_tokens, 30);
}

#[test]
fn events_land_on_the_local_day_of_their_timestamp() {
    let stats = parse_file_stats(&lines(SPREAD)).unwrap();
    for (t, tokens) in [("2026-01-31T10:00:00Z", 7i64), ("2026-02-20T10:00:00Z", 17)] {
        let s = parse_timestamp_or_now(Some(&t.to_string())).unwrap();
        let local = chrono::DateTime::parse_from_rfc3339(t).unwrap().with_timezone(&chrono::Local);
        let day = Period::Day {
            year: chrono::Datelike::year(&local),
            month: chrono::Datelike::month(&local),
            day: chrono::Datelike::day(&local),
        };
        assert_eq!(day_period(&s), day);
        assert!(stats.by_period.get(&day).unwrap().total_tokens >= tokens);
    }
}

#[test]
fn session_log_text_skips_blank_and_broken_lines() {
    let stats = parse_session_log(LOG).unwrap();
    assert_eq!(stats.events_seen, 3);
    assert_eq!(stats.total.total_tokens, 118);
    let crlf = LOG.replace('\n', "\r\n");
    let again = parse_session_log(&crlf).unwrap();
    assert_eq!(again.total, stats.total);
    assert_eq!(again.events_seen, 3);
    let noisy = format!("\n   \n{}\u{3000}\t\n{{broken\n[1,2]\n", LOG);
    let noisy_stats = parse_session_log(&noisy).unwrap();
    assert_eq!(noisy_stats.total, stats.total);
    assert_eq!(noisy_stats.events_seen, 3);
    let empty = parse_session_log("").unwrap();
    assert_eq!(empty.events_seen, 0);
    assert_eq!(empty.total, Usage::default());
}

#[test]
fn log_lines_split_as_str_lines() {
    assert_eq!(log_documents_of("").len(), 0);
    assert_eq!(log_documents_of("1\n2").len(), 2);
    assert_eq!(log_documents_of("1\r\n2\r\n").len(), 2);
    assert_eq!(log_documents_of("1\n\n \n2\n").len(), 2);
    assert_eq!(log_documents_of("1 2\n3").len(), 1);
    let docs = log_documents_of("{\"a\": -3, \"b\": [true, null, \"x\"], \"c\": 2.5}");
    assert_eq!(docs.len(), 1);
    match &docs[0] {
        JsonValue::Object(m) => {
            assert_eq!(m.len(), 3);
            assert!(matches!(m[0].1, JsonValue::Number(JsonNumber::NegInt(-3))));
            assert!(matches!(&m[1].1, JsonValue::Array(a) if a.len() == 3));
            assert!(matches!(m[2].1, JsonValue::Number(JsonNumber::Float(bits)) if bits == 2.5f64.to_bits()));
        }
        _ => panic!("not an object"),
    }
}
