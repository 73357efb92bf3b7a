use codex_usage_tray::layout::{
    bold_line, limit_markup, model_line, pace_markup, summary, title, tray_label, SummaryPieces,
};
use codex_usage_tray::usage::Usage;

fn usage(total: i64, input: i64, cached: i64, output: i64, reasoning: i64) -> Usage {
    Usage {
        input_tokens: input,
        cached_input_tokens: cached,
        output_tokens: output,
        reasoning_output_tokens: reasoning,
        total_tokens: total,
    }
}

#[test]
fn model_line_lists_every_kind() {
    let u = usage(1_234_567, 1_000_000, 200_000, 34_567, 1_000);
    assert_eq!(
        model_line("gpt-5", &u, "$3.10"),
        "gpt-5: 1,234,567 tokens | input 1,000,000 | cached 200,000 | output 34,567 | reasoning 1,000 | cost $3.10"
    );
}

#[test]
fn summary_layout() {
    let pieces = SummaryPieces {
        plan: "Pro".to_string(),
        party_mode: true,
        primary_percent: "13".to_string(),
        primary_reset: "1h 2m".to_string(),
        pace: "on pace".to_string(),
        expected_percent: "12.4".to_string(),
        weekly_percent: "40".to_string(),
        weekly_reset: "2d 3h".to_string(),
        today: usage(1500, 1000, 0, 500, 0),
        today_cost: "$0.02".to_string(),
        month: usage(2500, 2000, 0, 500, 0),
        month_cost: "$0.03".to_string(),
        total: usage(12345, 10000, 2000, 2345, 45),
        total_cost: "$0.15".to_string(),
        unpriced_tokens: 0,
        model_lines: vec!["a: 1".to_string(), "b: 2".to_string()],
        events_seen: 7,
        files_seen: 2,
    };
    let expected = "Codex Usage\n\nPlan: Pro\nParty mode: on\n\nRate limits\n5h: 13% | reset in 1h 2m | pace: on pace | expected 12.4%\nWeekly: 40% | reset in 2d 3h\n\nCosts\nToday: 1,500 tokens | $0.02\nThis month: 2,500 tokens | $0.03\nAll-time: 12,345 tokens | $0.15\n\nToken breakdown\nAll-time input: 10,000\nAll-time cached input: 2,000\nAll-time output: 2,345\nAll-time reasoning: 45\nSkipped with no public API price: 0\n\nModels\na: 1\nb: 2\n\nSource: 7 token_count events from 2 JSONL files\n";
    assert_eq!(summary(&pieces), expected);
    let empty = SummaryPieces { model_lines: Vec::new(), party_mode: false, ..pieces };
    let text = summary(&empty);
    assert!(text.contains("Party mode: off\n"));
    assert!(text.contains("\n\nModels\n\n\nSource: "));
}

#[test]
fn menu_lines() {
    assert_eq!(
        limit_markup("🟢", "5h", "12", "1h 2m", "14:05"),
        "🟢  <b>5h</b>  12%  |  reset in 1h 2m at 14:05"
    );
    assert_eq!(bold_line("🔵  Today's cost:", "$1.20"), "🔵  Today's cost:  <b>$1.20</b>");
    assert_eq!(pace_markup("🟡", "ahead by 2.5%"), "🟡  <b>Pace:</b>  ahead by 2.5%");
    assert_eq!(tray_label("12", "$1.20"), "5h 12% | $1.20");
    assert_eq!(
        title("12", "1h 2m", "14:05", "on pace", "40", "2d 3h", "09:00"),
        "Codex Usage | 5h 12% | reset in 1h 2m at 14:05 | Pace: on pace | Weekly 40% | reset in 2d 3h at 09:00"
    );
}

use codex_usage_tray::page::{model_row, page, CompactCounts, PagePieces};

fn page_pieces(party_mode: bool) -> PagePieces {
    PagePieces {
        plan: "Pro <beta>".to_string(),
        primary_color: "var(--green)".to_string(),
        primary_percent: "13".to_string(),
        primary_bar: "12.5000".to_string(),
        primary_reset: "1h 2m".to_string(),
        primary_clock: "14:05".to_string(),
        weekly_color: "var(--amber)".to_string(),
        weekly_percent: "40".to_string(),
        weekly_bar: "40.0000".to_string(),
        weekly_reset: "2d 3h".to_string(),
        weekly_clock: "09:00".to_string(),
        pace_color: "var(--red)".to_string(),
        pace: "fast by 12.0%".to_string(),
        expected_percent: "20.5".to_string(),
        party_mode,
        today_cost: "$0.02".to_string(),
        today: usage(1500, 1000, 0, 500, 0),
        month_cost: "$0.03".to_string(),
        month: usage(2500, 2000, 0, 500, 0),
        month_range: "Mar 1 - Mar 31, 2026".to_string(),
        total_cost: "$1,234".to_string(),
        total: usage(12345, 10000, 2000, 2345, 45),
        unpriced_tokens: 7,
        model_rows: vec!["<tr>a</tr>".to_string(), "<tr>b</tr>".to_string()],
        events_seen: 9,
        files_seen: 3,
    }
}

#[test]
fn details_page_layout() {
    let html = page(&page_pieces(true));
    assert!(html.starts_with("<!doctype html>\n<html lang=\"en\">"));
    assert!(html.ends_with("</body>\n</html>"));
    assert!(html.contains("<div class=\"plan\">Pro &lt;beta&gt;</div>"));
    assert!(html.contains("<article class=\"card pad span-6\" style=\"--dot:var(--green)\">"));
    assert!(html.contains("<div class=\"metric\">13%</div>"));
    assert!(html.contains("<div class=\"bar\" style=\"--value:12.5000%\"></div>"));
    assert!(html.contains("Resets in <strong class=\"muted\">1h 2m</strong>"));
    assert!(html.contains("At <strong class=\"muted\">09:00</strong>"));
    assert!(html.contains("Expected <strong class=\"muted\">20.5%</strong> of the 5h window by now."));
    assert!(html.contains("<div class=\"metric\">On</div>\n        </div>\n        <div class=\"plan\">Confetti enabled</div>"));
    assert!(html.contains("<div class=\"small\">Mar 1 - Mar 31, 2026</div>"));
    assert!(html.contains("<span>Unpriced</span><strong>7</strong>"));
    assert!(html.contains("<span>Input</span><strong>10,000</strong>"));
    assert!(html.contains("<tbody><tr>a</tr><tr>b</tr></tbody>"));
    assert!(html.contains("Source: 9 token_count events from 3 JSONL files"));
    assert!(html.contains(":root {\n  color-scheme: dark;"));
    let quiet = page(&page_pieces(false));
    assert!(quiet.contains("<div class=\"metric\">Off</div>"));
    assert!(quiet.contains("<div class=\"plan\">Notifications only</div>"));
}

#[test]
fn model_rows_escape_names() {
    let u = usage(1_500_000, 1_000_000, 0, 500_000, 0);
    let c = CompactCounts {
        total: "1.5M".to_string(),
        input: "1.0M".to_string(),
        cached: "0".to_string(),
        output: "500,000".to_string(),
        reasoning: "0".to_string(),
    };
    assert_eq!(
        model_row("a&b", &u, &c, "$2.00"),
        "<tr><td><span class=\"model-name\">a&amp;b</span></td><td title=\"1,500,000\">1.5M</td><td title=\"1,000,000\">1.0M</td><td title=\"0\">0</td><td title=\"500,000\">500,000</td><td title=\"0\">0</td><td class=\"cost\">$2.00</td></tr>"
    );
}
