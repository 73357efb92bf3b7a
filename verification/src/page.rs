use vstd::prelude::*;

use crate::layout::{full, push_full, push_str, usage_counts_fit};
use crate::text::{decimal, escaped, html_escape, push_decimal};
use crate::usage::Usage;

verus! {

/// What the details page shows. Colors, percentages and dollar figures come
/// already written, as the caller rounds them; texts that come from outside
/// are escaped here; token counts come as numbers.
pub struct PagePieces {
    pub plan: String,
    pub primary_color: String,
    pub primary_percent: String,
    pub primary_bar: String,
    pub primary_reset: String,
    pub primary_clock: String,
    pub weekly_color: String,
    pub weekly_percent: String,
    pub weekly_bar: String,
    pub weekly_reset: String,
    pub weekly_clock: String,
    pub pace_color: String,
    pub pace: String,
    pub expected_percent: String,
    pub party_mode: bool,
    pub today_cost: String,
    pub today: Usage,
    pub month_cost: String,
    pub month: Usage,
    pub month_range: String,
    pub total_cost: String,
    pub total: Usage,
    pub unpriced_tokens: i64,
    pub model_rows: Vec<String>,
    pub events_seen: usize,
    pub files_seen: usize,
}

/// No token count of the page is `i64::MIN`, which has no magnitude.
pub open spec fn page_counts_fit(p: PagePieces) -> bool {
    &&& p.today.total_tokens > i64::MIN
    &&& p.month.total_tokens > i64::MIN
    &&& usage_counts_fit(p.total)
    &&& p.unpriced_tokens > i64::MIN
}

/// Texts written one after another.
pub open spec fn concat_all(parts: Seq<Seq<char>>) -> Seq<char>
    decreases parts.len(),
{
    if parts.len() == 0 {
        Seq::empty()
    } else {
        concat_all(parts.drop_last()) + parts.last()
    }
}

fn push_all(out: &mut String, parts: &Vec<String>)
    ensures
        final(out)@ == old(out)@ + concat_all(parts@.map_values(|r: String| r@)),
{
    let ghost views = parts@.map_values(|r: String| r@);
    let n = parts.len();
    let mut i: usize = 0;
    while i < n
        invariant
            n == parts@.len(),
            views == parts@.map_values(|r: String| r@),
            i <= n,
            out@ == old(out)@ + concat_all(views.take(i as int)),
        decreases n - i,
    {
        push_str(out, parts[i].as_str());
        proof {
            let t = views.take(i + 1);
            assert(t.drop_last() =~= views.take(i as int));
            assert(out@ =~= old(out)@ + concat_all(t));
        }
        i += 1;
    }
    assert(views.take(n as int) =~= views);
}

pub open spec fn page_part0(p: PagePieces) -> Seq<char> {
    "<!doctype html>\n<html lang=\"en\">\n<head>\n<meta charset=\"utf-8\">\n<meta name=\"viewport\" content=\"width=device-width, initial-scale=1\">\n<title>Codex Usage</title>\n<style>\n:root {\n  color-scheme: dark;\n  --bg: #090d12;\n  --panel: #111820;\n  --panel-soft: #0d131a;\n  --line: #202b36;\n  --line-soft: #18222d;\n  --text: #eef4fb;\n  --muted: #8ea0b2;\n  --quiet: #627284;\n  --green: #35c46a;\n  --amber: #e5b454;\n  --red: #e35d5d;\n  --blue: #6aa8ff;\n  --violet: #aa7cff;\n}\n* { box-sizing: border-box; }\nbody {\n  margin: 0;\n  min-height: 100dvh;\n  background:\n    radial-gradient(circle at 15% 0%, rgba(106, 168, 255, 0.13), transparent 34rem),\n    radial-gradient(circle at 85% 8%, rgba(170, 124, 255, 0.11), transparent 30rem),\n    linear-gradient(180deg, #0b1016 0%, var(--bg) 48%, #070a0f 100%);\n  color: var(--text);\n  font: 14px/1.5 \"SF Pro Text\", -apple-system, BlinkMacSystemFont, \"Segoe UI\", sans-serif;\n}\n.shell {\n  width: min(1180px, calc(100vw - 32px));\n  margin: 0 auto;\n  padding: 34px 0 42px;\n}\n.topbar {\n  display: flex;\n  align-items: end;\n  justify-content: space-between;\n  gap: 24px;\n  margin-bottom: 22px;\n}\nh1 {\n  margin: 0;\n  font-size: clamp(30px, 3.7vw, 46px);\n  line-height: 1.04;\n  letter-spacing: 0;\n  font-weight: 650;\n}\n.subtitle {\n  margin: 10px 0 0;\n  max-width: 58ch;\n  color: var(--muted);\n}\n.plan {\n  border: 1px solid var(--line);\n  border-radius: 14px;\n  padding: 10px 14px;\n  background: rgba(17, 24, 32, 0.72);\n  color: #d9e6f2;\n  white-space: nowrap;\n}\n.grid {\n  display: grid;\n  grid-template-columns: repeat(12, 1fr);\n  gap: 12px;\n}\n.card {\n  border: 1px solid var(--line);\n  border-radius: 16px;\n  background:\n    linear-gradient(180deg, rgba(255, 255, 255, 0.035), transparent),\n    rgba(17, 24, 32, 0.84);\n  box-shadow: 0 18px 70px rgba(0, 0, 0, 0.22);\n  overflow: hidden;\n}\n.card.pad { padding: 18px; }\n.span-3 { grid-column: span 3; }\n.span-4 { grid-column: span 4; }\n.span-6 { grid-column: span 6; }\n.span-8 { grid-column: span 8; }\n.span-12 { grid-column: span 12; }\n.label {\n  color: var(--quiet);\n  font-size: 12px;\n  font-weight: 650;\n  margin-bottom: 8px;\n}\n.metric {\n  font-size: clamp(23px, 2.8vw, 32px);\n  line-height: 1;\n  font-weight: 650;\n  letter-spacing: 0;\n}\n.muted { color: var(--muted); }\n.small { font-size: 12px; color: var(--quiet); }\n.rate-head {\n  display: flex;\n  justify-content: space-between;\n  gap: 18px;\n  align-items: start;\n  margin-bottom: 14px;\n}\n.rate-title {\n  display: flex;\n  align-items: center;\n  gap: 8px;\n  font-weight: 740;\n}\n.dot {\n  width: 9px;\n  height: 9px;\n  border-radius: 999px;\n  background: var(--dot);\n  box-shadow: 0 0 18px var(--dot);\n}\n.progress {\n  height: 8px;\n  border-radius: 999px;\n  background: #0a0f15;\n  border: 1px solid var(--line-soft);\n  overflow: hidden;\n}\n.bar {\n  height: 100%;\n  width: var(--value);\n  background: linear-gradient(90deg, var(--dot), color-mix(in srgb, var(--dot), #ffffff 18%));\n  border-radius: inherit;\n}\n.rate-meta {\n  display: flex;\n  justify-content: space-between;\n  gap: 16px;\n  margin-top: 12px;\n}\n.pace {\n  margin-top: 10px;\n  color: var(--muted);\n  font-size: 12px;\n}\n.breakdown {\n  display: grid;\n  gap: 10px;\n}\n.breakdown-row {\n  display: grid;\n  grid-template-columns: 1fr auto;\n  gap: 16px;\n  padding: 10px 0;\n  border-bottom: 1px solid var(--line-soft);\n}\n.breakdown-row:last-child { border-bottom: 0; }\n.table-wrap { overflow: hidden; }\ntable {\n  width: 100%;\n  table-layout: fixed;\n  border-collapse: collapse;\n}\nth, td {\n  padding: 12px 10px;\n  text-align: right;\n  border-bottom: 1px solid var(--line-soft);\n  color: #d8e4ef;\n  white-space: nowrap;\n}\nth {\n  color: var(--quiet);\n  font-size: 11px;\n  font-weight: 700;\n}\nth:first-child, td:first-child {\n  width: 24%;\n  text-align: left;\n}\nth:not(:first-child), td:not(:first-child) {\n  width: 12.666%;\n}\ntr:last-child td { border-bottom: 0; }\n.model-name {\n  display: inline-flex;\n  align-items: center;\n  max-width: 100%;\n  border: 1px solid var(--line);\n  border-radius: 999px;\n  padding: 3px 8px;\n  background: rgba(255, 255, 255, 0.025);\n  font-weight: 650;\n  overflow: hidden;\n  text-overflow: ellipsis;\n  vertical-align: middle;\n}\n.cost { color: #cfe0ff; font-weight: 720; }\n.footer {\n  margin-top: 12px;\n  color: var(--quiet);\n  display: flex;\n  justify-content: space-between;\n  gap: 16px;\n  flex-wrap: wrap;\n}\n@media (max-width: 860px) {\n  .shell { width: min(100vw - 22px, 1180px); padding-top: 22px; }\n  .topbar { display: block; }\n  .plan { display: inline-flex; margin-top: 16px; }\n  .span-3, .span-4, .span-6, .span-8 { grid-column: span 12; }\n  th, td { padding: 10px 7px; font-size: 12px; }\n  .model-name { max-width: 92px; }\n}\n</style>\n</head>\n<body>\n<main class=\"shell\">\n  <header class=\"topbar\">\n    <div>\n      <h1>Codex Usage</h1>\n      <p class=\"subtitle\">Subscription usage, API-equivalent cost, cached-token pricing and reset windows from local Codex session events.</p>\n    </div>\n    <div class=\"plan\">"@
        + escaped(p.plan@)
}

fn push_page_part0(out: &mut String, p: &PagePieces)
    ensures
        final(out)@ == old(out)@ + page_part0(*p),
{
    push_str(out, "<!doctype html>\n<html lang=\"en\">\n<head>\n<meta charset=\"utf-8\">\n<meta name=\"viewport\" content=\"width=device-width, initial-scale=1\">\n<title>Codex Usage</title>\n<style>\n:root {\n  color-scheme: dark;\n  --bg: #090d12;\n  --panel: #111820;\n  --panel-soft: #0d131a;\n  --line: #202b36;\n  --line-soft: #18222d;\n  --text: #eef4fb;\n  --muted: #8ea0b2;\n  --quiet: #627284;\n  --green: #35c46a;\n  --amber: #e5b454;\n  --red: #e35d5d;\n  --blue: #6aa8ff;\n  --violet: #aa7cff;\n}\n* { box-sizing: border-box; }\nbody {\n  margin: 0;\n  min-height: 100dvh;\n  background:\n    radial-gradient(circle at 15% 0%, rgba(106, 168, 255, 0.13), transparent 34rem),\n    radial-gradient(circle at 85% 8%, rgba(170, 124, 255, 0.11), transparent 30rem),\n    linear-gradient(180deg, #0b1016 0%, var(--bg) 48%, #070a0f 100%);\n  color: var(--text);\n  font: 14px/1.5 \"SF Pro Text\", -apple-system, BlinkMacSystemFont, \"Segoe UI\", sans-serif;\n}\n.shell {\n  width: min(1180px, calc(100vw - 32px));\n  margin: 0 auto;\n  padding: 34px 0 42px;\n}\n.topbar {\n  display: flex;\n  align-items: end;\n  justify-content: space-between;\n  gap: 24px;\n  margin-bottom: 22px;\n}\nh1 {\n  margin: 0;\n  font-size: clamp(30px, 3.7vw, 46px);\n  line-height: 1.04;\n  letter-spacing: 0;\n  font-weight: 650;\n}\n.subtitle {\n  margin: 10px 0 0;\n  max-width: 58ch;\n  color: var(--muted);\n}\n.plan {\n  border: 1px solid var(--line);\n  border-radius: 14px;\n  padding: 10px 14px;\n  background: rgba(17, 24, 32, 0.72);\n  color: #d9e6f2;\n  white-space: nowrap;\n}\n.grid {\n  display: grid;\n  grid-template-columns: repeat(12, 1fr);\n  gap: 12px;\n}\n.card {\n  border: 1px solid var(--line);\n  border-radius: 16px;\n  background:\n    linear-gradient(180deg, rgba(255, 255, 255, 0.035), transparent),\n    rgba(17, 24, 32, 0.84);\n  box-shadow: 0 18px 70px rgba(0, 0, 0, 0.22);\n  overflow: hidden;\n}\n.card.pad { padding: 18px; }\n.span-3 { grid-column: span 3; }\n.span-4 { grid-column: span 4; }\n.span-6 { grid-column: span 6; }\n.span-8 { grid-column: span 8; }\n.span-12 { grid-column: span 12; }\n.label {\n  color: var(--quiet);\n  font-size: 12px;\n  font-weight: 650;\n  margin-bottom: 8px;\n}\n.metric {\n  font-size: clamp(23px, 2.8vw, 32px);\n  line-height: 1;\n  font-weight: 650;\n  letter-spacing: 0;\n}\n.muted { color: var(--muted); }\n.small { font-size: 12px; color: var(--quiet); }\n.rate-head {\n  display: flex;\n  justify-content: space-between;\n  gap: 18px;\n  align-items: start;\n  margin-bottom: 14px;\n}\n.rate-title {\n  display: flex;\n  align-items: center;\n  gap: 8px;\n  font-weight: 740;\n}\n.dot {\n  width: 9px;\n  height: 9px;\n  border-radius: 999px;\n  background: var(--dot);\n  box-shadow: 0 0 18px var(--dot);\n}\n.progress {\n  height: 8px;\n  border-radius: 999px;\n  background: #0a0f15;\n  border: 1px solid var(--line-soft);\n  overflow: hidden;\n}\n.bar {\n  height: 100%;\n  width: var(--value);\n  background: linear-gradient(90deg, var(--dot), color-mix(in srgb, var(--dot), #ffffff 18%));\n  border-radius: inherit;\n}\n.rate-meta {\n  display: flex;\n  justify-content: space-between;\n  gap: 16px;\n  margin-top: 12px;\n}\n.pace {\n  margin-top: 10px;\n  color: var(--muted);\n  font-size: 12px;\n}\n.breakdown {\n  display: grid;\n  gap: 10px;\n}\n.breakdown-row {\n  display: grid;\n  grid-template-columns: 1fr auto;\n  gap: 16px;\n  padding: 10px 0;\n  border-bottom: 1px solid var(--line-soft);\n}\n.breakdown-row:last-child { border-bottom: 0; }\n.table-wrap { overflow: hidden; }\ntable {\n  width: 100%;\n  table-layout: fixed;\n  border-collapse: collapse;\n}\nth, td {\n  padding: 12px 10px;\n  text-align: right;\n  border-bottom: 1px solid var(--line-soft);\n  color: #d8e4ef;\n  white-space: nowrap;\n}\nth {\n  color: var(--quiet);\n  font-size: 11px;\n  font-weight: 700;\n}\nth:first-child, td:first-child {\n  width: 24%;\n  text-align: left;\n}\nth:not(:first-child), td:not(:first-child) {\n  width: 12.666%;\n}\ntr:last-child td { border-bottom: 0; }\n.model-name {\n  display: inline-flex;\n  align-items: center;\n  max-width: 100%;\n  border: 1px solid var(--line);\n  border-radius: 999px;\n  padding: 3px 8px;\n  background: rgba(255, 255, 255, 0.025);\n  font-weight: 650;\n  overflow: hidden;\n  text-overflow: ellipsis;\n  vertical-align: middle;\n}\n.cost { color: #cfe0ff; font-weight: 720; }\n.footer {\n  margin-top: 12px;\n  color: var(--quiet);\n  display: flex;\n  justify-content: space-between;\n  gap: 16px;\n  flex-wrap: wrap;\n}\n@media (max-width: 860px) {\n  .shell { width: min(100vw - 22px, 1180px); padding-top: 22px; }\n  .topbar { display: block; }\n  .plan { display: inline-flex; margin-top: 16px; }\n  .span-3, .span-4, .span-6, .span-8 { grid-column: span 12; }\n  th, td { padding: 10px 7px; font-size: 12px; }\n  .model-name { max-width: 92px; }\n}\n</style>\n</head>\n<body>\n<main class=\"shell\">\n  <header class=\"topbar\">\n    <div>\n      <h1>Codex Usage</h1>\n      <p class=\"subtitle\">Subscription usage, API-equivalent cost, cached-token pricing and reset windows from local Codex session events.</p>\n    </div>\n    <div class=\"plan\">");
    let e = html_escape(p.plan.as_str());
    push_str(out, e.as_str());
    assert(out@ =~= old(out)@ + page_part0(*p));
}

pub open spec fn page_part1(p: PagePieces) -> Seq<char> {
    "</div>\n  </header>\n\n  <section class=\"grid\">\n    <article class=\"card pad span-6\" style=\"--dot:"@
        + p.primary_color@
        + "\">\n      <div class=\"rate-head\">\n        <div class=\"rate-title\"><span class=\"dot\"></span><span>5h rate limit</span></div>\n        <div class=\"metric\">"@
        + p.primary_percent@
        + "%</div>\n      </div>\n      <div class=\"progress\"><div class=\"bar\" style=\"--value:"@
        + p.primary_bar@
        + "%\"></div></div>\n      <div class=\"rate-meta\">\n        <span class=\"small\">Resets in <strong class=\"muted\">"@
        + escaped(p.primary_reset@)
        + "</strong></span>\n        <span class=\"small\">At <strong class=\"muted\">"@
        + escaped(p.primary_clock@)
}

fn push_page_part1(out: &mut String, p: &PagePieces)
    ensures
        final(out)@ == old(out)@ + page_part1(*p),
{
    push_str(out, "</div>\n  </header>\n\n  <section class=\"grid\">\n    <article class=\"card pad span-6\" style=\"--dot:");
    push_str(out, p.primary_color.as_str());
    push_str(out, "\">\n      <div class=\"rate-head\">\n        <div class=\"rate-title\"><span class=\"dot\"></span><span>5h rate limit</span></div>\n        <div class=\"metric\">");
    push_str(out, p.primary_percent.as_str());
    push_str(out, "%</div>\n      </div>\n      <div class=\"progress\"><div class=\"bar\" style=\"--value:");
    push_str(out, p.primary_bar.as_str());
    push_str(out, "%\"></div></div>\n      <div class=\"rate-meta\">\n        <span class=\"small\">Resets in <strong class=\"muted\">");
    let e = html_escape(p.primary_reset.as_str());
    push_str(out, e.as_str());
    push_str(out, "</strong></span>\n        <span class=\"small\">At <strong class=\"muted\">");
    let e = html_escape(p.primary_clock.as_str());
    push_str(out, e.as_str());
    assert(out@ =~= old(out)@ + page_part1(*p));
}

pub open spec fn page_part2(p: PagePieces) -> Seq<char> {
    "</strong></span>\n      </div>\n    </article>\n\n    <article class=\"card pad span-6\" style=\"--dot:"@
        + p.weekly_color@
        + "\">\n      <div class=\"rate-head\">\n        <div class=\"rate-title\"><span class=\"dot\"></span><span>Weekly rate limit</span></div>\n        <div class=\"metric\">"@
        + p.weekly_percent@
        + "%</div>\n      </div>\n      <div class=\"progress\"><div class=\"bar\" style=\"--value:"@
        + p.weekly_bar@
        + "%\"></div></div>\n      <div class=\"rate-meta\">\n        <span class=\"small\">Resets in <strong class=\"muted\">"@
        + escaped(p.weekly_reset@)
        + "</strong></span>\n        <span class=\"small\">At <strong class=\"muted\">"@
        + escaped(p.weekly_clock@)
}

fn push_page_part2(out: &mut String, p: &PagePieces)
    ensures
        final(out)@ == old(out)@ + page_part2(*p),
{
    push_str(out, "</strong></span>\n      </div>\n    </article>\n\n    <article class=\"card pad span-6\" style=\"--dot:");
    push_str(out, p.weekly_color.as_str());
    push_str(out, "\">\n      <div class=\"rate-head\">\n        <div class=\"rate-title\"><span class=\"dot\"></span><span>Weekly rate limit</span></div>\n        <div class=\"metric\">");
    push_str(out, p.weekly_percent.as_str());
    push_str(out, "%</div>\n      </div>\n      <div class=\"progress\"><div class=\"bar\" style=\"--value:");
    push_str(out, p.weekly_bar.as_str());
    push_str(out, "%\"></div></div>\n      <div class=\"rate-meta\">\n        <span class=\"small\">Resets in <strong class=\"muted\">");
    let e = html_escape(p.weekly_reset.as_str());
    push_str(out, e.as_str());
    push_str(out, "</strong></span>\n        <span class=\"small\">At <strong class=\"muted\">");
    let e = html_escape(p.weekly_clock.as_str());
    push_str(out, e.as_str());
    assert(out@ =~= old(out)@ + page_part2(*p));
}

pub open spec fn page_part3(p: PagePieces) -> Seq<char> {
    "</strong></span>\n      </div>\n    </article>\n\n    <article class=\"card pad span-12\" style=\"--dot:"@
        + p.pace_color@
        + "\">\n      <div class=\"rate-head\">\n        <div class=\"rate-title\"><span class=\"dot\"></span><span>Usage pace</span></div>\n        <div class=\"metric\">"@
        + escaped(p.pace@)
        + "</div>\n      </div>\n      <div class=\"small\">Expected <strong class=\"muted\">"@
        + p.expected_percent@
        + "%</strong> of the 5h window by now.</div>\n    </article>\n\n    <article class=\"card pad span-12\">\n      <div class=\"rate-head\">\n        <div>\n          <div class=\"label\">Party mode</div>\n          <div class=\"metric\">"@
        + (if p.party_mode { "On"@ } else { "Off"@ })
        + "</div>\n        </div>\n        <div class=\"plan\">"@
        + (if p.party_mode { "Confetti enabled"@ } else { "Notifications only"@ })
}

fn push_page_part3(out: &mut String, p: &PagePieces)
    ensures
        final(out)@ == old(out)@ + page_part3(*p),
{
    push_str(out, "</strong></span>\n      </div>\n    </article>\n\n    <article class=\"card pad span-12\" style=\"--dot:");
    push_str(out, p.pace_color.as_str());
    push_str(out, "\">\n      <div class=\"rate-head\">\n        <div class=\"rate-title\"><span class=\"dot\"></span><span>Usage pace</span></div>\n        <div class=\"metric\">");
    let e = html_escape(p.pace.as_str());
    push_str(out, e.as_str());
    push_str(out, "</div>\n      </div>\n      <div class=\"small\">Expected <strong class=\"muted\">");
    push_str(out, p.expected_percent.as_str());
    push_str(out, "%</strong> of the 5h window by now.</div>\n    </article>\n\n    <article class=\"card pad span-12\">\n      <div class=\"rate-head\">\n        <div>\n          <div class=\"label\">Party mode</div>\n          <div class=\"metric\">");
    if p.party_mode {
        push_str(out, "On");
    } else {
        push_str(out, "Off");
    }
    push_str(out, "</div>\n        </div>\n        <div class=\"plan\">");
    if p.party_mode {
        push_str(out, "Confetti enabled");
    } else {
        push_str(out, "Notifications only");
    }
    assert(out@ =~= old(out)@ + page_part3(*p));
}

pub open spec fn page_part4(p: PagePieces) -> Seq<char> {
    "</div>\n      </div>\n      <div class=\"small\">Reset notifications always stay enabled. Party mode controls the fullscreen confetti overlay and can be toggled from the tray menu.</div>\n    </article>\n\n    <article class=\"card pad span-4\">\n      <div class=\"label\">Today's cost</div>\n      <div class=\"metric\">"@
        + p.today_cost@
        + "</div>\n      <div class=\"small\">"@
        + full(p.today.total_tokens)
        + " tokens</div>\n    </article>\n    <article class=\"card pad span-4\">\n      <div class=\"label\">Monthly cost</div>\n      <div class=\"metric\">"@
        + p.month_cost@
        + "</div>\n      <div class=\"small\">"@
        + full(p.month.total_tokens)
        + " tokens</div>\n      <div class=\"small\">"@
        + escaped(p.month_range@)
        + "</div>\n    </article>\n    <article class=\"card pad span-4\">\n      <div class=\"label\">All-time estimate</div>\n      <div class=\"metric\">"@
        + p.total_cost@
}

fn push_page_part4(out: &mut String, p: &PagePieces)
    requires
        page_counts_fit(*p),
    ensures
        final(out)@ == old(out)@ + page_part4(*p),
{
    push_str(out, "</div>\n      </div>\n      <div class=\"small\">Reset notifications always stay enabled. Party mode controls the fullscreen confetti overlay and can be toggled from the tray menu.</div>\n    </article>\n\n    <article class=\"card pad span-4\">\n      <div class=\"label\">Today's cost</div>\n      <div class=\"metric\">");
    push_str(out, p.today_cost.as_str());
    push_str(out, "</div>\n      <div class=\"small\">");
    push_full(out, p.today.total_tokens);
    push_str(out, " tokens</div>\n    </article>\n    <article class=\"card pad span-4\">\n      <div class=\"label\">Monthly cost</div>\n      <div class=\"metric\">");
    push_str(out, p.month_cost.as_str());
    push_str(out, "</div>\n      <div class=\"small\">");
    push_full(out, p.month.total_tokens);
    push_str(out, " tokens</div>\n      <div class=\"small\">");
    let e = html_escape(p.month_range.as_str());
    push_str(out, e.as_str());
    push_str(out, "</div>\n    </article>\n    <article class=\"card pad span-4\">\n      <div class=\"label\">All-time estimate</div>\n      <div class=\"metric\">");
    push_str(out, p.total_cost.as_str());
    assert(out@ =~= old(out)@ + page_part4(*p));
}

pub open spec fn page_part5(p: PagePieces) -> Seq<char> {
    "</div>\n      <div class=\"small\">"@
        + full(p.total.total_tokens)
        + " tokens</div>\n    </article>\n\n    <article class=\"card pad span-4\">\n      <div class=\"label\">Token breakdown</div>\n      <div class=\"breakdown\">\n        <div class=\"breakdown-row\"><span>Input</span><strong>"@
        + full(p.total.input_tokens)
        + "</strong></div>\n        <div class=\"breakdown-row\"><span>Cached input</span><strong>"@
        + full(p.total.cached_input_tokens)
        + "</strong></div>\n        <div class=\"breakdown-row\"><span>Output</span><strong>"@
        + full(p.total.output_tokens)
        + "</strong></div>\n        <div class=\"breakdown-row\"><span>Reasoning</span><strong>"@
        + full(p.total.reasoning_output_tokens)
        + "</strong></div>\n        <div class=\"breakdown-row\"><span>Unpriced</span><strong>"@
        + full(p.unpriced_tokens)
        + "</strong></div>\n      </div>\n    </article>\n\n    <article class=\"card span-8\">\n      <div class=\"table-wrap\">\n        <table>\n          <thead>\n            <tr>\n              <th>Model</th>\n              <th>Total</th>\n              <th>Input</th>\n              <th>Cached</th>\n              <th>Output</th>\n              <th>Reasoning</th>\n              <th>Cost</th>\n            </tr>\n          </thead>\n          <tbody>"@
        + concat_all(p.model_rows@.map_values(|r: String| r@))
}

fn push_page_part5(out: &mut String, p: &PagePieces)
    requires
        page_counts_fit(*p),
    ensures
        final(out)@ == old(out)@ + page_part5(*p),
{
    push_str(out, "</div>\n      <div class=\"small\">");
    push_full(out, p.total.total_tokens);
    push_str(out, " tokens</div>\n    </article>\n\n    <article class=\"card pad span-4\">\n      <div class=\"label\">Token breakdown</div>\n      <div class=\"breakdown\">\n        <div class=\"breakdown-row\"><span>Input</span><strong>");
    push_full(out, p.total.input_tokens);
    push_str(out, "</strong></div>\n        <div class=\"breakdown-row\"><span>Cached input</span><strong>");
    push_full(out, p.total.cached_input_tokens);
    push_str(out, "</strong></div>\n        <div class=\"breakdown-row\"><span>Output</span><strong>");
    push_full(out, p.total.output_tokens);
    push_str(out, "</strong></div>\n        <div class=\"breakdown-row\"><span>Reasoning</span><strong>");
    push_full(out, p.total.reasoning_output_tokens);
    push_str(out, "</strong></div>\n        <div class=\"breakdown-row\"><span>Unpriced</span><strong>");
    push_full(out, p.unpriced_tokens);
    push_str(out, "</strong></div>\n      </div>\n    </article>\n\n    <article class=\"card span-8\">\n      <div class=\"table-wrap\">\n        <table>\n          <thead>\n            <tr>\n              <th>Model</th>\n              <th>Total</th>\n              <th>Input</th>\n              <th>Cached</th>\n              <th>Output</th>\n              <th>Reasoning</th>\n              <th>Cost</th>\n            </tr>\n          </thead>\n          <tbody>");
    push_all(out, &p.model_rows);
    assert(out@ =~= old(out)@ + page_part5(*p));
}

pub open spec fn page_part6(p: PagePieces) -> Seq<char> {
    "</tbody>\n        </table>\n      </div>\n    </article>\n  </section>\n\n  <footer class=\"footer\">\n    <span>Source: "@
        + decimal(p.events_seen as nat)
        + " token_count events from "@
        + decimal(p.files_seen as nat)
        + " JSONL files</span>\n    <span>Costs include cached input pricing when token data is present.</span>\n  </footer>\n</main>\n</body>\n</html>"@
}

fn push_page_part6(out: &mut String, p: &PagePieces)
    ensures
        final(out)@ == old(out)@ + page_part6(*p),
{
    push_str(out, "</tbody>\n        </table>\n      </div>\n    </article>\n  </section>\n\n  <footer class=\"footer\">\n    <span>Source: ");
    push_decimal(out, p.events_seen as u64);
    push_str(out, " token_count events from ");
    push_decimal(out, p.files_seen as u64);
    push_str(out, " JSONL files</span>\n    <span>Costs include cached input pricing when token data is present.</span>\n  </footer>\n</main>\n</body>\n</html>");
    assert(out@ =~= old(out)@ + page_part6(*p));
}

/// The details page: plan, both rate limits with their bars and resets, the
/// pace, the party-mode setting, costs, the token breakdown, the table of
/// models and the count of events and files read.
pub open spec fn page_text(p: PagePieces) -> Seq<char> {
    page_part0(p) + page_part1(p) + page_part2(p) + page_part3(p) + page_part4(p) + page_part5(p)
        + page_part6(p)
}

/// The details page, as HTML.
pub fn page(p: &PagePieces) -> (res: String)
    requires
        page_counts_fit(*p),
    ensures
        res@ == page_text(*p),
{
    let mut out = String::new();
    push_page_part0(&mut out, p);
    push_page_part1(&mut out, p);
    push_page_part2(&mut out, p);
    push_page_part3(&mut out, p);
    push_page_part4(&mut out, p);
    push_page_part5(&mut out, p);
    push_page_part6(&mut out, p);
    assert(out@ =~= page_text(*p));
    out
}

/// The token counts of a model written short (`1.23B`, `4.5M`), as the
/// caller rounds them.
pub struct CompactCounts {
    pub total: String,
    pub input: String,
    pub cached: String,
    pub output: String,
    pub reasoning: String,
}

/// A row of the table of models: the escaped name, each kind of tokens short
/// with the full count as its title, and the cost.
pub open spec fn model_row_text(model: Seq<char>, u: Usage, c: CompactCounts, cost: Seq<char>) -> Seq<char> {
    "<tr><td><span class=\"model-name\">"@ + escaped(model) + "</span></td><td title=\""@
        + full(u.total_tokens) + "\">"@ + c.total@ + "</td><td title=\""@ + full(u.input_tokens)
        + "\">"@ + c.input@ + "</td><td title=\""@ + full(u.cached_input_tokens) + "\">"@
        + c.cached@ + "</td><td title=\""@ + full(u.output_tokens) + "\">"@ + c.output@
        + "</td><td title=\""@ + full(u.reasoning_output_tokens) + "\">"@ + c.reasoning@
        + "</td><td class=\"cost\">"@ + cost + "</td></tr>"@
}

/// A row of the table of models.
pub fn model_row(model: &str, u: &Usage, c: &CompactCounts, cost: &str) -> (res: String)
    requires
        usage_counts_fit(*u),
    ensures
        res@ == model_row_text(model@, *u, *c, cost@),
{
    let mut out = String::new();
    push_str(&mut out, "<tr><td><span class=\"model-name\">");
    let name = html_escape(model);
    push_str(&mut out, name.as_str());
    push_str(&mut out, "</span></td><td title=\"");
    push_full(&mut out, u.total_tokens);
    push_str(&mut out, "\">");
    push_str(&mut out, c.total.as_str());
    push_str(&mut out, "</td><td title=\"");
    push_full(&mut out, u.input_tokens);
    push_str(&mut out, "\">");
    push_str(&mut out, c.input.as_str());
    push_str(&mut out, "</td><td title=\"");
    push_full(&mut out, u.cached_input_tokens);
    push_str(&mut out, "\">");
    push_str(&mut out, c.cached.as_str());
    push_str(&mut out, "</td><td title=\"");
    push_full(&mut out, u.output_tokens);
    push_str(&mut out, "\">");
    push_str(&mut out, c.output.as_str());
    push_str(&mut out, "</td><td title=\"");
    push_full(&mut out, u.reasoning_output_tokens);
    push_str(&mut out, "\">");
    push_str(&mut out, c.reasoning.as_str());
    push_str(&mut out, "</td><td class=\"cost\">");
    push_str(&mut out, cost);
    push_str(&mut out, "</td></tr>");
    assert(out@ =~= model_row_text(model@, *u, *c, cost@));
    out
}

} // verus!
