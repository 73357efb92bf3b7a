use vstd::prelude::*;

use crate::text::{comma_int, comma_int_text, decimal, push_decimal};
use crate::usage::Usage;

verus! {

/// What the plain-text summary shows. Percentages and dollar figures come
/// already written, as the caller rounds them; token counts come as numbers.
pub struct SummaryPieces {
    pub plan: String,
    pub party_mode: bool,
    pub primary_percent: String,
    pub primary_reset: String,
    pub pace: String,
    pub expected_percent: String,
    pub weekly_percent: String,
    pub weekly_reset: String,
    pub today: Usage,
    pub today_cost: String,
    pub month: Usage,
    pub month_cost: String,
    pub total: Usage,
    pub total_cost: String,
    pub unpriced_tokens: i64,
    pub model_lines: Vec<String>,
    pub events_seen: usize,
    pub files_seen: usize,
}

/// A token count written in full, with thousands separators.
pub open spec fn full(v: i64) -> Seq<char> {
    comma_int_text(v as int)
}

/// No token count of the summary is `i64::MIN`, which has no magnitude.
pub open spec fn summary_counts_fit(p: SummaryPieces) -> bool {
    &&& p.today.total_tokens > i64::MIN
    &&& p.month.total_tokens > i64::MIN
    &&& p.total.total_tokens > i64::MIN
    &&& p.total.input_tokens > i64::MIN
    &&& p.total.cached_input_tokens > i64::MIN
    &&& p.total.output_tokens > i64::MIN
    &&& p.total.reasoning_output_tokens > i64::MIN
    &&& p.unpriced_tokens > i64::MIN
}

/// Lines joined with a newline between each two.
pub open spec fn joined_lines(lines: Seq<Seq<char>>) -> Seq<char>
    decreases lines.len(),
{
    if lines.len() == 0 {
        Seq::empty()
    } else if lines.len() == 1 {
        lines[0]
    } else {
        joined_lines(lines.drop_last()) + seq!['\n'] + lines.last()
    }
}

/// The plan, the party-mode setting and the rate limits.
pub open spec fn rate_section(p: SummaryPieces) -> Seq<char> {
    "Codex Usage\n\nPlan: "@ + p.plan@ + "\nParty mode: "@ + (if p.party_mode {
        "on"@
    } else {
        "off"@
    }) + "\n\nRate limits\n5h: "@ + p.primary_percent@ + "% | reset in "@ + p.primary_reset@
        + " | pace: "@ + p.pace@ + " | expected "@ + p.expected_percent@ + "%\nWeekly: "@
        + p.weekly_percent@ + "% | reset in "@ + p.weekly_reset@ + "\n\n"@
}

/// Tokens and costs today, this month and in all.
pub open spec fn cost_section(p: SummaryPieces) -> Seq<char> {
    "Costs\nToday: "@ + full(p.today.total_tokens) + " tokens | "@ + p.today_cost@
        + "\nThis month: "@ + full(p.month.total_tokens) + " tokens | "@ + p.month_cost@
        + "\nAll-time: "@ + full(p.total.total_tokens) + " tokens | "@ + p.total_cost@ + "\n\n"@
}

/// The kinds of tokens used in all, and those left unpriced.
pub open spec fn breakdown_section(p: SummaryPieces) -> Seq<char> {
    "Token breakdown\nAll-time input: "@ + full(p.total.input_tokens) + "\nAll-time cached input: "@
        + full(p.total.cached_input_tokens) + "\nAll-time output: "@ + full(p.total.output_tokens)
        + "\nAll-time reasoning: "@ + full(p.total.reasoning_output_tokens)
        + "\nSkipped with no public API price: "@ + full(p.unpriced_tokens) + "\n\n"@
}

/// The per-model lines and where the numbers come from.
pub open spec fn models_section(p: SummaryPieces) -> Seq<char> {
    "Models\n"@ + joined_lines(p.model_lines@.map_values(|l: String| l@)) + "\n\nSource: "@
        + decimal(p.events_seen as nat) + " token_count events from "@ + decimal(
        p.files_seen as nat,
    ) + " JSONL files\n"@
}

/// The plain-text summary of usage.
pub open spec fn summary_text(p: SummaryPieces) -> Seq<char> {
    rate_section(p) + cost_section(p) + breakdown_section(p) + models_section(p)
}

pub(crate) fn push_str(out: &mut String, s: &str)
    ensures
        final(out)@ == old(out)@ + s@,
{
    out.append(s);
}

fn push_rate_section(out: &mut String, p: &SummaryPieces)
    ensures
        final(out)@ == old(out)@ + rate_section(*p),
{
    push_str(out, "Codex Usage\n\nPlan: ");
    push_str(out, p.plan.as_str());
    push_str(out, "\nParty mode: ");
    if p.party_mode {
        push_str(out, "on");
    } else {
        push_str(out, "off");
    }
    push_str(out, "\n\nRate limits\n5h: ");
    push_str(out, p.primary_percent.as_str());
    push_str(out, "% | reset in ");
    push_str(out, p.primary_reset.as_str());
    push_str(out, " | pace: ");
    push_str(out, p.pace.as_str());
    push_str(out, " | expected ");
    push_str(out, p.expected_percent.as_str());
    push_str(out, "%\nWeekly: ");
    push_str(out, p.weekly_percent.as_str());
    push_str(out, "% | reset in ");
    push_str(out, p.weekly_reset.as_str());
    push_str(out, "\n\n");
    assert(out@ =~= old(out)@ + rate_section(*p));
}

pub(crate) fn push_full(out: &mut String, v: i64)
    requires
        v > i64::MIN,
    ensures
        final(out)@ == old(out)@ + full(v),
{
    let s = comma_int(v);
    push_str(out, s.as_str());
}

fn push_cost_section(out: &mut String, p: &SummaryPieces)
    requires
        summary_counts_fit(*p),
    ensures
        final(out)@ == old(out)@ + cost_section(*p),
{
    push_str(out, "Costs\nToday: ");
    push_full(out, p.today.total_tokens);
    push_str(out, " tokens | ");
    push_str(out, p.today_cost.as_str());
    push_str(out, "\nThis month: ");
    push_full(out, p.month.total_tokens);
    push_str(out, " tokens | ");
    push_str(out, p.month_cost.as_str());
    push_str(out, "\nAll-time: ");
    push_full(out, p.total.total_tokens);
    push_str(out, " tokens | ");
    push_str(out, p.total_cost.as_str());
    push_str(out, "\n\n");
    assert(out@ =~= old(out)@ + cost_section(*p));
}

fn push_breakdown_section(out: &mut String, p: &SummaryPieces)
    requires
        summary_counts_fit(*p),
    ensures
        final(out)@ == old(out)@ + breakdown_section(*p),
{
    push_str(out, "Token breakdown\nAll-time input: ");
    push_full(out, p.total.input_tokens);
    push_str(out, "\nAll-time cached input: ");
    push_full(out, p.total.cached_input_tokens);
    push_str(out, "\nAll-time output: ");
    push_full(out, p.total.output_tokens);
    push_str(out, "\nAll-time reasoning: ");
    push_full(out, p.total.reasoning_output_tokens);
    push_str(out, "\nSkipped with no public API price: ");
    push_full(out, p.unpriced_tokens);
    push_str(out, "\n\n");
    assert(out@ =~= old(out)@ + breakdown_section(*p));
}

/// Appends lines joined with a newline between each two.
fn push_joined(out: &mut String, lines: &Vec<String>)
    ensures
        final(out)@ == old(out)@ + joined_lines(lines@.map_values(|l: String| l@)),
{
    let ghost views = lines@.map_values(|l: String| l@);
    let n = lines.len();
    let mut i: usize = 0;
    while i < n
        invariant
            n == lines@.len(),
            views == lines@.map_values(|l: String| l@),
            i <= n,
            out@ == old(out)@ + joined_lines(views.take(i as int)),
        decreases n - i,
    {
        let ghost before = out@;
        if i > 0 {
            push_str(out, "\n");
        }
        push_str(out, lines[i].as_str());
        proof {
            let t = views.take(i + 1);
            assert(t.drop_last() =~= views.take(i as int));
            assert(t.last() == lines@[i as int]@);
            if i == 0 {
                assert(joined_lines(views.take(0)) =~= Seq::<char>::empty());
                assert(t.len() == 1);
                assert(out@ =~= old(out)@ + joined_lines(t));
            } else {
                reveal_strlit("\n");
                assert(out@ =~= old(out)@ + joined_lines(t));
            }
        }
        i += 1;
    }
    assert(views.take(n as int) =~= views);
}

fn push_models_section(out: &mut String, p: &SummaryPieces)
    ensures
        final(out)@ == old(out)@ + models_section(*p),
{
    push_str(out, "Models\n");
    push_joined(out, &p.model_lines);
    push_str(out, "\n\nSource: ");
    push_decimal(out, p.events_seen as u64);
    push_str(out, " token_count events from ");
    push_decimal(out, p.files_seen as u64);
    push_str(out, " JSONL files\n");
    assert(out@ =~= old(out)@ + models_section(*p));
}

/// The plain-text summary of usage: plan and rate limits, costs, the token
/// breakdown, one line per model and the count of events and files read.
pub fn summary(p: &SummaryPieces) -> (res: String)
    requires
        summary_counts_fit(*p),
    ensures
        res@ == summary_text(*p),
{
    let mut out = String::new();
    push_rate_section(&mut out, p);
    push_cost_section(&mut out, p);
    push_breakdown_section(&mut out, p);
    push_models_section(&mut out, p);
    assert(out@ =~= summary_text(*p));
    out
}

/// The summary line of one model: its tokens of each kind and its cost.
pub open spec fn model_line_text(model: Seq<char>, u: Usage, cost: Seq<char>) -> Seq<char> {
    model + ": "@ + full(u.total_tokens) + " tokens | input "@ + full(u.input_tokens)
        + " | cached "@ + full(u.cached_input_tokens) + " | output "@ + full(u.output_tokens)
        + " | reasoning "@ + full(u.reasoning_output_tokens) + " | cost "@ + cost
}

/// No token count of a usage is `i64::MIN`.
pub open spec fn usage_counts_fit(u: Usage) -> bool {
    &&& u.total_tokens > i64::MIN
    &&& u.input_tokens > i64::MIN
    &&& u.cached_input_tokens > i64::MIN
    &&& u.output_tokens > i64::MIN
    &&& u.reasoning_output_tokens > i64::MIN
}

/// The summary line of one model, given its cost already written.
pub fn model_line(model: &str, u: &Usage, cost: &str) -> (res: String)
    requires
        usage_counts_fit(*u),
    ensures
        res@ == model_line_text(model@, *u, cost@),
{
    let mut out = String::new();
    push_str(&mut out, model);
    push_str(&mut out, ": ");
    push_full(&mut out, u.total_tokens);
    push_str(&mut out, " tokens | input ");
    push_full(&mut out, u.input_tokens);
    push_str(&mut out, " | cached ");
    push_full(&mut out, u.cached_input_tokens);
    push_str(&mut out, " | output ");
    push_full(&mut out, u.output_tokens);
    push_str(&mut out, " | reasoning ");
    push_full(&mut out, u.reasoning_output_tokens);
    push_str(&mut out, " | cost ");
    push_str(&mut out, cost);
    assert(out@ =~= model_line_text(model@, *u, cost@));
    out
}

/// A rate-limit line of the menu: its dot, its name in bold, the share used,
/// and when it resets.
pub open spec fn limit_markup_text(
    dot: Seq<char>,
    name: Seq<char>,
    percent: Seq<char>,
    reset: Seq<char>,
    clock: Seq<char>,
) -> Seq<char> {
    dot + "  <b>"@ + name + "</b>  "@ + percent + "%  |  reset in "@ + reset + " at "@ + clock
}

/// A rate-limit line of the menu, as `🟢  <b>5h</b>  12%  |  reset in 1h 2m at 14:05`.
pub fn limit_markup(dot: &str, name: &str, percent: &str, reset: &str, clock: &str) -> (res: String)
    ensures
        res@ == limit_markup_text(dot@, name@, percent@, reset@, clock@),
{
    let mut out = String::new();
    push_str(&mut out, dot);
    push_str(&mut out, "  <b>");
    push_str(&mut out, name);
    push_str(&mut out, "</b>  ");
    push_str(&mut out, percent);
    push_str(&mut out, "%  |  reset in ");
    push_str(&mut out, reset);
    push_str(&mut out, " at ");
    push_str(&mut out, clock);
    assert(out@ =~= limit_markup_text(dot@, name@, percent@, reset@, clock@));
    out
}

/// A menu line with a label and a value in bold.
pub open spec fn bold_line_text(label: Seq<char>, value: Seq<char>) -> Seq<char> {
    label + "  <b>"@ + value + "</b>"@
}

/// A menu line with a label and a value in bold, as `🔵  Today's cost:  <b>$1.20</b>`.
pub fn bold_line(label: &str, value: &str) -> (res: String)
    ensures
        res@ == bold_line_text(label@, value@),
{
    let mut out = String::new();
    push_str(&mut out, label);
    push_str(&mut out, "  <b>");
    push_str(&mut out, value);
    push_str(&mut out, "</b>");
    assert(out@ =~= bold_line_text(label@, value@));
    out
}

/// The tooltip of the tray icon: both rate limits with their resets and the
/// pace of the five-hour window.
pub open spec fn title_text(
    primary_percent: Seq<char>,
    primary_reset: Seq<char>,
    primary_clock: Seq<char>,
    pace: Seq<char>,
    weekly_percent: Seq<char>,
    weekly_reset: Seq<char>,
    weekly_clock: Seq<char>,
) -> Seq<char> {
    "Codex Usage | 5h "@ + primary_percent + "% | reset in "@ + primary_reset + " at "@
        + primary_clock + " | Pace: "@ + pace + " | Weekly "@ + weekly_percent + "% | reset in "@
        + weekly_reset + " at "@ + weekly_clock
}

/// The tooltip of the tray icon.
pub fn title(
    primary_percent: &str,
    primary_reset: &str,
    primary_clock: &str,
    pace: &str,
    weekly_percent: &str,
    weekly_reset: &str,
    weekly_clock: &str,
) -> (res: String)
    ensures
        res@ == title_text(
            primary_percent@,
            primary_reset@,
            primary_clock@,
            pace@,
            weekly_percent@,
            weekly_reset@,
            weekly_clock@,
        ),
{
    let mut out = String::new();
    push_str(&mut out, "Codex Usage | 5h ");
    push_str(&mut out, primary_percent);
    push_str(&mut out, "% | reset in ");
    push_str(&mut out, primary_reset);
    push_str(&mut out, " at ");
    push_str(&mut out, primary_clock);
    push_str(&mut out, " | Pace: ");
    push_str(&mut out, pace);
    push_str(&mut out, " | Weekly ");
    push_str(&mut out, weekly_percent);
    push_str(&mut out, "% | reset in ");
    push_str(&mut out, weekly_reset);
    push_str(&mut out, " at ");
    push_str(&mut out, weekly_clock);
    assert(out@ =~= title_text(
        primary_percent@,
        primary_reset@,
        primary_clock@,
        pace@,
        weekly_percent@,
        weekly_reset@,
        weekly_clock@,
    ));
    out
}


/// The pace line of the menu: its dot, then the pace in words.
pub open spec fn pace_markup_text(dot: Seq<char>, pace: Seq<char>) -> Seq<char> {
    dot + "  <b>Pace:</b>  "@ + pace
}

/// The pace line of the menu, as `🟢  <b>Pace:</b>  on pace`.
pub fn pace_markup(dot: &str, pace: &str) -> (res: String)
    ensures
        res@ == pace_markup_text(dot@, pace@),
{
    let mut out = String::new();
    push_str(&mut out, dot);
    push_str(&mut out, "  <b>Pace:</b>  ");
    push_str(&mut out, pace);
    out
}

/// The label next to the tray icon: the share of the five-hour window used
/// and today's cost.
pub open spec fn tray_label_text(percent: Seq<char>, cost: Seq<char>) -> Seq<char> {
    "5h "@ + percent + "% | "@ + cost
}

/// The label next to the tray icon, as `5h 12% | $1.20`.
pub fn tray_label(percent: &str, cost: &str) -> (res: String)
    ensures
        res@ == tray_label_text(percent@, cost@),
{
    let mut out = String::new();
    push_str(&mut out, "5h ");
    push_str(&mut out, percent);
    push_str(&mut out, "% | ");
    push_str(&mut out, cost);
    assert(out@ =~= tray_label_text(percent@, cost@));
    out
}

} // verus!
