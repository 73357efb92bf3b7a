use vstd::prelude::*;
use vstd::wrapping::i64_specs;

use crate::tally::UsageMap;
use crate::text::{decimal, push_decimal};
use crate::usage::Usage;

verus! {

broadcast use vstd::seq_lib::to_multiset_insert, vstd::seq_lib::to_multiset_build;

/// The key that ranks models: their total tokens negated (wrapping), smallest
/// first.
pub open spec fn rank_key(u: Usage) -> i64 {
    i64_specs::wrapping_sub(0, u.total_tokens)
}

/// Entries in rank order: most total tokens first.
pub open spec fn ranked(s: Seq<(String, Usage)>) -> bool {
    forall|i: int, j: int| 0 <= i < j < s.len() ==> rank_key(#[trigger] s[i].1) <= rank_key(#[trigger] s[j].1)
}

fn rank_of(u: &Usage) -> (res: i64)
    ensures
        res == rank_key(*u),
{
    0i64.wrapping_sub(u.total_tokens)
}

/// The models with the most total tokens, at most `limit` of them, most
/// first: the first `limit` of the tally's entries put in rank order. Models
/// with equal totals come in any order.
pub fn top_models(models: &UsageMap, limit: usize) -> (res: Vec<(String, Usage)>)
    ensures
        exists|full: Seq<(String, Usage)>|
            #![trigger full.to_multiset()]
            full.to_multiset() == models.entries_seq().to_multiset() && ranked(full) && res@
                == full.take(
                if limit < full.len() {
                    limit as int
                } else {
                    full.len() as int
                },
            ),
{
    let entries = models.entries();
    let n = entries.len();
    let mut sorted: Vec<(String, Usage)> = Vec::new();
    let mut i: usize = 0;
    assert(sorted@ =~= entries@.take(0));
    while i < n
        invariant
            n == entries@.len(),
            i <= n,
            entries@ == models.entries_seq(),
            ranked(sorted@),
            sorted@.to_multiset() == entries@.take(i as int).to_multiset(),
            sorted@.len() == i,
        decreases n - i,
    {
        let item = (entries[i].0.clone(), entries[i].1);
        let key = rank_of(&item.1);
        let mut p: usize = 0;
        while p < sorted.len() && rank_of(&sorted[p].1) <= key
            invariant
                p <= sorted@.len(),
                forall|q: int| 0 <= q < p ==> rank_key(#[trigger] sorted@[q].1) <= key,
            decreases sorted@.len() - p,
        {
            p += 1;
        }
        let ghost before = sorted@;
        sorted.insert(p, item);
        proof {
            assert(sorted@ == before.insert(p as int, item));
            assert(entries@.take(i + 1) =~= entries@.take(i as int).push(entries@[i as int]));
            assert(item == entries@[i as int]);
            assert forall|a: int, b: int| 0 <= a < b < sorted@.len() implies rank_key(
                #[trigger] sorted@[a].1,
            ) <= rank_key(#[trigger] sorted@[b].1) by {
                if b < p {
                    assert(sorted@[a] == before[a] && sorted@[b] == before[b]);
                } else if b == p {
                    assert(sorted@[a] == before[a]);
                } else if a < p {
                    assert(sorted@[a] == before[a] && sorted@[b] == before[b - 1]);
                } else if a == p {
                    assert(sorted@[b] == before[b - 1]);
                    if p < before.len() {
                        assert(rank_key(before[p as int].1) > key);
                        assert(rank_key(before[p as int].1) <= rank_key(before[b - 1].1));
                    }
                } else {
                    assert(sorted@[a] == before[a - 1] && sorted@[b] == before[b - 1]);
                }
            }
        }
        i += 1;
    }
    proof {
        assert(entries@.take(n as int) =~= entries@);
    }
    let ghost full = sorted@;
    sorted.truncate(limit);
    proof {
        if limit < full.len() {
            assert(sorted@ =~= full.take(limit as int));
        } else {
            assert(sorted@ =~= full.take(full.len() as int));
        }
    }
    sorted
}

/// The font size of the tray icon's number: smaller for more digits.
pub open spec fn icon_font_size(pct: nat) -> nat {
    if pct >= 100 {
        30
    } else if pct >= 10 {
        40
    } else {
        42
    }
}

/// The SVG of the tray icon: the percentage, in the given color.
pub open spec fn icon_svg_text(pct: nat, color: Seq<char>) -> Seq<char> {
    "<svg xmlns=\"http://www.w3.org/2000/svg\" width=\"64\" height=\"64\" viewBox=\"0 0 64 64\">\n  <text x=\"32\" y=\"45\" text-anchor=\"middle\" font-family=\"SF Pro Text, SF Pro Display, Inter, Arial, sans-serif\" font-size=\""@
        + decimal(icon_font_size(pct)) + "\" font-weight=\"650\" fill=\""@ + color + "\">"@
        + decimal(pct) + "</text>\n</svg>\n"@
}

/// Writes the SVG of the tray icon for a percentage shown in a color.
pub fn icon_svg(pct: u64, color: &str) -> (res: String)
    ensures
        res@ == icon_svg_text(pct as nat, color@),
{
    let font_size: u64 = if pct >= 100 {
        30
    } else if pct >= 10 {
        40
    } else {
        42
    };
    let mut out = String::from_str(
        "<svg xmlns=\"http://www.w3.org/2000/svg\" width=\"64\" height=\"64\" viewBox=\"0 0 64 64\">\n  <text x=\"32\" y=\"45\" text-anchor=\"middle\" font-family=\"SF Pro Text, SF Pro Display, Inter, Arial, sans-serif\" font-size=\"",
    );
    push_decimal(&mut out, font_size);
    out.append("\" font-weight=\"650\" fill=\"");
    out.append(color);
    out.append("\">");
    push_decimal(&mut out, pct);
    out.append("</text>\n</svg>\n");
    out
}

/// The icon name for a percentage: `codex-usage-` and the number.
pub open spec fn icon_name_text(pct: nat) -> Seq<char> {
    "codex-usage-"@ + decimal(pct)
}

/// Names the tray icon for a percentage.
pub fn icon_name(pct: u64) -> (res: String)
    ensures
        res@ == icon_name_text(pct as nat),
{
    let mut out = String::from_str("codex-usage-");
    push_decimal(&mut out, pct);
    out
}

} // verus!
