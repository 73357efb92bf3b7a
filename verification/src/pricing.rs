use vstd::prelude::*;
use vstd::wrapping::i64_specs;

use crate::tally::UsageMap;
use crate::text::{chars_equal, chars_of, has_prefix, starts_with};
use crate::usage::Usage;

verus! {

/// The model family that a model name is priced as.
pub open spec fn normalized_model(m: Seq<char>) -> Seq<char> {
    if starts_with(m, "gpt-5.5"@) {
        "gpt-5.5"@
    } else if starts_with(m, "gpt-5.4-mini"@) {
        "gpt-5.4-mini"@
    } else if starts_with(m, "gpt-5.4-nano"@) {
        "gpt-5.4-nano"@
    } else if starts_with(m, "gpt-5.4"@) {
        "gpt-5.4"@
    } else if starts_with(m, "gpt-5.2-codex"@) {
        "gpt-5.2-codex"@
    } else if starts_with(m, "gpt-5.2"@) {
        "gpt-5.2"@
    } else if starts_with(m, "gpt-5.1-codex-max"@) {
        "gpt-5.1-codex-max"@
    } else if starts_with(m, "gpt-5.1-codex"@) {
        "gpt-5.1-codex"@
    } else if starts_with(m, "gpt-5.1"@) {
        "gpt-5.1"@
    } else if starts_with(m, "gpt-5-mini"@) {
        "gpt-5-mini"@
    } else if starts_with(m, "gpt-5-nano"@) {
        "gpt-5-nano"@
    } else if starts_with(m, "gpt-5-codex"@) {
        "gpt-5-codex"@
    } else if starts_with(m, "gpt-5"@) {
        "gpt-5"@
    } else if m.len() == 0 {
        "unknown"@
    } else {
        m
    }
}

/// Maps a model name to the model family it is priced as: the longest known
/// family name that it starts with, `unknown` for an empty name, and the name
/// itself otherwise.
pub fn normalize_model(model: &str) -> (res: String)
    ensures
        res@ == normalized_model(model@),
{
    let m = chars_of(model);
    if has_prefix(&m, "gpt-5.5") {
        String::from_str("gpt-5.5")
    } else if has_prefix(&m, "gpt-5.4-mini") {
        String::from_str("gpt-5.4-mini")
    } else if has_prefix(&m, "gpt-5.4-nano") {
        String::from_str("gpt-5.4-nano")
    } else if has_prefix(&m, "gpt-5.4") {
        String::from_str("gpt-5.4")
    } else if has_prefix(&m, "gpt-5.2-codex") {
        String::from_str("gpt-5.2-codex")
    } else if has_prefix(&m, "gpt-5.2") {
        String::from_str("gpt-5.2")
    } else if has_prefix(&m, "gpt-5.1-codex-max") {
        String::from_str("gpt-5.1-codex-max")
    } else if has_prefix(&m, "gpt-5.1-codex") {
        String::from_str("gpt-5.1-codex")
    } else if has_prefix(&m, "gpt-5.1") {
        String::from_str("gpt-5.1")
    } else if has_prefix(&m, "gpt-5-mini") {
        String::from_str("gpt-5-mini")
    } else if has_prefix(&m, "gpt-5-nano") {
        String::from_str("gpt-5-nano")
    } else if has_prefix(&m, "gpt-5-codex") {
        String::from_str("gpt-5-codex")
    } else if has_prefix(&m, "gpt-5") {
        String::from_str("gpt-5")
    } else if m.len() == 0 {
        String::from_str("unknown")
    } else {
        String::from_str(model)
    }
}

/// API prices of a model family, in thousandths of a dollar per million
/// tokens (so `5000` is $5.00 per million).
#[derive(Clone, Copy, Debug, PartialEq, Eq, Structural)]
pub struct TokenRates {
    pub input: u64,
    pub cached_input: u64,
    pub output: u64,
}

/// Prices for input, cached input and output.
pub open spec fn rates(input: u64, cached_input: u64, output: u64) -> TokenRates {
    TokenRates { input, cached_input, output }
}

/// The price list, by model family.
pub open spec fn family_rates(name: Seq<char>) -> Option<TokenRates> {
    if name == "gpt-5.5"@ {
        Some(rates(5000, 500, 30000))
    } else if name == "gpt-5.4"@ {
        Some(rates(2500, 250, 15000))
    } else if name == "gpt-5.4-mini"@ {
        Some(rates(750, 75, 4500))
    } else if name == "gpt-5.4-nano"@ {
        Some(rates(200, 20, 1250))
    } else if name == "gpt-5.2"@ || name == "gpt-5.2-codex"@ {
        Some(rates(1750, 175, 14000))
    } else if name == "gpt-5.1"@ || name == "gpt-5.1-codex"@ || name == "gpt-5.1-codex-max"@
        || name == "gpt-5"@ || name == "gpt-5-codex"@ {
        Some(rates(1250, 125, 10000))
    } else if name == "gpt-5-mini"@ {
        Some(rates(250, 25, 2000))
    } else if name == "gpt-5-nano"@ {
        Some(rates(50, 5, 400))
    } else {
        None
    }
}

/// The prices of a model, by the family its name normalizes to.
pub open spec fn model_rates(model: Seq<char>) -> Option<TokenRates> {
    family_rates(normalized_model(model))
}

/// The API prices of a model, if its family has public prices.
pub fn price_rates(model: &str) -> (res: Option<TokenRates>)
    ensures
        res == model_rates(model@),
{
    let name = normalize_model(model);
    let n = chars_of(name.as_str());
    if chars_equal(&n, "gpt-5.5") {
        Some(TokenRates { input: 5000, cached_input: 500, output: 30000 })
    } else if chars_equal(&n, "gpt-5.4") {
        Some(TokenRates { input: 2500, cached_input: 250, output: 15000 })
    } else if chars_equal(&n, "gpt-5.4-mini") {
        Some(TokenRates { input: 750, cached_input: 75, output: 4500 })
    } else if chars_equal(&n, "gpt-5.4-nano") {
        Some(TokenRates { input: 200, cached_input: 20, output: 1250 })
    } else if chars_equal(&n, "gpt-5.2") || chars_equal(&n, "gpt-5.2-codex") {
        Some(TokenRates { input: 1750, cached_input: 175, output: 14000 })
    } else if chars_equal(&n, "gpt-5.1") || chars_equal(&n, "gpt-5.1-codex") || chars_equal(
        &n,
        "gpt-5.1-codex-max",
    ) || chars_equal(&n, "gpt-5") || chars_equal(&n, "gpt-5-codex") {
        Some(TokenRates { input: 1250, cached_input: 125, output: 10000 })
    } else if chars_equal(&n, "gpt-5-mini") {
        Some(TokenRates { input: 250, cached_input: 25, output: 2000 })
    } else if chars_equal(&n, "gpt-5-nano") {
        Some(TokenRates { input: 50, cached_input: 5, output: 400 })
    } else {
        None
    }
}

/// The cost of a usage at given prices, in billionths of a dollar: uncached
/// input (input less cached input, never below zero), cached input (never
/// below zero) and output, each at its price.
pub open spec fn cost_nanos(r: TokenRates, u: Usage) -> int {
    let cached: int = if u.cached_input_tokens > 0 { u.cached_input_tokens as int } else { 0 };
    let diff = i64_specs::wrapping_sub(u.input_tokens, u.cached_input_tokens);
    let uncached: int = if diff > 0 { diff as int } else { 0 };
    uncached * r.input + cached * r.cached_input + u.output_tokens * r.output
}

/// The cost of a usage of a model, in billionths of a dollar, if the model
/// has public prices.
pub open spec fn usage_cost(model: Seq<char>, u: Usage) -> Option<int> {
    match model_rates(model) {
        Some(r) => Some(cost_nanos(r, u)),
        None => None,
    }
}

proof fn lemma_cost_bound(r: TokenRates, u: Usage)
    requires
        r.input <= 30000,
        r.cached_input <= 30000,
        r.output <= 30000,
    ensures
        -0x1_0000_0000_0000_0000_0000 < cost_nanos(r, u) < 0x1_0000_0000_0000_0000_0000,
{
    let cached: int = if u.cached_input_tokens > 0 { u.cached_input_tokens as int } else { 0 };
    let diff = i64_specs::wrapping_sub(u.input_tokens, u.cached_input_tokens);
    let uncached: int = if diff > 0 { diff as int } else { 0 };
    let o: int = u.output_tokens as int;
    assert(0 <= uncached * r.input <= 0x8000_0000_0000_0000 * 30000) by (nonlinear_arith)
        requires
            0 <= uncached <= 0x8000_0000_0000_0000,
            r.input <= 30000,
    ;
    assert(0 <= cached * r.cached_input <= 0x8000_0000_0000_0000 * 30000) by (nonlinear_arith)
        requires
            0 <= cached <= 0x8000_0000_0000_0000,
            r.cached_input <= 30000,
    ;
    assert(-0x8000_0000_0000_0000 * 30000 <= o * r.output <= 0x8000_0000_0000_0000 * 30000)
        by (nonlinear_arith)
        requires
            -0x8000_0000_0000_0000 <= o <= 0x8000_0000_0000_0000,
            r.output <= 30000,
    ;
}

/// The cost of a model's usage in billionths of a dollar (`None` where the
/// model has no public price). A cost of `c` stands for `c / 10^9` dollars.
pub fn cost_for_usage(model: &str, usage: &Usage) -> (res: Option<i128>)
    ensures
        match res {
            Some(c) => usage_cost(model@, *usage) == Some(c as int),
            None => usage_cost(model@, *usage) is None,
        },
{
    match price_rates(model) {
        Some(p) => {
            proof {
                lemma_cost_bound(p, *usage);
            }
            let cached: i128 = if usage.cached_input_tokens > 0 {
                usage.cached_input_tokens as i128
            } else {
                0
            };
            let diff: i64 = usage.input_tokens.wrapping_sub(usage.cached_input_tokens);
            let uncached: i128 = if diff > 0 {
                diff as i128
            } else {
                0
            };
            let o: i128 = usage.output_tokens as i128;
            let po: i128 = p.output as i128;
            assert(-0x8000_0000_0000_0000 * 30000 <= o * po <= 0x8000_0000_0000_0000 * 30000)
                by (nonlinear_arith)
                requires
                    -0x8000_0000_0000_0000 <= o <= 0x8000_0000_0000_0000,
                    0 <= po <= 30000,
            ;
            let a: i128 = uncached * (p.input as i128);
            let b: i128 = cached * (p.cached_input as i128);
            let c: i128 = o * po;
            Some(a + b + c)
        },
        None => None,
    }
}

/// The summed cost of the priced entries of a sequence, and whether any entry
/// was priced.
pub open spec fn priced_total(s: Seq<(String, Usage)>) -> (bool, int)
    decreases s.len(),
{
    if s.len() == 0 {
        (false, 0)
    } else {
        let (any, total) = priced_total(s.drop_last());
        match usage_cost(s.last().0@, s.last().1) {
            Some(c) => (true, total + c),
            None => (any, total),
        }
    }
}

/// The total cost of the models that have public prices, in billionths of a
/// dollar; `None` when none of them has one.
///
/// A tally with 2^40 or more models cannot be held in memory; the bound keeps
/// the sum within `i128`.
pub fn sum_cost(models: &UsageMap) -> (res: Option<i128>)
    requires
        models.entries_seq().len() < 0x100_0000_0000,
    ensures
        res == (if priced_total(models.entries_seq()).0 {
            Some(priced_total(models.entries_seq()).1 as i128)
        } else {
            None
        }),
        res matches Some(c) ==> c == priced_total(models.entries_seq()).1,
{
    let entries = models.entries();
    let n = entries.len();
    let mut total: i128 = 0;
    let mut any = false;
    let mut i: usize = 0;
    while i < n
        invariant
            n == entries@.len(),
            n < 0x100_0000_0000,
            i <= n,
            (any, total as int) == priced_total(entries@.take(i as int)),
            -(i as int) * 0x1_0000_0000_0000_0000_0000 <= total <= (i as int)
                * 0x1_0000_0000_0000_0000_0000,
        decreases n - i,
    {
        assert(entries@.take(i + 1).drop_last() =~= entries@.take(i as int));
        if let Some(c) = cost_for_usage(entries[i].0.as_str(), &entries[i].1) {
            proof {
                let p = price_rates_spec_bound(entries@[i as int].0@);
                lemma_cost_bound(p, entries@[i as int].1);
                assert((i as int) * 0x1_0000_0000_0000_0000_0000 <= 0x100_0000_0000
                    * 0x1_0000_0000_0000_0000_0000) by (nonlinear_arith)
                    requires
                        i < 0x100_0000_0000,
                ;
            }
            total = total + c;
            any = true;
        }
        i += 1;
    }
    assert(entries@.take(n as int) =~= entries@);
    if any {
        Some(total)
    } else {
        None
    }
}

proof fn price_rates_spec_bound(model: Seq<char>) -> (r: TokenRates)
    requires
        model_rates(model) is Some,
    ensures
        model_rates(model) == Some(r),
        r.input <= 30000,
        r.cached_input <= 30000,
        r.output <= 30000,
{
    model_rates(model).unwrap()
}

/// The summed total tokens of the entries whose model has no public price,
/// wrapping at 64 bits.
pub open spec fn unpriced_total(s: Seq<(String, Usage)>) -> i64
    decreases s.len(),
{
    if s.len() == 0 {
        0
    } else {
        let rest = unpriced_total(s.drop_last());
        if model_rates(s.last().0@) is None {
            i64_specs::wrapping_add(rest, s.last().1.total_tokens)
        } else {
            rest
        }
    }
}

/// The tokens of models that have no public price.
pub fn unpriced_tokens(models: &UsageMap) -> (res: i64)
    ensures
        res == unpriced_total(models.entries_seq()),
{
    let entries = models.entries();
    let n = entries.len();
    let mut total: i64 = 0;
    let mut i: usize = 0;
    while i < n
        invariant
            n == entries@.len(),
            i <= n,
            total == unpriced_total(entries@.take(i as int)),
        decreases n - i,
    {
        assert(entries@.take(i + 1).drop_last() =~= entries@.take(i as int));
        if price_rates(entries[i].0.as_str()).is_none() {
            total = total.wrapping_add(entries[i].1.total_tokens);
        }
        i += 1;
    }
    assert(entries@.take(n as int) =~= entries@);
    total
}

/// Normalizing is idempotent: a normalized name is its own family.
pub proof fn lemma_normalize_idempotent(m: Seq<char>)
    ensures
        normalized_model(normalized_model(m)) == normalized_model(m),
{
    reveal_strlit("gpt-5.5");
    reveal_strlit("gpt-5.4-mini");
    reveal_strlit("gpt-5.4-nano");
    reveal_strlit("gpt-5.4");
    reveal_strlit("gpt-5.2-codex");
    reveal_strlit("gpt-5.2");
    reveal_strlit("gpt-5.1-codex-max");
    reveal_strlit("gpt-5.1-codex");
    reveal_strlit("gpt-5.1");
    reveal_strlit("gpt-5-mini");
    reveal_strlit("gpt-5-nano");
    reveal_strlit("gpt-5-codex");
    reveal_strlit("gpt-5");
    reveal_strlit("unknown");
    let r = normalized_model(m);
    if r == "gpt-5.5"@ {
        assert(starts_with(r, "gpt-5.5"@)) by { assert(r.take(7) =~= r); }
    } else if r == "gpt-5.4-mini"@ {
        assert(!starts_with(r, "gpt-5.5"@)) by { assert(r.take(7)[6] != "gpt-5.5"@[6]); }
        assert(starts_with(r, "gpt-5.4-mini"@)) by { assert(r.take(12) =~= r); }
    } else if r == "gpt-5.4-nano"@ {
        assert(!starts_with(r, "gpt-5.5"@)) by { assert(r.take(7)[6] != "gpt-5.5"@[6]); }
        assert(!starts_with(r, "gpt-5.4-mini"@)) by { assert(r.take(12)[8] != "gpt-5.4-mini"@[8]); }
        assert(starts_with(r, "gpt-5.4-nano"@)) by { assert(r.take(12) =~= r); }
    } else if r == "gpt-5.4"@ {
        assert(!starts_with(r, "gpt-5.5"@)) by { assert(r.take(7)[6] != "gpt-5.5"@[6]); }
        assert(starts_with(r, "gpt-5.4"@)) by { assert(r.take(7) =~= r); }
    } else if r == "gpt-5.2-codex"@ {
        assert(!starts_with(r, "gpt-5.5"@)) by { assert(r.take(7)[6] != "gpt-5.5"@[6]); }
        assert(!starts_with(r, "gpt-5.4-mini"@)) by { assert(r.take(12)[6] != "gpt-5.4-mini"@[6]); }
        assert(!starts_with(r, "gpt-5.4-nano"@)) by { assert(r.take(12)[6] != "gpt-5.4-nano"@[6]); }
        assert(!starts_with(r, "gpt-5.4"@)) by { assert(r.take(7)[6] != "gpt-5.4"@[6]); }
        assert(starts_with(r, "gpt-5.2-codex"@)) by { assert(r.take(13) =~= r); }
    } else if r == "gpt-5.2"@ {
        assert(!starts_with(r, "gpt-5.5"@)) by { assert(r.take(7)[6] != "gpt-5.5"@[6]); }
        assert(!starts_with(r, "gpt-5.4"@)) by { assert(r.take(7)[6] != "gpt-5.4"@[6]); }
        assert(starts_with(r, "gpt-5.2"@)) by { assert(r.take(7) =~= r); }
    } else if r == "gpt-5.1-codex-max"@ {
        assert(!starts_with(r, "gpt-5.5"@)) by { assert(r.take(7)[6] != "gpt-5.5"@[6]); }
        assert(!starts_with(r, "gpt-5.4-mini"@)) by { assert(r.take(12)[6] != "gpt-5.4-mini"@[6]); }
        assert(!starts_with(r, "gpt-5.4-nano"@)) by { assert(r.take(12)[6] != "gpt-5.4-nano"@[6]); }
        assert(!starts_with(r, "gpt-5.4"@)) by { assert(r.take(7)[6] != "gpt-5.4"@[6]); }
        assert(!starts_with(r, "gpt-5.2-codex"@)) by { assert(r.take(13)[6] != "gpt-5.2-codex"@[6]); }
        assert(!starts_with(r, "gpt-5.2"@)) by { assert(r.take(7)[6] != "gpt-5.2"@[6]); }
        assert(starts_with(r, "gpt-5.1-codex-max"@)) by { assert(r.take(17) =~= r); }
    } else if r == "gpt-5.1-codex"@ {
        assert(!starts_with(r, "gpt-5.5"@)) by { assert(r.take(7)[6] != "gpt-5.5"@[6]); }
        assert(!starts_with(r, "gpt-5.4-mini"@)) by { assert(r.take(12)[6] != "gpt-5.4-mini"@[6]); }
        assert(!starts_with(r, "gpt-5.4-nano"@)) by { assert(r.take(12)[6] != "gpt-5.4-nano"@[6]); }
        assert(!starts_with(r, "gpt-5.4"@)) by { assert(r.take(7)[6] != "gpt-5.4"@[6]); }
        assert(!starts_with(r, "gpt-5.2-codex"@)) by { assert(r.take(13)[6] != "gpt-5.2-codex"@[6]); }
        assert(!starts_with(r, "gpt-5.2"@)) by { assert(r.take(7)[6] != "gpt-5.2"@[6]); }
        assert(starts_with(r, "gpt-5.1-codex"@)) by { assert(r.take(13) =~= r); }
    } else if r == "gpt-5.1"@ {
        assert(!starts_with(r, "gpt-5.5"@)) by { assert(r.take(7)[6] != "gpt-5.5"@[6]); }
        assert(!starts_with(r, "gpt-5.4"@)) by { assert(r.take(7)[6] != "gpt-5.4"@[6]); }
        assert(!starts_with(r, "gpt-5.2"@)) by { assert(r.take(7)[6] != "gpt-5.2"@[6]); }
        assert(starts_with(r, "gpt-5.1"@)) by { assert(r.take(7) =~= r); }
    } else if r == "gpt-5-mini"@ {
        assert(!starts_with(r, "gpt-5.5"@)) by { assert(r.take(7)[5] != "gpt-5.5"@[5]); }
        assert(!starts_with(r, "gpt-5.4"@)) by { assert(r.take(7)[5] != "gpt-5.4"@[5]); }
        assert(!starts_with(r, "gpt-5.2"@)) by { assert(r.take(7)[5] != "gpt-5.2"@[5]); }
        assert(!starts_with(r, "gpt-5.1"@)) by { assert(r.take(7)[5] != "gpt-5.1"@[5]); }
        assert(starts_with(r, "gpt-5-mini"@)) by { assert(r.take(10) =~= r); }
    } else if r == "gpt-5-nano"@ {
        assert(!starts_with(r, "gpt-5.5"@)) by { assert(r.take(7)[5] != "gpt-5.5"@[5]); }
        assert(!starts_with(r, "gpt-5.4"@)) by { assert(r.take(7)[5] != "gpt-5.4"@[5]); }
        assert(!starts_with(r, "gpt-5.2"@)) by { assert(r.take(7)[5] != "gpt-5.2"@[5]); }
        assert(!starts_with(r, "gpt-5.1"@)) by { assert(r.take(7)[5] != "gpt-5.1"@[5]); }
        assert(!starts_with(r, "gpt-5-mini"@)) by { assert(r.take(10)[6] != "gpt-5-mini"@[6]); }
        assert(starts_with(r, "gpt-5-nano"@)) by { assert(r.take(10) =~= r); }
    } else if r == "gpt-5-codex"@ {
        assert(!starts_with(r, "gpt-5.5"@)) by { assert(r.take(7)[5] != "gpt-5.5"@[5]); }
        assert(!starts_with(r, "gpt-5.4"@)) by { assert(r.take(7)[5] != "gpt-5.4"@[5]); }
        assert(!starts_with(r, "gpt-5.2"@)) by { assert(r.take(7)[5] != "gpt-5.2"@[5]); }
        assert(!starts_with(r, "gpt-5.1"@)) by { assert(r.take(7)[5] != "gpt-5.1"@[5]); }
        assert(!starts_with(r, "gpt-5-mini"@)) by { assert(r.take(10)[6] != "gpt-5-mini"@[6]); }
        assert(!starts_with(r, "gpt-5-nano"@)) by { assert(r.take(10)[6] != "gpt-5-nano"@[6]); }
        assert(starts_with(r, "gpt-5-codex"@)) by { assert(r.take(11) =~= r); }
    } else if r == "gpt-5"@ {
        assert(starts_with(r, "gpt-5"@)) by { assert(r.take(5) =~= r); }
    } else if r == "unknown"@ {
        assert(!starts_with(r, "gpt-5.5"@)) by { assert(r.take(7)[0] != "gpt-5.5"@[0]); }
        assert(!starts_with(r, "gpt-5.4"@)) by { assert(r.take(7)[0] != "gpt-5.4"@[0]); }
        assert(!starts_with(r, "gpt-5.2"@)) by { assert(r.take(7)[0] != "gpt-5.2"@[0]); }
        assert(!starts_with(r, "gpt-5.1"@)) by { assert(r.take(7)[0] != "gpt-5.1"@[0]); }
        assert(!starts_with(r, "gpt-5"@)) by { assert(r.take(5)[0] != "gpt-5"@[0]); }
    } else {
        assert(r == m);
    }
}

/// Every family with public prices is a normalized name, so a name priced
/// after normalizing it once is priced the same after normalizing it again.
pub proof fn lemma_rates_stable(m: Seq<char>)
    ensures
        model_rates(normalized_model(m)) == model_rates(m),
{
    lemma_normalize_idempotent(m);
}

/// Costs of usage with no negative count are never negative.
pub proof fn lemma_cost_nonnegative(r: TokenRates, u: Usage)
    requires
        u.output_tokens >= 0,
    ensures
        cost_nanos(r, u) >= 0,
{
    let cached: int = if u.cached_input_tokens > 0 { u.cached_input_tokens as int } else { 0 };
    let diff = i64_specs::wrapping_sub(u.input_tokens, u.cached_input_tokens);
    let uncached: int = if diff > 0 { diff as int } else { 0 };
    assert(uncached * r.input >= 0) by (nonlinear_arith)
        requires
            uncached >= 0,
            r.input >= 0,
    ;
    assert(cached * r.cached_input >= 0) by (nonlinear_arith)
        requires
            cached >= 0,
            r.cached_input >= 0,
    ;
    assert(u.output_tokens * r.output >= 0) by (nonlinear_arith)
        requires
            u.output_tokens >= 0,
            r.output >= 0,
    ;
}


/// What a usage costs depends only on its input, cached input and output
/// counts: reasoning tokens are part of the output and are not charged again,
/// and the total is not charged at all.
pub proof fn lemma_cost_ignores_reasoning_and_total(r: TokenRates, u: Usage, reasoning: i64, total: i64)
    ensures
        cost_nanos(r, Usage { reasoning_output_tokens: reasoning, total_tokens: total, ..u })
            == cost_nanos(r, u),
        forall|model: Seq<char>|
            #[trigger] usage_cost(
                model,
                Usage { reasoning_output_tokens: reasoning, total_tokens: total, ..u },
            ) == usage_cost(model, u),
{
}

/// Each kind of token is charged at its own price, per token: `n` output
/// tokens alone cost `n` times the output price, `n` uncached input tokens
/// alone `n` times the input price, and `n` input tokens that were all cached
/// `n` times the cached-input price, whatever the reasoning and total counts.
pub proof fn lemma_cost_per_kind(r: TokenRates, n: i64, reasoning: i64, total: i64)
    requires
        n >= 0,
    ensures
        cost_nanos(
            r,
            Usage {
                input_tokens: 0,
                cached_input_tokens: 0,
                output_tokens: n,
                reasoning_output_tokens: reasoning,
                total_tokens: total,
            },
        ) == n * r.output,
        cost_nanos(
            r,
            Usage {
                input_tokens: n,
                cached_input_tokens: 0,
                output_tokens: 0,
                reasoning_output_tokens: reasoning,
                total_tokens: total,
            },
        ) == n * r.input,
        cost_nanos(
            r,
            Usage {
                input_tokens: n,
                cached_input_tokens: n,
                output_tokens: 0,
                reasoning_output_tokens: reasoning,
                total_tokens: total,
            },
        ) == n * r.cached_input,
{
    assert(i64_specs::wrapping_sub(n, 0) == n);
    assert(i64_specs::wrapping_sub(n, n) == 0);
    assert(i64_specs::wrapping_sub(0, 0) == 0);
}

/// The cost of a usage is the sum of the costs of its parts: its uncached
/// input, its cached input and its output, each priced alone.
pub proof fn lemma_cost_adds_up_by_kind(r: TokenRates, u: Usage)
    requires
        u.input_tokens >= u.cached_input_tokens >= 0,
        u.output_tokens >= 0,
    ensures
        cost_nanos(r, u) == (u.input_tokens - u.cached_input_tokens) * r.input
            + u.cached_input_tokens * r.cached_input + u.output_tokens * r.output,
{
    assert(i64_specs::wrapping_sub(u.input_tokens, u.cached_input_tokens) == u.input_tokens
        - u.cached_input_tokens);
}


proof fn lemma_common_prefix(m: Seq<char>, a: Seq<char>, b: Seq<char>)
    requires
        starts_with(m, a),
        starts_with(m, b),
        a.len() <= b.len(),
    ensures
        starts_with(b, a),
{
    assert(b.take(a.len() as int) =~= m.take(a.len() as int));
}

proof fn lemma_mismatch(m: Seq<char>, a: Seq<char>, b: Seq<char>, i: int)
    requires
        starts_with(m, a),
        0 <= i < a.len(),
        i < b.len(),
        a[i] != b[i],
    ensures
        !starts_with(m, b),
{
    assert(m.take(a.len() as int)[i] == m[i]);
    if starts_with(m, b) {
        assert(m.take(b.len() as int)[i] == m[i]);
    }
}

/// A name is priced as the longest priced family that it starts with: where
/// a name starts with a family that has public prices, its normalized family
/// has prices too, the name starts with it, and it starts with that family
/// (so it is at least as long).
pub proof fn lemma_normalize_longest_family(m: Seq<char>, f: Seq<char>)
    requires
        family_rates(f) is Some,
        starts_with(m, f),
    ensures
        family_rates(normalized_model(m)) is Some,
        starts_with(m, normalized_model(m)),
        starts_with(normalized_model(m), f),
{
    reveal_strlit("gpt-5.5");
    reveal_strlit("gpt-5.4-mini");
    reveal_strlit("gpt-5.4-nano");
    reveal_strlit("gpt-5.4");
    reveal_strlit("gpt-5.2-codex");
    reveal_strlit("gpt-5.2");
    reveal_strlit("gpt-5.1-codex-max");
    reveal_strlit("gpt-5.1-codex");
    reveal_strlit("gpt-5.1");
    reveal_strlit("gpt-5-mini");
    reveal_strlit("gpt-5-nano");
    reveal_strlit("gpt-5-codex");
    reveal_strlit("gpt-5");
    let r = normalized_model(m);
    if f == "gpt-5.5"@ {
        if r == "gpt-5.5"@ {
            assert(r.take(7) =~= f);
        }
    } else if f == "gpt-5.4-mini"@ {
        lemma_mismatch(m, f, "gpt-5.5"@, 6);
        if r == "gpt-5.4-mini"@ {
            assert(r.take(12) =~= f);
        }
    } else if f == "gpt-5.4-nano"@ {
        lemma_mismatch(m, f, "gpt-5.5"@, 6);
        lemma_mismatch(m, f, "gpt-5.4-mini"@, 8);
        if r == "gpt-5.4-nano"@ {
            assert(r.take(12) =~= f);
        }
    } else if f == "gpt-5.4"@ {
        lemma_mismatch(m, f, "gpt-5.5"@, 6);
        if r == "gpt-5.4-mini"@ {
            assert(r.take(7) =~= f);
        }
        if r == "gpt-5.4-nano"@ {
            assert(r.take(7) =~= f);
        }
        if r == "gpt-5.4"@ {
            assert(r.take(7) =~= f);
        }
    } else if f == "gpt-5.2-codex"@ {
        lemma_mismatch(m, f, "gpt-5.5"@, 6);
        lemma_mismatch(m, f, "gpt-5.4-mini"@, 6);
        lemma_mismatch(m, f, "gpt-5.4-nano"@, 6);
        lemma_mismatch(m, f, "gpt-5.4"@, 6);
        if r == "gpt-5.2-codex"@ {
            assert(r.take(13) =~= f);
        }
    } else if f == "gpt-5.2"@ {
        lemma_mismatch(m, f, "gpt-5.5"@, 6);
        lemma_mismatch(m, f, "gpt-5.4-mini"@, 6);
        lemma_mismatch(m, f, "gpt-5.4-nano"@, 6);
        lemma_mismatch(m, f, "gpt-5.4"@, 6);
        if r == "gpt-5.2-codex"@ {
            assert(r.take(7) =~= f);
        }
        if r == "gpt-5.2"@ {
            assert(r.take(7) =~= f);
        }
    } else if f == "gpt-5.1-codex-max"@ {
        lemma_mismatch(m, f, "gpt-5.5"@, 6);
        lemma_mismatch(m, f, "gpt-5.4-mini"@, 6);
        lemma_mismatch(m, f, "gpt-5.4-nano"@, 6);
        lemma_mismatch(m, f, "gpt-5.4"@, 6);
        lemma_mismatch(m, f, "gpt-5.2-codex"@, 6);
        lemma_mismatch(m, f, "gpt-5.2"@, 6);
        if r == "gpt-5.1-codex-max"@ {
            assert(r.take(17) =~= f);
        }
    } else if f == "gpt-5.1-codex"@ {
        lemma_mismatch(m, f, "gpt-5.5"@, 6);
        lemma_mismatch(m, f, "gpt-5.4-mini"@, 6);
        lemma_mismatch(m, f, "gpt-5.4-nano"@, 6);
        lemma_mismatch(m, f, "gpt-5.4"@, 6);
        lemma_mismatch(m, f, "gpt-5.2-codex"@, 6);
        lemma_mismatch(m, f, "gpt-5.2"@, 6);
        if r == "gpt-5.1-codex-max"@ {
            assert(r.take(13) =~= f);
        }
        if r == "gpt-5.1-codex"@ {
            assert(r.take(13) =~= f);
        }
    } else if f == "gpt-5.1"@ {
        lemma_mismatch(m, f, "gpt-5.5"@, 6);
        lemma_mismatch(m, f, "gpt-5.4-mini"@, 6);
        lemma_mismatch(m, f, "gpt-5.4-nano"@, 6);
        lemma_mismatch(m, f, "gpt-5.4"@, 6);
        lemma_mismatch(m, f, "gpt-5.2-codex"@, 6);
        lemma_mismatch(m, f, "gpt-5.2"@, 6);
        if r == "gpt-5.1-codex-max"@ {
            assert(r.take(7) =~= f);
        }
        if r == "gpt-5.1-codex"@ {
            assert(r.take(7) =~= f);
        }
        if r == "gpt-5.1"@ {
            assert(r.take(7) =~= f);
        }
    } else if f == "gpt-5-mini"@ {
        lemma_mismatch(m, f, "gpt-5.5"@, 5);
        lemma_mismatch(m, f, "gpt-5.4-mini"@, 5);
        lemma_mismatch(m, f, "gpt-5.4-nano"@, 5);
        lemma_mismatch(m, f, "gpt-5.4"@, 5);
        lemma_mismatch(m, f, "gpt-5.2-codex"@, 5);
        lemma_mismatch(m, f, "gpt-5.2"@, 5);
        lemma_mismatch(m, f, "gpt-5.1-codex-max"@, 5);
        lemma_mismatch(m, f, "gpt-5.1-codex"@, 5);
        lemma_mismatch(m, f, "gpt-5.1"@, 5);
        if r == "gpt-5-mini"@ {
            assert(r.take(10) =~= f);
        }
    } else if f == "gpt-5-nano"@ {
        lemma_mismatch(m, f, "gpt-5.5"@, 5);
        lemma_mismatch(m, f, "gpt-5.4-mini"@, 5);
        lemma_mismatch(m, f, "gpt-5.4-nano"@, 5);
        lemma_mismatch(m, f, "gpt-5.4"@, 5);
        lemma_mismatch(m, f, "gpt-5.2-codex"@, 5);
        lemma_mismatch(m, f, "gpt-5.2"@, 5);
        lemma_mismatch(m, f, "gpt-5.1-codex-max"@, 5);
        lemma_mismatch(m, f, "gpt-5.1-codex"@, 5);
        lemma_mismatch(m, f, "gpt-5.1"@, 5);
        lemma_mismatch(m, f, "gpt-5-mini"@, 6);
        if r == "gpt-5-nano"@ {
            assert(r.take(10) =~= f);
        }
    } else if f == "gpt-5-codex"@ {
        lemma_mismatch(m, f, "gpt-5.5"@, 5);
        lemma_mismatch(m, f, "gpt-5.4-mini"@, 5);
        lemma_mismatch(m, f, "gpt-5.4-nano"@, 5);
        lemma_mismatch(m, f, "gpt-5.4"@, 5);
        lemma_mismatch(m, f, "gpt-5.2-codex"@, 5);
        lemma_mismatch(m, f, "gpt-5.2"@, 5);
        lemma_mismatch(m, f, "gpt-5.1-codex-max"@, 5);
        lemma_mismatch(m, f, "gpt-5.1-codex"@, 5);
        lemma_mismatch(m, f, "gpt-5.1"@, 5);
        lemma_mismatch(m, f, "gpt-5-mini"@, 6);
        lemma_mismatch(m, f, "gpt-5-nano"@, 6);
        if r == "gpt-5-codex"@ {
            assert(r.take(11) =~= f);
        }
    } else if f == "gpt-5"@ {
        if r == "gpt-5.5"@ {
            assert(r.take(5) =~= f);
        }
        if r == "gpt-5.4-mini"@ {
            assert(r.take(5) =~= f);
        }
        if r == "gpt-5.4-nano"@ {
            assert(r.take(5) =~= f);
        }
        if r == "gpt-5.4"@ {
            assert(r.take(5) =~= f);
        }
        if r == "gpt-5.2-codex"@ {
            assert(r.take(5) =~= f);
        }
        if r == "gpt-5.2"@ {
            assert(r.take(5) =~= f);
        }
        if r == "gpt-5.1-codex-max"@ {
            assert(r.take(5) =~= f);
        }
        if r == "gpt-5.1-codex"@ {
            assert(r.take(5) =~= f);
        }
        if r == "gpt-5.1"@ {
            assert(r.take(5) =~= f);
        }
        if r == "gpt-5-mini"@ {
            assert(r.take(5) =~= f);
        }
        if r == "gpt-5-nano"@ {
            assert(r.take(5) =~= f);
        }
        if r == "gpt-5-codex"@ {
            assert(r.take(5) =~= f);
        }
        if r == "gpt-5"@ {
            assert(r.take(5) =~= f);
        }
    }
}

} // verus!
