use codex_usage_tray::pricing::{
    cost_for_usage, normalize_model, price_rates, sum_cost, unpriced_tokens, TokenRates,
};
use codex_usage_tray::tally::UsageMap;
use codex_usage_tray::usage::Usage;

fn usage(input: i64, cached: i64, output: i64, total: i64) -> Usage {
    Usage {
        input_tokens: input,
        cached_input_tokens: cached,
        output_tokens: output,
        reasoning_output_tokens: 0,
        total_tokens: total,
    }
}

#[test]
fn normalize_model_families() {
    let cases = [
        ("gpt-5.5", "gpt-5.5"),
        ("gpt-5.5-pro", "gpt-5.5"),
        ("gpt-5.4-mini-2026-01-01", "gpt-5.4-mini"),
        ("gpt-5.4-nano", "gpt-5.4-nano"),
        ("gpt-5.4", "gpt-5.4"),
        ("gpt-5.4-preview", "gpt-5.4"),
        ("gpt-5.2-codex-high", "gpt-5.2-codex"),
        ("gpt-5.2", "gpt-5.2"),
        ("gpt-5.1-codex-max-x", "gpt-5.1-codex-max"),
        ("gpt-5.1-codex", "gpt-5.1-codex"),
        ("gpt-5.1", "gpt-5.1"),
        ("gpt-5-mini", "gpt-5-mini"),
        ("gpt-5-nano", "gpt-5-nano"),
        ("gpt-5-codex", "gpt-5-codex"),
        ("gpt-5", "gpt-5"),
        ("gpt-50", "gpt-5"),
        ("", "unknown"),
        ("o3", "o3"),
        ("llama-3", "llama-3"),
    ];
    for (raw, family) in cases {
        assert_eq!(normalize_model(raw), family, "{raw}");
        assert_eq!(normalize_model(family), family, "{family}");
    }
}

#[test]
fn price_rates_table() {
    assert_eq!(
        price_rates("gpt-5.5"),
        Some(TokenRates { input: 5000, cached_input: 500, output: 30000 })
    );
    assert_eq!(
        price_rates("gpt-5.4-mini"),
        Some(TokenRates { input: 750, cached_input: 75, output: 4500 })
    );
    assert_eq!(
        price_rates("gpt-5.2-codex"),
        Some(TokenRates { input: 1750, cached_input: 175, output: 14000 })
    );
    assert_eq!(
        price_rates("gpt-5-codex"),
        Some(TokenRates { input: 1250, cached_input: 125, output: 10000 })
    );
    assert_eq!(
        price_rates("gpt-5-nano"),
        Some(TokenRates { input: 50, cached_input: 5, output: 400 })
    );
    assert_eq!(price_rates("unknown"), None);
    assert_eq!(price_rates(""), None);
    assert_eq!(price_rates("o3"), None);
}

#[test]
fn cost_for_usage_in_nanodollars() {
    // 800k uncached at $2.50, 200k cached at $0.25, 100k output at $15 per million.
    let u = usage(1_000_000, 200_000, 100_000, 1_100_000);
    assert_eq!(cost_for_usage("gpt-5.4", &u), Some(3_550_000_000));
    assert_eq!(cost_for_usage("o3", &u), None);
}

#[test]
fn cost_clamps_negative_input_parts() {
    // More cached than input: no uncached part; negative cached counts as zero.
    let u = usage(10, 20, 0, 0);
    assert_eq!(cost_for_usage("gpt-5", &u), Some(20 * 125));
    let v = usage(10, -5, 0, 0);
    assert_eq!(cost_for_usage("gpt-5", &v), Some(15 * 1250));
}

#[test]
fn sum_cost_and_unpriced_tokens() {
    let mut t: UsageMap = UsageMap::new();
    assert_eq!(sum_cost(&t), None);
    t.credit(&"mystery".to_string(), &usage(10, 0, 10, 20));
    assert_eq!(sum_cost(&t), None);
    assert_eq!(unpriced_tokens(&t), 20);
    t.credit(&"gpt-5".to_string(), &usage(1_000_000, 0, 0, 1_000_000));
    t.credit(&"gpt-5-mini".to_string(), &usage(0, 0, 1_000_000, 1_000_000));
    assert_eq!(sum_cost(&t), Some(1_250_000_000 + 2_000_000_000));
    assert_eq!(unpriced_tokens(&t), 20);
}
