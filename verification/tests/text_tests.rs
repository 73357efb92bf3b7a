use codex_usage_tray::report::{icon_name, icon_svg, top_models};
use codex_usage_tray::tally::{merge_usage_map, UsageMap};
use codex_usage_tray::text::{
    comma_int, display_plan, duration_label, full_tokens, html_escape, overlay_markup, strip_nul,
};
use codex_usage_tray::usage::Usage;

fn usage(total: i64) -> Usage {
    Usage {
        input_tokens: 0,
        cached_input_tokens: 0,
        output_tokens: 0,
        reasoning_output_tokens: 0,
        total_tokens: total,
    }
}

#[test]
fn comma_int_groups_thousands() {
    assert_eq!(comma_int(0), "0");
    assert_eq!(comma_int(7), "7");
    assert_eq!(comma_int(999), "999");
    assert_eq!(comma_int(1000), "1,000");
    assert_eq!(comma_int(12345), "12,345");
    assert_eq!(comma_int(1234567), "1,234,567");
    assert_eq!(comma_int(-1234567), "-1,234,567");
    assert_eq!(comma_int(-999), "-999");
    assert_eq!(comma_int(i64::MAX), "9,223,372,036,854,775,807");
    assert_eq!(comma_int(i64::MIN + 1), "-9,223,372,036,854,775,807");
}

#[test]
fn comma_int_keeps_digits() {
    for v in [0i64, 5, 10, 100, 1000, 10000, 100000, 987654321, -42, -100000] {
        assert_eq!(comma_int(v).replace(',', ""), v.to_string());
    }
}

#[test]
fn full_tokens_is_comma_int() {
    assert_eq!(full_tokens(2500000), "2,500,000");
}

#[test]
fn duration_label_cases() {
    assert_eq!(duration_label(0), "0s");
    assert_eq!(duration_label(5), "5s");
    assert_eq!(duration_label(59), "59s");
    assert_eq!(duration_label(60), "1m");
    assert_eq!(duration_label(90), "1m 30s");
    assert_eq!(duration_label(300), "5m");
    assert_eq!(duration_label(3600), "60m");
    assert_eq!(duration_label(3661), "61m 1s");
}

#[test]
fn html_escape_replaces_special_characters() {
    assert_eq!(
        html_escape("<a href=\"x\">Tom & Jerry</a>"),
        "&lt;a href=&quot;x&quot;&gt;Tom &amp; Jerry&lt;/a&gt;"
    );
    assert_eq!(html_escape("plain ✨ text"), "plain ✨ text");
    assert_eq!(html_escape("&amp;"), "&amp;amp;");
    assert_eq!(html_escape(""), "");
}

#[test]
fn html_escape_output_is_inert() {
    let out = html_escape("\"><script>alert('x')</script>");
    assert!(!out.contains('<') && !out.contains('>') && !out.contains('"'));
}

#[test]
fn display_plan_names_prolite() {
    assert_eq!(display_plan("prolite"), "$100 Pro (Pro Lite)");
    assert_eq!(display_plan("plus"), "plus");
    assert_eq!(display_plan("prolite2"), "prolite2");
    assert_eq!(display_plan(""), "");
}

#[test]
fn overlay_markup_messages() {
    assert_eq!(
        overlay_markup("anything", true),
        "<span font_desc=\"72\">🎉 🎊 🥳 ✨ 🎉</span>\n<span font_desc=\"24\" weight=\"bold\">THE WEEKLY RATE LIMIT HAS BEEN RESET!</span>"
    );
    assert_eq!(
        overlay_markup("The 5 hour rate limit has been reset! 🎉", false),
        "<span font_desc=\"58\">🎉 🎊 ✨</span>\n<span font_desc=\"20\" weight=\"bold\">The 5 hour rate limit has been reset!</span>"
    );
    assert_eq!(
        overlay_markup("Hello", false),
        "<span font_desc=\"58\">🎉 🎊 ✨</span>\n<span font_desc=\"20\" weight=\"bold\">Hello</span>"
    );
}

#[test]
fn tally_credit_and_merge() {
    let mut a: UsageMap = UsageMap::new();
    let m1 = "gpt-5".to_string();
    let m2 = "gpt-5-mini".to_string();
    a.credit(&m1, &usage(10));
    a.credit(&m2, &usage(5));
    a.credit(&m1, &usage(1));
    assert_eq!(a.len(), 2);
    assert_eq!(a.get(&m1).unwrap().total_tokens, 11);
    let mut b: UsageMap = UsageMap::new();
    b.credit(&m2, &usage(100));
    let m3 = "other".to_string();
    b.credit(&m3, &usage(7));
    merge_usage_map(&mut a, &b);
    assert_eq!(a.len(), 3);
    assert_eq!(a.get(&m1).unwrap().total_tokens, 11);
    assert_eq!(a.get(&m2).unwrap().total_tokens, 105);
    assert_eq!(a.get(&m3).unwrap().total_tokens, 7);
    assert!(a.get(&"none".to_string()).is_none());
}

#[test]
fn merge_usage_map_is_commutative_on_values() {
    let x = "x".to_string();
    let y = "y".to_string();
    let mut a: UsageMap = UsageMap::new();
    a.credit(&x, &usage(3));
    let mut b: UsageMap = UsageMap::new();
    b.credit(&x, &usage(4));
    b.credit(&y, &usage(9));
    let mut ab = a.clone();
    merge_usage_map(&mut ab, &b);
    let mut ba = b.clone();
    merge_usage_map(&mut ba, &a);
    for k in [&x, &y] {
        assert_eq!(ab.get(k), ba.get(k));
    }
}

#[test]
fn usage_merge_adds_and_wraps() {
    let mut u = Usage {
        input_tokens: 1,
        cached_input_tokens: 2,
        output_tokens: 3,
        reasoning_output_tokens: 4,
        total_tokens: i64::MAX,
    };
    u.merge(&Usage {
        input_tokens: 10,
        cached_input_tokens: 20,
        output_tokens: 30,
        reasoning_output_tokens: 40,
        total_tokens: 1,
    });
    assert_eq!(u.input_tokens, 11);
    assert_eq!(u.cached_input_tokens, 22);
    assert_eq!(u.output_tokens, 33);
    assert_eq!(u.reasoning_output_tokens, 44);
    assert_eq!(u.total_tokens, i64::MIN);
    assert_eq!(Usage::default(), usage(0));
}

#[test]
fn top_models_ranks_by_total() {
    let mut t: UsageMap = UsageMap::new();
    for (name, total) in [("a", 5i64), ("b", 50), ("c", 20), ("d", 1), ("e", 30)] {
        t.credit(&name.to_string(), &usage(total));
    }
    let top = top_models(&t, 3);
    let names: Vec<&str> = top.iter().map(|(n, _)| n.as_str()).collect();
    assert_eq!(names, vec!["b", "e", "c"]);
    let all = top_models(&t, 8);
    assert_eq!(all.len(), 5);
    assert_eq!(all[4].0, "d");
    assert!(top_models(&t, 0).is_empty());
}

#[test]
fn icon_svg_and_name() {
    assert_eq!(icon_name(7), "codex-usage-7");
    let svg = icon_svg(42, "#35c46a");
    assert_eq!(
        svg,
        "<svg xmlns=\"http://www.w3.org/2000/svg\" width=\"64\" height=\"64\" viewBox=\"0 0 64 64\">\n  <text x=\"32\" y=\"45\" text-anchor=\"middle\" font-family=\"SF Pro Text, SF Pro Display, Inter, Arial, sans-serif\" font-size=\"40\" font-weight=\"650\" fill=\"#35c46a\">42</text>\n</svg>\n"
    );
    assert!(icon_svg(3, "#000000").contains("font-size=\"42\""));
    assert!(icon_svg(100, "#000000").contains("font-size=\"30\""));
}

#[test]
fn strip_nul_drops_nul_characters() {
    assert_eq!(strip_nul("a\0b\0\0c"), "abc");
    assert_eq!(strip_nul("plain"), "plain");
    assert_eq!(strip_nul("\0"), "");
}
