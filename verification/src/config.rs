use vstd::prelude::*;

use crate::json::{
    json_as_bool, json_as_u64, json_get, json_of, parse_json, settings_document, JsonNumber, JsonValue,
};
use crate::text::{duration_label, duration_text, push_decimal, decimal};

verus! {

/// The refresh interval used when the configuration names none.
pub const DEFAULT_REFRESH_SECONDS: u32 = 30;

/// The shortest refresh interval.
pub const MIN_REFRESH_SECONDS: u32 = 5;

/// The longest refresh interval.
pub const MAX_REFRESH_SECONDS: u32 = 3600;

/// The user's settings: whether resets are celebrated with confetti, and how
/// often the tray refreshes.
#[derive(Clone, Copy, Debug, PartialEq, Eq, Structural)]
pub struct AppConfig {
    pub party_mode: bool,
    pub refresh_seconds: u32,
}

/// Party mode off, refreshing every 30 seconds.
pub open spec fn default_config() -> AppConfig {
    AppConfig { party_mode: false, refresh_seconds: 30 }
}

impl Default for AppConfig {
    fn default() -> (res: AppConfig)
        ensures
            res == default_config(),
    {
        AppConfig { party_mode: false, refresh_seconds: DEFAULT_REFRESH_SECONDS }
    }
}

/// A refresh interval brought within 5 to 3600 seconds.
pub open spec fn clamped_seconds(s: int) -> int {
    if s < 5 {
        5
    } else if s > 3600 {
        3600
    } else {
        s
    }
}

/// Brings a refresh interval within 5 seconds to one hour.
pub fn clamp_refresh_seconds(seconds: u32) -> (res: u32)
    ensures
        res == clamped_seconds(seconds as int),
{
    if seconds < MIN_REFRESH_SECONDS {
        MIN_REFRESH_SECONDS
    } else if seconds > MAX_REFRESH_SECONDS {
        MAX_REFRESH_SECONDS
    } else {
        seconds
    }
}

/// The settings a configuration document holds: `party_mode` where it is a
/// boolean, `refresh_seconds` where it is a non-negative integer (its low 32
/// bits, clamped), the defaults for the rest and for a missing or unreadable
/// document.
pub open spec fn config_of(doc: Option<JsonValue>) -> AppConfig {
    match doc {
        None => default_config(),
        Some(v) => AppConfig {
            party_mode: match json_as_bool(json_get(v, "party_mode"@)) {
                Some(b) => b,
                None => false,
            },
            refresh_seconds: match json_as_u64(json_get(v, "refresh_seconds"@)) {
                Some(n) => clamped_seconds((n as int) % 0x1_0000_0000) as u32,
                None => 30,
            },
        },
    }
}

/// The settings in a configuration document (`None` when the file could not be
/// read or is not JSON).
pub fn load_config(doc: Option<&JsonValue>) -> (res: AppConfig)
    ensures
        res == config_of(match doc {
            Some(d) => Some(*d),
            None => None,
        }),
        MIN_REFRESH_SECONDS <= res.refresh_seconds <= MAX_REFRESH_SECONDS,
{
    let default = AppConfig::default();
    match doc {
        None => default,
        Some(v) => {
            let party_mode = match v.get("party_mode") {
                Some(x) => match x.as_bool() {
                    Some(b) => b,
                    None => default.party_mode,
                },
                None => default.party_mode,
            };
            let refresh_seconds = match v.get("refresh_seconds") {
                Some(x) => match x.as_u64() {
                    Some(n) => clamp_refresh_seconds(low_bits(n)),
                    None => default.refresh_seconds,
                },
                None => default.refresh_seconds,
            };
            AppConfig { party_mode, refresh_seconds }
        },
    }
}

/// The low 32 bits of a 64-bit count, as `as u32` keeps them.
fn low_bits(n: u64) -> (res: u32)
    ensures
        res == (n as int) % 0x1_0000_0000,
{
    (n % 0x1_0000_0000) as u32
}

/// The text of the configuration file for given settings.
pub open spec fn config_text(c: AppConfig) -> Seq<char> {
    "{\n  \"party_mode\": "@ + (if c.party_mode {
        "true"@
    } else {
        "false"@
    }) + ",\n  \"refresh_seconds\": "@ + decimal(c.refresh_seconds as nat) + "\n}\n"@
}

/// Writes the configuration file for given settings.
pub fn save_config(config: AppConfig) -> (res: String)
    ensures
        res@ == config_text(config),
{
    let mut out = String::from_str("{\n  \"party_mode\": ");
    if config.party_mode {
        out.append("true");
    } else {
        out.append("false");
    }
    out.append(",\n  \"refresh_seconds\": ");
    push_decimal(&mut out, config.refresh_seconds as u64);
    out.append("\n}\n");
    out
}

/// The text of a file, `None` where it could not be read.
pub open spec fn text_view(content: Option<&str>) -> Option<Seq<char>> {
    match content {
        Some(t) => Some(t@),
        None => None,
    }
}

/// The settings a configuration file holds: those of the document its text
/// parses to, the defaults where it could not be read or is not JSON.
pub open spec fn settings_of(content: Option<Seq<char>>) -> AppConfig {
    config_of(
        match content {
            Some(t) => json_of(t),
            None => None,
        },
    )
}

/// The settings that reading back the file written for `c` gives: `c` with
/// its interval clamped.
pub open spec fn saved_config(c: AppConfig) -> AppConfig {
    AppConfig {
        party_mode: c.party_mode,
        refresh_seconds: clamped_seconds(c.refresh_seconds as int) as u32,
    }
}

/// The settings in the text of the configuration file (`None` where it
/// could not be read). The text `save_config` writes for `c` reads back as
/// `c` with its interval clamped.
pub fn load_config_text(content: Option<&str>) -> (res: AppConfig)
    ensures
        res == settings_of(text_view(content)),
        MIN_REFRESH_SECONDS <= res.refresh_seconds <= MAX_REFRESH_SECONDS,
        content matches Some(t) ==> forall|c: AppConfig|
            #[trigger] config_text(c) == t@ ==> res == saved_config(c),
{
    match content {
        Some(t) => {
            let doc = parse_json(t);
            let res = load_config(doc.as_ref());
            proof {
                assert forall|c: AppConfig| #[trigger] config_text(c) == t@ implies res
                    == saved_config(c) by {
                    assert(settings_document(doc, c));
                    lemma_saved_config_loads_back(c, doc.unwrap());
                }
            }
            res
        },
        None => load_config(None),
    }
}

/// Whether confetti celebrates resets, as the configuration file says.
pub fn party_mode_enabled(content: Option<&str>) -> (res: bool)
    ensures
        res == settings_of(text_view(content)).party_mode,
{
    load_config_text(content).party_mode
}

/// The configuration file with party mode set as given and the refresh
/// interval kept.
pub fn set_party_mode(content: Option<&str>, enabled: bool) -> (res: String)
    ensures
        res@ == config_text(AppConfig { party_mode: enabled, ..settings_of(text_view(content)) }),
{
    let mut config = load_config_text(content);
    config.party_mode = enabled;
    save_config(config)
}

/// The refresh interval, in seconds, as the configuration file says.
pub fn refresh_seconds(content: Option<&str>) -> (res: u32)
    ensures
        res == settings_of(text_view(content)).refresh_seconds,
        MIN_REFRESH_SECONDS <= res <= MAX_REFRESH_SECONDS,
{
    load_config_text(content).refresh_seconds
}

/// The configuration file with the refresh interval set (clamped) and party
/// mode kept.
pub fn set_refresh_seconds(content: Option<&str>, seconds: u32) -> (res: String)
    ensures
        res@ == config_text(
            AppConfig {
                refresh_seconds: clamped_seconds(seconds as int) as u32,
                ..settings_of(text_view(content))
            },
        ),
{
    let mut config = load_config_text(content);
    config.refresh_seconds = clamp_refresh_seconds(seconds);
    save_config(config)
}

/// The menu line that shows the refresh interval.
pub fn refresh_interval_markup(content: Option<&str>) -> (res: String)
    ensures
        res@ == "⏱  Refresh interval:  <b>"@ + duration_text(
            settings_of(text_view(content)).refresh_seconds as nat,
        ) + "</b>"@,
{
    let mut out = String::from_str("⏱  Refresh interval:  <b>");
    let label = duration_label(refresh_seconds(content));
    out.append(label.as_str());
    out.append("</b>");
    out
}

/// The menu line that shows whether party mode is on.
pub fn party_mode_markup(content: Option<&str>) -> (res: String)
    ensures
        res@ == (if settings_of(text_view(content)).party_mode {
            "🎉  Party mode:  <b>On</b>"@
        } else {
            "🎉  Party mode:  <b>Off</b>"@
        }),
{
    if party_mode_enabled(content) {
        String::from_str("🎉  Party mode:  <b>On</b>")
    } else {
        String::from_str("🎉  Party mode:  <b>Off</b>")
    }
}

/// Reading back what was written: a document whose `party_mode` and
/// `refresh_seconds` are those that `save_config` writes for `c` loads as `c`
/// with its interval clamped, which is `c` itself for an interval in range.
pub proof fn lemma_saved_config_loads_back(c: AppConfig, doc: JsonValue)
    requires
        json_get(doc, "party_mode"@) == Some(JsonValue::Bool(c.party_mode)),
        json_get(doc, "refresh_seconds"@) == Some(
            JsonValue::Number(JsonNumber::PosInt(c.refresh_seconds as u64)),
        ),
    ensures
        config_of(Some(doc)) == saved_config(c),
        MIN_REFRESH_SECONDS <= c.refresh_seconds <= MAX_REFRESH_SECONDS ==> config_of(Some(doc))
            == c,
{
    assert((c.refresh_seconds as u64 as int) % 0x1_0000_0000 == c.refresh_seconds as int);
}

/// The setters keep what they do not set, and what they write reads back as
/// written: for settings as read from a file (`current`), the file written
/// with party mode set to `enabled`, or with the interval set to `seconds`,
/// reads back with that value and the other setting unchanged; and setting
/// the same value again writes the same file.
pub proof fn lemma_setters_read_back(current: AppConfig, enabled: bool, seconds: u32)
    requires
        MIN_REFRESH_SECONDS <= current.refresh_seconds <= MAX_REFRESH_SECONDS,
    ensures
        ({
            let with_party = AppConfig { party_mode: enabled, ..current };
            &&& saved_config(with_party) == with_party
            &&& saved_config(with_party).refresh_seconds == current.refresh_seconds
            &&& AppConfig { party_mode: enabled, ..saved_config(with_party) } == with_party
        }),
        ({
            let with_interval = AppConfig {
                refresh_seconds: clamped_seconds(seconds as int) as u32,
                ..current
            };
            &&& saved_config(with_interval) == with_interval
            &&& saved_config(with_interval).party_mode == current.party_mode
            &&& AppConfig {
                refresh_seconds: clamped_seconds(seconds as int) as u32,
                ..saved_config(with_interval)
            } == with_interval
        }),
{
}

/// Clamping is idempotent and leaves intervals in range unchanged.
pub proof fn lemma_clamp_idempotent(s: int)
    ensures
        clamped_seconds(clamped_seconds(s)) == clamped_seconds(s),
        5 <= clamped_seconds(s) <= 3600,
        5 <= s <= 3600 ==> clamped_seconds(s) == s,
{
}

} // verus!
