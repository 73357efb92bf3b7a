use vstd::prelude::*;

use crate::clock::{is_later, later, parse_timestamp_or_now, rfc3339_instant, valid_local, Instant, LocalStamp};
use crate::json::{
    json_of, parse_json,
    json_as_i64, json_as_number, json_as_str, json_get, json_get_opt, JsonNumber, JsonValue,
};
use crate::pricing::{normalize_model, normalized_model};
use crate::tally::{
    credited, lemma_usage_sum_credited, lemma_usage_sum_empty, usage_sum, Tally, TallyKey, UsageMap,
};
use crate::text::{chars_equal, chars_of, push_char};
use crate::usage::{add_usage, zero_usage, Usage};

verus! {

/// A calendar day or a calendar month, in local time.
#[derive(Clone, Copy, Debug, PartialEq, Eq, Structural)]
pub enum Period {
    Day { year: i32, month: u32, day: u32 },
    Month { year: i32, month: u32 },
}

impl View for Period {
    type V = Period;

    open spec fn view(&self) -> Period {
        *self
    }
}

impl TallyKey for Period {
    fn same_key(&self, other: &Self) -> (r: bool) {
        *self == *other
    }

    fn copy_key(&self) -> (r: Self) {
        *self
    }
}

/// The day a local stamp falls on.
pub open spec fn day_of(s: LocalStamp) -> Period {
    Period::Day { year: s.year, month: s.month, day: s.day }
}

/// The month a local stamp falls in.
pub open spec fn month_of(s: LocalStamp) -> Period {
    Period::Month { year: s.year, month: s.month }
}

/// The day of a local stamp.
pub fn day_period(s: &LocalStamp) -> (res: Period)
    ensures
        res == day_of(*s),
{
    Period::Day { year: s.year, month: s.month, day: s.day }
}

/// The month of a local stamp.
pub fn month_period(s: &LocalStamp) -> (res: Period)
    ensures
        res == month_of(*s),
{
    Period::Month { year: s.year, month: s.month }
}

/// A model's usage within a period.
pub struct PeriodModel {
    pub period: Period,
    pub model: String,
}

impl View for PeriodModel {
    type V = (Period, Seq<char>);

    open spec fn view(&self) -> (Period, Seq<char>) {
        (self.period, self.model@)
    }
}

impl TallyKey for PeriodModel {
    fn same_key(&self, other: &Self) -> (r: bool) {
        self.period == other.period && self.model == other.model
    }

    fn copy_key(&self) -> (r: Self) {
        PeriodModel { period: self.period, model: self.model.clone() }
    }
}

/// One rate-limit window: how much of it is used (any JSON number; absent
/// reads as zero) and when it resets.
#[derive(Clone, Copy, Debug, PartialEq, Eq)]
pub struct WindowLimit {
    pub used_percent: Option<JsonNumber>,
    pub resets_at: Option<i64>,
}

/// The rate limits reported with a `token_count` event.
#[derive(Debug)]
pub struct RateLimits {
    pub plan_type: String,
    pub primary: WindowLimit,
    pub secondary: WindowLimit,
}

/// What a `RateLimits` holds, as the contracts speak of it.
pub struct RateLimitsView {
    pub plan_type: Seq<char>,
    pub primary: WindowLimit,
    pub secondary: WindowLimit,
}

impl View for RateLimits {
    type V = RateLimitsView;

    open spec fn view(&self) -> RateLimitsView {
        RateLimitsView {
            plan_type: self.plan_type@,
            primary: self.primary,
            secondary: self.secondary,
        }
    }
}

impl Clone for RateLimits {
    fn clone(&self) -> (res: Self)
        ensures
            res@ == self@,
    {
        RateLimits {
            plan_type: self.plan_type.clone(),
            primary: self.primary,
            secondary: self.secondary,
        }
    }
}

/// The view of optional rate limits.
pub open spec fn rate_view(r: Option<RateLimits>) -> Option<RateLimitsView> {
    match r {
        Some(x) => Some(x@),
        None => None,
    }
}

/// The view of an optional string.
pub open spec fn string_view(s: Option<String>) -> Option<Seq<char>> {
    match s {
        Some(x) => Some(x@),
        None => None,
    }
}

/// One `token_count` event of a session log.
pub struct TokenEvent {
    pub model: String,
    pub usage: Usage,
    pub timestamp: Option<String>,
    pub rate_limits: Option<RateLimits>,
}

/// What a `TokenEvent` holds, as the contracts speak of it.
pub struct EventView {
    pub model: Seq<char>,
    pub usage: Usage,
    pub timestamp: Option<Seq<char>>,
    pub rate_limits: Option<RateLimitsView>,
}

impl View for TokenEvent {
    type V = EventView;

    open spec fn view(&self) -> EventView {
        EventView {
            model: self.model@,
            usage: self.usage,
            timestamp: string_view(self.timestamp),
            rate_limits: rate_view(self.rate_limits),
        }
    }
}

/// The views of a run of events.
pub open spec fn event_views(s: Seq<TokenEvent>) -> Seq<EventView> {
    s.map_values(|e: TokenEvent| e@)
}

// ---- What a session log line means ----
/// The `type` of a log line.
pub open spec fn line_type(obj: JsonValue) -> Option<Seq<char>> {
    json_as_str(json_get(obj, "type"@))
}

/// The `payload` of a log line.
pub open spec fn line_payload(obj: JsonValue) -> Option<JsonValue> {
    json_get(obj, "payload"@)
}

/// A `session_meta` or `turn_context` line, which may name the model in use.
pub open spec fn is_context_line(obj: JsonValue) -> bool {
    line_type(obj) == Some("session_meta"@) || line_type(obj) == Some("turn_context"@)
}

/// The model that a context line switches to, normalized.
pub open spec fn context_model(obj: JsonValue) -> Option<Seq<char>> {
    if is_context_line(obj) {
        match json_as_str(json_get_opt(line_payload(obj), "model"@)) {
            Some(m) => Some(normalized_model(m)),
            None => None,
        }
    } else {
        None
    }
}

/// The model in use after a run of lines: the last one a context line named,
/// `unknown` before any.
pub open spec fn model_after(lines: Seq<JsonValue>) -> Seq<char>
    decreases lines.len(),
{
    if lines.len() == 0 {
        "unknown"@
    } else {
        match context_model(lines.last()) {
            Some(m) => m,
            None => model_after(lines.drop_last()),
        }
    }
}

/// The `payload.info.last_token_usage` of an `event_msg` line whose payload
/// is of type `token_count`.
pub open spec fn token_usage_json(obj: JsonValue) -> Option<JsonValue> {
    if !is_context_line(obj) && line_type(obj) == Some("event_msg"@) && json_as_str(
        json_get_opt(line_payload(obj), "type"@),
    ) == Some("token_count"@) {
        json_get_opt(json_get_opt(line_payload(obj), "info"@), "last_token_usage"@)
    } else {
        None
    }
}

/// An integer member, zero where it is missing or not an `i64`.
pub open spec fn i64_member(v: JsonValue, key: Seq<char>) -> i64 {
    match json_as_i64(json_get(v, key)) {
        Some(n) => n,
        None => 0,
    }
}

/// The token counts of a `last_token_usage` object.
pub open spec fn usage_of(v: JsonValue) -> Usage {
    Usage {
        input_tokens: i64_member(v, "input_tokens"@),
        cached_input_tokens: i64_member(v, "cached_input_tokens"@),
        output_tokens: i64_member(v, "output_tokens"@),
        reasoning_output_tokens: i64_member(v, "reasoning_output_tokens"@),
        total_tokens: i64_member(v, "total_tokens"@),
    }
}

/// A rate-limit window object.
pub open spec fn window_of(v: Option<JsonValue>) -> WindowLimit {
    WindowLimit {
        used_percent: json_as_number(json_get_opt(v, "used_percent"@)),
        resets_at: json_as_i64(json_get_opt(v, "resets_at"@)),
    }
}

/// The `rate_limits` member of a payload, if there is one.
pub open spec fn rate_limits_of(payload: Option<JsonValue>) -> Option<RateLimitsView> {
    match json_get_opt(payload, "rate_limits"@) {
        None => None,
        Some(raw) => Some(
            RateLimitsView {
                plan_type: match json_as_str(json_get(raw, "plan_type"@)) {
                    Some(p) => p,
                    None => "n/a"@,
                },
                primary: window_of(json_get(raw, "primary"@)),
                secondary: window_of(json_get(raw, "secondary"@)),
            },
        ),
    }
}

/// The event a line records while `model` is in use, if it is one.
pub open spec fn event_of(obj: JsonValue, model: Seq<char>) -> Option<EventView> {
    match token_usage_json(obj) {
        None => None,
        Some(u) => Some(
            EventView {
                model,
                usage: usage_of(u),
                timestamp: json_as_str(json_get(obj, "timestamp"@)),
                rate_limits: rate_limits_of(line_payload(obj)),
            },
        ),
    }
}

/// The token events of a session log, in order.
pub open spec fn events_of(lines: Seq<JsonValue>) -> Seq<EventView>
    decreases lines.len(),
{
    if lines.len() == 0 {
        seq![]
    } else {
        let prev = events_of(lines.drop_last());
        match event_of(lines.last(), model_after(lines.drop_last())) {
            Some(e) => prev.push(e),
            None => prev,
        }
    }
}

/// The value an optional reference points to.
pub open spec fn opt_val(v: Option<&JsonValue>) -> Option<JsonValue> {
    match v {
        Some(x) => Some(*x),
        None => None,
    }
}

fn get_opt<'a>(v: Option<&'a JsonValue>, key: &str) -> (res: Option<&'a JsonValue>)
    ensures
        opt_val(res) == json_get_opt(opt_val(v), key@),
{
    match v {
        Some(x) => x.get(key),
        None => None,
    }
}

fn str_opt<'a>(v: Option<&'a JsonValue>) -> (res: Option<&'a String>)
    ensures
        match res {
            Some(s) => json_as_str(opt_val(v)) == Some(s@),
            None => json_as_str(opt_val(v)) is None,
        },
{
    match v {
        Some(x) => x.as_str(),
        None => None,
    }
}

fn str_is(s: Option<&String>, lit: &str) -> (res: bool)
    ensures
        res == (match s {
            Some(x) => x@ == lit@,
            None => false,
        }),
{
    match s {
        Some(x) => chars_equal(&chars_of(x.as_str()), lit),
        None => false,
    }
}

fn i64_or_zero(v: &JsonValue, key: &str) -> (res: i64)
    ensures
        res == i64_member(*v, key@),
{
    match v.get(key) {
        Some(x) => match x.as_i64() {
            Some(n) => n,
            None => 0,
        },
        None => 0,
    }
}

/// The token counts of a `last_token_usage` object: each member that is an
/// `i64`, zero for the others.
pub fn usage_from_json(v: &JsonValue) -> (res: Usage)
    ensures
        res == usage_of(*v),
{
    Usage {
        input_tokens: i64_or_zero(v, "input_tokens"),
        cached_input_tokens: i64_or_zero(v, "cached_input_tokens"),
        output_tokens: i64_or_zero(v, "output_tokens"),
        reasoning_output_tokens: i64_or_zero(v, "reasoning_output_tokens"),
        total_tokens: i64_or_zero(v, "total_tokens"),
    }
}

impl Usage {
    /// Adds the token counts of a `last_token_usage` object.
    pub fn add_json(&mut self, value: &JsonValue)
        ensures
            *final(self) == add_usage(*old(self), usage_of(*value)),
    {
        let u = usage_from_json(value);
        self.merge(&u);
    }
}

fn parse_window(v: Option<&JsonValue>) -> (res: WindowLimit)
    ensures
        res == window_of(opt_val(v)),
{
    let used = match get_opt(v, "used_percent") {
        Some(x) => x.as_number(),
        None => None,
    };
    let resets = match get_opt(v, "resets_at") {
        Some(x) => x.as_i64(),
        None => None,
    };
    WindowLimit { used_percent: used, resets_at: resets }
}

/// The rate limits a payload reports, if it has a `rate_limits` member.
pub fn parse_rate_limits(payload: Option<&JsonValue>) -> (res: Option<RateLimits>)
    ensures
        rate_view(res) == rate_limits_of(opt_val(payload)),
{
    match get_opt(payload, "rate_limits") {
        None => None,
        Some(raw) => {
            let plan_type = match str_opt(raw.get("plan_type")) {
                Some(p) => p.clone(),
                None => String::from_str("n/a"),
            };
            let primary = parse_window(raw.get("primary"));
            let secondary = parse_window(raw.get("secondary"));
            Some(RateLimits { plan_type, primary, secondary })
        },
    }
}

fn is_context(obj: &JsonValue) -> (res: bool)
    ensures
        res == is_context_line(*obj),
{
    let t = str_opt(obj.get("type"));
    str_is(t, "session_meta") || str_is(t, "turn_context")
}

fn line_event(obj: &JsonValue, model: &String) -> (res: Option<TokenEvent>)
    ensures
        match res {
            Some(e) => event_of(*obj, model@) == Some(e@),
            None => event_of(*obj, model@) is None,
        },
{
    if is_context(obj) {
        return None;
    }
    let payload = obj.get("payload");
    if !str_is(str_opt(obj.get("type")), "event_msg") {
        return None;
    }
    if !str_is(str_opt(get_opt(payload, "type")), "token_count") {
        return None;
    }
    match get_opt(get_opt(payload, "info"), "last_token_usage") {
        None => None,
        Some(u) => {
            let usage = usage_from_json(u);
            let timestamp = match str_opt(obj.get("timestamp")) {
                Some(t) => Some(t.clone()),
                None => None,
            };
            let rate_limits = parse_rate_limits(payload);
            let e = TokenEvent { model: model.clone(), usage, timestamp, rate_limits };
            assert(event_of(*obj, model@) == Some(e@));
            Some(e)
        },
    }
}

/// The `token_count` events of a session log, given its lines that parse as
/// JSON, in order. Each event is charged to the model named by the last
/// `session_meta` or `turn_context` line before it (normalized), or to
/// `unknown` before any.
pub fn session_events(lines: &Vec<JsonValue>) -> (res: Vec<TokenEvent>)
    ensures
        event_views(res@) == events_of(lines@),
{
    let mut model = String::from_str("unknown");
    let mut out: Vec<TokenEvent> = Vec::new();
    let n = lines.len();
    let mut i: usize = 0;
    while i < n
        invariant
            n == lines@.len(),
            i <= n,
            model@ == model_after(lines@.take(i as int)),
            event_views(out@) == events_of(lines@.take(i as int)),
        decreases n - i,
    {
        let obj = &lines[i];
        assert(lines@.take(i + 1).drop_last() =~= lines@.take(i as int));
        assert(lines@.take(i + 1).last() == lines@[i as int]);
        let ghost prev_out = out@;
        if is_context(obj) {
            match str_opt(get_opt(obj.get("payload"), "model")) {
                Some(m) => {
                    model = normalize_model(m.as_str());
                },
                None => {},
            }
        } else {
            match line_event(obj, &model) {
                Some(e) => {
                    out.push(e);
                    assert(event_views(out@) =~= event_views(prev_out).push(e@));
                },
                None => {},
            }
        }
        i += 1;
    }
    assert(lines@.take(n as int) =~= lines@);
    out
}

// ---- Per-file statistics ----
/// What a session log adds up to.
pub struct FileStats {
    pub total: Usage,
    pub by_model: UsageMap,
    pub by_period: Tally<Period>,
    pub by_period_model: Tally<PeriodModel>,
    pub rate_limits: Option<RateLimits>,
    pub latest_rate_ts: Option<Instant>,
    pub events_seen: usize,
}

/// What a `FileStats` holds, as the contracts speak of it.
pub struct FileStatsView {
    pub total: Usage,
    pub by_model: Map<Seq<char>, Usage>,
    pub by_period: Map<Period, Usage>,
    pub by_period_model: Map<(Period, Seq<char>), Usage>,
    pub rate_limits: Option<RateLimitsView>,
    pub latest_rate_ts: Option<Instant>,
    pub events_seen: nat,
}

impl View for FileStats {
    type V = FileStatsView;

    open spec fn view(&self) -> FileStatsView {
        FileStatsView {
            total: self.total,
            by_model: self.by_model@,
            by_period: self.by_period@,
            by_period_model: self.by_period_model@,
            rate_limits: rate_view(self.rate_limits),
            latest_rate_ts: self.latest_rate_ts,
            events_seen: self.events_seen as nat,
        }
    }
}

/// The statistics of no events.
pub open spec fn empty_file_stats() -> FileStatsView {
    FileStatsView {
        total: zero_usage(),
        by_model: Map::empty(),
        by_period: Map::empty(),
        by_period_model: Map::empty(),
        rate_limits: None,
        latest_rate_ts: None,
        events_seen: 0,
    }
}

/// Whether an event's rate limits replace those kept so far: it has some, and
/// it is later than the event they came from.
pub open spec fn takes_rate(s: FileStatsView, e: EventView, st: LocalStamp) -> bool {
    e.rate_limits is Some && (s.latest_rate_ts is None || later(
        st.instant,
        s.latest_rate_ts.unwrap(),
    ))
}

/// The statistics after one more event, stamped `st`.
pub open spec fn after_event(s: FileStatsView, e: EventView, st: LocalStamp) -> FileStatsView {
    let take = takes_rate(s, e, st);
    FileStatsView {
        total: add_usage(s.total, e.usage),
        by_model: credited(s.by_model, e.model, e.usage),
        by_period: credited(credited(s.by_period, day_of(st), e.usage), month_of(st), e.usage),
        by_period_model: credited(
            credited(s.by_period_model, (day_of(st), e.model), e.usage),
            (month_of(st), e.model),
            e.usage,
        ),
        rate_limits: if take {
            e.rate_limits
        } else {
            s.rate_limits
        },
        latest_rate_ts: if take {
            Some(st.instant)
        } else {
            s.latest_rate_ts
        },
        events_seen: s.events_seen + 1,
    }
}

/// The statistics of a run of events, the `i`-th stamped `stamps[i]`.
pub open spec fn file_stats_of(events: Seq<EventView>, stamps: Seq<LocalStamp>) -> FileStatsView
    decreases events.len(),
{
    if events.len() == 0 {
        empty_file_stats()
    } else {
        after_event(
            file_stats_of(events.drop_last(), stamps),
            events.last(),
            stamps[events.len() - 1],
        )
    }
}

impl FileStats {
    /// Statistics of no events.
    pub fn new() -> (res: FileStats)
        ensures
            res@ == empty_file_stats(),
    {
        FileStats {
            total: Usage::default(),
            by_model: Tally::new(),
            by_period: Tally::new(),
            by_period_model: Tally::new(),
            rate_limits: None,
            latest_rate_ts: None,
            events_seen: 0,
        }
    }

    /// Counts one event, stamped `st`.
    pub fn record(&mut self, e: &TokenEvent, st: &LocalStamp)
        requires
            old(self).events_seen < usize::MAX,
        ensures
            final(self)@ == after_event(old(self)@, e@, *st),
    {
        let ghost before = self@;
        let take = match &e.rate_limits {
            Some(_) => match &self.latest_rate_ts {
                None => true,
                Some(latest) => is_later(&st.instant, latest),
            },
            None => false,
        };
        self.total.merge(&e.usage);
        self.by_model.credit(&e.model, &e.usage);
        let day = day_period(st);
        let month = month_period(st);
        self.by_period.credit(&day, &e.usage);
        self.by_period.credit(&month, &e.usage);
        self.by_period_model.credit(&PeriodModel { period: day, model: e.model.clone() }, &e.usage);
        self.by_period_model.credit(
            &PeriodModel { period: month, model: e.model.clone() },
            &e.usage,
        );
        if take {
            self.latest_rate_ts = Some(st.instant);
            self.rate_limits = match &e.rate_limits {
                Some(r) => Some(r.clone()),
                None => None,
            };
        }
        self.events_seen = self.events_seen + 1;
        assert(self@ == after_event(before, e@, *st));
    }
}

/// Adds up a run of events, the `i`-th stamped `stamps[i]`.
pub fn accumulate_file_stats(events: &Vec<TokenEvent>, stamps: &Vec<LocalStamp>) -> (res: FileStats)
    requires
        events@.len() == stamps@.len(),
    ensures
        res@ == file_stats_of(event_views(events@), stamps@),
{
    let mut stats = FileStats::new();
    let n = events.len();
    let mut i: usize = 0;
    while i < n
        invariant
            n == events@.len(),
            n == stamps@.len(),
            i <= n,
            stats.events_seen == i,
            stats@ == file_stats_of(event_views(events@.take(i as int)), stamps@),
        decreases n - i,
    {
        stats.record(&events[i], &stamps[i]);
        assert(event_views(events@.take(i + 1)).drop_last() =~= event_views(events@.take(i as int)));
        i += 1;
    }
    assert(events@.take(n as int) =~= events@);
    stats
}

/// Whether an event carries a timestamp that reads as an RFC 3339 instant.
pub open spec fn has_instant(e: EventView) -> bool {
    e.timestamp matches Some(t) && rfc3339_instant(t) is Some
}

/// The stamps fit the events: one each, each on the local day of its instant
/// at an offset under a day, and with the instant of the event's timestamp
/// wherever it is an RFC 3339 one.
pub open spec fn stamps_fit(events: Seq<EventView>, stamps: Seq<LocalStamp>) -> bool {
    &&& stamps.len() == events.len()
    &&& forall|i: int| 0 <= i < stamps.len() ==> valid_local(#[trigger] stamps[i])
    &&& forall|i: int|
        0 <= i < stamps.len() ==> (#[trigger] events[i].timestamp matches Some(t) ==> (
        rfc3339_instant(t) is Some ==> rfc3339_instant(t) == Some(
            (stamps[i].instant.secs, stamps[i].instant.nanos),
        )))
}

/// The statistics of a session log, given its lines that parse as JSON. Each
/// event is placed on the local day of its timestamp, or of the present
/// moment where it has none that parses; the local time zone decides the
/// offset. `None` only where such an event needed the present moment and the
/// system clock could not be read.
pub fn parse_file_stats(lines: &Vec<JsonValue>) -> (res: Option<FileStats>)
    ensures
        res matches Some(f) ==> exists|stamps: Seq<LocalStamp>|
            stamps_fit(events_of(lines@), stamps) && f@ == file_stats_of(events_of(lines@), stamps),
        res is None ==> exists|i: int|
            0 <= i < events_of(lines@).len() && !has_instant(#[trigger] events_of(lines@)[i]),
{
    let events = session_events(lines);
    let mut stamps: Vec<LocalStamp> = Vec::new();
    let n = events.len();
    let mut i: usize = 0;
    while i < n
        invariant
            n == events@.len(),
            events_of(lines@) == event_views(events@),
            i <= n,
            stamps@.len() == i,
            forall|j: int| 0 <= j < i ==> valid_local(#[trigger] stamps@[j]),
            forall|j: int|
                0 <= j < i ==> (#[trigger] events@[j].timestamp matches Some(t) ==> (
                rfc3339_instant(t@) is Some ==> rfc3339_instant(t@) == Some(
                    (stamps@[j].instant.secs, stamps@[j].instant.nanos),
                ))),
        decreases n - i,
    {
        match parse_timestamp_or_now(events[i].timestamp.as_ref()) {
            Some(st) => {
                stamps.push(st);
            },
            None => {
                proof {
                    assert(events_of(lines@)[i as int] == events@[i as int]@);
                    assert(!has_instant(events_of(lines@)[i as int]));
                }
                return None;
            },
        }
        i += 1;
    }
    let res = accumulate_file_stats(&events, &stamps);
    assert(stamps_fit(events_of(lines@), stamps@)) by {
        assert forall|j: int| 0 <= j < stamps@.len() implies (#[trigger] events_of(lines@)[j].timestamp matches Some(t) ==> (
            rfc3339_instant(t) is Some ==> rfc3339_instant(t) == Some(
                (stamps@[j].instant.secs, stamps@[j].instant.nanos),
            ))) by {
            assert(events_of(lines@)[j] == events@[j]@);
        }
    }
    Some(res)
}

/// Every event is counted once.
pub proof fn lemma_events_counted(events: Seq<EventView>, stamps: Seq<LocalStamp>)
    ensures
        file_stats_of(events, stamps).events_seen == events.len(),
    decreases events.len(),
{
    if events.len() > 0 {
        lemma_events_counted(events.drop_last(), stamps);
    }
}

/// The rate limits kept are the latest reported: there are some exactly when
/// an event reported some, they come from such an event, and no event that
/// reported rate limits is later.
pub proof fn lemma_latest_rate_limits(events: Seq<EventView>, stamps: Seq<LocalStamp>)
    requires
        stamps.len() >= events.len(),
    ensures
        ({
            let f = file_stats_of(events, stamps);
            &&& f.latest_rate_ts is Some <==> exists|i: int|
                0 <= i < events.len() && (#[trigger] events[i]).rate_limits is Some
            &&& f.latest_rate_ts is Some <==> f.rate_limits is Some
            &&& f.latest_rate_ts matches Some(t) ==> exists|i: int|
                0 <= i < events.len() && (#[trigger] events[i]).rate_limits == f.rate_limits
                    && stamps[i].instant == t
            &&& f.latest_rate_ts matches Some(t) ==> forall|i: int|
                0 <= i < events.len() && (#[trigger] events[i]).rate_limits is Some ==> !later(
                    stamps[i].instant,
                    t,
                )
        }),
    decreases events.len(),
{
    if events.len() > 0 {
        let p = events.drop_last();
        lemma_latest_rate_limits(p, stamps);
        let n = events.len() - 1;
        let prev = file_stats_of(p, stamps);
        let f = file_stats_of(events, stamps);
        assert forall|i: int| 0 <= i < n implies #[trigger] events[i] == p[i] by {}
        if events[n].rate_limits is Some {
            assert(events[n].rate_limits is Some);
        }
        if prev.latest_rate_ts is Some {
            let i = choose|i: int| 0 <= i < p.len() && (#[trigger] p[i]).rate_limits is Some;
            assert(events[i] == p[i]);
        }
        if takes_rate(prev, events[n], stamps[n]) {
            assert forall|i: int| 0 <= i < events.len() && (#[trigger] events[i]).rate_limits is Some
                implies !later(stamps[i].instant, stamps[n].instant) by {
                if i < n {
                    assert(p[i] == events[i]);
                }
            }
        } else {
            if f.latest_rate_ts is Some {
                let t = f.latest_rate_ts.unwrap();
                let j = choose|j: int| 0 <= j < p.len() && (#[trigger] p[j]).rate_limits == prev.rate_limits
                    && stamps[j].instant == t;
                assert(events[j] == p[j]);
                assert forall|i: int| 0 <= i < events.len() && (#[trigger] events[i]).rate_limits is Some
                    implies !later(stamps[i].instant, t) by {
                    if i < n {
                        assert(p[i] == events[i]);
                    }
                }
            }
        }
    }
}

/// The summed usage of the events charged to model `m`.
pub open spec fn model_usage(events: Seq<EventView>, m: Seq<char>) -> Usage
    decreases events.len(),
{
    if events.len() == 0 {
        zero_usage()
    } else if events.last().model == m {
        add_usage(model_usage(events.drop_last(), m), events.last().usage)
    } else {
        model_usage(events.drop_last(), m)
    }
}

/// The summed usage of all events.
pub open spec fn all_usage(events: Seq<EventView>) -> Usage
    decreases events.len(),
{
    if events.len() == 0 {
        zero_usage()
    } else {
        add_usage(all_usage(events.drop_last()), events.last().usage)
    }
}

/// The usage by model holds exactly the models that events were charged to,
/// each with the sum of its events' usage; the total is the sum of all
/// events' usage.
pub proof fn lemma_usage_by_model(events: Seq<EventView>, stamps: Seq<LocalStamp>)
    ensures
        file_stats_of(events, stamps).total == all_usage(events),
        forall|m: Seq<char>|
            #![trigger file_stats_of(events, stamps).by_model.contains_key(m)]
            file_stats_of(events, stamps).by_model.contains_key(m) <==> exists|i: int|
                0 <= i < events.len() && (#[trigger] events[i]).model == m,
        forall|m: Seq<char>|
            #[trigger] file_stats_of(events, stamps).by_model.contains_key(m) ==> file_stats_of(
                events,
                stamps,
            ).by_model[m] == model_usage(events, m),
    decreases events.len(),
{
    if events.len() > 0 {
        let p = events.drop_last();
        lemma_usage_by_model(p, stamps);
        let e = events.last();
        let prev = file_stats_of(p, stamps).by_model;
        let cur = file_stats_of(events, stamps).by_model;
        assert forall|m: Seq<char>| #[trigger] cur.contains_key(m) <==> exists|i: int|
            0 <= i < events.len() && (#[trigger] events[i]).model == m by {
            if cur.contains_key(m) && m != e.model {
                let i = choose|i: int| 0 <= i < p.len() && (#[trigger] p[i]).model == m;
                assert(events[i] == p[i]);
            }
            if exists|i: int| 0 <= i < events.len() && (#[trigger] events[i]).model == m {
                let i = choose|i: int| 0 <= i < events.len() && (#[trigger] events[i]).model == m;
                if i < p.len() {
                    assert(p[i] == events[i]);
                }
            }
        }
        assert forall|m: Seq<char>| #[trigger] cur.contains_key(m) implies cur[m] == model_usage(
            events,
            m,
        ) by {
            if m == e.model {
                if !prev.contains_key(m) {
                    assert(model_usage(p, m) == zero_usage()) by {
                        lemma_model_usage_absent(p, m);
                    }
                }
            }
        }
    }
}

proof fn lemma_model_usage_absent(events: Seq<EventView>, m: Seq<char>)
    requires
        forall|i: int| 0 <= i < events.len() ==> (#[trigger] events[i]).model != m,
    ensures
        model_usage(events, m) == zero_usage(),
    decreases events.len(),
{
    if events.len() > 0 {
        let p = events.drop_last();
        assert forall|i: int| 0 <= i < p.len() implies (#[trigger] p[i]).model != m by {
            assert(p[i] == events[i]);
        }
        lemma_model_usage_absent(p, m);
    }
}


/// Picks out the days among periods.
pub open spec fn is_day() -> spec_fn(Period) -> bool {
    |p: Period| p is Day
}

/// Picks out the months among periods.
pub open spec fn is_month() -> spec_fn(Period) -> bool {
    |p: Period| p is Month
}

/// Picks out the per-model keys of one period.
pub open spec fn in_period(p: Period) -> spec_fn((Period, Seq<char>)) -> bool {
    |k: (Period, Seq<char>)| k.0 == p
}

/// Picks out every key.
pub open spec fn any_key<K>() -> spec_fn(K) -> bool {
    |k: K| true
}

/// The tallies of a run of events add up: the usage by model, the daily
/// usage and the monthly usage each sum to the total, and in every day and
/// every month the usage by model sums to that period's usage (each
/// model-in-period entry belonging to a period that is tallied).
pub proof fn lemma_tallies_add_up(events: Seq<EventView>, stamps: Seq<LocalStamp>)
    requires
        stamps.len() >= events.len(),
    ensures
        ({
            let f = file_stats_of(events, stamps);
            &&& f.by_model.dom().finite()
            &&& f.by_period.dom().finite()
            &&& f.by_period_model.dom().finite()
            &&& usage_sum(f.by_model, f.by_model.dom()) == f.total
            &&& usage_sum(f.by_period, f.by_period.dom().filter(is_day())) == f.total
            &&& usage_sum(f.by_period, f.by_period.dom().filter(is_month())) == f.total
            &&& forall|p: Period| #[trigger]
                f.by_period.contains_key(p) ==> usage_sum(
                    f.by_period_model,
                    f.by_period_model.dom().filter(in_period(p)),
                ) == f.by_period[p]
            &&& forall|k: (Period, Seq<char>)| #[trigger]
                f.by_period_model.contains_key(k) ==> f.by_period.contains_key(k.0)
        }),
    decreases events.len(),
{
    let f = file_stats_of(events, stamps);
    if events.len() == 0 {
        lemma_usage_sum_empty(f.by_model);
        lemma_usage_sum_empty(f.by_period);
        assert(f.by_model.dom() =~= Set::empty());
        assert(f.by_period.dom().filter(is_day()) =~= Set::empty());
        assert(f.by_period.dom().filter(is_month()) =~= Set::empty());
    } else {
        let p0 = events.drop_last();
        lemma_tallies_add_up(p0, stamps);
        let prev = file_stats_of(p0, stamps);
        let e = events.last();
        let st = stamps[events.len() - 1];
        let day = day_of(st);
        let month = month_of(st);
        let u = e.usage;
        // by model
        lemma_usage_sum_credited(prev.by_model, any_key(), e.model, u);
        assert(prev.by_model.dom().filter(any_key()) =~= prev.by_model.dom());
        assert(f.by_model.dom().filter(any_key()) =~= f.by_model.dom());
        // days and months
        let bp1 = credited(prev.by_period, day, u);
        lemma_usage_sum_credited(prev.by_period, is_day(), day, u);
        lemma_usage_sum_credited(bp1, is_day(), month, u);
        lemma_usage_sum_credited(prev.by_period, is_month(), day, u);
        lemma_usage_sum_credited(bp1, is_month(), month, u);
        // models within each period
        let bpm = prev.by_period_model;
        let bpm1 = credited(bpm, (day, e.model), u);
        lemma_usage_sum_credited(bpm, in_period(day), (day, e.model), u);
        assert forall|p: Period| #[trigger] f.by_period.contains_key(p) implies usage_sum(
            f.by_period_model,
            f.by_period_model.dom().filter(in_period(p)),
        ) == f.by_period[p] by {
            lemma_usage_sum_credited(bpm, in_period(p), (day, e.model), u);
            lemma_usage_sum_credited(bpm1, in_period(p), (month, e.model), u);
            if !prev.by_period.contains_key(p) {
                assert(bpm.dom().filter(in_period(p)) =~= Set::empty());
                lemma_usage_sum_empty(bpm);
            }
        }
    }
}


// ---- The text of a session log ----

/// Whether a character is white space, as `char::is_whitespace` decides it:
/// the characters with Unicode's `White_Space` property.
pub open spec fn is_white(c: char) -> bool {
    ||| '\t' <= c <= '\r'
    ||| c == ' '
    ||| c == '\u{85}'
    ||| c == '\u{a0}'
    ||| c == '\u{1680}'
    ||| '\u{2000}' <= c <= '\u{200a}'
    ||| c == '\u{2028}'
    ||| c == '\u{2029}'
    ||| c == '\u{202f}'
    ||| c == '\u{205f}'
    ||| c == '\u{3000}'
}

/// Whether a line is empty once white space is trimmed from it.
pub open spec fn is_blank(line: Seq<char>) -> bool {
    forall|i: int| 0 <= i < line.len() ==> is_white(#[trigger] line[i])
}

/// A line without the carriage return that ends it, if one does.
pub open spec fn strip_cr(line: Seq<char>) -> Seq<char> {
    if line.len() > 0 && line.last() == '\r' {
        line.drop_last()
    } else {
        line
    }
}

/// The lines ended so far in a text, and the line begun after the last
/// newline.
pub open spec fn split_state(s: Seq<char>) -> (Seq<Seq<char>>, Seq<char>)
    decreases s.len(),
{
    if s.len() == 0 {
        (Seq::empty(), Seq::empty())
    } else {
        let (done, cur) = split_state(s.drop_last());
        if s.last() == '\n' {
            (done.push(strip_cr(cur)), Seq::empty())
        } else {
            (done, cur.push(s.last()))
        }
    }
}

/// The lines of a text as `str::lines` gives them: split at each newline,
/// a carriage return before it dropped, and no empty line after a final
/// newline.
pub open spec fn text_lines(s: Seq<char>) -> Seq<Seq<char>> {
    let (done, cur) = split_state(s);
    if cur.len() == 0 {
        done
    } else {
        done.push(cur)
    }
}

/// The document of one line: none for a blank line or one that does not
/// parse as JSON.
pub open spec fn line_document(line: Seq<char>) -> Option<JsonValue> {
    if is_blank(line) {
        None
    } else {
        json_of(line)
    }
}

/// The documents of the lines that are not blank and parse as JSON, in order.
pub open spec fn documents_of(lines: Seq<Seq<char>>) -> Seq<JsonValue>
    decreases lines.len(),
{
    if lines.len() == 0 {
        Seq::empty()
    } else {
        match line_document(lines.last()) {
            Some(d) => documents_of(lines.drop_last()).push(d),
            None => documents_of(lines.drop_last()),
        }
    }
}

/// The documents of a session log's text.
pub open spec fn log_documents(text: Seq<char>) -> Seq<JsonValue> {
    documents_of(text_lines(text))
}

fn white(c: char) -> (res: bool)
    ensures
        res == is_white(c),
{
    ('\t' <= c && c <= '\r') || c == ' ' || c == '\u{85}' || c == '\u{a0}' || c == '\u{1680}' || (
    '\u{2000}' <= c && c <= '\u{200a}') || c == '\u{2028}' || c == '\u{2029}' || c == '\u{202f}'
        || c == '\u{205f}' || c == '\u{3000}'
}

/// The document of the first `end` characters of a line.
fn document_of_line(line: &Vec<char>, end: usize) -> (res: Option<JsonValue>)
    requires
        end <= line@.len(),
    ensures
        res == line_document(line@.take(end as int)),
{
    let ghost l = line@.take(end as int);
    let mut text = String::new();
    let mut blank = true;
    let mut i: usize = 0;
    while i < end
        invariant
            end <= line@.len(),
            l == line@.take(end as int),
            i <= end,
            text@ == line@.take(i as int),
            blank == (forall|j: int| 0 <= j < i ==> is_white(#[trigger] line@[j])),
        decreases end - i,
    {
        let c = line[i];
        if !white(c) {
            blank = false;
        }
        push_char(&mut text, c);
        proof {
            assert(text@ =~= line@.take(i + 1));
        }
        i += 1;
    }
    assert(text@ =~= l);
    if blank {
        assert(is_blank(l)) by {
            assert forall|j: int| 0 <= j < l.len() implies is_white(#[trigger] l[j]) by {
                assert(l[j] == line@[j]);
            }
        }
        None
    } else {
        assert(!is_blank(l)) by {
            let j = choose|j: int| 0 <= j < end && !is_white(#[trigger] line@[j]);
            assert(l[j] == line@[j]);
        }
        parse_json(text.as_str())
    }
}

/// The documents of a session log's text: its lines as `str::lines` gives
/// them, without the blank ones and those that do not parse as JSON.
pub fn log_documents_of(text: &str) -> (res: Vec<JsonValue>)
    ensures
        res@ == log_documents(text@),
{
    let chars = chars_of(text);
    let mut docs: Vec<JsonValue> = Vec::new();
    let mut cur: Vec<char> = Vec::new();
    let ghost mut done: Seq<Seq<char>> = Seq::empty();
    let n = chars.len();
    let mut i: usize = 0;
    while i < n
        invariant
            n == chars@.len(),
            chars@ == text@,
            i <= n,
            split_state(chars@.take(i as int)) == (done, cur@),
            docs@ == documents_of(done),
        decreases n - i,
    {
        let c = chars[i];
        proof {
            assert(chars@.take(i + 1).drop_last() =~= chars@.take(i as int));
        }
        if c == '\n' {
            let len = cur.len();
            let end = if len > 0 && cur[len - 1] == '\r' {
                len - 1
            } else {
                len
            };
            let ghost line = strip_cr(cur@);
            assert(cur@.take(end as int) =~= line);
            match document_of_line(&cur, end) {
                Some(d) => {
                    docs.push(d);
                },
                None => {},
            }
            proof {
                assert(done.push(line).drop_last() =~= done);
                done = done.push(line);
            }
            cur = Vec::new();
        } else {
            cur.push(c);
        }
        i += 1;
    }
    assert(chars@.take(n as int) =~= chars@);
    if cur.len() > 0 {
        let end = cur.len();
        assert(cur@.take(end as int) =~= cur@);
        match document_of_line(&cur, end) {
            Some(d) => {
                docs.push(d);
            },
            None => {},
        }
        proof {
            assert(done.push(cur@).drop_last() =~= done);
        }
    }
    docs
}

/// The statistics of a session log's text: those of its lines that are not
/// blank and parse as JSON (see `parse_file_stats`); the other lines add
/// nothing.
pub fn parse_session_log(text: &str) -> (res: Option<FileStats>)
    ensures
        res matches Some(f) ==> exists|stamps: Seq<LocalStamp>|
            stamps_fit(events_of(log_documents(text@)), stamps) && f@ == file_stats_of(
                events_of(log_documents(text@)),
                stamps,
            ),
        res is None ==> exists|i: int|
            0 <= i < events_of(log_documents(text@)).len() && !has_instant(
                #[trigger] events_of(log_documents(text@))[i],
            ),
{
    let docs = log_documents_of(text);
    parse_file_stats(&docs)
}


/// The count a member gives: the integer where the member is one that fits
/// in `i64`, zero where it is missing or anything else.
pub open spec fn member_count(member: Option<JsonValue>) -> i64 {
    match member {
        Some(JsonValue::Number(JsonNumber::PosInt(n))) => if n <= i64::MAX {
            n as i64
        } else {
            0
        },
        Some(JsonValue::Number(JsonNumber::NegInt(n))) => n,
        _ => 0,
    }
}

/// Each count of a usage object is read from the member of the same name:
/// input tokens from `input_tokens`, cached input from `cached_input_tokens`,
/// output from `output_tokens`, reasoning from `reasoning_output_tokens` and
/// the total from `total_tokens`; so two objects that agree on a member agree
/// on its count, whatever their other members hold.
pub proof fn lemma_usage_counts_by_member(v: JsonValue, w: JsonValue)
    ensures
        usage_of(v).input_tokens == member_count(json_get(v, "input_tokens"@)),
        usage_of(v).cached_input_tokens == member_count(json_get(v, "cached_input_tokens"@)),
        usage_of(v).output_tokens == member_count(json_get(v, "output_tokens"@)),
        usage_of(v).reasoning_output_tokens == member_count(
            json_get(v, "reasoning_output_tokens"@),
        ),
        usage_of(v).total_tokens == member_count(json_get(v, "total_tokens"@)),
        json_get(v, "output_tokens"@) == json_get(w, "output_tokens"@) ==> usage_of(v).output_tokens
            == usage_of(w).output_tokens,
        json_get(v, "input_tokens"@) == json_get(w, "input_tokens"@) ==> usage_of(v).input_tokens
            == usage_of(w).input_tokens,
        json_get(v, "cached_input_tokens"@) == json_get(w, "cached_input_tokens"@)
            ==> usage_of(v).cached_input_tokens == usage_of(w).cached_input_tokens,
        json_get(v, "reasoning_output_tokens"@) == json_get(w, "reasoning_output_tokens"@)
            ==> usage_of(v).reasoning_output_tokens == usage_of(w).reasoning_output_tokens,
        json_get(v, "total_tokens"@) == json_get(w, "total_tokens"@) ==> usage_of(v).total_tokens
            == usage_of(w).total_tokens,
{
}

} // verus!
