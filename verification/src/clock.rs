use vstd::prelude::*;

use crate::calendar::{
    civil_date, civil_from_days, days_in_month, first_day_exists, format_month_day,
    format_month_day_year, month_day_text, month_day_year_text, month_exists, month_length,
};
use crate::text::{decimal, push_char, push_decimal};

verus! {

/// A point in time: seconds since the Unix epoch and nanoseconds past that
/// second.
#[derive(Clone, Copy, Debug, PartialEq, Eq, Structural)]
pub struct Instant {
    pub secs: i64,
    pub nanos: u32,
}

/// Whether `a` comes after `b`.
pub open spec fn later(a: Instant, b: Instant) -> bool {
    a.secs > b.secs || (a.secs == b.secs && a.nanos > b.nanos)
}

/// Whether the instant `a` comes after the instant `b`.
pub fn is_later(a: &Instant, b: &Instant) -> (res: bool)
    ensures
        res == later(*a, *b),
{
    a.secs > b.secs || (a.secs == b.secs && a.nanos > b.nanos)
}

/// The first second since the Unix epoch that chrono gives a date
/// (`-262143-01-01T00:00:00Z`).
pub const MIN_TIMESTAMP: i64 = -8334601228800;

/// The last second since the Unix epoch that chrono gives a date
/// (`+262142-12-31T23:59:59Z`).
pub const MAX_TIMESTAMP: i64 = 8210266876799;

/// Whether chrono has a date for a count of seconds since the Unix epoch, as
/// `DateTime::from_timestamp` and `TimeZone::timestamp_opt` decide it.
pub open spec fn timestamp_in_range(secs: int) -> bool {
    MIN_TIMESTAMP <= secs <= MAX_TIMESTAMP
}

fn has_date(secs: i64) -> (res: bool)
    ensures
        res == timestamp_in_range(secs as int),
{
    MIN_TIMESTAMP <= secs && secs <= MAX_TIMESTAMP
}

/// A point in time with the offset of the local time zone at that moment and
/// the local calendar day it falls on.
#[derive(Clone, Copy, Debug, PartialEq, Eq, Structural)]
pub struct LocalStamp {
    pub instant: Instant,
    pub offset: i32,
    pub year: i32,
    pub month: u32,
    pub day: u32,
}

/// The day, counted from 1970-01-01, that the local clock shows at `secs`
/// seconds since the epoch when it runs `offset` seconds ahead of UTC.
pub open spec fn local_day(secs: int, offset: int) -> int {
    (secs + offset) / 86400
}

/// A stamp is well formed: an instant chrono has a date for, an offset under
/// a day (as chrono's `FixedOffset` holds), and the calendar day that the
/// instant falls on at that offset.
pub open spec fn valid_local(s: LocalStamp) -> bool {
    &&& timestamp_in_range(s.instant.secs as int)
    &&& -86400 < s.offset < 86400
    &&& civil_date(local_day(s.instant.secs as int, s.offset as int)) == (
        s.year as int,
        s.month as int,
        s.day as int,
    )
}

/// The instant that `DateTime::parse_from_rfc3339` reads from a text, if it
/// accepts it.
pub uninterp spec fn rfc3339_instant(text: Seq<char>) -> Option<(i64, u32)>;

/// `std::time::SystemTime::now().duration_since(UNIX_EPOCH)`, as whole
/// seconds and nanoseconds past them. Claims only that the nanoseconds are
/// under one second, as `Duration::subsec_nanos` documents; `None` is the
/// error std returns for a clock set before 1970. The reading itself is the
/// machine's.
#[verifier::external_body]
fn system_clock() -> (res: Option<(u64, u32)>)
    ensures
        res matches Some((_, n)) ==> n < 1_000_000_000,
{
    match std::time::SystemTime::now().duration_since(std::time::UNIX_EPOCH) {
        Ok(d) => Some((d.as_secs(), d.subsec_nanos())),
        Err(_) => None,
    }
}

/// `chrono::DateTime::parse_from_rfc3339`, then `with_timezone(&Local)`: the
/// instant and the offset of the local time zone at it, in seconds east of
/// UTC. Claims: it accepts exactly the texts that have an RFC 3339 instant;
/// the instant is that of the text and one that chrono has a date for (a
/// `DateTime` holds one); the offset is under a day, as `FixedOffset`
/// requires. Which offset it is depends on the machine's time zone and is not
/// stated.
#[verifier::external_body]
fn parse_local_timestamp(raw: &str) -> (res: Option<(Instant, i32)>)
    ensures
        match res {
            Some((i, off)) => rfc3339_instant(raw@) == Some((i.secs, i.nanos))
                && timestamp_in_range(i.secs as int) && -86400 < off < 86400,
            None => rfc3339_instant(raw@) is None,
        },
{
    match chrono::DateTime::parse_from_rfc3339(raw) {
        Ok(dt) => {
            let local = dt.with_timezone(&chrono::Local);
            Some((
                Instant { secs: local.timestamp(), nanos: local.timestamp_subsec_nanos() },
                local.offset().local_minus_utc(),
            ))
        },
        Err(_) => None,
    }
}

/// `chrono::Local.timestamp_opt(secs, 0).single()`, then the offset of that
/// local time in seconds east of UTC. Claims: there is a result exactly for
/// the seconds that chrono has a date for (the default `timestamp_opt` gives
/// one local time for each of them), and the offset is under a day. Which
/// offset depends on the machine's time zone and is not stated.
#[verifier::external_body]
fn local_offset_at(secs: i64) -> (res: Option<i32>)
    ensures
        res is Some == timestamp_in_range(secs as int),
        res matches Some(off) ==> -86400 < off < 86400,
{
    match chrono::TimeZone::timestamp_opt(&chrono::Local, secs, 0).single() {
        Some(dt) => Some(dt.offset().local_minus_utc()),
        None => None,
    }
}

/// The present moment by the system clock, or `None` where the clock reads
/// before 1970.
pub fn now_instant() -> (res: Option<Instant>)
    ensures
        res matches Some(i) ==> i.secs >= 0 && i.nanos < 1_000_000_000,
{
    match system_clock() {
        Some((secs, nanos)) => {
            if secs <= 9_223_372_036_854_775_807u64 {
                Some(Instant { secs: secs as i64, nanos })
            } else {
                None
            }
        },
        None => None,
    }
}

/// The day counted from 1970-01-01 that the local clock shows at an instant.
fn local_day_at(secs: i64, offset: i32) -> (res: i64)
    requires
        timestamp_in_range(secs as int),
        -86400 < offset < 86400,
    ensures
        res as int == local_day(secs as int, offset as int),
        -100_000_000 <= res <= 100_000_000,
{
    let shifted: u64 = (secs + offset as i64 + 8_640_000_000_000) as u64;
    let d: i64 = (shifted / 86400) as i64 - 100_000_000;
    proof {
        let t = secs + offset;
        assert((t + 8_640_000_000_000) / 86400 == t / 86400 + 100_000_000);
    }
    d
}

/// The local stamp of an instant at a given offset of the local clock.
pub fn local_stamp_at(instant: Instant, offset: i32) -> (res: LocalStamp)
    requires
        timestamp_in_range(instant.secs as int),
        -86400 < offset < 86400,
    ensures
        res.instant == instant,
        res.offset == offset,
        valid_local(res),
{
    let (year, month, day) = civil_from_days(local_day_at(instant.secs, offset));
    LocalStamp { instant, offset, year, month, day }
}

/// The local date and time right now, or `None` where the system clock reads
/// before 1970 or past the dates chrono has.
pub fn now_local() -> (res: Option<LocalStamp>)
    ensures
        res matches Some(s) ==> valid_local(s) && s.instant.nanos < 1_000_000_000,
{
    match now_instant() {
        Some(now) => match local_offset_at(now.secs) {
            Some(offset) => Some(local_stamp_at(now, offset)),
            None => None,
        },
        None => None,
    }
}

/// The local stamp of an RFC 3339 timestamp, or of the present moment where
/// the text is not one; `None` only where it falls back on a system clock
/// that cannot be read.
pub fn parse_timestamp_or_now(raw: Option<&String>) -> (res: Option<LocalStamp>)
    ensures
        res matches Some(s) ==> valid_local(s),
        raw matches Some(t) ==> (rfc3339_instant(t@) is Some ==> (res matches Some(s)
            && rfc3339_instant(t@) == Some((s.instant.secs, s.instant.nanos)))),
{
    match raw {
        Some(t) => match parse_local_timestamp(t.as_str()) {
            Some((instant, offset)) => Some(local_stamp_at(instant, offset)),
            None => now_local(),
        },
        None => now_local(),
    }
}

/// The whole seconds from `now` until the second `reset`, rounded toward zero
/// as chrono's `TimeDelta::num_seconds` does.
pub open spec fn whole_seconds_until(reset: int, now: Instant) -> int {
    let d = reset - now.secs;
    if now.nanos > 0 && d > 0 {
        d - 1
    } else {
        d
    }
}

/// A countdown as shown in the menu: `now`, or the two largest of days, hours
/// and minutes.
pub open spec fn countdown_text(seconds: int) -> Seq<char> {
    if seconds <= 0 {
        seq!['n', 'o', 'w']
    } else {
        let days = seconds / 86400;
        let hours = (seconds % 86400) / 3600;
        let minutes = (seconds % 3600) / 60;
        if days > 0 {
            decimal(days as nat) + seq!['d', ' '] + decimal(hours as nat) + seq!['h']
        } else if hours > 0 {
            decimal(hours as nat) + seq!['h', ' '] + decimal(minutes as nat) + seq!['m']
        } else {
            decimal(minutes as nat) + seq!['m']
        }
    }
}

/// The text shown for an unknown value.
pub open spec fn not_available() -> Seq<char> {
    seq!['n', '/', 'a']
}

fn push_lit3(s: &mut String, a: char, b: char, c: char)
    ensures
        final(s)@ == old(s)@ + seq![a, b, c],
{
    push_char(s, a);
    push_char(s, b);
    push_char(s, c);
    assert(s@ =~= old(s)@ + seq![a, b, c]);
}

/// The countdown from `now` to the second `reset`.
pub fn countdown_at(reset: i64, now: Instant) -> (res: String)
    ensures
        res@ == countdown_text(whole_seconds_until(reset as int, now)),
{
    let d: i128 = (reset as i128) - (now.secs as i128);
    let seconds: i128 = if now.nanos > 0 && d > 0 {
        d - 1
    } else {
        d
    };
    let mut out = String::new();
    if seconds <= 0 {
        push_lit3(&mut out, 'n', 'o', 'w');
    } else {
        let days: u64 = (seconds / 86400) as u64;
        let hours: u64 = ((seconds % 86400) / 3600) as u64;
        let minutes: u64 = ((seconds % 3600) / 60) as u64;
        if days > 0 {
            push_decimal(&mut out, days);
            push_char(&mut out, 'd');
            push_char(&mut out, ' ');
            push_decimal(&mut out, hours);
            push_char(&mut out, 'h');
        } else if hours > 0 {
            push_decimal(&mut out, hours);
            push_char(&mut out, 'h');
            push_char(&mut out, ' ');
            push_decimal(&mut out, minutes);
            push_char(&mut out, 'm');
        } else {
            push_decimal(&mut out, minutes);
            push_char(&mut out, 'm');
        }
    }
    assert(out@ =~= countdown_text(whole_seconds_until(reset as int, now)));
    out
}

/// The time left until a rate-limit window resets, at the moment `now`:
/// `n/a` when there is no reset time, it has no date, or the clock could not
/// be read; else the countdown.
pub open spec fn reset_text_of(resets_at: Option<i64>, now: Option<Instant>) -> Seq<char> {
    match resets_at {
        None => not_available(),
        Some(r) => if !timestamp_in_range(r as int) {
            not_available()
        } else {
            match now {
                None => not_available(),
                Some(n) => countdown_text(whole_seconds_until(r as int, n)),
            }
        },
    }
}

/// The time left until a rate-limit window resets, at a moment read from the
/// clock (`None` where it could not be read).
pub fn reset_text_at(resets_at: Option<i64>, now: Option<Instant>) -> (res: String)
    ensures
        res@ == reset_text_of(resets_at, now),
{
    let mut out = String::new();
    match resets_at {
        None => {
            push_lit3(&mut out, 'n', '/', 'a');
            out
        },
        Some(r) => {
            if !has_date(r) {
                push_lit3(&mut out, 'n', '/', 'a');
                out
            } else {
                match now {
                    None => {
                        push_lit3(&mut out, 'n', '/', 'a');
                        out
                    },
                    Some(n) => countdown_at(r, n),
                }
            }
        },
    }
}

/// The time left until a rate-limit window resets, by the system clock.
pub fn reset_text(resets_at: Option<i64>) -> (res: String)
    ensures
        exists|now: Option<Instant>|
            (now matches Some(n) ==> n.nanos < 1_000_000_000) && res@ == #[trigger] reset_text_of(
                resets_at,
                now,
            ),
{
    let now = now_instant();
    reset_text_at(resets_at, now)
}

/// Two decimal digits, as `%H` and `%M` write them.
pub open spec fn two_digits(n: nat) -> Seq<char> {
    seq![crate::text::digit_char((n / 10) as int), crate::text::digit_char((n % 10) as int)]
}

/// An hour and minute as `HH:MM`.
pub open spec fn clock_text(h: nat, m: nat) -> Seq<char> {
    two_digits(h) + seq![':'] + two_digits(m)
}

fn push_two_digits(s: &mut String, n: u32)
    requires
        n < 100,
    ensures
        final(s)@ == old(s)@ + two_digits(n as nat),
{
    push_decimal(s, (n / 10) as u64);
    push_decimal(s, (n % 10) as u64);
    assert(final(s)@ =~= old(s)@ + two_digits(n as nat));
}

/// An hour and minute written as `HH:MM`.
pub fn clock_at(hour: u32, minute: u32) -> (res: String)
    requires
        hour < 100,
        minute < 100,
    ensures
        res@ == clock_text(hour as nat, minute as nat),
{
    let mut out = String::new();
    push_two_digits(&mut out, hour);
    push_char(&mut out, ':');
    push_two_digits(&mut out, minute);
    assert(out@ =~= clock_text(hour as nat, minute as nat));
    out
}

/// The local time of day, as `HH:MM`, that the local clock shows `secs`
/// seconds after midnight of 1970-01-01.
pub open spec fn local_clock_text(secs: int) -> Seq<char> {
    let of_day = secs % 86400;
    clock_text((of_day / 3600) as nat, ((of_day % 3600) / 60) as nat)
}

/// The local time of day, as `HH:MM`, at `secs` seconds since the epoch on a
/// clock `offset` seconds ahead of UTC.
pub fn local_clock_at(secs: i64, offset: i32) -> (res: String)
    requires
        timestamp_in_range(secs as int),
        -86400 < offset < 86400,
    ensures
        res@ == local_clock_text(secs + offset),
{
    let shifted: u64 = (secs + offset as i64 + 8_640_000_000_000) as u64;
    let of_day: u64 = shifted % 86400;
    proof {
        let t = secs + offset;
        assert((t + 8_640_000_000_000) % 86400 == t % 86400);
    }
    let out = clock_at((of_day / 3600) as u32, ((of_day % 3600) / 60) as u32);
    proof {
        let t = secs + offset;
        assert(of_day == t % 86400);
        assert(((of_day % 3600) / 60) as nat == ((t % 86400 % 3600) / 60) as nat);
    }
    out
}

/// The local time of day at which a rate-limit window resets, as `HH:MM`;
/// `n/a` when there is no reset time or it has no date.
pub fn reset_clock_text(resets_at: Option<i64>) -> (res: String)
    ensures
        resets_at is None ==> res@ == not_available(),
        resets_at matches Some(r) && !timestamp_in_range(r as int) ==> res@ == not_available(),
        resets_at matches Some(r) ==> (timestamp_in_range(r as int) ==> exists|off: int|
            -86400 < off < 86400 && res@ == #[trigger] local_clock_text(r + off)),
{
    let mut out = String::new();
    match resets_at {
        None => {
            push_lit3(&mut out, 'n', '/', 'a');
        },
        Some(r) => match local_offset_at(r) {
            None => {
                push_lit3(&mut out, 'n', '/', 'a');
            },
            Some(off) => {
                out = local_clock_at(r, off);
            },
        },
    }
    out
}

/// The length of the primary rate-limit window: five hours.
pub const PRIMARY_WINDOW_SECONDS: i64 = 18000;

/// How much of the five-hour window has passed at `now`, in seconds, for a
/// window that resets at `reset`: none before it starts, all after it ends.
pub open spec fn window_elapsed(reset: int, now: int) -> int {
    let left = reset - now;
    let left = if left < 0 {
        0
    } else if left > 18000 {
        18000
    } else {
        left
    };
    18000 - left
}

/// The seconds of the five-hour window that have passed at `now`.
pub fn window_elapsed_at(reset: i64, now: i64) -> (res: i64)
    ensures
        res == window_elapsed(reset as int, now as int),
        0 <= res <= PRIMARY_WINDOW_SECONDS,
{
    let left: i128 = (reset as i128) - (now as i128);
    let clamped: i128 = if left < 0 {
        0
    } else if left > 18000 {
        18000
    } else {
        left
    };
    (18000 - clamped) as i64
}

/// The seconds of the five-hour window that have passed by now, for a window
/// with a known reset time; `None` also where the clock could not be read.
pub fn primary_elapsed(resets_at: Option<i64>) -> (res: Option<i64>)
    ensures
        resets_at is None ==> res is None,
        res matches Some(e) ==> (resets_at matches Some(r) && exists|now: Instant|
            now.nanos < 1_000_000_000 && e == window_elapsed(r as int, now.secs as int)),
        res matches Some(e) ==> 0 <= e <= PRIMARY_WINDOW_SECONDS,
{
    match resets_at {
        None => None,
        Some(r) => match now_instant() {
            Some(now) => Some(window_elapsed_at(r, now.secs)),
            None => None,
        },
    }
}

/// The title of the monthly cost: the span from the first to the last day of
/// the month, or `Current month` where chrono has no date for the first of
/// the month or of the next one.
pub open spec fn month_range_text(year: int, month: int) -> Seq<char> {
    let (ny, nm) = if month == 12 {
        (year + 1, 1int)
    } else {
        (year, month + 1)
    };
    if !first_day_exists(year, month) || !first_day_exists(ny, nm) {
        "Current month"@
    } else {
        month_day_text(month, 1) + seq![' ', '-', ' '] + month_day_year_text(
            year,
            month,
            days_in_month(year, month),
        )
    }
}

/// The span of a given month, as the monthly cost is titled.
pub fn month_range(year: i32, month: u32) -> (res: String)
    ensures
        res@ == month_range_text(year as int, month as int),
{
    if !month_exists(year, month) {
        return String::from_str("Current month");
    }
    let (next_year, next_month) = if month == 12 {
        (year + 1, 1u32)
    } else {
        (year, month + 1)
    };
    if !month_exists(next_year, next_month) {
        return String::from_str("Current month");
    }
    let last = month_length(year, month);
    let mut out = format_month_day(year, month, 1);
    push_char(&mut out, ' ');
    push_char(&mut out, '-');
    push_char(&mut out, ' ');
    let end = format_month_day_year(year, month, last);
    out.append(end.as_str());
    assert(out@ =~= month_range_text(year as int, month as int));
    out
}

/// The title of the monthly cost at the local moment `now`: `Current month`
/// where the clock could not be read.
pub open spec fn month_title_at(now: Option<LocalStamp>) -> Seq<char> {
    match now {
        Some(s) => month_range_text(s.year as int, s.month as int),
        None => "Current month"@,
    }
}

/// The span of the current local month; `Current month` where the clock
/// could not be read.
pub fn current_month_range_text() -> (res: String)
    ensures
        exists|now: Option<LocalStamp>|
            (now matches Some(s) ==> valid_local(s)) && res@ == #[trigger] month_title_at(now),
{
    match now_local() {
        Some(now) => {
            let res = month_range(now.year, now.month);
            assert(res@ == month_title_at(Some(now)));
            res
        },
        None => {
            let res = String::from_str("Current month");
            assert(res@ == month_title_at(None));
            res
        },
    }
}

} // verus!
