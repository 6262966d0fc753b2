//! Instants, time zones and wall-clock fields.
//!
//! An instant is a count of nanoseconds since 1970-01-01T00:00:00Z, bounded by the range
//! that `chrono::DateTime` can hold. A time zone is the index of a `chrono_tz::Tz` in
//! `chrono_tz::TZ_VARIANTS`. The offset that a zone has at an instant, the resolution of a
//! local wall-clock second to an instant, and RFC 3339 text come from `chrono` and
//! `chrono_tz`; everything computed from them (local day, time of day, weekday) is here.
use vstd::prelude::*;

verus! {

pub const NANOS_PER_SEC: i128 = 1_000_000_000;

pub const NANOS_PER_MIN: i128 = 60_000_000_000;

pub const NANOS_PER_HOUR: i128 = 3_600_000_000_000;

pub const NANOS_PER_DAY: i128 = 86_400_000_000_000;

/// First second that `chrono::DateTime` holds: -262143-01-01T00:00:00Z.
pub const MIN_SECS: i64 = -8_334_601_315_200;

/// Last second that `chrono::DateTime` holds: +262142-12-31T23:59:59Z.
pub const MAX_SECS: i64 = 8_210_266_876_799;

pub const MIN_NANOS: i128 = -8_334_601_315_200_000_000_000;

pub const MAX_NANOS: i128 = 8_210_266_876_799_999_999_999;

/// Largest day number (days since 1970-01-01) of a `chrono::NaiveDate`.
pub const MAX_DAY: i128 = 95_026_236;

/// Largest magnitude of a `chrono::TimeDelta`: `i64::MAX` milliseconds.
pub const MAX_DELTA_NANOS: i128 = 9_223_372_036_854_775_807_000_000;

/// Number of zones in `chrono_tz::TZ_VARIANTS`.
pub const ZONE_COUNT: u16 = 597;

/// Index of `chrono_tz::Tz::UTC`.
pub const ZONE_UTC: u16 = 592;

/// Index of `chrono_tz::Tz::Europe__Zurich`.
pub const ZONE_ZURICH: u16 = 490;

/// A day of the week.
#[derive(Clone, Copy, Debug, PartialEq, Eq, Structural)]
pub enum Weekday {
    Mon,
    Tue,
    Wed,
    Thu,
    Fri,
    Sat,
    Sun,
}

/// An instant seen in a time zone: `nanos` since the Unix epoch (UTC) and the zone's index.
#[derive(Clone, Copy, Debug, PartialEq, Eq, Structural)]
pub struct ZonedTime {
    pub nanos: i128,
    pub zone: u16,
}

pub open spec fn instant_in_range(n: int) -> bool {
    MIN_NANOS <= n <= MAX_NANOS
}

pub open spec fn delta_in_range(d: int) -> bool {
    -MAX_DELTA_NANOS <= d <= MAX_DELTA_NANOS
}

/// A time of day in nanoseconds after midnight, as a `chrono::NaiveTime` without leap second.
pub open spec fn time_of_day_valid(t: int) -> bool {
    0 <= t < NANOS_PER_DAY
}

impl ZonedTime {
    pub open spec fn wf(self) -> bool {
        self.zone < ZONE_COUNT && instant_in_range(self.nanos as int)
    }
}

/// Offset in seconds east of UTC that `chrono_tz` gives the zone with index `zone` at the
/// UTC second `utc_secs`.
pub uninterp spec fn zone_offset(zone: int, utc_secs: int) -> int;

/// The UTC second that `chrono_tz` maps the local wall-clock second `local_secs` (seconds
/// since 1970-01-01T00:00:00 local) of zone `zone` to, when that local time occurs exactly once.
pub uninterp spec fn zone_unique_local(zone: int, local_secs: int) -> Option<int>;

/// The text of `chrono::DateTime::to_rfc3339` for the instant `utc_nanos` in zone `zone`.
pub uninterp spec fn rfc3339_text(zone: int, utc_nanos: int) -> Seq<char>;

/// Offset of `chrono_tz::TZ_VARIANTS[zone]` at the UTC second `utc_secs`
/// (`TimeZone::offset_from_utc_datetime`, then `Offset::fix().local_minus_utc()`).
/// The contract names the result and states the bound that `chrono::FixedOffset` keeps.
#[verifier::external_body]
fn zone_offset_at(zone: u16, utc_secs: i64) -> (off: i32)
    requires
        zone < ZONE_COUNT,
        MIN_SECS <= utc_secs <= MAX_SECS,
    ensures
        off as int == zone_offset(zone as int, utc_secs as int),
        -86_400 < off < 86_400,
{
    let tz = chrono_tz::TZ_VARIANTS[zone as usize];
    let utc = chrono::DateTime::from_timestamp(utc_secs, 0).unwrap().naive_utc();
    chrono::Offset::fix(&chrono::TimeZone::offset_from_utc_datetime(&tz, &utc)).local_minus_utc()
}

/// `TimeZone::from_local_datetime` of `chrono_tz::TZ_VARIANTS[zone]` on the local second
/// `local_secs`: the UTC second when the result is `LocalResult::Single`, otherwise `None`
/// (a local time that does not exist or occurs twice, or a date out of `chrono`'s range).
/// Every `DateTime` lies in `chrono`'s range, which the contract states of the result.
#[verifier::external_body]
fn unique_utc_of_local(zone: u16, local_secs: i64) -> (r: Option<i64>)
    requires
        zone < ZONE_COUNT,
    ensures
        r is Some <==> zone_unique_local(zone as int, local_secs as int) is Some,
        r matches Some(u) ==> zone_unique_local(zone as int, local_secs as int) == Some(u as int)
            && MIN_SECS <= u <= MAX_SECS,
{
    match chrono::DateTime::from_timestamp(local_secs, 0) {
        Some(d) => match chrono::TimeZone::from_local_datetime(
            &chrono_tz::TZ_VARIANTS[zone as usize],
            &d.naive_utc(),
        ) {
            chrono::LocalResult::Single(x) => Some(x.timestamp()),
            _ => None,
        },
        None => None,
    }
}

/// `chrono::DateTime::to_rfc3339` of the instant (`secs`, `subsec`) in zone
/// `chrono_tz::TZ_VARIANTS[zone]`; the result is named, not described.
#[verifier::external_body]
fn rfc3339_at(zone: u16, secs: i64, subsec: u32) -> (s: String)
    requires
        zone < ZONE_COUNT,
        MIN_SECS <= secs <= MAX_SECS,
        subsec < NANOS_PER_SEC,
    ensures
        s@ == rfc3339_text(zone as int, secs * NANOS_PER_SEC + subsec),
{
    chrono::DateTime::from_timestamp(secs, subsec).unwrap().with_timezone(
        &chrono_tz::TZ_VARIANTS[zone as usize],
    ).to_rfc3339()
}

pub open spec fn utc_second(t: ZonedTime) -> int {
    t.nanos as int / NANOS_PER_SEC as int
}

pub open spec fn offset_of(t: ZonedTime) -> int {
    zone_offset(t.zone as int, utc_second(t))
}

/// Wall-clock nanoseconds since 1970-01-01T00:00:00 local.
pub open spec fn local_nanos(t: ZonedTime) -> int {
    t.nanos + offset_of(t) * NANOS_PER_SEC
}

pub open spec fn local_day(t: ZonedTime) -> int {
    local_nanos(t) / NANOS_PER_DAY as int
}

pub open spec fn time_of_day(t: ZonedTime) -> int {
    local_nanos(t) % NANOS_PER_DAY as int
}

pub open spec fn hour_of(tod: int) -> int {
    tod / NANOS_PER_HOUR as int
}

pub open spec fn minute_of(tod: int) -> int {
    (tod / NANOS_PER_MIN as int) % 60
}

/// Weekday of day number `day` (days since 1970-01-01, a Thursday).
pub open spec fn weekday_of_day(day: int) -> Weekday {
    let k = (day + 3) % 7;
    if k == 0 {
        Weekday::Mon
    } else if k == 1 {
        Weekday::Tue
    } else if k == 2 {
        Weekday::Wed
    } else if k == 3 {
        Weekday::Thu
    } else if k == 4 {
        Weekday::Fri
    } else if k == 5 {
        Weekday::Sat
    } else {
        Weekday::Sun
    }
}

/// `local_nanos` is where `DateTime::naive_local` does not panic.
pub open spec fn local_in_range(t: ZonedTime) -> bool {
    instant_in_range(local_nanos(t))
}

/// Adding a signed span to an instant the way `DateTime::checked_add_signed` does.
pub open spec fn checked_add(t: ZonedTime, d: int) -> Option<ZonedTime> {
    if instant_in_range(t.nanos + d) {
        Some(ZonedTime { nanos: (t.nanos + d) as i128, zone: t.zone })
    } else {
        None
    }
}

/// `chrono::TimeDelta::num_minutes`: whole minutes, rounded toward zero.
pub open spec fn num_minutes(d: int) -> int {
    if d >= 0 {
        d / NANOS_PER_MIN as int
    } else {
        -((-d) / NANOS_PER_MIN as int)
    }
}

/// The instant of local second `local_secs` in `zone`, when it is unique.
pub open spec fn resolve_local(zone: u16, local_secs: int) -> Option<ZonedTime> {
    match zone_unique_local(zone as int, local_secs) {
        Some(u) => Some(ZonedTime { nanos: (u * NANOS_PER_SEC) as i128, zone }),
        None => None,
    }
}

pub fn add_checked(t: ZonedTime, d: i128) -> (r: Option<ZonedTime>)
    requires
        t.wf(),
        delta_in_range(d as int),
    ensures
        r == checked_add(t, d as int),
        r matches Some(x) ==> x.wf(),
{
    let n = t.nanos + d;
    if MIN_NANOS <= n && n <= MAX_NANOS {
        Some(ZonedTime { nanos: n, zone: t.zone })
    } else {
        None
    }
}

pub fn seconds_of(t: ZonedTime) -> (s: i64)
    requires
        t.wf(),
    ensures
        s as int == utc_second(t),
        MIN_SECS <= s <= MAX_SECS,
{
    let q = t.nanos / NANOS_PER_SEC;
    let r = t.nanos % NANOS_PER_SEC;
    let s = if r < 0 {
        q - 1
    } else {
        q
    };
    s as i64
}

/// Wall-clock nanoseconds of `t` in its zone.
pub fn local_time(t: ZonedTime) -> (l: i128)
    requires
        t.wf(),
    ensures
        l as int == local_nanos(t),
        t.nanos - NANOS_PER_DAY < l < t.nanos + NANOS_PER_DAY,
{
    let s = seconds_of(t);
    let off = zone_offset_at(t.zone, s);
    t.nanos + (off as i128) * NANOS_PER_SEC
}

/// Day number of a local time (floor of `n / NANOS_PER_DAY`).
pub fn day_of_local(n: i128) -> (q: i128)
    requires
        instant_in_range(n as int) || (-2 * MAX_DELTA_NANOS <= n <= 2 * MAX_DELTA_NANOS),
    ensures
        q as int == n as int / NANOS_PER_DAY as int,
{
    let q = n / NANOS_PER_DAY;
    let r = n % NANOS_PER_DAY;
    if r < 0 {
        q - 1
    } else {
        q
    }
}

/// Time of day of a local time (`n` modulo `NANOS_PER_DAY`).
pub fn tod_of_local(n: i128) -> (m: i128)
    ensures
        m as int == n as int % NANOS_PER_DAY as int,
        0 <= m < NANOS_PER_DAY,
{
    let r = n % NANOS_PER_DAY;
    if r < 0 {
        r + NANOS_PER_DAY
    } else {
        r
    }
}

pub fn weekday_from_day(day: i128) -> (w: Weekday)
    requires
        -1_000_000_000_000 <= day <= 1_000_000_000_000,
    ensures
        w == weekday_of_day(day as int),
{
    let r = (day + 3) % 7;
    let k = if r < 0 {
        r + 7
    } else {
        r
    };
    if k == 0 {
        Weekday::Mon
    } else if k == 1 {
        Weekday::Tue
    } else if k == 2 {
        Weekday::Wed
    } else if k == 3 {
        Weekday::Thu
    } else if k == 4 {
        Weekday::Fri
    } else if k == 5 {
        Weekday::Sat
    } else {
        Weekday::Sun
    }
}

/// `to_rfc3339` of `t` in its zone.
pub fn format_rfc3339(t: ZonedTime) -> (s: String)
    requires
        t.wf(),
    ensures
        s@ == rfc3339_text(t.zone as int, t.nanos as int),
{
    let secs = seconds_of(t);
    let sub = t.nanos - (secs as i128) * NANOS_PER_SEC;
    rfc3339_at(t.zone, secs, sub as u32)
}

/// The instant of the local second `local_secs` of `zone`, when it occurs exactly once.
pub fn resolve_local_second(zone: u16, local_secs: i64) -> (r: Option<ZonedTime>)
    requires
        zone < ZONE_COUNT,
    ensures
        r == resolve_local(zone, local_secs as int),
        r matches Some(x) ==> x.wf(),
{
    match unique_utc_of_local(zone, local_secs) {
        Some(u) => Some(ZonedTime { nanos: (u as i128) * NANOS_PER_SEC, zone }),
        None => None,
    }
}

/// Whole minutes of a span, rounded toward zero.
pub fn minutes_of(d: i128) -> (m: i128)
    requires
        delta_in_range(d as int),
    ensures
        m as int == num_minutes(d as int),
{
    if d >= 0 {
        d / NANOS_PER_MIN
    } else {
        -((-d) / NANOS_PER_MIN)
    }
}

/// A span of `m` minutes.
pub fn minutes(m: i64) -> (d: i128)
    ensures
        d as int == m * NANOS_PER_MIN,
{
    (m as i128) * NANOS_PER_MIN
}

/// A time of day given by hour, minute and second.
pub fn time_of_day_hms(h: u32, m: u32, s: u32) -> (t: i64)
    requires
        h < 24,
        m < 60,
        s < 60,
    ensures
        t as int == h * NANOS_PER_HOUR + m * NANOS_PER_MIN + s * NANOS_PER_SEC,
        time_of_day_valid(t as int),
{
    (h as i64) * 3_600_000_000_000 + (m as i64) * 60_000_000_000 + (s as i64) * 1_000_000_000
}


/// The instant that `chrono::DateTime::parse_from_rfc3339` reads from `text`, as
/// (`timestamp()`, `timestamp_subsec_nanos()`), or the text of its error.
pub uninterp spec fn rfc3339_parsed(text: Seq<char>) -> Result<(int, int), Seq<char>>;

/// `chrono::DateTime::parse_from_rfc3339(text)`: the instant as (seconds since the epoch,
/// nanoseconds, at least 1e9 within a leap second), or the error's `to_string()`. The
/// result is named; every `DateTime` lies in `chrono`'s range, which the contract states.
#[verifier::external_body]
pub(crate) fn parse_rfc3339(text: &str) -> (r: Result<(i64, u32), String>)
    ensures
        match rfc3339_parsed(text@) {
            Ok(p) => r matches Ok(x) && x.0 as int == p.0 && x.1 as int == p.1,
            Err(e) => r matches Err(x) && x@ == e,
        },
        r matches Ok(x) ==> MIN_SECS <= x.0 <= MAX_SECS && x.1 < 2 * NANOS_PER_SEC,
{
    match chrono::DateTime::parse_from_rfc3339(text) {
        Ok(d) => Ok((d.timestamp(), d.timestamp_subsec_nanos())),
        Err(e) => Err(e.to_string()),
    }
}

/// A `chrono` instant as (seconds since the epoch, nanoseconds of that second).
pub type Instant = (i64, u32);

pub open spec fn instant_ok(a: Instant) -> bool {
    MIN_SECS <= a.0 <= MAX_SECS && a.1 < 2 * NANOS_PER_SEC
}

/// `a < b` as `chrono` orders instants given as (seconds, nanoseconds).
pub open spec fn instant_lt(a: (int, int), b: (int, int)) -> bool {
    a.0 < b.0 || (a.0 == b.0 && a.1 < b.1)
}

pub open spec fn instant_view(a: Instant) -> (int, int) {
    (a.0 as int, a.1 as int)
}

/// `b - a` in nanoseconds, as `chrono` computes `signed_duration_since` (whole days, then
/// the seconds of the day, counting a leap second that lies between them).
pub open spec fn span_nanos(a: (int, int), b: (int, int)) -> int {
    let sa = a.0 % 86_400;
    let sb = b.0 % 86_400;
    let days = b.0 / 86_400 - a.0 / 86_400;
    let secs = if sb > sa && a.1 >= NANOS_PER_SEC {
        sb - sa + 1
    } else if sb < sa && b.1 >= NANOS_PER_SEC {
        sb - sa - 1
    } else {
        sb - sa
    };
    (days * 86_400 + secs) * NANOS_PER_SEC + (b.1 - a.1)
}

pub fn instant_less(a: Instant, b: Instant) -> (r: bool)
    ensures
        r == instant_lt(instant_view(a), instant_view(b)),
{
    a.0 < b.0 || (a.0 == b.0 && a.1 < b.1)
}

/// Day and second of the day of a count of seconds since the epoch.
fn day_and_second(s: i64) -> (r: (i128, i128))
    requires
        MIN_SECS <= s <= MAX_SECS,
    ensures
        r.0 as int == s as int / 86_400,
        r.1 as int == s as int % 86_400,
{
    let x = s as i128;
    let q = x / 86_400;
    let m = x % 86_400;
    if m < 0 {
        (q - 1, m + 86_400)
    } else {
        (q, m)
    }
}

/// `b - a` in nanoseconds (`chrono`'s `signed_duration_since`).
pub fn span_between(a: Instant, b: Instant) -> (d: i128)
    requires
        instant_ok(a),
        instant_ok(b),
    ensures
        d as int == span_nanos(instant_view(a), instant_view(b)),
        -20_000_000_000_000_000_000_000 <= d <= 20_000_000_000_000_000_000_000,
{
    let (da, sa) = day_and_second(a.0);
    let (db, sb) = day_and_second(b.0);
    let secs: i128 = if sb > sa && a.1 >= 1_000_000_000 {
        sb - sa + 1
    } else if sb < sa && b.1 >= 1_000_000_000 {
        sb - sa - 1
    } else {
        sb - sa
    };
    ((db - da) * 86_400 + secs) * NANOS_PER_SEC + (b.1 as i128 - a.1 as i128)
}

/// The system clock: `SystemTime::now().duration_since(UNIX_EPOCH)` as its whole
/// seconds and its nanoseconds (`Duration::subsec_nanos`, documented to be under a
/// billion), or `None` where the clock reads before the epoch. The reading depends on
/// the time: nothing else is promised of it.
#[verifier::external_body]
pub(crate) fn clock_now() -> (t: Option<(u64, u32)>)
    ensures
        t matches Some(x) ==> x.1 < 1_000_000_000,
{
    match std::time::SystemTime::now().duration_since(std::time::UNIX_EPOCH) {
        Ok(d) => Some((d.as_secs(), d.subsec_nanos())),
        Err(_) => None,
    }
}

/// The second that `chrono::Utc::now()` makes of a clock reading: the reading's seconds
/// taken as an `i64`, which must lie in `DateTime`'s range (else `Utc::now` panics, and
/// the result is `None`).
pub open spec fn utc_seconds_of(secs: u64, nanos: u32) -> Option<i64> {
    let s = secs as i64;
    if MIN_SECS <= s <= MAX_SECS && nanos < 1_000_000_000 {
        Some(s)
    } else {
        None
    }
}

pub fn utc_seconds(secs: u64, nanos: u32) -> (r: Option<i64>)
    ensures
        r == utc_seconds_of(secs, nanos),
{
    let s: i64 = #[verifier::truncate] (secs as i64);
    if MIN_SECS <= s && s <= MAX_SECS && nanos < 1_000_000_000 {
        Some(s)
    } else {
        None
    }
}

/// What `chrono::Utc::now().timestamp_millis()` gives for a clock reading: the second
/// times a thousand plus the whole milliseconds of the nanoseconds. `None` where the
/// clock reads before the epoch or `Utc::now` cannot hold the reading.
pub open spec fn clock_millis(clock: Option<(u64, u32)>) -> Option<int> {
    match clock {
        Some(c) => match utc_seconds_of(c.0, c.1) {
            Some(s) => Some(s * 1000 + c.1 / 1_000_000),
            None => None,
        },
        None => None,
    }
}

pub fn millis_of_clock(clock: Option<(u64, u32)>) -> (r: Option<i64>)
    ensures
        match r {
            Some(m) => clock_millis(clock) == Some(m as int),
            None => clock_millis(clock) is None,
        },
{
    match clock {
        None => None,
        Some((secs, nanos)) => match utc_seconds(secs, nanos) {
            None => None,
            Some(s) => Some(s * 1000 + (nanos / 1_000_000) as i64),
        },
    }
}

} // verus!
