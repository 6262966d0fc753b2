//! Appointment slot search.
//!
//! The search walks from the start of the queried window in steps, skips times outside
//! working hours and days, jumps over busy periods (merged first), and collects the
//! slots that fit. `search` below is the walk itself; the laws in `slot_laws` say what
//! every slot it returns satisfies.
use vstd::prelude::*;
use crate::time::{
    add_checked, checked_add, format_rfc3339, rfc3339_text, day_of_local, delta_in_range, hour_of, local_day, local_in_range,
    local_time, minute_of, minutes_of, num_minutes, resolve_local, resolve_local_second,
    time_of_day, time_of_day_valid, tod_of_local, weekday_from_day, weekday_of_day, Weekday,
    ZonedTime, MAX_DAY, MAX_DELTA_NANOS, MAX_NANOS, MIN_NANOS, NANOS_PER_DAY, NANOS_PER_HOUR,
    NANOS_PER_MIN, ZONE_COUNT,
};

verus! {

/// A period of time from `.0` to `.1`.
pub type Period = (ZonedTime, ZonedTime);

/// The parameters of a slot search (a `chrono::Duration` is a signed count of nanoseconds,
/// a `chrono::NaiveTime` nanoseconds after midnight).
#[derive(Clone, Copy, Debug)]
pub struct SlotRules {
    pub query_start: ZonedTime,
    pub query_end: ZonedTime,
    pub duration: i128,
    pub work_start: i64,
    pub work_end: i64,
    pub buffer: i128,
    pub step: i128,
}

impl SlotRules {
    pub open spec fn wf(self) -> bool {
        &&& self.query_start.wf()
        &&& self.query_end.wf()
        &&& delta_in_range(self.duration as int)
        &&& delta_in_range(self.buffer as int)
        &&& delta_in_range(self.step as int)
        &&& time_of_day_valid(self.work_start as int)
        &&& time_of_day_valid(self.work_end as int)
    }
}

/// One turn of the search: it stops, it cannot go on (the computation it stands for
/// panics or makes no progress), or it moves on, perhaps with a slot.
pub enum Step {
    Stuck,
    Stop,
    Next(ZonedTime, Option<Period>),
}

pub open spec fn periods_wf(s: Seq<Period>) -> bool {
    forall|i: int| 0 <= i < s.len() ==> (#[trigger] s[i]).0.wf() && s[i].1.wf()
}

/// Working hours from 00:00 to at least 23:59 mean "always open".
pub open spec fn always_open(r: SlotRules) -> bool {
    r.work_start == 0 && r.work_end >= 23 * NANOS_PER_HOUR + 59 * NANOS_PER_MIN
}

/// Slots of sixty whole minutes start on the hour.
pub open spec fn hourly(r: SlotRules) -> bool {
    num_minutes(r.duration as int) == 60
}

/// `Ord::max(a, b)` on instants: `b` unless `a` is later.
pub open spec fn later(a: ZonedTime, b: ZonedTime) -> ZonedTime {
    if a.nanos > b.nanos {
        a
    } else {
        b
    }
}

/// Local second of hour and minute of the time of day `tod` on day `day`.
pub open spec fn wall_second(day: int, tod: int) -> int {
    day * 86_400 + (tod / NANOS_PER_MIN as int) * 60
}

pub open spec fn overlaps(p: Period, start: ZonedTime, end: ZonedTime) -> bool {
    start.nanos < p.1.nanos && end.nanos > p.0.nanos
}

/// Index of the first period from `i` on that overlaps `start..end`.
pub open spec fn first_overlap_from(m: Seq<Period>, start: ZonedTime, end: ZonedTime, i: int) -> Option<int>
    decreases m.len() - i,
{
    if i < 0 || i >= m.len() {
        None
    } else if overlaps(m[i], start, end) {
        Some(i)
    } else {
        first_overlap_from(m, start, end, i + 1)
    }
}

/// Inserting `x` into `s` after every element that does not start later.
pub open spec fn insert_by_start(s: Seq<Period>, x: Period) -> Seq<Period>
    decreases s.len(),
{
    if s.len() == 0 {
        seq![x]
    } else if s.last().0.nanos <= x.0.nanos {
        s.push(x)
    } else {
        insert_by_start(s.drop_last(), x).push(s.last())
    }
}

/// Stable sort by start instant.
pub open spec fn sort_by_start(s: Seq<Period>) -> Seq<Period>
    decreases s.len(),
{
    if s.len() == 0 {
        s
    } else {
        insert_by_start(sort_by_start(s.drop_last()), s.last())
    }
}

/// Merging a sorted list: a period that starts before the last merged one ends extends it.
pub open spec fn merge_sorted(s: Seq<Period>) -> Seq<Period>
    decreases s.len(),
{
    if s.len() <= 1 {
        s
    } else {
        let m = merge_sorted(s.drop_last());
        let x = s.last();
        let l = m.last();
        if x.0.nanos <= l.1.nanos {
            m.update(m.len() - 1, (l.0, later(l.1, x.1)))
        } else {
            m.push(x)
        }
    }
}

pub open spec fn merged_busy(busy: Seq<Period>) -> Seq<Period> {
    merge_sorted(sort_by_start(busy))
}

/// From `local`, the first working day whose local time is not after `ws`, at `ws`
/// (hour and minute). Each further day is taken by adding a day and going back to `ws`.
/// `None` when a local time does not exist once, the range is left, or a day brings
/// no progress; the walk ends early once it reaches `qe`.
pub open spec fn advance_spec(ws: int, wd: Seq<Weekday>, qe: int, local: ZonedTime) -> Option<ZonedTime>
    decreases (if local.nanos < qe { qe - local.nanos } else { 0 }),
{
    if wd.contains(weekday_of_day(local_day(local))) && time_of_day(local) <= ws {
        resolve_local(local.zone, wall_second(local_day(local), ws))
    } else {
        match checked_add(local, NANOS_PER_DAY as int) {
            None => None,
            Some(l1) => match resolve_local(local.zone, wall_second(local_day(l1), ws)) {
                None => None,
                Some(l2) => if l2.nanos <= local.nanos {
                    None
                } else if l2.nanos >= qe {
                    Some(l2)
                } else {
                    advance_spec(ws, wd, qe, l2)
                },
            },
        }
    }
}

pub open spec fn jump(r: SlotRules, wd: Seq<Weekday>, c: Option<ZonedTime>) -> Step {
    match c {
        None => Step::Stuck,
        Some(c) => match advance_spec(r.work_start as int, wd, r.query_end.nanos as int, c) {
            None => Step::Stuck,
            Some(n) => Step::Next(n, None),
        },
    }
}

pub open spec fn step_forward(r: SlotRules, cur: ZonedTime) -> Step {
    match checked_add(cur, r.step as int) {
        None => Step::Stuck,
        Some(n) => Step::Next(n, None),
    }
}

/// Whether a slot ending at time of day `etod` ends within working hours
/// (an end at 00:00 counts when work ends at 23:59).
pub open spec fn ends_in_hours(r: SlotRules, etod: int) -> bool {
    ||| etod <= r.work_end
    ||| (hour_of(r.work_end as int) == 23 && minute_of(r.work_end as int) == 59 && hour_of(etod) == 0
        && minute_of(etod) == 0)
}

/// One turn of the search at `cur`.
#[verifier::opaque]
pub open spec fn step_spec(r: SlotRules, wd: Seq<Weekday>, merged: Seq<Period>, cur: ZonedTime) -> Step {
    match checked_add(cur, r.duration as int) {
        None => Step::Stop,
        Some(end) => {
            let end_buf = match checked_add(end, r.buffer as int) {
                Some(x) => x,
                None => end,
            };
            let tod = time_of_day(cur);
            if cur.nanos < r.query_start.nanos || end.nanos > r.query_end.nanos {
                step_forward(r, cur)
            } else if !local_in_range(cur) {
                Step::Stuck
            } else if !always_open(r) && (!wd.contains(weekday_of_day(local_day(cur))) || tod
                < r.work_start || tod > r.work_end) {
                jump(r, wd, checked_add(cur, r.step as int))
            } else if !local_in_range(end) {
                Step::Stuck
            } else if local_day(end) != local_day(cur) && local_day(cur) + 1 > MAX_DAY {
                Step::Stuck
            } else if local_day(end) != local_day(cur) && !wd.contains(
                weekday_of_day(local_day(cur) + 1),
            ) {
                step_forward(r, cur)
            } else if !always_open(r) && r.work_end - tod < r.duration {
                jump(r, wd, checked_add(cur, r.step as int))
            } else {
                match first_overlap_from(merged, cur, end_buf, 0) {
                    Some(i) => match (
                        checked_add(merged[i].1, r.buffer as int),
                        checked_add(cur, r.step as int),
                    ) {
                        (Some(a), Some(b)) => Step::Next(later(a, b), None),
                        _ => Step::Stuck,
                    },
                    None => if hourly(r) && minute_of(tod) != 0 {
                        step_forward(r, cur)
                    } else {
                        let slot = if ends_in_hours(r, time_of_day(end)) {
                            Some((cur, end))
                        } else {
                            None
                        };
                        if hourly(r) {
                            match checked_add(end, r.buffer as int) {
                                Some(n) => Step::Next(n, slot),
                                None => Step::Stuck,
                            }
                        } else {
                            Step::Next(end_buf, slot)
                        }
                    },
                }
            }
        },
    }
}

pub open spec fn with_slot(acc: Seq<Period>, slot: Option<Period>) -> Seq<Period> {
    match slot {
        Some(p) => acc.push(p),
        None => acc,
    }
}

/// The walk from `cur` to the end of the window, collecting slots after `acc`.
pub open spec fn search(r: SlotRules, wd: Seq<Weekday>, merged: Seq<Period>, cur: ZonedTime, acc: Seq<Period>) -> Option<Seq<Period>>
    decreases (if cur.nanos < r.query_end.nanos { r.query_end.nanos - cur.nanos } else { 0 }),
{
    if cur.nanos >= r.query_end.nanos {
        Some(acc)
    } else {
        match step_spec(r, wd, merged, cur) {
            Step::Stuck => None,
            Step::Stop => Some(acc),
            Step::Next(n, slot) => if n.nanos <= cur.nanos {
                None
            } else {
                search(r, wd, merged, n, with_slot(acc, slot))
            },
        }
    }
}

/// Where the walk begins: the window's start rounded up to the next hour (sixty-minute
/// slots) or to the next multiple of the step's minutes.
pub open spec fn first_check(r: SlotRules) -> Option<ZonedTime> {
    let qs = r.query_start;
    let tod = time_of_day(qs);
    if hourly(r) {
        if minute_of(tod) > 0 {
            let h = hour_of(tod) + 1;
            match resolve_local(qs.zone, local_day(qs) * 86_400 + (h % 24) * 3600) {
                None => None,
                Some(t) => if h >= 24 {
                    checked_add(t, NANOS_PER_DAY as int)
                } else {
                    Some(t)
                },
            }
        } else {
            Some(qs)
        }
    } else {
        let sm = num_minutes(r.step as int) % 0x1_0000_0000;
        if sm == 0 {
            None
        } else {
            let rounded = minute_of(tod) % sm;
            if rounded == 0 {
                Some(qs)
            } else if !delta_in_range(r.step - rounded * NANOS_PER_MIN) {
                None
            } else {
                checked_add(qs, r.step - rounded * NANOS_PER_MIN)
            }
        }
    }
}

/// The slots of a search, or `None` where the search cannot complete.
pub open spec fn available_slots(r: SlotRules, wd: Seq<Weekday>, busy: Seq<Period>) -> Option<Seq<Period>> {
    match first_check(r) {
        None => None,
        Some(c) => search(r, wd, merged_busy(busy), c, seq![]),
    }
}

fn contains_weekday(wd: &[Weekday], d: Weekday) -> (b: bool)
    ensures
        b == wd@.contains(d),
{
    let mut i: usize = 0;
    while i < wd.len()
        invariant
            0 <= i <= wd@.len(),
            forall|j: int| 0 <= j < i ==> wd@[j] != d,
        decreases wd@.len() - i,
    {
        if wd[i] == d {
            assert(wd@[i as int] == d);
            return true;
        }
        i += 1;
    }
    false
}

proof fn lemma_insert_at(s: Seq<Period>, x: Period, p: int)
    requires
        0 <= p <= s.len(),
        forall|j: int| p <= j < s.len() ==> (#[trigger] s[j]).0.nanos > x.0.nanos,
        p > 0 ==> s[p - 1].0.nanos <= x.0.nanos,
    ensures
        insert_by_start(s, x) == s.insert(p, x),
    decreases s.len(),
{
    if s.len() == 0 {
        assert(s.insert(p, x) =~= seq![x]);
    } else if s.last().0.nanos <= x.0.nanos {
        assert(p == s.len());
        assert(s.insert(p, x) =~= s.push(x));
    } else {
        lemma_insert_at(s.drop_last(), x, p);
        assert(s.drop_last().insert(p, x).push(s.last()) =~= s.insert(p, x));
    }
}

/// The periods sorted by start instant, equal starts keeping their order.
pub fn sort_periods(busy: &[Period]) -> (v: Vec<Period>)
    ensures
        v@ == sort_by_start(busy@),
{
    let mut v: Vec<Period> = Vec::new();
    let mut i: usize = 0;
    while i < busy.len()
        invariant
            0 <= i <= busy@.len(),
            v@ == sort_by_start(busy@.take(i as int)),
        decreases busy@.len() - i,
    {
        let x = busy[i];
        let mut p = v.len();
        while p > 0 && v[p - 1].0.nanos > x.0.nanos
            invariant
                0 <= p <= v@.len(),
                forall|j: int| p <= j < v@.len() ==> (#[trigger] v@[j]).0.nanos > x.0.nanos,
            decreases p,
        {
            p -= 1;
        }
        proof {
            lemma_insert_at(v@, x, p as int);
            assert(busy@.take(i + 1).drop_last() =~= busy@.take(i as int));
            assert(busy@.take(i + 1).last() == x);
        }
        v.insert(p, x);
        i += 1;
    }
    assert(busy@.take(busy@.len() as int) =~= busy@);
    v
}

fn merge_sorted_periods(s: &Vec<Period>) -> (m: Vec<Period>)
    ensures
        m@ == merge_sorted(s@),
{
    if s.len() == 0 {
        return Vec::new();
    }
    let mut m: Vec<Period> = Vec::new();
    m.push(s[0]);
    assert(s@.take(1) =~= seq![s@[0]]);
    let mut i: usize = 1;
    while i < s.len()
        invariant
            1 <= i <= s@.len(),
            m@ == merge_sorted(s@.take(i as int)),
            m@.len() > 0,
        decreases s@.len() - i,
    {
        let x = s[i];
        let k = m.len() - 1;
        let l = m[k];
        proof {
            assert(s@.take(i + 1).drop_last() =~= s@.take(i as int));
            assert(s@.take(i + 1).last() == x);
        }
        if x.0.nanos <= l.1.nanos {
            let e = if l.1.nanos > x.1.nanos {
                l.1
            } else {
                x.1
            };
            m.set(k, (l.0, e));
        } else {
            m.push(x);
        }
        i += 1;
    }
    assert(s@.take(s@.len() as int) =~= s@);
    m
}

/// The busy periods sorted by start and merged where one starts before the previous ends.
pub fn merge_busy_periods(busy: &[Period]) -> (m: Vec<Period>)
    ensures
        m@ == merged_busy(busy@),
{
    let sorted = sort_periods(busy);
    merge_sorted_periods(&sorted)
}

fn first_overlap(m: &Vec<Period>, start: ZonedTime, end: ZonedTime) -> (r: Option<usize>)
    ensures
        match r {
            Some(i) => first_overlap_from(m@, start, end, 0) == Some(i as int) && i < m@.len(),
            None => first_overlap_from(m@, start, end, 0) is None,
        },
{
    let mut i: usize = 0;
    while i < m.len()
        invariant
            0 <= i <= m@.len(),
            first_overlap_from(m@, start, end, 0) == first_overlap_from(m@, start, end, i as int),
        decreases m@.len() - i,
    {
        let p = m[i];
        if start.nanos < p.1.nanos && end.nanos > p.0.nanos {
            return Some(i);
        }
        i += 1;
    }
    None
}

fn local_fields(t: ZonedTime) -> (res: (i128, i128))
    requires
        t.wf(),
    ensures
        res.0 as int == local_day(t),
        res.1 as int == time_of_day(t),
        -200_000_000 <= res.0 <= 200_000_000,
{
    let l = local_time(t);
    let day = day_of_local(l);
    let tod = tod_of_local(l);
    (day, tod)
}

fn resolve_wall(zone: u16, day: i128, tod: i128) -> (r: Option<ZonedTime>)
    requires
        zone < ZONE_COUNT,
        -200_000_000 <= day <= 200_000_000,
        time_of_day_valid(tod as int),
    ensures
        r == resolve_local(zone, wall_second(day as int, tod as int)),
        r matches Some(x) ==> x.wf(),
{
    let secs = day * 86_400 + (tod / NANOS_PER_MIN) * 60;
    resolve_local_second(zone, secs as i64)
}

fn advance(ws: i64, wd: &[Weekday], qe: i128, c: ZonedTime) -> (r: Option<ZonedTime>)
    requires
        c.wf(),
        time_of_day_valid(ws as int),
    ensures
        r == advance_spec(ws as int, wd@, qe as int, c),
        r matches Some(x) ==> x.wf(),
{
    let mut local = c;
    loop
        invariant
            local.wf(),
            local.zone == c.zone,
            time_of_day_valid(ws as int),
            advance_spec(ws as int, wd@, qe as int, local) == advance_spec(
                ws as int,
                wd@,
                qe as int,
                c,
            ),
        decreases (if local.nanos < qe { qe - local.nanos } else { 0 }),
    {
        let (day, tod) = local_fields(local);
        let wday = weekday_from_day(day);
        if contains_weekday(wd, wday) && tod <= ws as i128 {
            return resolve_wall(local.zone, day, ws as i128);
        }
        let l1 = match add_checked(local, NANOS_PER_DAY) {
            Some(x) => x,
            None => {
                return None;
            },
        };
        let (day1, _tod1) = local_fields(l1);
        let l2 = match resolve_wall(local.zone, day1, ws as i128) {
            Some(x) => x,
            None => {
                return None;
            },
        };
        if l2.nanos <= local.nanos {
            return None;
        }
        if l2.nanos >= qe {
            return Some(l2);
        }
        local = l2;
    }
}

fn jump_exec(r: SlotRules, wd: &[Weekday], c: Option<ZonedTime>) -> (s: Step)
    requires
        r.wf(),
        c matches Some(x) ==> x.wf(),
    ensures
        s == jump(r, wd@, c),
        s matches Step::Next(n, _) ==> n.wf(),
{
    match c {
        None => Step::Stuck,
        Some(c) => match advance(r.work_start, wd, r.query_end.nanos, c) {
            None => Step::Stuck,
            Some(n) => Step::Next(n, None),
        },
    }
}

fn step_forward_exec(r: SlotRules, cur: ZonedTime) -> (s: Step)
    requires
        r.wf(),
        cur.wf(),
    ensures
        s == step_forward(r, cur),
        s matches Step::Next(n, _) ==> n.wf(),
{
    match add_checked(cur, r.step) {
        None => Step::Stuck,
        Some(n) => Step::Next(n, None),
    }
}

fn local_ok(t: ZonedTime) -> (b: bool)
    requires
        t.wf(),
    ensures
        b == local_in_range(t),
{
    let l = local_time(t);
    MIN_NANOS <= l && l <= MAX_NANOS
}

fn step_exec(r: SlotRules, wd: &[Weekday], merged: &Vec<Period>, cur: ZonedTime) -> (s: Step)
    requires
        r.wf(),
        cur.wf(),
        periods_wf(merged@),
    ensures
        s == step_spec(r, wd@, merged@, cur),
        s matches Step::Next(n, slot) ==> n.wf() && (slot matches Some(p) ==> p.0.wf() && p.1.wf()),
{
    reveal(step_spec);
    let end = match add_checked(cur, r.duration) {
        None => {
            return Step::Stop;
        },
        Some(e) => e,
    };
    let end_buf = match add_checked(end, r.buffer) {
        Some(x) => x,
        None => end,
    };
    let (day, tod) = local_fields(cur);
    let always = r.work_start == 0 && r.work_end >= 23 * 3_600_000_000_000 + 59 * 60_000_000_000;
    let hourly_slot = minutes_of(r.duration) == 60;
    if cur.nanos < r.query_start.nanos || end.nanos > r.query_end.nanos {
        return step_forward_exec(r, cur);
    }
    if !local_ok(cur) {
        return Step::Stuck;
    }
    if !always && (!contains_weekday(wd, weekday_from_day(day)) || tod < r.work_start as i128 || tod
        > r.work_end as i128) {
        return jump_exec(r, wd, add_checked(cur, r.step));
    }
    if !local_ok(end) {
        return Step::Stuck;
    }
    let (eday, etod) = local_fields(end);
    if eday != day && day + 1 > MAX_DAY {
        return Step::Stuck;
    }
    if eday != day && !contains_weekday(wd, weekday_from_day(day + 1)) {
        return step_forward_exec(r, cur);
    }
    if !always && (r.work_end as i128) - tod < r.duration {
        return jump_exec(r, wd, add_checked(cur, r.step));
    }
    match first_overlap(merged, cur, end_buf) {
        Some(i) => {
            let p = merged[i];
            match (add_checked(p.1, r.buffer), add_checked(cur, r.step)) {
                (Some(a), Some(b)) => Step::Next(
                    if a.nanos > b.nanos {
                        a
                    } else {
                        b
                    },
                    None,
                ),
                _ => Step::Stuck,
            }
        },
        None => {
            if hourly_slot && (tod / NANOS_PER_MIN) % 60 != 0 {
                return step_forward_exec(r, cur);
            }
            let we = r.work_end as i128;
            let keep = etod <= we || ((we / NANOS_PER_HOUR) == 23 && (we / NANOS_PER_MIN) % 60 == 59
                && etod / NANOS_PER_HOUR == 0 && (etod / NANOS_PER_MIN) % 60 == 0);
            let slot = if keep {
                Some((cur, end))
            } else {
                None
            };
            if hourly_slot {
                match add_checked(end, r.buffer) {
                    Some(n) => Step::Next(n, slot),
                    None => Step::Stuck,
                }
            } else {
                Step::Next(end_buf, slot)
            }
        },
    }
}

fn first_check_exec(r: SlotRules) -> (c: Option<ZonedTime>)
    requires
        r.wf(),
    ensures
        c == first_check(r),
        c matches Some(x) ==> x.wf(),
{
    let qs = r.query_start;
    let (day, tod) = local_fields(qs);
    if minutes_of(r.duration) == 60 {
        if (tod / NANOS_PER_MIN) % 60 > 0 {
            let h = tod / NANOS_PER_HOUR + 1;
            let secs = day * 86_400 + (h % 24) * 3600;
            match resolve_local_second(qs.zone, secs as i64) {
                None => None,
                Some(t) => if h >= 24 {
                    add_checked(t, NANOS_PER_DAY)
                } else {
                    Some(t)
                },
            }
        } else {
            Some(qs)
        }
    } else {
        let m = minutes_of(r.step);
        let sm = if m % 0x1_0000_0000 < 0 {
            m % 0x1_0000_0000 + 0x1_0000_0000
        } else {
            m % 0x1_0000_0000
        };
        if sm == 0 {
            None
        } else {
            let rounded = ((tod / NANOS_PER_MIN) % 60) % sm;
            if rounded == 0 {
                Some(qs)
            } else {
                let pad = r.step - rounded * NANOS_PER_MIN;
                if pad < -MAX_DELTA_NANOS || pad > MAX_DELTA_NANOS {
                    None
                } else {
                    add_checked(qs, pad)
                }
            }
        }
    }
}

/// The slots of a search as periods: `None` exactly where `available_slots` is `None`.
pub fn available_slot_periods(r: SlotRules, busy_periods: &[Period], working_days: &[Weekday]) -> (res: Option<Vec<Period>>)
    requires
        r.wf(),
        periods_wf(busy_periods@),
        always_open(r) || working_days@.len() > 0,
    ensures
        match available_slots(r, working_days@, busy_periods@) {
            None => res is None,
            Some(s) => res matches Some(v) && v@ == s,
        },
        res matches Some(v) ==> periods_wf(v@),
{
    reveal_with_fuel(search, 1);
    let start = match first_check_exec(r) {
        None => {
            return None;
        },
        Some(c) => c,
    };
    let merged = merge_busy_periods(busy_periods);
    proof {
        lemma_merged_wf(busy_periods@);
    }
    let mut cur = start;
    let mut acc: Vec<Period> = Vec::new();
    assert(available_slots(r, working_days@, busy_periods@) == search(
        r,
        working_days@,
        merged@,
        start,
        seq![],
    ));
    assert(acc@ =~= seq![]);
    while cur.nanos < r.query_end.nanos
        invariant
            r.wf(),
            cur.wf(),
            periods_wf(merged@),
            periods_wf(acc@),
            merged@ == merged_busy(busy_periods@),
            available_slots(r, working_days@, busy_periods@) == search(
                r,
                working_days@,
                merged@,
                start,
                seq![],
            ),
            search(r, working_days@, merged@, cur, acc@) == search(
                r,
                working_days@,
                merged@,
                start,
                seq![],
            ),
        decreases (if cur.nanos < r.query_end.nanos { r.query_end.nanos - cur.nanos } else { 0 }),
    {
        let st = step_exec(r, working_days, &merged, cur);
        proof {
            assert(search(r, working_days@, merged@, cur, acc@) == match st {
                Step::Stuck => None,
                Step::Stop => Some(acc@),
                Step::Next(n, slot) => if n.nanos <= cur.nanos {
                    None
                } else {
                    search(r, working_days@, merged@, n, with_slot(acc@, slot))
                },
            });
        }
        match st {
            Step::Stuck => {
                return None;
            },
            Step::Stop => {
                return Some(acc);
            },
            Step::Next(n, slot) => {
                if n.nanos <= cur.nanos {
                    return None;
                }
                match slot {
                    Some(p) => acc.push(p),
                    None => {},
                }
                cur = n;
            },
        }
    }
    Some(acc)
}

/// The rules of a search from its parameters.
pub open spec fn rules_of(
    query_start: ZonedTime,
    query_end: ZonedTime,
    duration: i128,
    work_start_time: i64,
    work_end_time: i64,
    buffer_time: i128,
    step: i128,
) -> SlotRules {
    SlotRules {
        query_start,
        query_end,
        duration,
        work_start: work_start_time,
        work_end: work_end_time,
        buffer: buffer_time,
        step,
    }
}

/// The texts of slots: each start and end in RFC 3339, in the zone it was found in.
pub open spec fn slot_texts_are(v: Seq<(String, String)>, s: Seq<Period>) -> bool {
    v.len() == s.len() && forall|i: int|
        0 <= i < s.len() ==> (#[trigger] v[i]).0@ == rfc3339_text(s[i].0.zone as int, s[i].0.nanos as int)
            && v[i].1@ == rfc3339_text(s[i].1.zone as int, s[i].1.nanos as int)
}

fn slot_texts(periods: &Vec<Period>) -> (out: Vec<(String, String)>)
    requires
        periods_wf(periods@),
    ensures
        slot_texts_are(out@, periods@),
{
    let mut out: Vec<(String, String)> = Vec::new();
    let mut i: usize = 0;
    while i < periods.len()
        invariant
            0 <= i <= periods@.len(),
            out@.len() == i,
            periods_wf(periods@),
            forall|k: int|
                0 <= k < i ==> (#[trigger] out@[k]).0@ == rfc3339_text(periods@[k].0.zone as int, periods@[k].0.nanos as int)
                    && out@[k].1@ == rfc3339_text(periods@[k].1.zone as int, periods@[k].1.nanos as int),
        decreases periods@.len() - i,
    {
        let p = periods[i];
        out.push((format_rfc3339(p.0), format_rfc3339(p.1)));
        i += 1;
    }
    out
}

/// Available slots as pairs of RFC 3339 texts (start, end), each in the zone the search
/// was in when it found the slot. The search must complete: it does not where a local
/// time it needs does not exist once, an instant leaves `chrono`'s range, the step
/// cannot be taken in whole minutes, or a turn of the search would not move it forward.
pub fn calculate_available_slots(
    query_start: ZonedTime,
    query_end: ZonedTime,
    busy_periods: &[Period],
    duration: i128,
    work_start_time: i64,
    work_end_time: i64,
    working_days: &[Weekday],
    buffer_time: i128,
    step: i128,
) -> (res: Vec<(String, String)>)
    requires
        rules_of(query_start, query_end, duration, work_start_time, work_end_time, buffer_time, step).wf(),
        periods_wf(busy_periods@),
        always_open(rules_of(query_start, query_end, duration, work_start_time, work_end_time, buffer_time, step))
            || working_days@.len() > 0,
        available_slots(
            rules_of(query_start, query_end, duration, work_start_time, work_end_time, buffer_time, step),
            working_days@,
            busy_periods@,
        ) is Some,
    ensures
        slot_texts_are(
            res@,
            available_slots(
                rules_of(query_start, query_end, duration, work_start_time, work_end_time, buffer_time, step),
                working_days@,
                busy_periods@,
            )->0,
        ),
{
    let r = SlotRules {
        query_start,
        query_end,
        duration,
        work_start: work_start_time,
        work_end: work_end_time,
        buffer: buffer_time,
        step,
    };
    match available_slot_periods(r, busy_periods, working_days) {
        Some(periods) => slot_texts(&periods),
        None => Vec::new(),
    }
}

/// The available slots where the search completes, `None` where it does not.
pub fn try_calculate_available_slots(
    query_start: ZonedTime,
    query_end: ZonedTime,
    busy_periods: &[Period],
    duration: i128,
    work_start_time: i64,
    work_end_time: i64,
    working_days: &[Weekday],
    buffer_time: i128,
    step: i128,
) -> (res: Option<Vec<(String, String)>>)
    requires
        rules_of(query_start, query_end, duration, work_start_time, work_end_time, buffer_time, step).wf(),
        periods_wf(busy_periods@),
        always_open(rules_of(query_start, query_end, duration, work_start_time, work_end_time, buffer_time, step))
            || working_days@.len() > 0,
    ensures
        match available_slots(
            rules_of(query_start, query_end, duration, work_start_time, work_end_time, buffer_time, step),
            working_days@,
            busy_periods@,
        ) {
            None => res is None,
            Some(s) => res matches Some(v) && slot_texts_are(v@, s),
        },
{
    let r = SlotRules {
        query_start,
        query_end,
        duration,
        work_start: work_start_time,
        work_end: work_end_time,
        buffer: buffer_time,
        step,
    };
    match available_slot_periods(r, busy_periods, working_days) {
        None => None,
        Some(periods) => Some(slot_texts(&periods)),
    }
}

pub proof fn lemma_insert_elems(s: Seq<Period>, x: Period)
    ensures
        insert_by_start(s, x).len() == s.len() + 1,
        forall|p: Period|
            #![trigger insert_by_start(s, x).contains(p)]
            #![trigger s.contains(p)]
            insert_by_start(s, x).contains(p) <==> (s.contains(p) || p == x),
    decreases s.len(),
{
    if s.len() == 0 {
        assert forall|p: Period| insert_by_start(s, x).contains(p) <==> (s.contains(p) || p == x) by {
            if insert_by_start(s, x).contains(p) {
                let k = choose|k: int| 0 <= k < insert_by_start(s, x).len() && insert_by_start(s, x)[k] == p;
                assert(k == 0);
            }
            if p == x {
                assert(insert_by_start(s, x)[0] == x);
            }
        }
    } else if s.last().0.nanos <= x.0.nanos {
        assert forall|p: Period| insert_by_start(s, x).contains(p) <==> (s.contains(p) || p == x) by {
            let t = s.push(x);
            if t.contains(p) {
                let k = choose|k: int| 0 <= k < t.len() && t[k] == p;
                if k < s.len() {
                    assert(s[k] == p);
                }
            }
            if s.contains(p) {
                let k = choose|k: int| 0 <= k < s.len() && s[k] == p;
                assert(t[k] == p);
            }
            if p == x {
                assert(t[s.len() as int] == x);
            }
        }
    } else {
        let d = s.drop_last();
        lemma_insert_elems(d, x);
        assert forall|p: Period| insert_by_start(s, x).contains(p) <==> (s.contains(p) || p == x) by {
            let i = insert_by_start(d, x);
            let t = i.push(s.last());
            if t.contains(p) {
                let k = choose|k: int| 0 <= k < t.len() && t[k] == p;
                if k < i.len() {
                    assert(i[k] == p);
                    assert(0 <= k < i.len());
                    assert(i.contains(p));
                    if d.contains(p) {
                        let k2 = choose|k2: int| 0 <= k2 < d.len() && d[k2] == p;
                        assert(s[k2] == p);
                    }
                } else {
                    assert(s[s.len() - 1] == p);
                }
            }
            if s.contains(p) {
                let k = choose|k: int| 0 <= k < s.len() && s[k] == p;
                if k < d.len() {
                    assert(d[k] == p);
                    assert(d.contains(p));
                    assert(i.contains(p));
                    let k2 = choose|k2: int| 0 <= k2 < i.len() && i[k2] == p;
                    assert(t[k2] == p);
                } else {
                    assert(t[i.len() as int] == p);
                }
            }
            if p == x {
                assert(insert_by_start(d, x).contains(x));
                assert(i.contains(p));
                let k2 = choose|k2: int| 0 <= k2 < i.len() && i[k2] == p;
                assert(t[k2] == p);
            }
        }
    }
}

proof fn lemma_sort_elems(s: Seq<Period>)
    ensures
        sort_by_start(s).len() == s.len(),
        forall|p: Period|
            #![trigger sort_by_start(s).contains(p)]
            #![trigger s.contains(p)]
            sort_by_start(s).contains(p) <==> s.contains(p),
    decreases s.len(),
{
    if s.len() > 0 {
        let d = s.drop_last();
        lemma_sort_elems(d);
        lemma_insert_elems(sort_by_start(d), s.last());
        assert forall|p: Period| sort_by_start(s).contains(p) <==> s.contains(p) by {
            if s.contains(p) {
                let k = choose|k: int| 0 <= k < s.len() && s[k] == p;
                if k < d.len() {
                    assert(d[k] == p);
                }
            }
            if d.contains(p) {
                let k = choose|k: int| 0 <= k < d.len() && d[k] == p;
                assert(s[k] == p);
            }
        }
    }
}

proof fn lemma_merge_wf(s: Seq<Period>)
    requires
        periods_wf(s),
    ensures
        periods_wf(merge_sorted(s)),
        s.len() > 0 ==> merge_sorted(s).len() > 0,
    decreases s.len(),
{
    if s.len() > 1 {
        lemma_merge_wf(s.drop_last());
    }
}

proof fn lemma_merged_wf(busy: Seq<Period>)
    requires
        periods_wf(busy),
    ensures
        periods_wf(merged_busy(busy)),
{
    lemma_sort_elems(busy);
    let s = sort_by_start(busy);
    assert forall|i: int| 0 <= i < s.len() implies (#[trigger] s[i]).0.wf() && s[i].1.wf() by {
        assert(s.contains(s[i]));
        assert(busy.contains(s[i]));
        let k = choose|k: int| 0 <= k < busy.len() && busy[k] == s[i];
    }
    lemma_merge_wf(s);
}

} // verus!
