//! What holds of every slot search: the busy periods are sorted and merged without losing
//! any busy time, and every slot returned lies in the window, has the asked duration,
//! keeps clear of every busy period, respects working hours and days, and keeps its
//! distance from the previous slot; and no free slot that the walk reaches is passed over.
use vstd::prelude::*;
use crate::slots::{
    advance_spec, always_open, available_slots, ends_in_hours, first_check, first_overlap_from, hourly,
    insert_by_start, merge_sorted, merged_busy, overlaps, search, sort_by_start, step_spec,
    Period, SlotRules, Step,
};
use crate::time::{
    checked_add, local_day, local_in_range, minute_of, time_of_day, weekday_of_day, Weekday, MAX_DAY,
};

verus! {

pub open spec fn sorted_by_start(s: Seq<Period>) -> bool {
    forall|i: int, j: int| 0 <= i < j < s.len() ==> (#[trigger] s[i]).0.nanos <= (#[trigger] s[j]).0.nanos
}

/// Each period of `merged` ends before the next one starts.
pub open spec fn separated(m: Seq<Period>) -> bool {
    forall|i: int| 0 <= i < m.len() - 1 ==> (#[trigger] m[i]).1.nanos < m[i + 1].0.nanos
}

/// Every period of `busy` lies within some period of `merged`.
pub open spec fn covers(merged: Seq<Period>, busy: Seq<Period>) -> bool {
    forall|b: int|
        0 <= b < busy.len() ==> exists|j: int|
            0 <= j < merged.len() && (#[trigger] merged[j]).0.nanos <= (#[trigger] busy[b]).0.nanos
                && busy[b].1.nanos <= merged[j].1.nanos
}

/// The end of a slot extended by the buffer, as the search compares it with busy time.
pub open spec fn end_with_buffer(end: crate::time::ZonedTime, buffer: int) -> crate::time::ZonedTime {
    match checked_add(end, buffer) {
        Some(x) => x,
        None => end,
    }
}

/// What a single slot returned by a search satisfies.
pub open spec fn slot_ok(r: SlotRules, wd: Seq<Weekday>, busy: Seq<Period>, p: Period) -> bool {
    let tod = time_of_day(p.0);
    &&& p.1.nanos == p.0.nanos + r.duration
    &&& r.query_start.nanos <= p.0.nanos
    &&& p.1.nanos <= r.query_end.nanos
    &&& forall|b: int| 0 <= b < busy.len() ==> !overlaps(#[trigger] busy[b], p.0, end_with_buffer(p.1, r.buffer as int))
    &&& ends_in_hours(r, time_of_day(p.1))
    &&& !always_open(r) ==> {
        &&& wd.contains(weekday_of_day(local_day(p.0)))
        &&& r.work_start <= tod <= r.work_end
        &&& r.work_end - tod >= r.duration
    }
    &&& local_day(p.1) != local_day(p.0) ==> wd.contains(weekday_of_day(local_day(p.0) + 1))
    &&& hourly(r) ==> minute_of(tod) == 0
}

/// A slot that follows `p` starts no earlier than `p` ends plus the buffer (or than `p`
/// ends, where that sum is no instant).
pub open spec fn spaced_after(r: SlotRules, p: Period, t: crate::time::ZonedTime) -> bool {
    t.nanos >= end_with_buffer(p.1, r.buffer as int).nanos
}

pub open spec fn slots_ok(r: SlotRules, wd: Seq<Weekday>, busy: Seq<Period>, s: Seq<Period>) -> bool {
    &&& forall|i: int| 0 <= i < s.len() ==> slot_ok(r, wd, busy, #[trigger] s[i])
    &&& forall|i: int| 0 <= i < s.len() - 1 ==> spaced_after(r, #[trigger] s[i], s[i + 1].0)
}

proof fn lemma_insert_sorted(s: Seq<Period>, x: Period)
    requires
        sorted_by_start(s),
    ensures
        sorted_by_start(insert_by_start(s, x)),
        insert_by_start(s, x).to_multiset() == s.to_multiset().insert(x),
    decreases s.len(),
{
    broadcast use vstd::seq_lib::group_to_multiset_ensures;

    if s.len() == 0 {
        assert(seq![x] =~= Seq::<Period>::empty().push(x));
    } else if s.last().0.nanos <= x.0.nanos {
    } else {
        let d = s.drop_last();
        assert(sorted_by_start(d));
        lemma_insert_sorted(d, x);
        crate::slots::lemma_insert_elems(d, x);
        let i = insert_by_start(d, x);
        assert forall|a: int, b: int| 0 <= a < b < i.push(s.last()).len() implies (#[trigger] i.push(
            s.last(),
        )[a]).0.nanos <= (#[trigger] i.push(s.last())[b]).0.nanos by {
            if b == i.len() {
                let e = i[a];
                assert(i.contains(e));
                if d.contains(e) {
                    let k = choose|k: int| 0 <= k < d.len() && d[k] == e;
                    assert(s[k] == e);
                    assert(s[k].0.nanos <= s[s.len() - 1].0.nanos);
                }
            }
        }
        assert(s =~= d.push(s.last()));
        assert(i.push(s.last()).to_multiset() =~= d.to_multiset().insert(x).insert(s.last()));
        assert(s.to_multiset() =~= d.to_multiset().insert(s.last()));
    }
}

/// Sorting busy periods keeps each of them (as often as it occurs) and orders them by start.
pub proof fn law_sort_by_start(busy: Seq<Period>)
    ensures
        sorted_by_start(sort_by_start(busy)),
        sort_by_start(busy).to_multiset() == busy.to_multiset(),
    decreases busy.len(),
{
    broadcast use vstd::seq_lib::group_to_multiset_ensures;

    if busy.len() > 0 {
        let d = busy.drop_last();
        law_sort_by_start(d);
        lemma_insert_sorted(sort_by_start(d), busy.last());
        assert(busy =~= d.push(busy.last()));
    } else {
        assert(busy.to_multiset() =~= sort_by_start(busy).to_multiset());
    }
}

proof fn lemma_merge_sorted(s: Seq<Period>)
    requires
        sorted_by_start(s),
    ensures
        covers(merge_sorted(s), s),
        separated(merge_sorted(s)),
        s.len() > 0 ==> merge_sorted(s).len() > 0,
        s.len() > 0 ==> forall|j: int|
            0 <= j < merge_sorted(s).len() ==> (#[trigger] merge_sorted(s)[j]).0.nanos <= s.last().0.nanos,
    decreases s.len(),
{
    if s.len() > 1 {
        let d = s.drop_last();
        assert(sorted_by_start(d));
        lemma_merge_sorted(d);
        let m = merge_sorted(d);
        let x = s.last();
        let l = m.last();
        assert(d.last().0.nanos <= x.0.nanos);
        let n = merge_sorted(s);
        assert forall|b: int| 0 <= b < s.len() implies exists|j: int|
            0 <= j < n.len() && (#[trigger] n[j]).0.nanos <= (#[trigger] s[b]).0.nanos && s[b].1.nanos
                <= n[j].1.nanos by {
            if b < d.len() {
                assert(d[b] == s[b]);
                let j = choose|j: int|
                    0 <= j < m.len() && (#[trigger] m[j]).0.nanos <= (#[trigger] d[b]).0.nanos
                        && d[b].1.nanos <= m[j].1.nanos;
                assert(n[j].0.nanos <= s[b].0.nanos && s[b].1.nanos <= n[j].1.nanos);
            } else {
                assert(s[b] == x);
                if x.0.nanos <= l.1.nanos {
                    assert(n[m.len() - 1].0.nanos <= s[b].0.nanos);
                    assert(s[b].1.nanos <= n[m.len() - 1].1.nanos);
                } else {
                    assert(n[m.len() as int] == x);
                }
            }
        }
    } else if s.len() == 1 {
        assert(merge_sorted(s) == s);
        assert forall|b: int| 0 <= b < s.len() implies exists|j: int|
            0 <= j < merge_sorted(s).len() && (#[trigger] merge_sorted(s)[j]).0.nanos <= (
            #[trigger] s[b]).0.nanos && s[b].1.nanos <= merge_sorted(s)[j].1.nanos by {
            assert(merge_sorted(s)[b] == s[b]);
        }
    }
}

/// Merging the busy periods loses no busy time and leaves them apart: every busy period
/// lies inside a merged one, and each merged period ends before the next one starts.
pub proof fn law_merge_busy_periods(busy: Seq<Period>)
    ensures
        covers(merged_busy(busy), busy),
        separated(merged_busy(busy)),
{
    law_sort_by_start(busy);
    let s = sort_by_start(busy);
    lemma_merge_sorted(s);
    let m = merge_sorted(s);
    assert forall|b: int| 0 <= b < busy.len() implies exists|j: int|
        0 <= j < m.len() && (#[trigger] m[j]).0.nanos <= (#[trigger] busy[b]).0.nanos && busy[b].1.nanos
            <= m[j].1.nanos by {
        let e = busy[b];
        assert(busy.to_multiset().count(e) > 0) by {
            broadcast use vstd::seq_lib::group_to_multiset_ensures;

            assert(busy.contains(e));
        }
        assert(s.contains(e)) by {
            broadcast use vstd::seq_lib::group_to_multiset_ensures;

        }
        let k = choose|k: int| 0 <= k < s.len() && s[k] == e;
        let j = choose|j: int|
            0 <= j < m.len() && (#[trigger] m[j]).0.nanos <= (#[trigger] s[k]).0.nanos && s[k].1.nanos
                <= m[j].1.nanos;
    }
}

proof fn lemma_no_overlap(m: Seq<Period>, start: crate::time::ZonedTime, end: crate::time::ZonedTime, i: int)
    requires
        0 <= i,
        first_overlap_from(m, start, end, i) is None,
    ensures
        forall|j: int| i <= j < m.len() ==> !overlaps(#[trigger] m[j], start, end),
    decreases m.len() - i,
{
    if i < m.len() {
        lemma_no_overlap(m, start, end, i + 1);
    }
}

proof fn lemma_step_slot(r: SlotRules, wd: Seq<Weekday>, merged: Seq<Period>, cur: crate::time::ZonedTime)
    ensures
        step_spec(r, wd, merged, cur) matches Step::Next(n, Some(p)) ==> p.0 == cur && slot_ok(
            r,
            wd,
            merged,
            p,
        ) && spaced_after(r, p, n),
{
    reveal(step_spec);
    match step_spec(r, wd, merged, cur) {
        Step::Next(n, Some(p)) => {
            let eb = end_with_buffer(p.1, r.buffer as int);
            assert(first_overlap_from(merged, cur, eb, 0) is None);
            lemma_no_overlap(merged, cur, eb, 0);
        },
        _ => {},
    }
}

proof fn lemma_cover_transfer(
    r: SlotRules,
    wd: Seq<Weekday>,
    merged: Seq<Period>,
    busy: Seq<Period>,
    p: Period,
)
    requires
        covers(merged, busy),
        slot_ok(r, wd, merged, p),
    ensures
        slot_ok(r, wd, busy, p),
{
    let eb = end_with_buffer(p.1, r.buffer as int);
    assert forall|b: int| 0 <= b < busy.len() implies !overlaps(#[trigger] busy[b], p.0, eb) by {
        let j = choose|j: int|
            0 <= j < merged.len() && (#[trigger] merged[j]).0.nanos <= (#[trigger] busy[b]).0.nanos
                && busy[b].1.nanos <= merged[j].1.nanos;
        assert(!overlaps(merged[j], p.0, eb));
    }
}

proof fn lemma_extend(r: SlotRules, wd: Seq<Weekday>, busy: Seq<Period>, acc: Seq<Period>, p: Period)
    requires
        slots_ok(r, wd, busy, acc),
        slot_ok(r, wd, busy, p),
        acc.len() > 0 ==> spaced_after(r, acc.last(), p.0),
    ensures
        slots_ok(r, wd, busy, acc.push(p)),
{
    let acc2 = acc.push(p);
    assert forall|i: int| 0 <= i < acc2.len() implies slot_ok(r, wd, busy, #[trigger] acc2[i]) by {
        if i < acc.len() {
            assert(acc2[i] == acc[i]);
        }
    }
    assert forall|i: int| 0 <= i < acc2.len() - 1 implies spaced_after(
        r,
        #[trigger] acc2[i],
        acc2[i + 1].0,
    ) by {
        if i < acc.len() - 1 {
            assert(acc2[i] == acc[i]);
            assert(acc2[i + 1] == acc[i + 1]);
        } else {
            assert(acc2[i] == acc.last());
            assert(acc2[i + 1] == p);
        }
    }
}

proof fn lemma_search(
    r: SlotRules,
    wd: Seq<Weekday>,
    busy: Seq<Period>,
    merged: Seq<Period>,
    cur: crate::time::ZonedTime,
    acc: Seq<Period>,
)
    requires
        covers(merged, busy),
        slots_ok(r, wd, busy, acc),
        acc.len() > 0 ==> spaced_after(r, acc.last(), cur),
    ensures
        search(r, wd, merged, cur, acc) matches Some(s) ==> slots_ok(r, wd, busy, s),
    decreases (if cur.nanos < r.query_end.nanos { r.query_end.nanos - cur.nanos } else { 0 }),
{
    if cur.nanos < r.query_end.nanos {
        let st = step_spec(r, wd, merged, cur);
        match st {
            Step::Next(n, slot) => {
                if n.nanos > cur.nanos {
                    match slot {
                        Some(p) => {
                            lemma_step_slot(r, wd, merged, cur);
                            lemma_cover_transfer(r, wd, merged, busy, p);
                            lemma_extend(r, wd, busy, acc, p);
                            assert(acc.push(p).last() == p);
                            lemma_search(r, wd, busy, merged, n, acc.push(p));
                        },
                        None => {
                            lemma_search(r, wd, busy, merged, n, acc);
                        },
                    }
                }
            },
            _ => {},
        }
    }
}

/// Every slot that a search returns starts and ends inside the queried window, lasts the
/// asked duration, keeps clear of every busy period (its end extended by the buffer),
/// ends within working hours, starts on a working day within working hours with enough
/// of the working day left (unless the hours cover the whole day), does not run into a day
/// that is not a working day, starts on the hour when it lasts sixty minutes, and starts no
/// earlier than the previous slot's end plus the buffer.
pub proof fn law_available_slots(r: SlotRules, wd: Seq<Weekday>, busy: Seq<Period>)
    ensures
        available_slots(r, wd, busy) matches Some(s) ==> slots_ok(r, wd, busy, s),
{
    match first_check(r) {
        None => {},
        Some(c) => {
            law_merge_busy_periods(busy);
            lemma_search(r, wd, busy, merged_busy(busy), c, seq![]);
        },
    }
}


proof fn lemma_free_of_overlap(m: Seq<Period>, start: crate::time::ZonedTime, end: crate::time::ZonedTime, i: int)
    requires
        0 <= i,
        forall|j: int| 0 <= j < m.len() ==> !overlaps(#[trigger] m[j], start, end),
    ensures
        first_overlap_from(m, start, end, i) is None,
    decreases m.len() - i,
{
    if i < m.len() {
        assert(!overlaps(m[i], start, end));
        lemma_free_of_overlap(m, start, end, i + 1);
    }
}

/// Whether the slot `cur..end` may be offered: it lies in the window, its local times
/// exist, it starts on a working day within working hours with enough of the day left
/// (unless the hours cover the whole day), it runs into no day that is not a working
/// day, it keeps clear of every busy period (its end extended by the buffer), it starts
/// on the hour when it lasts sixty minutes, and it ends within working hours.
pub open spec fn free_slot(r: SlotRules, wd: Seq<Weekday>, merged: Seq<Period>, cur: crate::time::ZonedTime, end: crate::time::ZonedTime) -> bool {
    let tod = time_of_day(cur);
    &&& end.nanos == cur.nanos + r.duration
    &&& r.query_start.nanos <= cur.nanos
    &&& end.nanos <= r.query_end.nanos
    &&& local_in_range(cur)
    &&& local_in_range(end)
    &&& !always_open(r) ==> {
        &&& wd.contains(weekday_of_day(local_day(cur)))
        &&& r.work_start <= tod <= r.work_end
        &&& r.work_end - tod >= r.duration
    }
    &&& local_day(end) != local_day(cur) ==> local_day(cur) + 1 <= MAX_DAY && wd.contains(
        weekday_of_day(local_day(cur) + 1),
    )
    &&& forall|j: int| 0 <= j < merged.len() ==> !overlaps(#[trigger] merged[j], cur, end_with_buffer(end, r.buffer as int))
    &&& hourly(r) ==> minute_of(tod) == 0
    &&& ends_in_hours(r, time_of_day(end))
}

/// No free slot is passed over: when the search reaches a point from which a free slot
/// starts, it returns that slot, and it goes on exactly at the slot's end plus the
/// buffer, so the next slot can start right there. The rest of the walk is the walk
/// from that point with the slot added.
pub proof fn law_free_slot_is_taken(
    r: SlotRules,
    wd: Seq<Weekday>,
    merged: Seq<Period>,
    cur: crate::time::ZonedTime,
    end: crate::time::ZonedTime,
    next: crate::time::ZonedTime,
    acc: Seq<Period>,
)
    requires
        checked_add(cur, r.duration as int) == Some(end),
        checked_add(end, r.buffer as int) == Some(next),
        free_slot(r, wd, merged, cur, end),
    ensures
        step_spec(r, wd, merged, cur) == Step::Next(next, Some((cur, end))),
        cur.nanos < r.query_end.nanos && cur.nanos < next.nanos ==> search(r, wd, merged, cur, acc) == search(
            r,
            wd,
            merged,
            next,
            acc.push((cur, end)),
        ),
{
    reveal(step_spec);
    lemma_free_of_overlap(merged, cur, end_with_buffer(end, r.buffer as int), 0);
    assert(end_with_buffer(end, r.buffer as int) == next);
}

/// Every period lies in the zone `z` (both its instants).
pub open spec fn in_zone(s: Seq<Period>, z: u16) -> bool {
    forall|i: int| 0 <= i < s.len() ==> (#[trigger] s[i]).0.zone == z && s[i].1.zone == z
}

proof fn lemma_insert_zone(s: Seq<Period>, x: Period, z: u16)
    requires
        in_zone(s, z),
        x.0.zone == z && x.1.zone == z,
    ensures
        in_zone(insert_by_start(s, x), z),
    decreases s.len(),
{
    if s.len() > 0 && !(s.last().0.nanos <= x.0.nanos) {
        let d = s.drop_last();
        assert(in_zone(d, z)) by {
            assert forall|i: int| 0 <= i < d.len() implies (#[trigger] d[i]).0.zone == z && d[i].1.zone == z by {
                assert(d[i] == s[i]);
            }
        }
        lemma_insert_zone(d, x, z);
        let t = insert_by_start(d, x).push(s.last());
        assert forall|i: int| 0 <= i < t.len() implies (#[trigger] t[i]).0.zone == z && t[i].1.zone == z by {
            if i == t.len() - 1 {
                assert(t[i] == s[s.len() - 1]);
            } else {
                assert(t[i] == insert_by_start(d, x)[i]);
            }
        }
    } else if s.len() > 0 {
        let t = s.push(x);
        assert forall|i: int| 0 <= i < t.len() implies (#[trigger] t[i]).0.zone == z && t[i].1.zone == z by {
            if i < s.len() {
                assert(t[i] == s[i]);
            }
        }
    }
}

proof fn lemma_sort_zone(s: Seq<Period>, z: u16)
    requires
        in_zone(s, z),
    ensures
        in_zone(sort_by_start(s), z),
    decreases s.len(),
{
    if s.len() > 0 {
        let d = s.drop_last();
        assert(in_zone(d, z)) by {
            assert forall|i: int| 0 <= i < d.len() implies (#[trigger] d[i]).0.zone == z && d[i].1.zone == z by {
                assert(d[i] == s[i]);
            }
        }
        lemma_sort_zone(d, z);
        assert(s[s.len() - 1].0.zone == z);
        lemma_insert_zone(sort_by_start(d), s.last(), z);
    }
}

proof fn lemma_merge_zone(s: Seq<Period>, z: u16)
    requires
        in_zone(s, z),
    ensures
        in_zone(merge_sorted(s), z),
        s.len() > 0 ==> merge_sorted(s).len() > 0,
    decreases s.len(),
{
    if s.len() > 1 {
        let d = s.drop_last();
        assert(in_zone(d, z)) by {
            assert forall|i: int| 0 <= i < d.len() implies (#[trigger] d[i]).0.zone == z && d[i].1.zone == z by {
                assert(d[i] == s[i]);
            }
        }
        lemma_merge_zone(d, z);
        let m = merge_sorted(d);
        let x = s.last();
        assert(x == s[s.len() - 1]);
        assert(m.last() == m[m.len() - 1]);
        let n = merge_sorted(s);
        assert forall|i: int| 0 <= i < n.len() implies (#[trigger] n[i]).0.zone == z && n[i].1.zone == z by {
            if i < m.len() {
                assert(m[i].0.zone == z);
            }
        }
    }
}

proof fn lemma_advance_zone(ws: int, wd: Seq<Weekday>, qe: int, local: crate::time::ZonedTime)
    ensures
        advance_spec(ws, wd, qe, local) matches Some(n) ==> n.zone == local.zone,
    decreases (if local.nanos < qe { qe - local.nanos } else { 0 }),
{
    if !(wd.contains(weekday_of_day(local_day(local))) && time_of_day(local) <= ws) {
        match checked_add(local, crate::time::NANOS_PER_DAY as int) {
            None => {},
            Some(l1) => match crate::time::resolve_local(local.zone, crate::slots::wall_second(local_day(l1), ws)) {
                None => {},
                Some(l2) => {
                    if l2.nanos > local.nanos && l2.nanos < qe {
                        lemma_advance_zone(ws, wd, qe, l2);
                    }
                },
            },
        }
    }
}

proof fn lemma_step_zone(r: SlotRules, wd: Seq<Weekday>, merged: Seq<Period>, cur: crate::time::ZonedTime)
    requires
        in_zone(merged, cur.zone),
    ensures
        step_spec(r, wd, merged, cur) matches Step::Next(n, slot) ==> n.zone == cur.zone && (slot matches Some(
            p,
        ) ==> p.0.zone == cur.zone && p.1.zone == cur.zone),
{
    reveal(step_spec);
    match checked_add(cur, r.step as int) {
        Some(c) => lemma_advance_zone(r.work_start as int, wd, r.query_end.nanos as int, c),
        None => {},
    }
    match checked_add(cur, r.duration as int) {
        Some(end) => {
            let end_buf = match checked_add(end, r.buffer as int) {
                Some(x) => x,
                None => end,
            };
            lemma_overlap_index(merged, cur, end_buf, 0);
            match first_overlap_from(merged, cur, end_buf, 0) {
                Some(i) => {
                    assert(merged[i].1.zone == cur.zone);
                },
                None => {},
            }
        },
        None => {},
    }
}

proof fn lemma_overlap_index(m: Seq<Period>, start: crate::time::ZonedTime, end: crate::time::ZonedTime, i: int)
    ensures
        first_overlap_from(m, start, end, i) matches Some(k) ==> 0 <= k < m.len(),
    decreases m.len() - i,
{
    if 0 <= i < m.len() && !overlaps(m[i], start, end) {
        lemma_overlap_index(m, start, end, i + 1);
    }
}

proof fn lemma_search_zone(
    r: SlotRules,
    wd: Seq<Weekday>,
    merged: Seq<Period>,
    cur: crate::time::ZonedTime,
    acc: Seq<Period>,
    z: u16,
)
    requires
        cur.zone == z,
        in_zone(merged, z),
        in_zone(acc, z),
    ensures
        search(r, wd, merged, cur, acc) matches Some(s) ==> in_zone(s, z),
    decreases (if cur.nanos < r.query_end.nanos { r.query_end.nanos - cur.nanos } else { 0 }),
{
    if cur.nanos < r.query_end.nanos {
        lemma_step_zone(r, wd, merged, cur);
        match step_spec(r, wd, merged, cur) {
            Step::Next(n, slot) => {
                if n.nanos > cur.nanos {
                    let acc2 = match slot {
                        Some(p) => acc.push(p),
                        None => acc,
                    };
                    assert(in_zone(acc2, z)) by {
                        assert forall|i: int| 0 <= i < acc2.len() implies (#[trigger] acc2[i]).0.zone == z
                            && acc2[i].1.zone == z by {
                            if i < acc.len() {
                                assert(acc2[i] == acc[i]);
                            }
                        }
                    }
                    lemma_search_zone(r, wd, merged, n, acc2, z);
                }
            },
            _ => {},
        }
    }
}

/// When the busy periods are given in the query's zone, every slot that a search returns
/// starts and ends in that zone, so its local times are those of the query's zone.
pub proof fn law_slots_in_query_zone(r: SlotRules, wd: Seq<Weekday>, busy: Seq<Period>)
    requires
        in_zone(busy, r.query_start.zone),
    ensures
        available_slots(r, wd, busy) matches Some(s) ==> in_zone(s, r.query_start.zone),
{
    let z = r.query_start.zone;
    match first_check(r) {
        None => {},
        Some(c) => {
            assert(c.zone == z);
            lemma_sort_zone(busy, z);
            lemma_merge_zone(sort_by_start(busy), z);
            assert(in_zone(Seq::<Period>::empty(), z));
            lemma_search_zone(r, wd, merged_busy(busy), c, seq![], z);
        },
    }
}

} // verus!
