//! What holds of the calendar logic: the first price tier of a length is found, busy
//! periods come sorted and complete, priced slots lie in the asked days and every slot
//! of those days is priced, cancelled
//! events are left out unless asked for, and every deletion ends.
use vstd::prelude::*;
use crate::config::{first_tier, PriceTier};
use crate::gcal::{
    complete_periods, delete_step_spec, floored_start, in_utc, insert_by_instant, instant_le, kept_events, priced_times, skipped,
    sort_by_instant, CalendarItem, CalendarReply, DeleteAction, DeleteState,
};
use crate::slots::Period;
use crate::time::{checked_add, instant_view, local_day, Instant, ZonedTime, ZONE_UTC, ZONE_ZURICH};

verus! {

/// The tier that `find_price_tier` finds has the asked length and comes before every
/// other tier of that length; when it finds none, no tier has that length.
pub proof fn law_first_tier(tiers: Seq<PriceTier>, minutes: int)
    ensures
        first_tier(tiers, minutes) matches Some(i) ==> 0 <= i < tiers.len() && tiers[i].duration_minutes == minutes
            && forall|k: int| 0 <= k < i ==> (#[trigger] tiers[k]).duration_minutes != minutes,
        first_tier(tiers, minutes) is None ==> forall|k: int|
            0 <= k < tiers.len() ==> (#[trigger] tiers[k]).duration_minutes != minutes,
    decreases tiers.len(),
{
    if tiers.len() > 0 {
        law_first_tier(tiers.drop_last(), minutes);
        let d = tiers.drop_last();
        assert forall|k: int| 0 <= k < d.len() implies d[k] == tiers[k] by {}
    }
}

pub open spec fn sorted_by_instant(s: Seq<(Instant, Instant)>) -> bool {
    forall|i: int, j: int|
        0 <= i < j < s.len() ==> instant_le(instant_view((#[trigger] s[i]).0), instant_view((#[trigger] s[j]).0))
}

proof fn lemma_insert_instant(s: Seq<(Instant, Instant)>, x: (Instant, Instant))
    requires
        sorted_by_instant(s),
    ensures
        sorted_by_instant(insert_by_instant(s, x)),
        insert_by_instant(s, x).to_multiset() == s.to_multiset().insert(x),
    decreases s.len(),
{
    broadcast use vstd::seq_lib::group_to_multiset_ensures;

    if s.len() == 0 {
        assert(seq![x] =~= Seq::<(Instant, Instant)>::empty().push(x));
    } else if instant_le(instant_view(s.last().0), instant_view(x.0)) {
    } else {
        let d = s.drop_last();
        assert(sorted_by_instant(d));
        lemma_insert_instant(d, x);
        let i = insert_by_instant(d, x);
        let l = s.last();
        assert forall|a: int, b: int| 0 <= a < b < i.push(l).len() implies instant_le(
            instant_view((#[trigger] i.push(l)[a]).0),
            instant_view((#[trigger] i.push(l)[b]).0),
        ) by {
            if b == i.len() {
                let e = i[a];
                assert(i.to_multiset().count(e) > 0);
                assert(d.to_multiset().insert(x).count(e) > 0);
                if e != x {
                    assert(d.to_multiset().count(e) > 0);
                    assert(d.contains(e));
                    let k = choose|k: int| 0 <= k < d.len() && d[k] == e;
                    assert(s[k] == e);
                }
            }
        }
        assert(s =~= d.push(l));
        assert(i.push(l).to_multiset() =~= d.to_multiset().insert(x).insert(l));
        assert(s.to_multiset() =~= d.to_multiset().insert(l));
    }
}

/// The busy periods that the calendar service returns are sorted by start and are exactly
/// the complete ones it was given, each as often as it occurs.
pub proof fn law_collect_busy(periods: Seq<(Option<Instant>, Option<Instant>)>)
    ensures
        sorted_by_instant(sort_by_instant(complete_periods(periods))),
        sort_by_instant(complete_periods(periods)).to_multiset() == complete_periods(periods).to_multiset(),
{
    lemma_sort_instant(complete_periods(periods));
}

proof fn lemma_sort_instant(s: Seq<(Instant, Instant)>)
    ensures
        sorted_by_instant(sort_by_instant(s)),
        sort_by_instant(s).to_multiset() == s.to_multiset(),
    decreases s.len(),
{
    broadcast use vstd::seq_lib::group_to_multiset_ensures;

    if s.len() > 0 {
        let d = s.drop_last();
        lemma_sort_instant(d);
        lemma_insert_instant(sort_by_instant(d), s.last());
        assert(s =~= d.push(s.last()));
    } else {
        assert(s.to_multiset() =~= sort_by_instant(s).to_multiset());
    }
}

/// Every priced slot starts, in UTC, on a local Zurich day of the asked window and ends
/// the asked length later.
pub proof fn law_priced_slots(periods: Seq<Period>, first_day: int, end_day: int, dur: int)
    ensures
        priced_times(periods, first_day, end_day, dur) matches Some(ts) ==> forall|i: int|
            0 <= i < ts.len() ==> {
                let t = #[trigger] ts[i];
                &&& t.0.zone == ZONE_UTC
                &&& first_day <= local_day(ZonedTime { nanos: t.0.nanos, zone: ZONE_ZURICH }) < end_day
                &&& checked_add(t.0, dur) == Some(t.1)
            },
    decreases periods.len(),
{
    if periods.len() > 0 {
        law_priced_slots(periods.drop_last(), first_day, end_day, dur);
    }
}

/// No slot of a day in the window is left out: every slot whose start, seen in Zurich and
/// floored to the minute, falls on a local day from `first_day` up to (not including)
/// `end_day` is priced, starting at that floored start (in UTC) and ending the asked
/// length later.
pub proof fn law_priced_slots_complete(periods: Seq<Period>, first_day: int, end_day: int, dur: int, i: int)
    requires
        0 <= i < periods.len(),
        priced_times(periods, first_day, end_day, dur) is Some,
        floored_start(periods[i].0) is Some,
        first_day <= local_day(floored_start(periods[i].0)->0) < end_day,
    ensures
        exists|k: int|
            0 <= k < priced_times(periods, first_day, end_day, dur)->0.len() && #[trigger] priced_times(
                periods,
                first_day,
                end_day,
                dur,
            )->0[k] == (in_utc(floored_start(periods[i].0)->0), checked_add(
                in_utc(floored_start(periods[i].0)->0),
                dur,
            )->0) && checked_add(in_utc(floored_start(periods[i].0)->0), dur) is Some,
    decreases periods.len(),
{
    let ts = priced_times(periods, first_day, end_day, dur)->0;
    let f = floored_start(periods[i].0)->0;
    let acc = priced_times(periods.drop_last(), first_day, end_day, dur)->0;
    assert(priced_times(periods.drop_last(), first_day, end_day, dur) is Some);
    if i == periods.len() - 1 {
        assert(periods.last() == periods[i]);
        assert(ts == acc.push((in_utc(f), checked_add(in_utc(f), dur)->0)));
        assert(ts[acc.len() as int] == (in_utc(f), checked_add(in_utc(f), dur)->0));
    } else {
        assert(periods.drop_last()[i] == periods[i]);
        law_priced_slots_complete(periods.drop_last(), first_day, end_day, dur, i);
        let k = choose|k: int|
            0 <= k < acc.len() && #[trigger] acc[k] == (in_utc(f), checked_add(in_utc(f), dur)->0) && checked_add(
                in_utc(f),
                dur,
            ) is Some;
        assert(ts == acc || ts == acc.push(ts.last()));
        assert(ts[k] == acc[k]);
    }
}

/// Cancelled events are left out of a listing unless they are asked for; then nothing is.
pub proof fn law_kept_events(items: Seq<CalendarItem>, include_cancelled: bool)
    ensures
        forall|i: int|
            0 <= i < kept_events(items, include_cancelled).len() ==> !skipped(
                #[trigger] kept_events(items, include_cancelled)[i],
                include_cancelled,
            ),
        include_cancelled ==> kept_events(items, include_cancelled) == items,
    decreases items.len(),
{
    if items.len() > 0 {
        law_kept_events(items.drop_last(), include_cancelled);
        let r = kept_events(items.drop_last(), include_cancelled);
        let k = kept_events(items, include_cancelled);
        assert forall|i: int| 0 <= i < k.len() implies !skipped(#[trigger] k[i], include_cancelled) by {
            if i < r.len() {
                assert(k[i] == r[i]);
            }
        }
        if include_cancelled {
            assert(items.drop_last().push(items.last()) =~= items);
        }
    } else {
        assert(kept_events(items, include_cancelled) =~= items);
    }
}

/// A deletion ends after at most four replies of the calendar, whatever they are.
pub proof fn law_delete_finishes(
    notify: bool,
    r1: CalendarReply,
    r2: CalendarReply,
    r3: CalendarReply,
    r4: CalendarReply,
    x1: (DeleteState, DeleteAction),
    x2: (DeleteState, DeleteAction),
    x3: (DeleteState, DeleteAction),
    x4: (DeleteState, DeleteAction),
)
    requires
        delete_step_spec(DeleteState::Fetching, r1, notify, x1),
        delete_step_spec(x1.0, r2, notify, x2),
        delete_step_spec(x2.0, r3, notify, x3),
        delete_step_spec(x3.0, r4, notify, x4),
    ensures
        x4.0 is Done,
        x4.1 is Stop,
{
}

} // verus!
