//! Google Calendar: the checks and windows of the calendar handlers, slot pricing,
//! booking conflicts, and the calendar service's decisions.
use vstd::prelude::*;
use crate::config::{find_price_tier, first_tier, AppConfig, PriceTier};
use crate::payrexx::HttpAnswer;
use crate::slots::{available_slot_periods, available_slots, periods_wf, Period, SlotRules};
use crate::stripe::opt_view;
use crate::text::{concat, int_text, int_to_string, owned};
use crate::time::{
    add_checked, checked_add, day_of_local, format_rfc3339, local_day, local_nanos,
    local_time, resolve_local, resolve_local_second, rfc3339_text, time_of_day_hms, Weekday, ZonedTime,
    instant_less, instant_lt, instant_view, parse_rfc3339, rfc3339_parsed, Instant,
    MAX_DAY, NANOS_PER_DAY, NANOS_PER_MIN, ZONE_UTC,
    ZONE_ZURICH,
};

verus! {

/// Errors of the calendar service.
#[derive(Debug)]
pub enum GcalServiceError {
    /// An error of the Google API (its message).
    ApiError(String),
    TimeParseError(String),
    CalculationError(String),
    Conflict,
    NoMatchingPriceTier(i64),
}

/// Errors of the calendar logic.
#[derive(Debug)]
pub enum GcalError {
    /// An error of the Google API (its message).
    ApiError(String),
    TimeParseError(String),
    CalculationError(String),
    Conflict,
    NoMatchingPriceTier(i64),
    ServiceError(GcalServiceError),
}

/// A request for the free slots of a length between two dates (`YYYY-MM-DD`).
#[derive(Debug)]
pub struct AvailabilityQuery {
    pub start_date: String,
    pub end_date: String,
    pub duration_minutes: i64,
}

/// A free slot with its price.
#[derive(Debug)]
pub struct PricedSlot {
    pub start_time: String,
    pub end_time: String,
    pub duration_minutes: i64,
    pub price: i64,
    pub currency: String,
    pub product_name: Option<String>,
}

#[derive(Debug)]
pub struct AvailableSlotsResponse {
    pub slots: Vec<PricedSlot>,
}

#[derive(Debug)]
pub struct BookSlotRequest {
    pub start_time: String,
    pub end_time: String,
    pub summary: String,
    pub description: Option<String>,
    pub payment_method: Option<String>,
    pub payment_id: Option<String>,
    pub payment_amount: Option<i64>,
    pub room_name: Option<String>,
}

#[derive(Debug)]
pub struct BookingResponse {
    pub success: bool,
    pub event_id: Option<String>,
    pub message: String,
}

#[derive(Debug)]
pub struct CancelBookingRequest {
    pub notify_attendees: Option<bool>,
}

#[derive(Debug)]
pub struct CancellationResponse {
    pub success: bool,
    pub message: String,
}

#[derive(Debug)]
pub struct BookedEventsQuery {
    pub start_date: String,
    pub end_date: String,
    pub include_cancelled: Option<bool>,
}

#[derive(Debug)]
pub struct BookedEvent {
    pub event_id: String,
    pub summary: String,
    pub description: Option<String>,
    pub start_time: String,
    pub end_time: String,
    pub status: String,
    pub created: String,
    pub updated: String,
    pub payment_method: Option<String>,
    pub payment_id: Option<String>,
    pub payment_amount: Option<i64>,
    pub room_name: Option<String>,
}

#[derive(Debug)]
pub struct BookedEventsResponse {
    pub events: Vec<BookedEvent>,
}

/// An appointment to put in the calendar.
#[derive(Debug)]
pub struct CalendarEvent {
    pub start_time: String,
    pub end_time: String,
    pub summary: String,
    pub description: Option<String>,
    pub payment_method: Option<String>,
    pub payment_id: Option<String>,
    pub payment_amount: Option<i64>,
    pub room_name: Option<String>,
}

/// What the calendar reports of an event it created or changed.
#[derive(Debug)]
pub struct CalendarEventResult {
    pub event_id: Option<String>,
    pub status: String,
}

/// Days from 0001-01-01 (day 1) to 1970-01-01 (day 719163), as `chrono` counts them.
pub const CE_EPOCH_DAY: i64 = 719_163;

/// Smallest day number (days since 1970-01-01) of a `chrono::NaiveDate`.
pub const MIN_DAY: i64 = -96_465_293;

/// The day (`num_days_from_ce`) that `NaiveDate::parse_from_str(text, "%Y-%m-%d")` reads.
pub uninterp spec fn ymd_day(text: Seq<char>) -> Option<int>;

/// `chrono::NaiveDate::parse_from_str(text, "%Y-%m-%d")`, as `num_days_from_ce`; the
/// result is named, and lies in `NaiveDate`'s range.
#[verifier::external_body]
fn parse_ymd(text: &str) -> (r: Option<i64>)
    ensures
        ymd_day(text@) == match r {
            Some(d) => Some(d as int),
            None => None::<int>,
        },
        r matches Some(d) ==> MIN_DAY + CE_EPOCH_DAY <= d <= MAX_DAY + CE_EPOCH_DAY,
{
    match chrono::NaiveDate::parse_from_str(text, "%Y-%m-%d") {
        Ok(d) => Some(chrono::Datelike::num_days_from_ce(&d) as i64),
        Err(_) => None,
    }
}

/// The day number (days since 1970-01-01) of a `YYYY-MM-DD` text.
pub open spec fn epoch_day(text: Seq<char>) -> Option<int> {
    match ymd_day(text) {
        Some(d) => Some(d - CE_EPOCH_DAY),
        None => None,
    }
}

pub fn parse_date(text: &str) -> (r: Option<i64>)
    ensures
        epoch_day(text@) == match r {
            Some(d) => Some(d as int),
            None => None::<int>,
        },
        r matches Some(d) ==> MIN_DAY <= d <= MAX_DAY,
{
    match parse_ymd(text) {
        Some(d) => Some(d - CE_EPOCH_DAY),
        None => None,
    }
}

/// The largest number of minutes that `chrono::Duration::minutes` takes.
pub const MAX_DURATION_MINUTES: i64 = 153_722_867_280_912;

/// A checked availability request: the calendar, the price tier's index, the window in
/// UTC (local midnight in Zurich of the first day to that after the last day), the
/// window's local days, and the slot length.
#[derive(Debug)]
pub struct AvailabilityPlan {
    pub calendar_id: String,
    pub tier: usize,
    pub query_start: ZonedTime,
    pub query_end: ZonedTime,
    pub first_day: i64,
    pub end_day: i64,
    pub duration: i128,
}

pub open spec fn answer_is(r: HttpAnswer, status: u16, message: Seq<char>) -> bool {
    r.0 == status && r.1@ == message
}

/// Zurich's midnight of a day, in UTC.
pub open spec fn zurich_midnight(day: int) -> Option<ZonedTime> {
    match resolve_local(ZONE_ZURICH, day * 86_400) {
        Some(t) => Some(ZonedTime { nanos: t.nanos, zone: ZONE_UTC }),
        None => None,
    }
}

/// What the availability handler decides before it asks the calendar: its error answer,
/// or the plan. `None` where the handler panics (a Zurich midnight that is not unique, a
/// length that `chrono::Duration::minutes` refuses).
pub open spec fn availability_spec(config: AppConfig, q: AvailabilityQuery, r: Option<Result<AvailabilityPlan, HttpAnswer>>) -> bool {
    if !config.use_gcal {
        r matches Some(Err(a)) && answer_is(a, 503, "GCal service is disabled."@)
    } else if config.gcal is None {
        r matches Some(Err(a)) && answer_is(a, 500, "Server configuration error: GCal config missing."@)
    } else if config.gcal->0.calendar_id is None {
        r matches Some(Err(a)) && answer_is(a, 500, "Server configuration error: GCal calendar ID missing."@)
    } else if config.stripe is None {
        r matches Some(Err(a)) && answer_is(a, 500, "Pricing configuration error on server."@)
    } else {
        let tier = first_tier(config.stripe->0.price_tiers@, q.duration_minutes as int);
        if tier is None {
            r matches Some(Err(a)) && answer_is(
                a,
                400,
                "No service offered for "@ + int_text(q.duration_minutes as int) + " minute duration."@,
            )
        } else {
            match epoch_day(q.start_date@) {
                None => r matches Some(Err(a)) && answer_is(a, 400, "Invalid start_date format (YYYY-MM-DD)"@),
                Some(sd) => match epoch_day(q.end_date@) {
                    None => r matches Some(Err(a)) && answer_is(a, 400, "Invalid end_date format (YYYY-MM-DD)"@),
                    Some(ed) => if ed < sd {
                        r matches Some(Err(a)) && answer_is(a, 400, "end_date must be after start_date"@)
                    } else if ed == MAX_DAY {
                        r matches Some(Err(a)) && answer_is(a, 500, "Date calculation overflow"@)
                    } else {
                        match (zurich_midnight(sd), zurich_midnight(ed + 1)) {
                            (Some(qs), Some(qe)) => if q.duration_minutes < -MAX_DURATION_MINUTES
                                || q.duration_minutes > MAX_DURATION_MINUTES {
                                r is None
                            } else if q.duration_minutes <= 0 {
                                r matches Some(Err(a)) && answer_is(a, 400, "duration_minutes must be positive"@)
                            } else {
                                r matches Some(Ok(p)) && p.calendar_id == config.gcal->0.calendar_id->0
                                    && tier == Some(p.tier as int) && p.query_start == qs && p.query_end == qe
                                    && p.first_day == sd && p.end_day == ed + 1 && p.duration
                                    == q.duration_minutes * NANOS_PER_MIN
                            },
                            _ => r is None,
                        }
                    },
                },
            }
        }
    }
}

fn answer(status: u16, m: &str) -> (a: HttpAnswer)
    ensures
        answer_is(a, status, m@),
{
    (status, owned(m))
}

fn zurich_midnight_of(day: i64) -> (r: Option<ZonedTime>)
    requires
        MIN_DAY <= day <= MAX_DAY + 1,
    ensures
        r == zurich_midnight(day as int),
        r matches Some(t) ==> t.wf(),
{
    match resolve_local_second(ZONE_ZURICH, day * 86_400) {
        Some(t) => Some(ZonedTime { nanos: t.nanos, zone: ZONE_UTC }),
        None => None,
    }
}

/// The availability handler's checks and window, before it asks the calendar.
pub fn availability_check(config: &AppConfig, query: &AvailabilityQuery) -> (r: Option<Result<AvailabilityPlan, HttpAnswer>>)
    ensures
        availability_spec(*config, *query, r),
        r matches Some(Ok(p)) ==> availability_rules(p).wf() && p.tier < config.stripe->0.price_tiers@.len(),
{
    if !config.use_gcal {
        return Some(Err(answer(503, "GCal service is disabled.")));
    }
    let gcal = match &config.gcal {
        None => {
            return Some(Err(answer(500, "Server configuration error: GCal config missing.")));
        },
        Some(g) => g,
    };
    let calendar_id = match &gcal.calendar_id {
        None => {
            return Some(Err(answer(500, "Server configuration error: GCal calendar ID missing.")));
        },
        Some(c) => c,
    };
    let stripe = match &config.stripe {
        None => {
            return Some(Err(answer(500, "Pricing configuration error on server.")));
        },
        Some(s) => s,
    };
    let tier = match find_price_tier(&stripe.price_tiers, query.duration_minutes) {
        None => {
            let n = int_to_string(query.duration_minutes as i128);
            let mut m = concat("No service offered for ", n.as_str());
            m.append(" minute duration.");
            return Some(Err((400, m)));
        },
        Some(i) => i,
    };
    let sd = match parse_date(query.start_date.as_str()) {
        None => {
            return Some(Err(answer(400, "Invalid start_date format (YYYY-MM-DD)")));
        },
        Some(d) => d,
    };
    let ed = match parse_date(query.end_date.as_str()) {
        None => {
            return Some(Err(answer(400, "Invalid end_date format (YYYY-MM-DD)")));
        },
        Some(d) => d,
    };
    if ed < sd {
        return Some(Err(answer(400, "end_date must be after start_date")));
    }
    if ed == MAX_DAY as i64 {
        return Some(Err(answer(500, "Date calculation overflow")));
    }
    let qs = match zurich_midnight_of(sd) {
        None => {
            return None;
        },
        Some(t) => t,
    };
    let qe = match zurich_midnight_of(ed + 1) {
        None => {
            return None;
        },
        Some(t) => t,
    };
    let m = query.duration_minutes;
    if m < -MAX_DURATION_MINUTES || m > MAX_DURATION_MINUTES {
        return None;
    }
    if m <= 0 {
        return Some(Err(answer(400, "duration_minutes must be positive")));
    }
    Some(
        Ok(
            AvailabilityPlan {
                calendar_id: calendar_id.clone(),
                tier,
                query_start: qs,
                query_end: qe,
                first_day: sd,
                end_day: ed + 1,
                duration: (m as i128) * NANOS_PER_MIN,
            },
        ),
    )
}


/// The start of a slot as priced: its start seen in Zurich, floored to the minute, when
/// that local minute occurs exactly once.
pub open spec fn floored_start(t: ZonedTime) -> Option<ZonedTime> {
    let z = ZonedTime { nanos: t.nanos, zone: ZONE_ZURICH };
    resolve_local(ZONE_ZURICH, (local_nanos(z) / NANOS_PER_MIN as int) * 60)
}

/// The instant `t` seen in UTC.
pub open spec fn in_utc(t: ZonedTime) -> ZonedTime {
    ZonedTime { nanos: t.nanos, zone: ZONE_UTC }
}

/// Start and end (in UTC) of the priced slots: each slot's floored start, kept when its
/// local day lies in the window's days; `None` where adding the length overflows.
pub open spec fn priced_times(periods: Seq<Period>, first_day: int, end_day: int, dur: int) -> Option<Seq<(ZonedTime, ZonedTime)>>
    decreases periods.len(),
{
    if periods.len() == 0 {
        Some(seq![])
    } else {
        match priced_times(periods.drop_last(), first_day, end_day, dur) {
            None => None,
            Some(acc) => match floored_start(periods.last().0) {
                None => Some(acc),
                Some(f) => if first_day <= local_day(f) < end_day {
                    match checked_add(in_utc(f), dur) {
                        None => None,
                        Some(e) => Some(acc.push((in_utc(f), e))),
                    }
                } else {
                    Some(acc)
                },
            },
        }
    }
}

proof fn lemma_priced_none(periods: Seq<Period>, k: int, first_day: int, end_day: int, dur: int)
    requires
        0 <= k <= periods.len(),
        priced_times(periods.take(k), first_day, end_day, dur) is None,
    ensures
        priced_times(periods, first_day, end_day, dur) is None,
    decreases periods.len() - k,
{
    if k < periods.len() {
        assert(periods.take(k + 1).drop_last() =~= periods.take(k));
        lemma_priced_none(periods, k + 1, first_day, end_day, dur);
    } else {
        assert(periods.take(k) =~= periods);
    }
}

/// The rules of the availability search: every day from 00:00 to 23:59:59, no buffer,
/// a step of 15 minutes.
pub open spec fn availability_rules(plan: AvailabilityPlan) -> SlotRules {
    SlotRules {
        query_start: plan.query_start,
        query_end: plan.query_end,
        duration: plan.duration,
        work_start: 0,
        work_end: 86_399_000_000_000i64,
        buffer: 0,
        step: 900_000_000_000i128,
    }
}

pub open spec fn every_day() -> Seq<Weekday> {
    seq![Weekday::Mon, Weekday::Tue, Weekday::Wed, Weekday::Thu, Weekday::Fri, Weekday::Sat, Weekday::Sun]
}

/// The currency of a priced slot: the tier's, else the configured default, else `USD`.
pub open spec fn slot_currency(tier: PriceTier, default_currency: Option<String>) -> Seq<char> {
    match tier.currency {
        Some(c) => c@,
        None => match default_currency {
            Some(c) => c@,
            None => "USD"@,
        },
    }
}

/// The priced slots of a window given the calendar's busy periods. `None` where the
/// search cannot complete or a slot's end leaves `chrono`'s range (where the handler
/// panics).
pub open spec fn priced_slots_spec(
    plan: AvailabilityPlan,
    busy: Seq<Period>,
    tier: PriceTier,
    default_currency: Option<String>,
    duration_minutes: i64,
    r: Option<AvailableSlotsResponse>,
) -> bool {
    match available_slots(availability_rules(plan), every_day(), busy) {
        None => r is None,
        Some(s) => match priced_times(s, plan.first_day as int, plan.end_day as int, plan.duration as int) {
            None => r is None,
            Some(ts) => r matches Some(resp) && resp.slots@.len() == ts.len() && forall|i: int|
                0 <= i < ts.len() ==> {
                    let x = #[trigger] resp.slots@[i];
                    &&& x.start_time@ == rfc3339_text(ZONE_UTC as int, ts[i].0.nanos as int)
                    &&& x.end_time@ == rfc3339_text(ZONE_UTC as int, ts[i].1.nanos as int)
                    &&& x.duration_minutes == duration_minutes
                    &&& x.price == tier.unit_amount
                    &&& x.currency@ == slot_currency(tier, default_currency)
                    &&& opt_view(x.product_name) == opt_view(tier.product_name)
                },
        },
    }
}

fn floored_start_of(t: ZonedTime) -> (r: Option<ZonedTime>)
    requires
        t.wf(),
    ensures
        r == floored_start(t),
        r matches Some(x) ==> x.wf() && x.zone == ZONE_ZURICH,
{
    let z = ZonedTime { nanos: t.nanos, zone: ZONE_ZURICH };
    let l = local_time(z);
    let q = l / NANOS_PER_MIN;
    let m = l % NANOS_PER_MIN;
    let minutes = if m < 0 {
        q - 1
    } else {
        q
    };
    assert(minutes as int == local_nanos(z) / NANOS_PER_MIN as int);
    let secs = (minutes * 60) as i64;
    resolve_local_second(ZONE_ZURICH, secs)
}

fn copy_opt(o: &Option<String>) -> (r: Option<String>)
    ensures
        opt_view(r) == opt_view(*o),
{
    match o {
        Some(s) => Some(s.clone()),
        None => None,
    }
}

/// Prices the free slots of a window, given the calendar's busy periods (in UTC).
pub fn priced_availability(
    plan: &AvailabilityPlan,
    busy: &[Period],
    tier: &PriceTier,
    default_currency: &Option<String>,
    duration_minutes: i64,
) -> (r: Option<AvailableSlotsResponse>)
    requires
        availability_rules(*plan).wf(),
        periods_wf(busy@),
    ensures
        priced_slots_spec(*plan, busy@, *tier, *default_currency, duration_minutes, r),
{
    let work_end = time_of_day_hms(23, 59, 59);
    let rules = SlotRules {
        query_start: plan.query_start,
        query_end: plan.query_end,
        duration: plan.duration,
        work_start: 0,
        work_end,
        buffer: 0,
        step: 900_000_000_000,
    };
    assert(rules == availability_rules(*plan));
    let days = vec![Weekday::Mon, Weekday::Tue, Weekday::Wed, Weekday::Thu, Weekday::Fri, Weekday::Sat, Weekday::Sun];
    assert(days@ =~= every_day());
    let periods = match available_slot_periods(rules, busy, days.as_slice()) {
        None => {
            return None;
        },
        Some(p) => p,
    };
    let currency_text = match &tier.currency {
        Some(c) => c.clone(),
        None => match default_currency {
            Some(c) => c.clone(),
            None => owned("USD"),
        },
    };
    let mut slots: Vec<PricedSlot> = Vec::new();
    let ghost mut ts: Seq<(ZonedTime, ZonedTime)> = seq![];
    let mut i: usize = 0;
    assert(periods@.take(0) =~= Seq::<Period>::empty());
    while i < periods.len()
        invariant
            0 <= i <= periods@.len(),
            periods_wf(periods@),
            available_slots(availability_rules(*plan), every_day(), busy@) == Some(periods@),
            delta_in_range_of(plan.duration),
            currency_text@ == slot_currency(*tier, *default_currency),
            priced_times(periods@.take(i as int), plan.first_day as int, plan.end_day as int, plan.duration as int)
                == Some(ts),
            slots@.len() == ts.len(),
            forall|k: int|
                0 <= k < ts.len() ==> {
                    let x = #[trigger] slots@[k];
                    &&& x.start_time@ == rfc3339_text(ZONE_UTC as int, ts[k].0.nanos as int)
                    &&& x.end_time@ == rfc3339_text(ZONE_UTC as int, ts[k].1.nanos as int)
                    &&& x.duration_minutes == duration_minutes
                    &&& x.price == tier.unit_amount
                    &&& x.currency@ == slot_currency(*tier, *default_currency)
                    &&& opt_view(x.product_name) == opt_view(tier.product_name)
                },
        decreases periods@.len() - i,
    {
        let p = periods[i];
        proof {
            assert(periods@.take(i + 1).drop_last() =~= periods@.take(i as int));
            assert(periods@.take(i + 1).last() == p);
        }
        match floored_start_of(p.0) {
            None => {},
            Some(f) => {
                let day = day_of_local(local_time(f));
                if plan.first_day as i128 <= day && day < plan.end_day as i128 {
                    let start = ZonedTime { nanos: f.nanos, zone: ZONE_UTC };
                    match add_checked(start, plan.duration) {
                        None => {
                            proof {
                                assert(start == in_utc(f));
                                assert(local_day(f) == day);
                                assert(priced_times(periods@.take(i + 1), plan.first_day as int, plan.end_day as int, plan.duration as int) is None);
                                lemma_priced_none(periods@, i + 1, plan.first_day as int, plan.end_day as int, plan.duration as int);
                            }
                            return None;
                        },
                        Some(e) => {
                            let slot = PricedSlot {
                                start_time: format_rfc3339(start),
                                end_time: format_rfc3339(e),
                                duration_minutes,
                                price: tier.unit_amount,
                                currency: currency_text.clone(),
                                product_name: copy_opt(&tier.product_name),
                            };
                            slots.push(slot);
                            proof {
                                ts = ts.push((start, e));
                            }
                        },
                    }
                }
            },
        }
        i += 1;
    }
    assert(periods@.take(periods@.len() as int) =~= periods@);
    Some(AvailableSlotsResponse { slots })
}

pub open spec fn delta_in_range_of(d: i128) -> bool {
    crate::time::delta_in_range(d as int)
}


pub open spec fn instant_le(a: (int, int), b: (int, int)) -> bool {
    !instant_lt(b, a)
}

/// What the booking handler reads before it asks the calendar: the calendar and the
/// requested start and end. `None` where the handler panics (no calendar configured).
pub open spec fn booking_check_spec(config: AppConfig, req: BookSlotRequest, r: Option<Result<(String, Instant, Instant), HttpAnswer>>) -> bool {
    if config.gcal is None {
        r is None
    } else {
        match rfc3339_parsed(req.start_time@) {
            Err(_) => r matches Some(Err(a)) && answer_is(a, 400, "Invalid start_time format"@),
            Ok(s) => match rfc3339_parsed(req.end_time@) {
                Err(_) => r matches Some(Err(a)) && answer_is(a, 400, "Invalid end_time format"@),
                Ok(e) => match config.gcal->0.calendar_id {
                    None => r is None,
                    Some(c) => r matches Some(Ok(x)) && x.0 == c && instant_view(x.1) == s && instant_view(x.2) == e,
                },
            },
        }
    }
}

pub fn booking_check(config: &AppConfig, req: &BookSlotRequest) -> (r: Option<Result<(String, Instant, Instant), HttpAnswer>>)
    ensures
        booking_check_spec(*config, *req, r),
{
    let gcal = match &config.gcal {
        None => {
            return None;
        },
        Some(g) => g,
    };
    let s = match parse_rfc3339(req.start_time.as_str()) {
        Err(_) => {
            return Some(Err(answer(400, "Invalid start_time format")));
        },
        Ok(x) => x,
    };
    let e = match parse_rfc3339(req.end_time.as_str()) {
        Err(_) => {
            return Some(Err(answer(400, "Invalid end_time format")));
        },
        Ok(x) => x,
    };
    match &gcal.calendar_id {
        None => None,
        Some(c) => Some(Ok((c.clone(), s, e))),
    }
}

/// Whether a busy period keeps the slot from `start` to `end` (it does unless it ends
/// by the start or begins at the end or later).
pub open spec fn blocks(b: (Instant, Instant), start: Instant, end: Instant) -> bool {
    !(instant_le(instant_view(b.1), instant_view(start)) || instant_le(instant_view(end), instant_view(b.0)))
}

/// Whether the requested slot is taken by one of the busy periods.
pub fn slot_taken(start: Instant, end: Instant, busy: &[(Instant, Instant)]) -> (t: bool)
    ensures
        t == exists|i: int| 0 <= i < busy@.len() && blocks(#[trigger] busy@[i], start, end),
{
    let mut i: usize = 0;
    while i < busy.len()
        invariant
            0 <= i <= busy@.len(),
            forall|k: int| 0 <= k < i ==> !blocks(#[trigger] busy@[k], start, end),
        decreases busy@.len() - i,
    {
        let b = busy[i];
        if !(!instant_less(start, b.1) || !instant_less(b.0, end)) {
            assert(blocks(busy@[i as int], start, end));
            return true;
        }
        i += 1;
    }
    false
}

/// The handler's answer when the slot is taken.
pub fn slot_taken_answer() -> (a: HttpAnswer)
    ensures
        answer_is(a, 409, "Requested time slot is no longer available"@),
{
    answer(409, "Requested time slot is no longer available")
}

/// The appointment that a booking request asks for.
pub fn calendar_event_of(req: BookSlotRequest) -> (e: CalendarEvent)
    ensures
        e.start_time == req.start_time,
        e.end_time == req.end_time,
        e.summary == req.summary,
        e.description == req.description,
        e.payment_method == req.payment_method,
        e.payment_id == req.payment_id,
        e.payment_amount == req.payment_amount,
        e.room_name == req.room_name,
{
    CalendarEvent {
        start_time: req.start_time,
        end_time: req.end_time,
        summary: req.summary,
        description: req.description,
        payment_method: req.payment_method,
        payment_id: req.payment_id,
        payment_amount: req.payment_amount,
        room_name: req.room_name,
    }
}

/// The booking handler's answer to the outcome of creating the event.
pub fn booking_answer(r: Result<CalendarEventResult, GcalError>) -> (a: Result<BookingResponse, HttpAnswer>)
    ensures
        match r {
            Ok(x) => a matches Ok(b) && b.success && b.event_id == x.event_id && b.message@
                == "Appointment booked successfully."@,
            Err(GcalError::Conflict) => a matches Err(x) && answer_is(x, 409, "Requested time slot is no longer available."@),
            Err(_) => a matches Err(x) && answer_is(x, 500, "Failed to book appointment."@),
        },
{
    match r {
        Ok(x) => Ok(
            BookingResponse {
                success: true,
                event_id: x.event_id,
                message: owned("Appointment booked successfully."),
            },
        ),
        Err(GcalError::Conflict) => Err(answer(409, "Requested time slot is no longer available.")),
        Err(_) => Err(answer(500, "Failed to book appointment.")),
    }
}

/// The start and end of an appointment: both must read as RFC 3339 and the end must come
/// after the start.
pub open spec fn event_times_spec(ev: CalendarEvent, r: Result<(Instant, Instant), GcalServiceError>) -> bool {
    match rfc3339_parsed(ev.start_time@) {
        Err(m) => r matches Err(GcalServiceError::TimeParseError(x)) && x@ == "Invalid start_time: "@ + m,
        Ok(s) => match rfc3339_parsed(ev.end_time@) {
            Err(m) => r matches Err(GcalServiceError::TimeParseError(x)) && x@ == "Invalid end_time: "@ + m,
            Ok(e) => if instant_le(e, s) {
                r matches Err(GcalServiceError::CalculationError(x)) && x@ == "End time must be after start time"@
            } else {
                r matches Ok(p) && instant_view(p.0) == s && instant_view(p.1) == e
            },
        },
    }
}

pub fn event_times(ev: &CalendarEvent) -> (r: Result<(Instant, Instant), GcalServiceError>)
    ensures
        event_times_spec(*ev, r),
{
    let s = match parse_rfc3339(ev.start_time.as_str()) {
        Err(m) => {
            return Err(GcalServiceError::TimeParseError(concat("Invalid start_time: ", m.as_str())));
        },
        Ok(x) => x,
    };
    let e = match parse_rfc3339(ev.end_time.as_str()) {
        Err(m) => {
            return Err(GcalServiceError::TimeParseError(concat("Invalid end_time: ", m.as_str())));
        },
        Ok(x) => x,
    };
    if !instant_less(s, e) {
        return Err(GcalServiceError::CalculationError(owned("End time must be after start time")));
    }
    Ok((s, e))
}

/// Whether a busy period overlaps the appointment from `start` to `end`.
pub open spec fn overlaps_event(b: (Instant, Instant), start: Instant, end: Instant) -> bool {
    instant_lt(instant_view(start), instant_view(b.1)) && instant_lt(instant_view(b.0), instant_view(end))
}

/// The outcome of checking an appointment against the calendar's busy periods: a
/// `Conflict` when one overlaps it.
pub fn event_conflict(start: Instant, end: Instant, busy: &[(Instant, Instant)]) -> (r: Result<(), GcalServiceError>)
    ensures
        r is Ok <==> !exists|i: int| 0 <= i < busy@.len() && overlaps_event(#[trigger] busy@[i], start, end),
        r is Err ==> r matches Err(GcalServiceError::Conflict),
{
    let mut i: usize = 0;
    while i < busy.len()
        invariant
            0 <= i <= busy@.len(),
            forall|k: int| 0 <= k < i ==> !overlaps_event(#[trigger] busy@[k], start, end),
        decreases busy@.len() - i,
    {
        let b = busy[i];
        if instant_less(start, b.1) && instant_less(b.0, end) {
            assert(overlaps_event(busy@[i as int], start, end));
            return Err(GcalServiceError::Conflict);
        }
        i += 1;
    }
    Ok(())
}

/// What the service reports of a created event: its id, and its status (`confirmed`
/// when the calendar gives none).
pub fn created_event_result(id: Option<String>, status: Option<String>) -> (r: CalendarEventResult)
    ensures
        r.event_id == id,
        r.status@ == match status {
            Some(s) => s@,
            None => "confirmed"@,
        },
{
    CalendarEventResult {
        event_id: id,
        status: match status {
            Some(s) => s,
            None => owned("confirmed"),
        },
    }
}



/// The busy periods that have both a start and an end, in order.
pub open spec fn complete_periods(ps: Seq<(Option<Instant>, Option<Instant>)>) -> Seq<(Instant, Instant)>
    decreases ps.len(),
{
    if ps.len() == 0 {
        seq![]
    } else {
        let r = complete_periods(ps.drop_last());
        match ps.last() {
            (Some(a), Some(b)) => r.push((a, b)),
            _ => r,
        }
    }
}

/// Inserting `x` after every period that does not start later.
pub open spec fn insert_by_instant(s: Seq<(Instant, Instant)>, x: (Instant, Instant)) -> Seq<(Instant, Instant)>
    decreases s.len(),
{
    if s.len() == 0 {
        seq![x]
    } else if instant_le(instant_view(s.last().0), instant_view(x.0)) {
        s.push(x)
    } else {
        insert_by_instant(s.drop_last(), x).push(s.last())
    }
}

/// Stable sort by start (`sort_by_key` on the start).
pub open spec fn sort_by_instant(s: Seq<(Instant, Instant)>) -> Seq<(Instant, Instant)>
    decreases s.len(),
{
    if s.len() == 0 {
        s
    } else {
        insert_by_instant(sort_by_instant(s.drop_last()), s.last())
    }
}

proof fn lemma_insert_instant_at(s: Seq<(Instant, Instant)>, x: (Instant, Instant), p: int)
    requires
        0 <= p <= s.len(),
        forall|j: int| p <= j < s.len() ==> instant_lt(instant_view(x.0), instant_view(#[trigger] s[j].0)),
        p > 0 ==> instant_le(instant_view(s[p - 1].0), instant_view(x.0)),
    ensures
        insert_by_instant(s, x) == s.insert(p, x),
    decreases s.len(),
{
    if s.len() == 0 {
        assert(s.insert(p, x) =~= seq![x]);
    } else if instant_le(instant_view(s.last().0), instant_view(x.0)) {
        assert(p == s.len());
        assert(s.insert(p, x) =~= s.push(x));
    } else {
        lemma_insert_instant_at(s.drop_last(), x, p);
        assert(s.drop_last().insert(p, x).push(s.last()) =~= s.insert(p, x));
    }
}

/// The calendar's busy periods as the service returns them: those with a start and an
/// end, sorted by start, equal starts keeping their order.
pub fn collect_busy(periods: &[(Option<Instant>, Option<Instant>)]) -> (v: Vec<(Instant, Instant)>)
    ensures
        v@ == sort_by_instant(complete_periods(periods@)),
{
    let mut present: Vec<(Instant, Instant)> = Vec::new();
    let mut i: usize = 0;
    while i < periods.len()
        invariant
            0 <= i <= periods@.len(),
            present@ == complete_periods(periods@.take(i as int)),
        decreases periods@.len() - i,
    {
        proof {
            assert(periods@.take(i + 1).drop_last() =~= periods@.take(i as int));
            assert(periods@.take(i + 1).last() == periods@[i as int]);
        }
        match periods[i] {
            (Some(a), Some(b)) => present.push((a, b)),
            _ => {},
        }
        i += 1;
    }
    assert(periods@.take(periods@.len() as int) =~= periods@);
    let mut v: Vec<(Instant, Instant)> = Vec::new();
    let mut k: usize = 0;
    while k < present.len()
        invariant
            0 <= k <= present@.len(),
            v@ == sort_by_instant(present@.take(k as int)),
        decreases present@.len() - k,
    {
        let x = present[k];
        let mut p = v.len();
        while p > 0 && instant_less(x.0, v[p - 1].0)
            invariant
                0 <= p <= v@.len(),
                forall|j: int| p <= j < v@.len() ==> instant_lt(instant_view(x.0), instant_view(#[trigger] v@[j].0)),
            decreases p,
        {
            p -= 1;
        }
        proof {
            lemma_insert_instant_at(v@, x, p as int);
            assert(present@.take(k + 1).drop_last() =~= present@.take(k as int));
            assert(present@.take(k + 1).last() == x);
        }
        v.insert(p, x);
        k += 1;
    }
    assert(present@.take(present@.len() as int) =~= present@);
    v
}

/// Where the deletion of an event stands.
#[derive(Debug)]
pub enum DeleteState {
    /// Waiting for the event.
    Fetching,
    /// Waiting for the deletion; whether a failed deletion may restore the event first,
    /// and the event's sequence number.
    Deleting { cancelled: bool, sequence: Option<i32> },
    /// Waiting for the event to be restored.
    Restoring,
    /// Waiting for the deletion after the restore.
    DeletingAgain,
    /// Finished.
    Done(Result<(), GcalServiceError>),
}

/// What the calendar answered to the last action.
#[derive(Debug)]
pub enum CalendarReply {
    /// The event: its status and sequence number.
    Event { status: Option<String>, sequence: Option<i32> },
    /// The action succeeded.
    Succeeded,
    /// The action failed: the error's message.
    Failed(String),
}

/// What to do next.
#[derive(Debug)]
pub enum DeleteAction {
    GetEvent,
    /// Delete the event, telling attendees as `send_updates` says (`all` or `none`).
    DeleteEvent { send_updates: String },
    /// Patch the event back to `confirmed` with the next sequence number, telling nobody.
    RestoreEvent { status: String, sequence: i32, send_updates: String },
    Stop,
}

/// `send_updates` of a change: `all` when attendees are told, else `none`.
pub open spec fn updates_for(notify: bool) -> Seq<char> {
    if notify {
        "all"@
    } else {
        "none"@
    }
}

/// The next sequence number of an event: one more than its own, or 1.
pub open spec fn next_sequence(sequence: Option<i32>) -> int {
    match sequence {
        Some(n) => n + 1,
        None => 1,
    }
}

pub open spec fn has_text(hay: Seq<char>, needle: Seq<char>) -> bool {
    crate::text::has_substring(hay, needle)
}

/// One step of deleting an event: the state and the calendar's reply give the next state
/// and action. A missing event (an error mentioning 404) counts as deleted; a deletion
/// that fails on a cancelled event, or with an error mentioning 403 or 400, is retried
/// after restoring the event; if the restore fails the deletion is given up without error.
pub open spec fn delete_step_spec(state: DeleteState, reply: CalendarReply, notify: bool, r: (DeleteState, DeleteAction)) -> bool {
    match state {
        DeleteState::Fetching => match reply {
            CalendarReply::Event { status, sequence } => r.0 == DeleteState::Deleting {
                cancelled: opt_view(status) == Some("cancelled"@),
                sequence,
            } && (r.1 matches DeleteAction::DeleteEvent { send_updates } && send_updates@ == updates_for(notify)),
            CalendarReply::Succeeded => r.0 is Done && r.0->0 is Ok && r.1 is Stop,
            CalendarReply::Failed(m) => r.1 is Stop && if has_text(m@, "404"@) {
                r.0 matches DeleteState::Done(Ok(_))
            } else {
                r.0 matches DeleteState::Done(Err(GcalServiceError::ApiError(x))) && x == m
            },
        },
        DeleteState::Deleting { cancelled, sequence } => match reply {
            CalendarReply::Failed(m) => if cancelled || has_text(m@, "403"@) || has_text(m@, "400"@) {
                r.0 is Restoring && (r.1 matches DeleteAction::RestoreEvent { status, sequence: n, send_updates }
                    && status@ == "confirmed"@ && n == next_sequence(sequence) && send_updates@ == "none"@)
            } else {
                r.1 is Stop && (r.0 matches DeleteState::Done(Err(GcalServiceError::ApiError(x))) && x == m)
            },
            _ => r.0 matches DeleteState::Done(Ok(_)) && r.1 is Stop,
        },
        DeleteState::Restoring => match reply {
            CalendarReply::Failed(_) => r.0 matches DeleteState::Done(Ok(_)) && r.1 is Stop,
            _ => r.0 is DeletingAgain && (r.1 matches DeleteAction::DeleteEvent { send_updates } && send_updates@
                == updates_for(notify)),
        },
        DeleteState::DeletingAgain => r.1 is Stop && match reply {
            CalendarReply::Failed(m) => r.0 matches DeleteState::Done(Err(GcalServiceError::ApiError(x))) && x == m,
            _ => r.0 matches DeleteState::Done(Ok(_)),
        },
        DeleteState::Done(_) => r.0 == state && r.1 is Stop,
    }
}

fn updates(notify: bool) -> (s: String)
    ensures
        s@ == updates_for(notify),
{
    if notify {
        owned("all")
    } else {
        owned("none")
    }
}

/// The first action of a deletion: fetch the event.
pub fn delete_start() -> (r: (DeleteState, DeleteAction))
    ensures
        r.0 is Fetching,
        r.1 is GetEvent,
{
    (DeleteState::Fetching, DeleteAction::GetEvent)
}

pub fn delete_step(state: DeleteState, reply: CalendarReply, notify: bool) -> (r: (DeleteState, DeleteAction))
    requires
        state matches DeleteState::Deleting { sequence, .. } ==> sequence != Some(i32::MAX),
    ensures
        delete_step_spec(state, reply, notify, r),
{
    match state {
        DeleteState::Fetching => match reply {
            CalendarReply::Event { status, sequence } => {
                let cancelled = match &status {
                    Some(s) => crate::text::same_text(s.as_str(), "cancelled"),
                    None => false,
                };
                (DeleteState::Deleting { cancelled, sequence }, DeleteAction::DeleteEvent { send_updates: updates(notify) })
            },
            CalendarReply::Succeeded => (DeleteState::Done(Ok(())), DeleteAction::Stop),
            CalendarReply::Failed(m) => {
                if crate::text::contains_text(m.as_str(), "404") {
                    (DeleteState::Done(Ok(())), DeleteAction::Stop)
                } else {
                    (DeleteState::Done(Err(GcalServiceError::ApiError(m))), DeleteAction::Stop)
                }
            },
        },
        DeleteState::Deleting { cancelled, sequence } => match reply {
            CalendarReply::Failed(m) => {
                if cancelled || crate::text::contains_text(m.as_str(), "403") || crate::text::contains_text(
                    m.as_str(),
                    "400",
                ) {
                    let n: i32 = match sequence {
                        Some(k) => k + 1,
                        None => 1,
                    };
                    (
                        DeleteState::Restoring,
                        DeleteAction::RestoreEvent { status: owned("confirmed"), sequence: n, send_updates: owned("none") },
                    )
                } else {
                    (DeleteState::Done(Err(GcalServiceError::ApiError(m))), DeleteAction::Stop)
                }
            },
            _ => (DeleteState::Done(Ok(())), DeleteAction::Stop),
        },
        DeleteState::Restoring => match reply {
            CalendarReply::Failed(_) => (DeleteState::Done(Ok(())), DeleteAction::Stop),
            _ => (DeleteState::DeletingAgain, DeleteAction::DeleteEvent { send_updates: updates(notify) }),
        },
        DeleteState::DeletingAgain => match reply {
            CalendarReply::Failed(m) => (DeleteState::Done(Err(GcalServiceError::ApiError(m))), DeleteAction::Stop),
            _ => (DeleteState::Done(Ok(())), DeleteAction::Stop),
        },
        DeleteState::Done(x) => (DeleteState::Done(x), DeleteAction::Stop),
    }
}

/// The patch that marks an event cancelled: status `cancelled`, the next sequence number,
/// and attendees told as `notify` says.
pub fn cancel_patch(sequence: Option<i32>, notify: bool) -> (r: (String, i32, String))
    requires
        sequence != Some(i32::MAX),
    ensures
        r.0@ == "cancelled"@,
        r.1 == next_sequence(sequence),
        r.2@ == updates_for(notify),
{
    let n: i32 = match sequence {
        Some(k) => k + 1,
        None => 1,
    };
    (owned("cancelled"), n, updates(notify))
}

/// What the service reports of an event it marked cancelled: its id, and its status
/// (`cancelled` when the calendar gives none).
pub fn cancelled_event_result(id: Option<String>, status: Option<String>) -> (r: CalendarEventResult)
    ensures
        r.event_id == id,
        r.status@ == match status {
            Some(s) => s@,
            None => "cancelled"@,
        },
{
    CalendarEventResult {
        event_id: id,
        status: match status {
            Some(s) => s,
            None => owned("cancelled"),
        },
    }
}


/// Whether attendees are told: as the request says, by default yes.
pub fn notify_attendees(params: &CancelBookingRequest) -> (b: bool)
    ensures
        b == match params.notify_attendees {
            Some(x) => x,
            None => true,
        },
{
    match params.notify_attendees {
        Some(x) => x,
        None => true,
    }
}

/// The calendar the delete and cancel handlers act on; `None` where they panic (no
/// calendar configured).
pub fn handler_calendar(config: &AppConfig) -> (r: Option<String>)
    ensures
        match config.gcal {
            Some(g) => r == g.calendar_id,
            None => r is None,
        },
{
    match &config.gcal {
        Some(g) => match &g.calendar_id {
            Some(c) => Some(c.clone()),
            None => None,
        },
        None => None,
    }
}

/// The answer to a failed delete or cancel: 404 when the calendar API's error mentions
/// 404, otherwise 500 with `failure`.
pub open spec fn removal_failure(e: GcalError, failure: Seq<char>) -> (u16, Seq<char>) {
    match e {
        GcalError::ApiError(m) => if has_text(m@, "404"@) {
            (404, "Event not found."@)
        } else {
            (500, failure)
        },
        _ => (500, failure),
    }
}

fn removal_answer(r: Result<(), GcalError>, success: &str, failure: &str) -> (a: Result<CancellationResponse, HttpAnswer>)
    ensures
        match r {
            Ok(_) => a matches Ok(x) && x.success && x.message@ == success@,
            Err(e) => a matches Err(x) && x.0 == removal_failure(e, failure@).0 && x.1@ == removal_failure(
                e,
                failure@,
            ).1,
        },
{
    match r {
        Ok(_) => Ok(CancellationResponse { success: true, message: owned(success) }),
        Err(GcalError::ApiError(m)) => {
            if crate::text::contains_text(m.as_str(), "404") {
                Err(answer(404, "Event not found."))
            } else {
                Err(answer(500, failure))
            }
        },
        Err(_) => Err(answer(500, failure)),
    }
}

/// The delete handler's answer.
pub fn delete_answer(r: Result<(), GcalError>) -> (a: Result<CancellationResponse, HttpAnswer>)
    ensures
        match r {
            Ok(_) => a matches Ok(x) && x.success && x.message@ == "Event deleted successfully."@,
            Err(e) => a matches Err(x) && x.0 == removal_failure(e, "Failed to delete event."@).0 && x.1@
                == removal_failure(e, "Failed to delete event."@).1,
        },
{
    removal_answer(r, "Event deleted successfully.", "Failed to delete event.")
}

/// The cancel handler's answer.
pub fn cancel_answer(r: Result<CalendarEventResult, GcalError>) -> (a: Result<CancellationResponse, HttpAnswer>)
    ensures
        match r {
            Ok(_) => a matches Ok(x) && x.success && x.message@ == "Appointment marked as cancelled successfully."@,
            Err(e) => a matches Err(x) && x.0 == removal_failure(e, "Failed to mark appointment as cancelled."@).0
                && x.1@ == removal_failure(e, "Failed to mark appointment as cancelled."@).1,
        },
{
    let unit: Result<(), GcalError> = match r {
        Ok(_) => Ok(()),
        Err(e) => Err(e),
    };
    removal_answer(unit, "Appointment marked as cancelled successfully.", "Failed to mark appointment as cancelled.")
}

/// The booked-events handler's window: the calendar, UTC midnight of the first day to
/// UTC midnight after the last, and whether cancelled events are included (by default
/// not). `None` where the handler panics (no calendar, or the day after the last date
/// out of range).
pub open spec fn booked_window_spec(config: AppConfig, q: BookedEventsQuery, r: Option<Result<(String, ZonedTime, ZonedTime, bool), HttpAnswer>>) -> bool {
    if config.gcal is None {
        r is None
    } else {
        match epoch_day(q.start_date@) {
            None => r matches Some(Err(a)) && answer_is(a, 400, "Invalid start_date format (YYYY-MM-DD)"@),
            Some(sd) => match epoch_day(q.end_date@) {
                None => r matches Some(Err(a)) && answer_is(a, 400, "Invalid end_date format (YYYY-MM-DD)"@),
                Some(ed) => if ed < sd {
                    r matches Some(Err(a)) && answer_is(a, 400, "end_date must be after start_date"@)
                } else if ed == MAX_DAY || config.gcal->0.calendar_id is None {
                    r is None
                } else {
                    r matches Some(Ok(w)) && w.0 == config.gcal->0.calendar_id->0 && w.1 == ZonedTime {
                        nanos: (sd * NANOS_PER_DAY) as i128,
                        zone: ZONE_UTC,
                    } && w.2 == ZonedTime { nanos: ((ed + 1) * NANOS_PER_DAY) as i128, zone: ZONE_UTC } && w.3
                        == match q.include_cancelled {
                        Some(x) => x,
                        None => false,
                    }
                },
            },
        }
    }
}

pub fn booked_events_window(config: &AppConfig, query: &BookedEventsQuery) -> (r: Option<Result<(String, ZonedTime, ZonedTime, bool), HttpAnswer>>)
    ensures
        booked_window_spec(*config, *query, r),
        r matches Some(Ok(w)) ==> w.1.wf() && w.2.wf(),
{
    let gcal = match &config.gcal {
        None => {
            return None;
        },
        Some(g) => g,
    };
    let sd = match parse_date(query.start_date.as_str()) {
        None => {
            return Some(Err(answer(400, "Invalid start_date format (YYYY-MM-DD)")));
        },
        Some(d) => d,
    };
    let ed = match parse_date(query.end_date.as_str()) {
        None => {
            return Some(Err(answer(400, "Invalid end_date format (YYYY-MM-DD)")));
        },
        Some(d) => d,
    };
    if ed < sd {
        return Some(Err(answer(400, "end_date must be after start_date")));
    }
    if ed == MAX_DAY as i64 {
        return None;
    }
    let with_cancelled = match query.include_cancelled {
        Some(x) => x,
        None => false,
    };
    match &gcal.calendar_id {
        None => None,
        Some(c) => Some(
            Ok(
                (
                    c.clone(),
                    ZonedTime { nanos: (sd as i128) * NANOS_PER_DAY, zone: ZONE_UTC },
                    ZonedTime { nanos: ((ed + 1) as i128) * NANOS_PER_DAY, zone: ZONE_UTC },
                    with_cancelled,
                ),
            ),
        ),
    }
}

/// The answer when the booked events could not be fetched.
pub fn booked_events_failure() -> (a: HttpAnswer)
    ensures
        answer_is(a, 500, "Failed to fetch booked events"@),
{
    answer(500, "Failed to fetch booked events")
}

/// The time of a calendar entry: an instant, or an all-day date (`num_days_from_ce`).
#[derive(Debug)]
pub struct EventTimeFields {
    pub date_time: Option<ZonedTime>,
    pub date: Option<i32>,
}

/// An event as the calendar lists it.
#[derive(Debug)]
pub struct CalendarItem {
    pub id: Option<String>,
    pub summary: Option<String>,
    pub description: Option<String>,
    pub status: Option<String>,
    pub start: Option<EventTimeFields>,
    pub end: Option<EventTimeFields>,
    pub created: Option<ZonedTime>,
    pub updated: Option<ZonedTime>,
}

/// The text of `chrono::NaiveDate`'s `Display` for the day `num_days_from_ce`.
pub uninterp spec fn ymd_text(ce_day: int) -> Seq<char>;

/// `NaiveDate::from_num_days_from_ce_opt(ce_day)` written with `to_string()`; the result is named.
#[verifier::external_body]
fn date_text(ce_day: i32) -> (s: String)
    requires
        MIN_DAY + CE_EPOCH_DAY <= ce_day <= MAX_DAY + CE_EPOCH_DAY,
    ensures
        s@ == ymd_text(ce_day as int),
{
    chrono::NaiveDate::from_num_days_from_ce_opt(ce_day).unwrap().to_string()
}

pub open spec fn time_fields_ok(t: Option<EventTimeFields>) -> bool {
    match t {
        Some(f) => (f.date_time matches Some(d) ==> d.wf()) && (f.date matches Some(d) ==> MIN_DAY
            + CE_EPOCH_DAY <= d <= MAX_DAY + CE_EPOCH_DAY),
        None => true,
    }
}

pub open spec fn item_ok(e: CalendarItem) -> bool {
    &&& time_fields_ok(e.start)
    &&& time_fields_ok(e.end)
    &&& e.created matches Some(d) ==> d.wf()
    &&& e.updated matches Some(d) ==> d.wf()
}

/// The text of an event's start or end: its instant in RFC 3339, else its date and
/// `day_time` (`T00:00:00Z` or `T23:59:59Z`), else `unknown`.
pub open spec fn time_text(t: Option<EventTimeFields>, day_time: Seq<char>, unknown: Seq<char>) -> Seq<char> {
    match t {
        Some(f) => match f.date_time {
            Some(d) => rfc3339_text(d.zone as int, d.nanos as int),
            None => match f.date {
                Some(day) => ymd_text(day as int) + day_time,
                None => unknown,
            },
        },
        None => unknown,
    }
}

pub open spec fn stamp_text(t: Option<ZonedTime>) -> Seq<char> {
    match t {
        Some(d) => rfc3339_text(d.zone as int, d.nanos as int),
        None => seq![],
    }
}

pub open spec fn text_or_empty(o: Option<String>) -> Seq<char> {
    match o {
        Some(s) => s@,
        None => seq![],
    }
}

/// A listed event as a booked event.
pub open spec fn booked_event_spec(e: CalendarItem, b: BookedEvent) -> bool {
    &&& b.event_id@ == text_or_empty(e.id)
    &&& b.summary@ == text_or_empty(e.summary)
    &&& opt_view(b.description) == opt_view(e.description)
    &&& b.start_time@ == time_text(e.start, "T00:00:00Z"@, "Unknown start time"@)
    &&& b.end_time@ == time_text(e.end, "T23:59:59Z"@, "Unknown end time"@)
    &&& b.status@ == match e.status {
        Some(s) => s@,
        None => "confirmed"@,
    }
    &&& b.created@ == stamp_text(e.created)
    &&& b.updated@ == stamp_text(e.updated)
    &&& b.payment_method is None
    &&& b.payment_id is None
    &&& b.payment_amount is None
    &&& b.room_name is None
}

fn time_text_of(t: &Option<EventTimeFields>, day_time: &str, unknown: &str) -> (s: String)
    requires
        time_fields_ok(*t),
    ensures
        s@ == time_text(*t, day_time@, unknown@),
{
    match t {
        Some(f) => match &f.date_time {
            Some(d) => format_rfc3339(*d),
            None => match f.date {
                Some(day) => {
                    let mut x = date_text(day);
                    x.append(day_time);
                    x
                },
                None => owned(unknown),
            },
        },
        None => owned(unknown),
    }
}

fn stamp_text_of(t: &Option<ZonedTime>) -> (s: String)
    requires
        t matches Some(d) ==> d.wf(),
    ensures
        s@ == stamp_text(*t),
{
    match t {
        Some(d) => format_rfc3339(*d),
        None => String::new(),
    }
}

fn text_or_empty_of(o: &Option<String>) -> (s: String)
    ensures
        s@ == text_or_empty(*o),
{
    match o {
        Some(x) => x.clone(),
        None => String::new(),
    }
}

pub fn booked_event_of(e: &CalendarItem) -> (b: BookedEvent)
    requires
        item_ok(*e),
    ensures
        booked_event_spec(*e, b),
{
    BookedEvent {
        event_id: text_or_empty_of(&e.id),
        summary: text_or_empty_of(&e.summary),
        description: copy_opt(&e.description),
        start_time: time_text_of(&e.start, "T00:00:00Z", "Unknown start time"),
        end_time: time_text_of(&e.end, "T23:59:59Z", "Unknown end time"),
        status: match &e.status {
            Some(s) => s.clone(),
            None => owned("confirmed"),
        },
        created: stamp_text_of(&e.created),
        updated: stamp_text_of(&e.updated),
        payment_method: None,
        payment_id: None,
        payment_amount: None,
        room_name: None,
    }
}

/// Whether a listed event is left out: cancelled events are, unless they are asked for.
pub open spec fn skipped(e: CalendarItem, include_cancelled: bool) -> bool {
    !include_cancelled && opt_view(e.status) == Some("cancelled"@)
}

/// The events kept, in order.
pub open spec fn kept_events(items: Seq<CalendarItem>, include_cancelled: bool) -> Seq<CalendarItem>
    decreases items.len(),
{
    if items.len() == 0 {
        seq![]
    } else {
        let r = kept_events(items.drop_last(), include_cancelled);
        if skipped(items.last(), include_cancelled) {
            r
        } else {
            r.push(items.last())
        }
    }
}

/// The booked events of a calendar listing.
pub fn booked_events(items: &Vec<CalendarItem>, include_cancelled: bool) -> (v: Vec<BookedEvent>)
    requires
        forall|i: int| 0 <= i < items@.len() ==> item_ok(#[trigger] items@[i]),
    ensures
        v@.len() == kept_events(items@, include_cancelled).len(),
        forall|i: int|
            0 <= i < v@.len() ==> booked_event_spec(kept_events(items@, include_cancelled)[i], #[trigger] v@[i]),
{
    let mut v: Vec<BookedEvent> = Vec::new();
    let mut i: usize = 0;
    while i < items.len()
        invariant
            0 <= i <= items@.len(),
            forall|k: int| 0 <= k < items@.len() ==> item_ok(#[trigger] items@[k]),
            v@.len() == kept_events(items@.take(i as int), include_cancelled).len(),
            forall|k: int|
                0 <= k < v@.len() ==> booked_event_spec(
                    kept_events(items@.take(i as int), include_cancelled)[k],
                    #[trigger] v@[k],
                ),
        decreases items@.len() - i,
    {
        let e = &items[i];
        proof {
            assert(items@.take(i + 1).drop_last() =~= items@.take(i as int));
            assert(items@.take(i + 1).last() == items@[i as int]);
        }
        let cancelled = match &e.status {
            Some(s) => crate::text::same_text(s.as_str(), "cancelled"),
            None => false,
        };
        if !(!include_cancelled && cancelled) {
            let b = booked_event_of(e);
            v.push(b);
        }
        i += 1;
    }
    assert(items@.take(items@.len() as int) =~= items@);
    v
}


/// The OpenAPI description of the calendar endpoints (its contents are generated for the server).
#[derive(Debug)]
pub struct GcalApiDoc;

} // verus!
