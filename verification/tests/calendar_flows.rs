use chrono::{TimeZone, Utc};
use connectify::config::{AppConfig, GcalConfig, PriceTier, ServerConfig, StripeConfig};
use connectify::gcal::{
    availability_check, booked_event_of, booked_events, booked_events_window, booking_answer, booking_check,
    cancel_answer, cancel_patch, cancelled_event_result, collect_busy, created_event_result, delete_answer,
    delete_start, delete_step, event_conflict, event_times, notify_attendees, priced_availability, slot_taken,
    AvailabilityQuery, BookSlotRequest, BookedEventsQuery, CalendarEvent, CalendarEventResult, CalendarItem,
    CalendarReply, CancelBookingRequest, DeleteAction, DeleteState, EventTimeFields, GcalError, GcalServiceError,
};
use connectify::time::{ZonedTime, ZONE_UTC};

fn config(with_calendar: bool) -> AppConfig {
    AppConfig {
        use_gcal: true,
        use_stripe: true,
        use_twilio: false,
        use_payrexx: false,
        use_fulfillment: false,
        use_calendly: false,
        use_adhoc: false,
        server: ServerConfig { host: "h".into(), port: 1 },
        database: None,
        gcal: Some(GcalConfig {
            calendar_id: if with_calendar { Some("primary".into()) } else { None },
            key_path: None,
            time_slot_duration: None,
            preparation_time_minutes: None,
            time_zone: None,
            working_days: None,
            work_start_time: None,
            work_end_time: None,
        }),
        stripe: Some(StripeConfig {
            success_url: "s".into(),
            cancel_url: "c".into(),
            unit_amount: None,
            product_name: None,
            payment_success_url: "p".into(),
            price_tiers: vec![PriceTier {
                duration_minutes: 60,
                unit_amount: 12000,
                currency: None,
                product_name: Some("Hour".into()),
            }],
            default_currency: None,
        }),
        twilio: None,
        payrexx: None,
        fulfillment: None,
    }
}

fn query(start: &str, end: &str, minutes: i64) -> AvailabilityQuery {
    AvailabilityQuery { start_date: start.into(), end_date: end.into(), duration_minutes: minutes }
}

fn message(r: Option<Result<connectify::gcal::AvailabilityPlan, (u16, String)>>) -> (u16, String) {
    match r {
        Some(Err(a)) => a,
        other => panic!("{:?}", other),
    }
}

#[test]
fn availability_checks() {
    let mut cfg = config(true);
    assert_eq!(message(availability_check(&cfg, &query("2025-05-05", "2025-05-06", 45))).1, "No service offered for 45 minute duration.");
    assert_eq!(message(availability_check(&cfg, &query("05/05/2025", "2025-05-06", 60))).1, "Invalid start_date format (YYYY-MM-DD)");
    assert_eq!(message(availability_check(&cfg, &query("2025-05-05", "x", 60))).1, "Invalid end_date format (YYYY-MM-DD)");
    assert_eq!(message(availability_check(&cfg, &query("2025-05-06", "2025-05-05", 60))), (400, "end_date must be after start_date".to_string()));
    cfg.use_gcal = false;
    assert_eq!(message(availability_check(&cfg, &query("2025-05-05", "2025-05-06", 60))).0, 503);
    assert_eq!(message(availability_check(&config(false), &query("2025-05-05", "2025-05-06", 60))).1, "Server configuration error: GCal calendar ID missing.");
    let mut no_pricing = config(true);
    no_pricing.stripe = None;
    assert_eq!(message(availability_check(&no_pricing, &query("2025-05-05", "2025-05-06", 60))).1, "Pricing configuration error on server.");
}

#[test]
fn availability_window_is_zurich_midnight() {
    let plan = availability_check(&config(true), &query("2025-05-05", "2025-05-05", 60)).unwrap().unwrap();
    let start = Utc.with_ymd_and_hms(2025, 5, 4, 22, 0, 0).unwrap();
    let end = Utc.with_ymd_and_hms(2025, 5, 5, 22, 0, 0).unwrap();
    assert_eq!(plan.query_start, ZonedTime { nanos: start.timestamp() as i128 * 1_000_000_000, zone: ZONE_UTC });
    assert_eq!(plan.query_end, ZonedTime { nanos: end.timestamp() as i128 * 1_000_000_000, zone: ZONE_UTC });
    assert_eq!(plan.calendar_id, "primary");
    assert_eq!(plan.tier, 0);
    assert_eq!(plan.end_day - plan.first_day, 1);
}

#[test]
fn priced_slots_of_a_busy_day() {
    let cfg = config(true);
    let plan = availability_check(&cfg, &query("2025-05-05", "2025-05-05", 60)).unwrap().unwrap();
    let busy_start = Utc.with_ymd_and_hms(2025, 5, 4, 23, 0, 0).unwrap();
    let busy_end = Utc.with_ymd_and_hms(2025, 5, 5, 20, 0, 0).unwrap();
    let busy = vec![(
        ZonedTime { nanos: busy_start.timestamp() as i128 * 1_000_000_000, zone: ZONE_UTC },
        ZonedTime { nanos: busy_end.timestamp() as i128 * 1_000_000_000, zone: ZONE_UTC },
    )];
    let stripe = cfg.stripe.as_ref().unwrap();
    let resp = priced_availability(&plan, &busy, &stripe.price_tiers[0], &stripe.default_currency, 60).unwrap();
    let starts: Vec<&str> = resp.slots.iter().map(|s| s.start_time.as_str()).collect();
    assert_eq!(starts, vec!["2025-05-04T22:00:00+00:00", "2025-05-05T20:00:00+00:00", "2025-05-05T21:00:00+00:00"]);
    assert_eq!(resp.slots[0].end_time, "2025-05-04T23:00:00+00:00");
    assert_eq!(resp.slots[0].currency, "USD");
    assert_eq!(resp.slots[0].price, 12000);
    assert_eq!(resp.slots[0].product_name, Some("Hour".to_string()));
}

fn book_request(start: &str, end: &str) -> BookSlotRequest {
    BookSlotRequest {
        start_time: start.into(),
        end_time: end.into(),
        summary: "Talk".into(),
        description: None,
        payment_method: None,
        payment_id: None,
        payment_amount: None,
        room_name: None,
    }
}

#[test]
fn booking_checks_and_conflicts() {
    let cfg = config(true);
    match booking_check(&cfg, &book_request("bad", "2025-05-05T10:00:00Z")) {
        Some(Err((400, m))) => assert_eq!(m, "Invalid start_time format"),
        other => panic!("{:?}", other),
    }
    match booking_check(&cfg, &book_request("2025-05-05T10:00:00Z", "later")) {
        Some(Err((400, m))) => assert_eq!(m, "Invalid end_time format"),
        other => panic!("{:?}", other),
    }
    assert!(booking_check(&config(false), &book_request("2025-05-05T10:00:00Z", "2025-05-05T11:00:00Z")).is_none());
    let (cal, s, e) = booking_check(&cfg, &book_request("2025-05-05T10:00:00Z", "2025-05-05T11:00:00+00:00"))
        .unwrap()
        .unwrap();
    assert_eq!(cal, "primary");
    let busy_before = ((s.0 - 3600, 0), s);
    let busy_overlap = ((s.0 + 1800, 0), (e.0 + 1800, 0));
    assert!(!slot_taken(s, e, &[busy_before]));
    assert!(slot_taken(s, e, &[busy_before, busy_overlap]));
    assert!(event_conflict(s, e, &[busy_before]).is_ok());
    assert!(matches!(event_conflict(s, e, &[busy_overlap]), Err(GcalServiceError::Conflict)));
}

#[test]
fn event_time_errors() {
    let ev = |a: &str, b: &str| CalendarEvent {
        start_time: a.into(),
        end_time: b.into(),
        summary: "x".into(),
        description: None,
        payment_method: None,
        payment_id: None,
        payment_amount: None,
        room_name: None,
    };
    match event_times(&ev("2025-05-05T10:00:00Z", "2025-05-05T10:00:00Z")) {
        Err(GcalServiceError::CalculationError(m)) => assert_eq!(m, "End time must be after start time"),
        other => panic!("{:?}", other),
    }
    match event_times(&ev("nope", "2025-05-05T10:00:00Z")) {
        Err(GcalServiceError::TimeParseError(m)) => assert!(m.starts_with("Invalid start_time: ")),
        other => panic!("{:?}", other),
    }
}

#[test]
fn booking_answers() {
    let ok = booking_answer(Ok(CalendarEventResult { event_id: Some("ev1".into()), status: "confirmed".into() })).unwrap();
    assert!(ok.success);
    assert_eq!(ok.event_id, Some("ev1".to_string()));
    assert_eq!(ok.message, "Appointment booked successfully.");
    assert!(matches!(booking_answer(Err(GcalError::Conflict)), Err((409, _))));
    assert!(matches!(
        booking_answer(Err(GcalError::ServiceError(GcalServiceError::Conflict))),
        Err((500, _))
    ));
    assert_eq!(created_event_result(None, None).status, "confirmed");
    assert_eq!(cancelled_event_result(Some("e".into()), None).status, "cancelled");
}

#[test]
fn busy_periods_are_filtered_and_sorted() {
    let p = |s: i64| ((s, 0u32), (s + 10, 0u32));
    let periods = vec![
        (Some((50, 0)), Some((60, 0))),
        (None, Some((5, 0))),
        (Some((10, 0)), Some((20, 0))),
        (Some((50, 0)), Some((55, 0))),
    ];
    let v = collect_busy(&periods);
    assert_eq!(v, vec![p(10), ((50, 0), (60, 0)), ((50, 0), (55, 0))]);
}

#[test]
fn deleting_an_event_step_by_step() {
    let (s, a) = delete_start();
    assert!(matches!(s, DeleteState::Fetching) && matches!(a, DeleteAction::GetEvent));
    let (s, a) = delete_step(s, CalendarReply::Event { status: Some("cancelled".into()), sequence: Some(3) }, true);
    match &a {
        DeleteAction::DeleteEvent { send_updates } => assert_eq!(send_updates, "all"),
        other => panic!("{:?}", other),
    }
    let (s, a) = delete_step(s, CalendarReply::Failed("410 Gone".into()), true);
    match &a {
        DeleteAction::RestoreEvent { status, sequence, send_updates } => {
            assert_eq!(status, "confirmed");
            assert_eq!(*sequence, 4);
            assert_eq!(send_updates, "none");
        },
        other => panic!("{:?}", other),
    }
    let (s, _) = delete_step(s, CalendarReply::Succeeded, false);
    let (s, a) = delete_step(s, CalendarReply::Succeeded, false);
    assert!(matches!(s, DeleteState::Done(Ok(()))) && matches!(a, DeleteAction::Stop));
    let (s, _) = delete_step(DeleteState::Fetching, CalendarReply::Failed("HTTP 404 Not Found".into()), true);
    assert!(matches!(s, DeleteState::Done(Ok(()))));
    let (s, _) = delete_step(DeleteState::Fetching, CalendarReply::Failed("500 oops".into()), true);
    assert!(matches!(s, DeleteState::Done(Err(GcalServiceError::ApiError(m))) if m == "500 oops"));
    let (s, _) = delete_step(
        DeleteState::Deleting { cancelled: false, sequence: None },
        CalendarReply::Failed("500 oops".into()),
        true,
    );
    assert!(matches!(s, DeleteState::Done(Err(_))));
    let (s, _) = delete_step(DeleteState::Restoring, CalendarReply::Failed("x".into()), true);
    assert!(matches!(s, DeleteState::Done(Ok(()))));
}

#[test]
fn cancel_patch_and_answers() {
    let (status, seq, updates) = cancel_patch(None, false);
    assert_eq!((status.as_str(), seq, updates.as_str()), ("cancelled", 1, "none"));
    assert_eq!(cancel_patch(Some(7), true).1, 8);
    assert!(notify_attendees(&CancelBookingRequest { notify_attendees: None }));
    assert!(!notify_attendees(&CancelBookingRequest { notify_attendees: Some(false) }));
    assert_eq!(delete_answer(Ok(())).unwrap().message, "Event deleted successfully.");
    assert_eq!(delete_answer(Err(GcalError::ApiError("HTTP 404".into()))).unwrap_err(), (404, "Event not found.".to_string()));
    assert_eq!(delete_answer(Err(GcalError::Conflict)).unwrap_err(), (500, "Failed to delete event.".to_string()));
    assert_eq!(
        cancel_answer(Err(GcalError::ApiError("boom".into()))).unwrap_err(),
        (500, "Failed to mark appointment as cancelled.".to_string())
    );
}

#[test]
fn booked_events_window_and_listing() {
    let cfg = config(true);
    let q = BookedEventsQuery { start_date: "1970-01-02".into(), end_date: "1970-01-02".into(), include_cancelled: None };
    let (cal, start, end, with_cancelled) = booked_events_window(&cfg, &q).unwrap().unwrap();
    assert_eq!(cal, "primary");
    assert_eq!(start.nanos, 86_400_000_000_000);
    assert_eq!(end.nanos, 2 * 86_400_000_000_000);
    assert!(!with_cancelled);
    let bad = BookedEventsQuery { start_date: "1970-01-03".into(), end_date: "1970-01-02".into(), include_cancelled: None };
    assert!(matches!(booked_events_window(&cfg, &bad), Some(Err((400, _)))));
    let item = |status: Option<&str>| CalendarItem {
        id: Some("e1".into()),
        summary: None,
        description: Some("d".into()),
        status: status.map(|s| s.to_string()),
        start: Some(EventTimeFields { date_time: Some(ZonedTime { nanos: 0, zone: ZONE_UTC }), date: None }),
        end: Some(EventTimeFields { date_time: None, date: Some(719_163) }),
        created: None,
        updated: None,
    };
    let b = booked_event_of(&item(None));
    assert_eq!(b.start_time, "1970-01-01T00:00:00+00:00");
    assert_eq!(b.end_time, "1970-01-01T23:59:59Z");
    assert_eq!(b.status, "confirmed");
    assert_eq!(b.summary, "");
    assert_eq!(b.created, "");
    let items = vec![item(Some("cancelled")), item(Some("confirmed"))];
    assert_eq!(booked_events(&items, false).len(), 1);
    assert_eq!(booked_events(&items, true).len(), 2);
    let unknown = CalendarItem { start: None, end: Some(EventTimeFields { date_time: None, date: None }), ..item(None) };
    let b = booked_event_of(&unknown);
    assert_eq!(b.start_time, "Unknown start time");
    assert_eq!(b.end_time, "Unknown end time");
}
