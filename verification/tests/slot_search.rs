use chrono::{DateTime, Datelike, Duration, NaiveTime, TimeZone, Timelike, Utc};
use chrono_tz::Tz;
use connectify::slots::calculate_available_slots;
use connectify::time::{Weekday, ZonedTime, ZONE_UTC, ZONE_ZURICH};
use std::str::FromStr;

const MIN: i128 = 60_000_000_000;
const HOUR: i64 = 3_600_000_000_000;

fn utc(t: DateTime<Utc>) -> ZonedTime {
    ZonedTime { nanos: t.timestamp_nanos_opt().unwrap() as i128, zone: ZONE_UTC }
}

fn weekdays() -> Vec<Weekday> {
    vec![Weekday::Mon, Weekday::Tue, Weekday::Wed, Weekday::Thu, Weekday::Fri]
}

fn is_working(day: chrono::Weekday) -> bool {
    !matches!(day, chrono::Weekday::Sat | chrono::Weekday::Sun)
}

#[test]
fn test_calculate_available_slots_no_busy_periods() {
    let query_start = Utc.with_ymd_and_hms(2025, 5, 5, 0, 0, 0).unwrap();
    let query_end = query_start + Duration::days(1);
    let busy_periods: Vec<(ZonedTime, ZonedTime)> = Vec::new();
    let duration = Duration::minutes(60);
    let work_start = NaiveTime::from_hms_opt(9, 0, 0).unwrap();
    let work_end = NaiveTime::from_hms_opt(17, 0, 0).unwrap();
    let slots = calculate_available_slots(
        utc(query_start),
        utc(query_end),
        &busy_periods,
        60 * MIN,
        9 * HOUR,
        17 * HOUR,
        &weekdays(),
        0,
        15 * MIN,
    );
    if is_working(query_start.weekday()) {
        assert!(!slots.is_empty(), "Should have available slots on a working day");
        for (start_time_str, _) in &slots {
            let start_time_dt = DateTime::parse_from_rfc3339(start_time_str).expect("Failed to parse RFC3339 time");
            let slot_time = start_time_dt.time();
            assert!(
                slot_time >= work_start && slot_time <= work_end,
                "Slot should be within working hours: {:?}",
                start_time_str
            );
        }
        for i in 1..slots.len() {
            let prev_start = DateTime::parse_from_rfc3339(&slots[i - 1].0).expect("Failed to parse RFC3339 time");
            let curr_start = DateTime::parse_from_rfc3339(&slots[i].0).expect("Failed to parse RFC3339 time");
            let time_diff = curr_start.signed_duration_since(prev_start);
            assert!(
                time_diff >= duration,
                "Slots should be at least duration apart: {:?} and {:?}",
                slots[i - 1].0,
                slots[i].0
            );
        }
    } else {
        assert!(slots.is_empty(), "Should have no available slots on a non-working day");
    }
}

#[test]
fn test_calculate_available_slots_with_busy_periods() {
    let query_start = Utc.with_ymd_and_hms(2025, 5, 5, 0, 0, 0).unwrap();
    let query_end = query_start + Duration::days(1);
    let busy_start = query_start + Duration::hours(12);
    let busy_end = busy_start + Duration::hours(2);
    let busy_periods = vec![(utc(busy_start), utc(busy_end))];
    let slots = calculate_available_slots(
        utc(query_start),
        utc(query_end),
        &busy_periods,
        60 * MIN,
        9 * HOUR,
        17 * HOUR,
        &weekdays(),
        0,
        15 * MIN,
    );
    if is_working(query_start.weekday()) {
        assert!(!slots.is_empty(), "Should have available slots on a working day");
        for (start_str, end_str) in &slots {
            let slot_start = DateTime::parse_from_rfc3339(start_str).expect("Failed to parse RFC3339 time");
            let slot_end = DateTime::parse_from_rfc3339(end_str).expect("Failed to parse RFC3339 time");
            assert!(
                slot_end.with_timezone(&Utc) <= busy_start || slot_start.with_timezone(&Utc) >= busy_end,
                "Slot should not overlap with busy period: {:?} to {:?}",
                start_str,
                end_str
            );
        }
    } else {
        assert!(slots.is_empty(), "Should have no available slots on a non-working day");
    }
}

#[test]
fn test_calculate_available_slots_with_buffer() {
    let query_start = Utc.with_ymd_and_hms(2025, 5, 5, 0, 0, 0).unwrap();
    let query_end = query_start + Duration::days(1);
    let busy_periods: Vec<(ZonedTime, ZonedTime)> = Vec::new();
    let duration = Duration::minutes(60);
    let buffer = Duration::minutes(15);
    let slots = calculate_available_slots(
        utc(query_start),
        utc(query_end),
        &busy_periods,
        60 * MIN,
        9 * HOUR,
        17 * HOUR,
        &weekdays(),
        15 * MIN,
        15 * MIN,
    );
    if is_working(query_start.weekday()) {
        assert!(!slots.is_empty(), "Should have available slots on a working day");
        for i in 1..slots.len() {
            let prev_start = DateTime::parse_from_rfc3339(&slots[i - 1].0).expect("Failed to parse RFC3339 time");
            let curr_start = DateTime::parse_from_rfc3339(&slots[i].0).expect("Failed to parse RFC3339 time");
            let time_diff = curr_start.signed_duration_since(prev_start);
            assert!(
                time_diff >= duration + buffer,
                "Slots should be at least duration + buffer apart: {:?} and {:?}",
                slots[i - 1].0,
                slots[i].0
            );
        }
    } else {
        assert!(slots.is_empty(), "Should have no available slots on a non-working day");
    }
}

#[test]
fn test_calculate_available_slots_respects_working_hours() {
    let query_start: DateTime<Utc> = Utc.with_ymd_and_hms(2025, 5, 5, 0, 0, 0).unwrap();
    let query_end = query_start + Duration::days(1);
    let busy_periods: Vec<(ZonedTime, ZonedTime)> = Vec::new();
    let work_start = NaiveTime::from_hms_opt(9, 0, 0).unwrap();
    let work_end = NaiveTime::from_hms_opt(17, 0, 0).unwrap();
    let slots = calculate_available_slots(
        utc(query_start),
        utc(query_end),
        &busy_periods,
        60 * MIN,
        9 * HOUR,
        17 * HOUR,
        &weekdays(),
        0,
        15 * MIN,
    );
    if is_working(query_start.weekday()) {
        assert!(!slots.is_empty(), "Should have available slots on a working day");
        for (start_str, end_str) in &slots {
            let slot_start = DateTime::parse_from_rfc3339(start_str).expect("Failed to parse RFC3339 time");
            let slot_end = DateTime::parse_from_rfc3339(end_str).expect("Failed to parse RFC3339 time");
            assert!(slot_start.time() >= work_start, "Slot should start after work hours begin: {:?}", start_str);
            assert!(
                slot_end.time() <= work_end,
                "Slot should end before work hours end: {:?} + {:?} = {:?}",
                start_str,
                Duration::minutes(60),
                end_str
            );
        }
    } else {
        assert!(slots.is_empty(), "Should have no available slots on a non-working day");
    }
}

#[test]
fn test_calculate_available_slots_with_midnight_slot() {
    let time_zone = Tz::from_str("Europe/Zurich").unwrap();
    // A fixed morning: read from the clock, no hour slot is left after 21:00 in Zurich.
    let now = time_zone.with_ymd_and_hms(2025, 5, 5, 10, 30, 0).unwrap();
    let prepare_time = Duration::minutes(120);
    let query_start = now + prepare_time;
    let tomorrow = now.date_naive().succ_opt().unwrap();
    let query_end = time_zone
        .with_ymd_and_hms(tomorrow.year(), tomorrow.month(), tomorrow.day(), 0, 0, 0)
        .unwrap();
    let busy_periods: Vec<(ZonedTime, ZonedTime)> = Vec::new();
    let all_days = vec![
        Weekday::Mon,
        Weekday::Tue,
        Weekday::Wed,
        Weekday::Thu,
        Weekday::Fri,
        Weekday::Sat,
        Weekday::Sun,
    ];
    let zurich = |t: DateTime<Tz>| ZonedTime { nanos: t.timestamp_nanos_opt().unwrap() as i128, zone: ZONE_ZURICH };
    let slots = calculate_available_slots(
        zurich(query_start),
        zurich(query_end),
        &busy_periods,
        60 * MIN,
        0,
        23 * HOUR + 59 * 60_000_000_000,
        &all_days,
        0,
        60 * MIN,
    );
    assert!(!slots.is_empty(), "Should have available slots");
    if let Some((first_slot_start, _)) = slots.first() {
        let first_slot_time = DateTime::parse_from_rfc3339(first_slot_start).expect("Failed to parse RFC3339 time");
        let time_diff = first_slot_time.signed_duration_since(now);
        assert!(
            time_diff >= prepare_time,
            "First slot should be at least {} minutes in the future, but was {} minutes",
            prepare_time.num_minutes(),
            time_diff.num_minutes()
        );
    }
    let mut has_midnight_slot = false;
    for (start_str, end_str) in &slots {
        let slot_start = DateTime::parse_from_rfc3339(start_str).expect("Failed to parse RFC3339 time");
        let slot_end = DateTime::parse_from_rfc3339(end_str).expect("Failed to parse RFC3339 time");
        if slot_start.hour() == 23 && slot_start.minute() == 0 && slot_end.hour() == 0 && slot_end.minute() == 0 {
            has_midnight_slot = true;
            break;
        }
    }
    assert!(has_midnight_slot, "Should have a 23:00-00:00 slot available");
}

#[test]
fn hourly_slots_start_on_the_hour_in_a_working_day() {
    let query_start = Utc.with_ymd_and_hms(2025, 5, 5, 8, 20, 0).unwrap();
    let query_end = Utc.with_ymd_and_hms(2025, 5, 5, 12, 0, 0).unwrap();
    let busy: Vec<(ZonedTime, ZonedTime)> = Vec::new();
    let slots = calculate_available_slots(
        utc(query_start),
        utc(query_end),
        &busy,
        60 * MIN,
        9 * HOUR,
        17 * HOUR,
        &weekdays(),
        0,
        15 * MIN,
    );
    let starts: Vec<String> = slots.iter().map(|s| s.0.clone()).collect();
    assert_eq!(
        starts,
        vec!["2025-05-05T09:00:00+00:00", "2025-05-05T10:00:00+00:00", "2025-05-05T11:00:00+00:00"]
    );
}

#[test]
fn no_slots_on_a_sunday() {
    let query_start = Utc.with_ymd_and_hms(2025, 5, 4, 0, 0, 0).unwrap();
    let query_end = query_start + Duration::days(1);
    let busy: Vec<(ZonedTime, ZonedTime)> = Vec::new();
    let slots = calculate_available_slots(
        utc(query_start),
        utc(query_end),
        &busy,
        60 * MIN,
        9 * HOUR,
        17 * HOUR,
        &weekdays(),
        0,
        15 * MIN,
    );
    assert!(slots.is_empty());
}

#[test]
fn search_that_cannot_complete_gives_none() {
    let query_start = Utc.with_ymd_and_hms(2025, 5, 5, 8, 7, 0).unwrap();
    let query_end = query_start + Duration::hours(3);
    let busy: Vec<(ZonedTime, ZonedTime)> = Vec::new();
    let none = connectify::slots::try_calculate_available_slots(
        utc(query_start),
        utc(query_end),
        &busy,
        30 * MIN,
        9 * HOUR,
        17 * HOUR,
        &weekdays(),
        0,
        0,
    );
    assert!(none.is_none());
    let some = connectify::slots::try_calculate_available_slots(
        utc(query_start),
        utc(query_end),
        &busy,
        30 * MIN,
        9 * HOUR,
        17 * HOUR,
        &weekdays(),
        0,
        30 * MIN,
    )
    .unwrap();
    assert_eq!(some.first().map(|s| s.0.as_str()), Some("2025-05-05T09:00:00+00:00"));
}

#[test]
fn every_working_day_of_the_window_gets_its_slots() {
    let zurich = Tz::from_str("Europe/Zurich").unwrap();
    let z = |t: DateTime<Tz>| ZonedTime { nanos: t.timestamp_nanos_opt().unwrap() as i128, zone: ZONE_ZURICH };
    let start = zurich.with_ymd_and_hms(2025, 5, 5, 0, 0, 0).unwrap();
    let end = zurich.with_ymd_and_hms(2025, 5, 7, 0, 0, 0).unwrap();
    let busy: Vec<(ZonedTime, ZonedTime)> = Vec::new();
    let slots = calculate_available_slots(z(start), z(end), &busy, 60 * MIN, 9 * HOUR, 17 * HOUR, &weekdays(), 0, 15 * MIN);
    let mut expected = Vec::new();
    for d in ["2025-05-05", "2025-05-06"] {
        for h in 9..17 {
            expected.push((format!("{}T{:02}:00:00+02:00", d, h), format!("{}T{:02}:00:00+02:00", d, h + 1)));
        }
    }
    assert_eq!(slots, expected);
}
