use chrono::{DateTime, Duration, Utc};
use connectify::config::{AppConfig, GcalConfig, PriceTier, ServerConfig, StripeConfig};
use connectify::gcal::CalendarEvent;

fn create_test_calendar_event(
    start_time_offset_hours: i64,
    duration_minutes: i64,
    summary: &str,
    description: Option<&str>,
) -> CalendarEvent {
    let start_time = Utc::now() + Duration::hours(start_time_offset_hours);
    let end_time = start_time + Duration::minutes(duration_minutes);
    CalendarEvent {
        start_time: start_time.to_rfc3339(),
        end_time: end_time.to_rfc3339(),
        summary: summary.to_string(),
        description: description.map(|s| s.to_string()),
        payment_id: None,
        payment_amount: None,
        payment_method: None,
        room_name: None,
    }
}

fn create_busy_periods(
    base_time: DateTime<Utc>,
    count: usize,
    duration_hours: i64,
    gap_hours: i64,
) -> Vec<(DateTime<Utc>, DateTime<Utc>)> {
    let mut busy_periods = Vec::new();
    let mut current_time = base_time;
    for _ in 0..count {
        let start = current_time;
        let end = start + Duration::hours(duration_hours);
        busy_periods.push((start, end));
        current_time = end + Duration::hours(gap_hours);
    }
    busy_periods
}

fn tier(minutes: i64, amount: i64, name: &str) -> PriceTier {
    PriceTier {
        duration_minutes: minutes,
        unit_amount: amount,
        currency: Some("USD".to_string()),
        product_name: Some(name.to_string()),
    }
}

fn create_mock_config() -> AppConfig {
    let price_tiers = vec![
        tier(30, 5000, "30-minute consultation"),
        tier(60, 10000, "60-minute consultation"),
        tier(90, 15000, "90-minute consultation"),
    ];
    let stripe_config = StripeConfig {
        success_url: "https://example.com/success".to_string(),
        cancel_url: "https://example.com/cancel".to_string(),
        unit_amount: Some(10000),
        product_name: Some("Test Product".to_string()),
        payment_success_url: "https://example.com/payment-success".to_string(),
        price_tiers,
        default_currency: Some("USD".to_string()),
    };
    let gcal_config = GcalConfig {
        calendar_id: Some("primary".to_string()),
        time_slot_duration: Some(30),
        key_path: Some("test_key.json".to_string()),
        preparation_time_minutes: Some(120),
        time_zone: Some("Europe/Zurich".to_string()),
        working_days: Some(vec![
            "Mon".to_string(),
            "Tue".to_string(),
            "Wed".to_string(),
            "Thu".to_string(),
            "Fri".to_string(),
        ]),
        work_start_time: Some("09:00".to_string()),
        work_end_time: Some("17:00".to_string()),
    };
    AppConfig {
        use_gcal: true,
        use_stripe: true,
        use_twilio: false,
        use_payrexx: false,
        use_fulfillment: false,
        use_calendly: false,
        use_adhoc: false,
        server: ServerConfig { host: "127.0.0.1".to_string(), port: 8080 },
        database: Some(connectify::config::DatabaseConfig { url: "postgres://localhost/test".to_string() }),
        gcal: Some(gcal_config),
        stripe: Some(stripe_config),
        twilio: None,
        payrexx: None,
        fulfillment: None,
    }
}

#[test]
fn test_create_test_calendar_event() {
    let event = create_test_calendar_event(1, 60, "Test Event", Some("Test Description"));
    assert_eq!(event.summary, "Test Event");
    assert_eq!(event.description, Some("Test Description".to_string()));
    let start = DateTime::parse_from_rfc3339(&event.start_time).unwrap();
    let end = DateTime::parse_from_rfc3339(&event.end_time).unwrap();
    let duration = end - start;
    assert_eq!(duration, Duration::minutes(60));
}

#[test]
fn test_create_busy_periods() {
    let base_time = Utc::now();
    let busy_periods = create_busy_periods(base_time, 3, 2, 1);
    assert_eq!(busy_periods.len(), 3);
    let (start1, end1) = busy_periods[0];
    assert_eq!(start1, base_time);
    assert_eq!(end1, base_time + Duration::hours(2));
    let (start2, end2) = busy_periods[1];
    assert_eq!(start2, end1 + Duration::hours(1));
    assert_eq!(end2, start2 + Duration::hours(2));
}

#[test]
fn test_create_mock_config() {
    let config = create_mock_config();
    assert!(config.use_gcal);
    assert!(config.gcal.is_some());
    let gcal_config = config.gcal.as_ref().unwrap();
    assert_eq!(gcal_config.calendar_id, Some("primary".to_string()));
    assert!(config.use_stripe);
    assert!(config.stripe.is_some());
    let stripe_config = config.stripe.as_ref().unwrap();
    assert_eq!(stripe_config.price_tiers.len(), 3);
    assert_eq!(stripe_config.price_tiers[0].duration_minutes, 30);
    assert_eq!(stripe_config.price_tiers[1].duration_minutes, 60);
    assert_eq!(stripe_config.price_tiers[2].duration_minutes, 90);
}

#[test]
fn event_times_of_a_fixture_event_are_an_hour_apart() {
    let event = create_test_calendar_event(2, 60, "Fixture", None);
    let (s, e) = connectify::gcal::event_times(&event).unwrap();
    assert_eq!(e.0 - s.0, 3600);
    assert_eq!(e.1, s.1);
}
