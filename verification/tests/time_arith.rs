use chrono::DateTime;
use connectify::time::{instant_less, minutes_of, span_between, Instant};

fn instant(text: &str) -> (Instant, DateTime<chrono::FixedOffset>) {
    let d = DateTime::parse_from_rfc3339(text).unwrap();
    ((d.timestamp(), d.timestamp_subsec_nanos()), d)
}

#[test]
fn spans_agree_with_chrono() {
    let texts = [
        "2016-12-31T23:59:59Z",
        "2016-12-31T23:59:60.5Z",
        "2017-01-01T00:00:00Z",
        "2017-01-01T00:00:00.25+01:00",
        "1969-12-31T23:59:59.999Z",
        "2025-05-05T10:00:00Z",
    ];
    for a in texts.iter() {
        for b in texts.iter() {
            let (ia, da) = instant(a);
            let (ib, db) = instant(b);
            let expected = (db - da).num_nanoseconds().unwrap() as i128;
            assert_eq!(span_between(ia, ib), expected, "{} -> {}", a, b);
            assert_eq!(instant_less(ia, ib), da < db, "{} < {}", a, b);
        }
    }
}

#[test]
fn whole_minutes_round_toward_zero() {
    assert_eq!(minutes_of(119_000_000_000), 1);
    assert_eq!(minutes_of(-119_000_000_000), -1);
    assert_eq!(minutes_of(3_600_000_000_000), 60);
}
