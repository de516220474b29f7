use frontend::model::Timestamp;
use frontend::time::{clock_millis_text, clock_text, date_time_text};

#[test]
fn instants_in_utc() {
    let t = Timestamp { secs: 1_714_571_100, nanos: 123_456_789 };
    assert_eq!(date_time_text(t), Some("2024-05-01 13:45:00".to_string()));
    assert_eq!(clock_text(t), Some("13:45:00".to_string()));
    assert_eq!(clock_millis_text(t), Some("13:45:00.123".to_string()));
    assert_eq!(date_time_text(Timestamp { secs: 0, nanos: 0 }), Some("1970-01-01 00:00:00".to_string()));
}

#[test]
fn out_of_range_instant_has_no_text() {
    assert_eq!(date_time_text(Timestamp { secs: i64::MAX, nanos: 0 }), None);
    assert_eq!(clock_text(Timestamp { secs: 0, nanos: 2_000_000_000 }), None);
}
