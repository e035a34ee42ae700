use chronos::headers::{required_headers, RawHeader, CHRONOS_ID, DEADLINE};
use chronos::receiver::{
    consume_labels, destination_for, plan_delay_insert, plan_publish, route_message, DelayPlan,
    Destination, HandleError, InsertRetry, PublishPlan, Route, MAX_INSERT_ATTEMPTS,
};
use chronos::timestamp::{fail_detect_cutoff, parse_instant, wait_time_millis, Timestamp};

fn header(key: &str, value: &str) -> RawHeader {
    RawHeader { key: key.to_string(), value: Some(value.as_bytes().to_vec()) }
}

fn ts(secs: i64, nanos: u32) -> Timestamp {
    Timestamp { secs, nanos }
}

#[test]
fn test_wait_time_calculation_non_negative() {
    let kafka_ts_ms: i64 = 1_700_000_000_000;
    let now_ms: i64 = kafka_ts_ms + 5_000;
    let wait_secs = wait_time_millis(now_ms, kafka_ts_ms) as f64 / 1000.0;
    assert!((wait_secs - 5.0).abs() < 1e-9);
}

#[test]
fn test_wait_time_calculation_clock_skew() {
    // A broker stamp from a clock ahead of ours counts as no wait.
    let kafka_ts_ms: i64 = 9_999_999_999_999;
    let now_ms: i64 = 1_700_000_000_000;
    let wait_secs = wait_time_millis(now_ms, kafka_ts_ms) as f64 / 1000.0;
    assert_eq!(wait_secs, 0.0);
}

#[test]
fn wait_time_is_exact_difference() {
    assert_eq!(wait_time_millis(10_250, 10_000), 250);
    assert_eq!(wait_time_millis(10_000, 10_000), 0);
    assert_eq!(wait_time_millis(-5, -10), 5);
}

#[test]
fn parses_utc_and_offset_deadlines() {
    assert_eq!(parse_instant("2024-01-01T00:00:00Z"), Some(ts(1_704_067_200, 0)));
    assert_eq!(parse_instant("2024-01-01T01:00:00.5+01:00"), Some(ts(1_704_067_200, 500_000_000)));
    assert_eq!(parse_instant("2024-01-01 00:00:01Z"), Some(ts(1_704_067_201, 0)));
    assert_eq!(parse_instant("not a date"), None);
    assert_eq!(parse_instant(""), None);
}

#[test]
fn due_deadline_goes_to_kafka_future_to_postgres() {
    let now = ts(1_000, 500);
    assert_eq!(destination_for(Some(ts(999, 900)), now), Destination::Kafka);
    assert_eq!(destination_for(Some(ts(1_000, 500)), now), Destination::Kafka);
    assert_eq!(destination_for(Some(ts(1_000, 501)), now), Destination::Postgres);
    assert_eq!(destination_for(Some(ts(2_000, 0)), now), Destination::Postgres);
    assert_eq!(destination_for(None, now), Destination::Unknown);
}

#[test]
fn route_publishes_past_deadline_with_all_headers() {
    let raw = vec![
        header(CHRONOS_ID, "id-1"),
        header(DEADLINE, "2024-01-01T00:00:00Z"),
        header("traceparent", "abc"),
    ];
    let now = ts(1_704_067_300, 0);
    match route_message(&raw, now) {
        Route::Publish(h) => {
            assert_eq!(h.get(&CHRONOS_ID.to_string()).map(|s| s.as_str()), Some("id-1"));
            assert_eq!(h.get(&"traceparent".to_string()).map(|s| s.as_str()), Some("abc"));
        }
        _ => panic!("expected publish"),
    }
}

#[test]
fn route_delays_future_deadline_until_it() {
    let raw = vec![header(CHRONOS_ID, "id-2"), header(DEADLINE, "2030-06-01T12:00:00Z")];
    let now = ts(1_704_067_200, 0);
    let route = route_message(&raw, now);
    assert_eq!(route.destination(), Destination::Postgres);
    match route {
        Route::Delay(h, deadline) => {
            assert_eq!(deadline, ts(1_906_545_600, 0));
            assert_eq!(h.get(&DEADLINE.to_string()).map(|s| s.as_str()), Some("2030-06-01T12:00:00Z"));
        }
        _ => panic!("expected delay"),
    }
}

#[test]
fn route_discards_missing_header_or_bad_deadline() {
    let now = ts(1_704_067_200, 0);
    let only_id = vec![header(CHRONOS_ID, "id-3")];
    assert!(matches!(route_message(&only_id, now), Route::Discard));
    let only_deadline = vec![header(DEADLINE, "2024-01-01T00:00:00Z")];
    assert!(matches!(route_message(&only_deadline, now), Route::Discard));
    let bad = vec![header(CHRONOS_ID, "id-4"), header(DEADLINE, "tomorrow")];
    let route = route_message(&bad, now);
    assert_eq!(route.destination(), Destination::Unknown);
    assert!(matches!(route, Route::Discard));
}

#[test]
fn required_headers_skip_non_utf8_and_keep_last() {
    let raw = vec![
        header(CHRONOS_ID, "first"),
        RawHeader { key: "binary".to_string(), value: Some(vec![0xff, 0xfe]) },
        RawHeader { key: "empty".to_string(), value: None },
        header(DEADLINE, "2024-01-01T00:00:00Z"),
        header(CHRONOS_ID, "second"),
    ];
    let m = required_headers(&raw).expect("both headers present");
    assert_eq!(m.get(&CHRONOS_ID.to_string()).map(|s| s.as_str()), Some("second"));
    assert!(m.get(&"binary".to_string()).is_none());
    assert!(m.get(&"empty".to_string()).is_none());
    let non_utf8_deadline = vec![
        header(CHRONOS_ID, "x"),
        RawHeader { key: DEADLINE.to_string(), value: Some(vec![0xc3]) },
    ];
    assert!(required_headers(&non_utf8_deadline).is_none());
}

#[test]
fn publish_plan_cases() {
    match plan_publish(Some(b"{\"a\":1}"), Some(b"key-1")) {
        PublishPlan::Publish { payload, key } => {
            assert_eq!(payload, "{\"a\":1}");
            assert_eq!(key, "key-1");
        }
        _ => panic!("expected publish"),
    }
    assert!(matches!(plan_publish(Some(b"hello"), None), PublishPlan::Reject(HandleError::MessageKeyNotFound)));
    assert!(matches!(plan_publish(None, Some(b"k")), PublishPlan::Skip));
    assert!(matches!(plan_publish(Some(&[0xff]), Some(b"k")), PublishPlan::Skip));
    assert!(matches!(plan_publish(Some(b"p"), Some(&[0xff])), PublishPlan::Reject(HandleError::MessageKeyNotFound)));
}

#[test]
fn delay_plan_cases() {
    match plan_delay_insert(Some(b"{\"a\":[1,2]}"), Some(b"key-9")) {
        DelayPlan::Insert { value, key } => {
            assert_eq!(key, "key-9");
            assert_eq!(value["a"][1], 2);
        }
        _ => panic!("expected insert"),
    }
    assert!(matches!(plan_delay_insert(None, Some(b"k")), DelayPlan::Reject(HandleError::PayloadNotUtf8)));
    assert!(matches!(plan_delay_insert(Some(&[0xff, 0x00]), Some(b"k")), DelayPlan::Reject(HandleError::PayloadNotUtf8)));
    assert!(matches!(plan_delay_insert(Some(b"{not json"), Some(b"k")), DelayPlan::Reject(HandleError::JsonConversionFailed)));
    assert!(matches!(plan_delay_insert(Some(b"42"), None), DelayPlan::Skip));
}

#[test]
fn insert_gives_up_on_third_failure() {
    assert_eq!(MAX_INSERT_ATTEMPTS, 3);
    let mut retry = InsertRetry::new();
    assert!(!retry.record_failure());
    assert!(!retry.record_failure());
    assert!(retry.record_failure());
}

#[test]
fn error_messages() {
    assert_eq!(HandleError::PayloadNotUtf8.message(), "message payload is not utf8 encoded");
    assert_eq!(HandleError::JsonConversionFailed.message(), "json conversion of payload failed");
    assert_eq!(HandleError::MaxRetryReached.message(), "max retry count reached for insert to delay query");
    assert_eq!(HandleError::MessageKeyNotFound.message(), "message key not found");
}

#[test]
fn consume_labels_only_for_known_destinations() {
    assert_eq!(consume_labels(Destination::Kafka, false), Some(("kafka", "pass")));
    assert_eq!(consume_labels(Destination::Postgres, true), Some(("postgres", "fail")));
    assert_eq!(consume_labels(Destination::Unknown, true), None);
    assert_eq!(Destination::Unknown.label(), "unknown");
}

#[test]
fn cutoff_is_interval_before_now() {
    assert_eq!(fail_detect_cutoff(ts(1_000, 7), 10), Some(ts(990, 7)));
    assert_eq!(fail_detect_cutoff(ts(5, 0), 10), Some(ts(-5, 0)));
    assert_eq!(fail_detect_cutoff(ts(i64::MIN + 3, 0), 4), None);
    assert_eq!(fail_detect_cutoff(ts(0, 0), u64::MAX), None);
}
