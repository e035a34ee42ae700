use chronos::metric_definitions::{metric_definitions, MetricId, MetricKind, MetricTemporality};
use chronos::metric_labels::{consume_latency_histogram, label_combinations, process_latency_histogram};
use chronos::metrics_server::{bind_address, metrics_response, serves_prometheus};
use chronos::telemetry::resolve_service_name;

#[test]
fn kind_tests() {
    assert!(MetricKind::Counter.is_counter());
    assert!(!MetricKind::Counter.is_histogram());
    assert!(MetricKind::Histogram.is_histogram());
    assert!(!MetricKind::Histogram.is_counter());
}

#[test]
fn five_definitions_in_order() {
    let defs = metric_definitions();
    let names: Vec<&str> = defs.iter().map(|d| d.name).collect();
    assert_eq!(
        names,
        vec![
            "chronos.message.consume.duration",
            "chronos.message.jitter",
            "chronos.message.process.duration",
            "chronos.message.reset",
            "chronos.message.wait.duration",
        ]
    );
    assert_eq!(defs[3].id, MetricId::MsgReset);
    assert!(defs[3].kind.is_counter());
    assert!(defs[3].buckets.is_none());
    assert_eq!(defs[3].unit, Some("{message}"));
    assert_eq!(defs[0].temporality, Some(MetricTemporality::Cumulative));
    assert_eq!(defs[0].label_names, vec!["chronos.consume.status", "chronos.destination"]);
    assert_eq!(defs[0].prewarm_label_values.len(), 4);
    assert_eq!(defs[0].prewarm_label_values[3], vec!["fail", "postgres"]);
}

#[test]
fn bucket_bounds_in_milliseconds() {
    let consume = MetricId::MsgConsumeLatency.definition().buckets.unwrap();
    assert_eq!(consume.len(), 12);
    assert_eq!(consume[0], 1);
    assert_eq!(consume[11], 2048);
    let jitter = MetricId::MsgJitter.definition().buckets.unwrap();
    assert!(jitter.contains(&500));
    let wait = MetricId::MsgWaitTime.definition().buckets.unwrap();
    assert_eq!(wait.len(), 14);
    assert_eq!(wait[13], 819_200);
    for d in metric_definitions() {
        if let Some(b) = d.buckets {
            assert!(b.windows(2).all(|w| w[0] < w[1]));
        }
    }
}

#[test]
fn labelled_histograms_prewarm_four_combinations() {
    let consume = consume_latency_histogram();
    assert_eq!(consume.name, "msg_consume_latency");
    assert_eq!(consume.label_names, vec!["destination", "status"]);
    assert_eq!(
        consume.prewarm,
        vec![vec!["kafka", "pass"], vec!["kafka", "fail"], vec!["postgres", "pass"], vec!["postgres", "fail"]]
    );
    let process = process_latency_histogram();
    assert_eq!(process.name, "msg_process_latency");
    assert_eq!(process.prewarm.len(), 4);
    assert_eq!(process.prewarm[1], vec!["true", "fail"]);
}

#[test]
fn combinations_of_uneven_sets() {
    let r = label_combinations(&vec!["a", "b", "c"], &vec!["x"]);
    assert_eq!(r, vec![vec!["a", "x"], vec!["b", "x"], vec!["c", "x"]]);
    assert!(label_combinations(&vec![], &vec!["x"]).is_empty());
}

#[test]
fn scrape_responses() {
    let ok = metrics_response(Some("m 1\n".to_string()));
    assert_eq!(ok.status, 200);
    assert_eq!(ok.content_type, Some("text/plain; version=0.0.4; charset=utf-8"));
    assert_eq!(ok.body, "m 1\n");
    let missing = metrics_response(None);
    assert_eq!(missing.status, 404);
    assert!(missing.content_type.is_none());
    assert!(serves_prometheus(&None));
    assert!(serves_prometheus(&Some("prometheus".to_string())));
    assert!(!serves_prometheus(&Some("otlp".to_string())));
}

#[test]
fn bind_address_text() {
    assert_eq!(bind_address("0.0.0.0", 9090), "0.0.0.0:9090");
    assert_eq!(bind_address("localhost", 0), "localhost:0");
    assert_eq!(bind_address("h", 65535), "h:65535");
}

#[test]
fn service_name_defaults_to_chronos() {
    let d = resolve_service_name(None);
    assert_eq!(d.name, "Chronos");
    assert!(d.export_to_env);
    let c = resolve_service_name(Some("svc".to_string()));
    assert_eq!(c.name, "svc");
    assert!(!c.export_to_env);
}
