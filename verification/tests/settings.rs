use chronos::config::{ChronosConfig, ConfigEnv};
use chronos::decimal::{parse_u16, parse_u64};

fn env() -> ConfigEnv {
    ConfigEnv {
        monitor_db_poll: None,
        processor_db_poll: None,
        timing_advance: None,
        fail_detect_interval: None,
        prometheus_host: None,
        prometheus_port: None,
        metrics_port: None,
    }
}

#[test]
fn prometheus_spec_env_overrides_metrics_binding() {
    let mut e = env();
    e.prometheus_host = Some("127.0.0.1".to_string());
    e.prometheus_port = Some("9464".to_string());
    e.metrics_port = Some("9090".to_string());

    let config = ChronosConfig::from_env_values(&e);

    assert_eq!(config.metrics_host, "127.0.0.1");
    assert_eq!(config.metrics_port, 9464);
}

#[test]
fn metrics_port_remains_backward_compatible_fallback() {
    let mut e = env();
    e.metrics_port = Some("9091".to_string());

    let config = ChronosConfig::from_env_values(&e);

    assert_eq!(config.metrics_host, "0.0.0.0");
    assert_eq!(config.metrics_port, 9091);
}

#[test]
fn defaults_when_nothing_is_set() {
    let config = ChronosConfig::from_env_values(&env());
    assert_eq!(config.monitor_db_poll, 5);
    assert_eq!(config.processor_db_poll, 5);
    assert_eq!(config.time_advance, 0);
    assert_eq!(config.fail_detect_interval, 10);
    assert_eq!(config.metrics_host, "0.0.0.0");
    assert_eq!(config.metrics_port, 9090);
}

#[test]
fn invalid_values_fall_back_to_defaults() {
    let mut e = env();
    e.monitor_db_poll = Some("soon".to_string());
    e.processor_db_poll = Some("-1".to_string());
    e.timing_advance = Some("+3".to_string());
    e.fail_detect_interval = Some("30".to_string());
    e.prometheus_port = Some("70000".to_string());
    e.metrics_port = Some("9091".to_string());
    let config = ChronosConfig::from_env_values(&e);
    assert_eq!(config.monitor_db_poll, 5);
    assert_eq!(config.processor_db_poll, 5);
    assert_eq!(config.time_advance, 3);
    assert_eq!(config.fail_detect_interval, 30);
    // an unusable exporter port does not fall back to METRICS_PORT
    assert_eq!(config.metrics_port, 9090);
}

#[test]
fn parse_matches_std_from_str() {
    let cases = [
        "0", "42", "+7", "", "+", "-1", "-0", " 5", "5 ", "0x10", "007", "18446744073709551615",
        "18446744073709551616", "99999999999999999999999", "١٢", "65535", "65536",
    ];
    for c in cases {
        assert_eq!(parse_u64(c), c.parse::<u64>().ok(), "u64 {:?}", c);
        assert_eq!(parse_u16(c), c.parse::<u16>().ok(), "u16 {:?}", c);
    }
}
