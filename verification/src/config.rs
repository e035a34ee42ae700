//! Service configuration read from environment values, with the defaults and
//! fallbacks of each setting.

use vstd::prelude::*;
use crate::decimal::{
    decimal_chars, lemma_parse_decimal_round_trip, parse_u16, parse_u64, spec_parse_unsigned,
};

verus! {

/// Tuning values of the service.
#[derive(Debug, Clone)]
pub struct ChronosConfig {
    pub monitor_db_poll: u64,
    pub processor_db_poll: u64,
    pub time_advance: u64,
    pub fail_detect_interval: u64,
    pub metrics_host: String,
    pub metrics_port: u16,
}

/// The values of the environment variables that the configuration reads:
/// `None` where a variable is unset (or its value is not unicode).
pub struct ConfigEnv {
    /// `MONITOR_DB_POLL`
    pub monitor_db_poll: Option<String>,
    /// `PROCESSOR_DB_POLL`
    pub processor_db_poll: Option<String>,
    /// `TIMING_ADVANCE`
    pub timing_advance: Option<String>,
    /// `FAIL_DETECT_INTERVAL`
    pub fail_detect_interval: Option<String>,
    /// `OTEL_EXPORTER_PROMETHEUS_HOST`
    pub prometheus_host: Option<String>,
    /// `OTEL_EXPORTER_PROMETHEUS_PORT`
    pub prometheus_port: Option<String>,
    /// `METRICS_PORT`
    pub metrics_port: Option<String>,
}

pub const DEFAULT_MONITOR_DB_POLL: u64 = 5;
pub const DEFAULT_PROCESSOR_DB_POLL: u64 = 5;
pub const DEFAULT_TIME_ADVANCE: u64 = 0;
pub const DEFAULT_FAIL_DETECT_INTERVAL: u64 = 10;
pub const DEFAULT_METRICS_PORT: u16 = 9090;

/// The characters of an optional string.
pub open spec fn opt_view(v: Option<String>) -> Option<Seq<char>> {
    match v {
        Some(s) => Some(s@),
        None => None,
    }
}

/// A numeric setting: the value the variable holds when it is a `u64`
/// numeral, and `default` when it is unset or not such a numeral.
pub open spec fn setting_u64(v: Option<Seq<char>>, default: u64) -> u64 {
    match v {
        Some(s) => match spec_parse_unsigned(s, u64::MAX as nat) {
            Some(n) => n as u64,
            None => default,
        },
        None => default,
    }
}

/// A port setting: the value the variable holds when it is a `u16` numeral,
/// and `default` when it is unset or not such a numeral.
pub open spec fn setting_u16(v: Option<Seq<char>>, default: u16) -> u16 {
    match v {
        Some(s) => match spec_parse_unsigned(s, u16::MAX as nat) {
            Some(n) => n as u16,
            None => default,
        },
        None => default,
    }
}

/// The port variable that decides the metrics port: the Prometheus exporter
/// variable when it is set, else the older `METRICS_PORT`.
pub open spec fn port_source(env: ConfigEnv) -> Option<Seq<char>> {
    match env.prometheus_port {
        Some(p) => Some(p@),
        None => opt_view(env.metrics_port),
    }
}

/// The default metrics host, every interface.
pub open spec fn default_metrics_host() -> Seq<char> {
    "0.0.0.0"@
}

fn setting_u64_of(v: &Option<String>, default: u64) -> (r: u64)
    ensures
        r == setting_u64(opt_view(*v), default),
{
    match v {
        Some(s) => match parse_u64(s.as_str()) {
            Some(n) => n,
            None => default,
        },
        None => default,
    }
}

impl ChronosConfig {
    /// The configuration that the given environment values select.
    pub fn from_env_values(env: &ConfigEnv) -> (r: ChronosConfig)
        ensures
            r.monitor_db_poll == setting_u64(
                opt_view(env.monitor_db_poll),
                DEFAULT_MONITOR_DB_POLL,
            ),
            r.processor_db_poll == setting_u64(
                opt_view(env.processor_db_poll),
                DEFAULT_PROCESSOR_DB_POLL,
            ),
            r.time_advance == setting_u64(opt_view(env.timing_advance), DEFAULT_TIME_ADVANCE),
            r.fail_detect_interval == setting_u64(
                opt_view(env.fail_detect_interval),
                DEFAULT_FAIL_DETECT_INTERVAL,
            ),
            r.metrics_host@ == match env.prometheus_host {
                Some(h) => h@,
                None => default_metrics_host(),
            },
            r.metrics_port == setting_u16(port_source(*env), DEFAULT_METRICS_PORT),
    {
        let metrics_host = match &env.prometheus_host {
            Some(h) => h.clone(),
            None => String::from_str("0.0.0.0"),
        };
        let port_text: Option<&String> = match &env.prometheus_port {
            Some(p) => Some(p),
            None => match &env.metrics_port {
                Some(p) => Some(p),
                None => None,
            },
        };
        let metrics_port = match port_text {
            Some(p) => match parse_u16(p.as_str()) {
                Some(n) => n,
                None => DEFAULT_METRICS_PORT,
            },
            None => DEFAULT_METRICS_PORT,
        };
        ChronosConfig {
            monitor_db_poll: setting_u64_of(&env.monitor_db_poll, DEFAULT_MONITOR_DB_POLL),
            processor_db_poll: setting_u64_of(&env.processor_db_poll, DEFAULT_PROCESSOR_DB_POLL),
            time_advance: setting_u64_of(&env.timing_advance, DEFAULT_TIME_ADVANCE),
            fail_detect_interval: setting_u64_of(
                &env.fail_detect_interval,
                DEFAULT_FAIL_DETECT_INTERVAL,
            ),
            metrics_host,
            metrics_port,
        }
    }
}


/// The Prometheus exporter port variable, once set, alone decides the
/// metrics port, even when its value is not a port (the default then
/// applies); `METRICS_PORT` decides only while it is unset.
pub proof fn lemma_prometheus_port_precedence(env: ConfigEnv)
    ensures
        env.prometheus_port matches Some(p) ==> setting_u16(port_source(env), DEFAULT_METRICS_PORT)
            == setting_u16(Some(p@), DEFAULT_METRICS_PORT),
        env.prometheus_port is None ==> setting_u16(port_source(env), DEFAULT_METRICS_PORT)
            == setting_u16(opt_view(env.metrics_port), DEFAULT_METRICS_PORT),
{
}

/// A setting given as the decimal numeral of a number is that number, and an
/// unset setting is its default.
pub proof fn lemma_numeral_settings_read_back(n: u64, p: u16, default: u64, default_port: u16)
    ensures
        setting_u64(Some(decimal_chars(n as nat)), default) == n,
        setting_u16(Some(decimal_chars(p as nat)), default_port) == p,
        setting_u64(None, default) == default,
        setting_u16(None, default_port) == default_port,
{
    lemma_parse_decimal_round_trip(n as nat, u64::MAX as nat);
    lemma_parse_decimal_round_trip(p as nat, u16::MAX as nat);
}

} // verus!
