//! What the metrics endpoint serves and where it listens.

use vstd::prelude::*;
use crate::decimal::{
    append_decimal, decimal_chars, lemma_parse_decimal_round_trip, spec_parse_unsigned,
};

verus! {

/// An answer of the `/metrics` endpoint.
pub struct MetricsResponse {
    pub status: u16,
    pub content_type: Option<&'static str>,
    pub body: String,
}

/// The content type of the Prometheus text exposition format.
pub open spec fn prometheus_content_type() -> Seq<char> {
    "text/plain; version=0.0.4; charset=utf-8"@
}

/// The answer to a scrape: the rendered metrics with status 200 and the
/// Prometheus text content type, or 404 with no body when nothing could be
/// rendered.
pub fn metrics_response(rendered: Option<String>) -> (r: MetricsResponse)
    ensures
        match rendered {
            Some(body) => {
                &&& r.status == 200
                &&& r.body@ == body@
                &&& r.content_type matches Some(c) && c@ == prometheus_content_type()
            },
            None => r.status == 404 && r.content_type is None && r.body@ == Seq::<char>::empty(),
        },
{
    match rendered {
        Some(body) => MetricsResponse {
            status: 200,
            content_type: Some("text/plain; version=0.0.4; charset=utf-8"),
            body,
        },
        None => MetricsResponse { status: 404, content_type: None, body: String::new() },
    }
}

/// The metrics endpoint is served only when metrics are exported to
/// Prometheus, which is the exporter when `OTEL_METRICS_EXPORTER` is unset.
pub fn serves_prometheus(exporter: &Option<String>) -> (r: bool)
    ensures
        r == match exporter {
            Some(e) => e@ == "prometheus"@,
            None => true,
        },
{
    match exporter {
        Some(e) => {
            let prometheus = String::from_str("prometheus");
            *e == prometheus
        },
        None => true,
    }
}

/// The `host:port` address the metrics server listens on.
pub fn bind_address(host: &str, port: u16) -> (r: String)
    ensures
        r@ == host@ + ":"@ + decimal_chars(port as nat),
{
    let mut r = String::from_str(host);
    r.append(":");
    append_decimal(&mut r, port as u64);
    r
}


/// The address the metrics server listens on ends with the configured port:
/// what follows the host and the colon reads back as that port.
pub proof fn lemma_bind_address_names_port(host: Seq<char>, port: u16)
    ensures
        spec_parse_unsigned(
            (host + ":"@ + decimal_chars(port as nat)).skip(host.len() + 1int),
            u16::MAX as nat,
        ) == Some(port as nat),
{
    reveal_strlit(":");
    assert((host + ":"@ + decimal_chars(port as nat)).skip(host.len() + 1int) =~= decimal_chars(
        port as nat,
    ));
    lemma_parse_decimal_round_trip(port as nat, u16::MAX as nat);
}

} // verus!
