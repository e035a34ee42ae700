//! The service name under which traces are exported.

use vstd::prelude::*;

verus! {

/// The service name traces are exported under, and whether it must be
/// written back to `OTEL_SERVICE_NAME` because that variable was unset.
pub struct ServiceName {
    pub name: String,
    pub export_to_env: bool,
}

/// The service name used when none is configured.
pub open spec fn default_service_name() -> Seq<char> {
    "Chronos"@
}

/// The configured service name (the value of `OTEL_SERVICE_NAME`, `None`
/// when unset or not unicode), or `Chronos`, which is then to be exported so
/// that every later reader of the variable sees the same name.
pub fn resolve_service_name(configured: Option<String>) -> (r: ServiceName)
    ensures
        match configured {
            Some(s) => r.name@ == s@ && !r.export_to_env,
            None => r.name@ == default_service_name() && r.export_to_env,
        },
{
    match configured {
        Some(s) => ServiceName { name: s, export_to_env: false },
        None => ServiceName { name: String::from_str("Chronos"), export_to_env: true },
    }
}

} // verus!
