//! Instants as whole seconds since the Unix epoch and the nanoseconds past
//! that second, and the arithmetic the service does on them.

use vstd::prelude::*;

verus! {

/// An instant: seconds since the Unix epoch and nanoseconds past that
/// second. During a leap second `nanos` may reach beyond 999,999,999.
#[derive(Clone, Copy, Debug, PartialEq, Eq, Structural)]
pub struct Timestamp {
    pub secs: i64,
    pub nanos: u32,
}

/// `a` is not later than `b`: instants are ordered by their second, then by
/// the nanoseconds within it.
pub open spec fn at_or_before(a: Timestamp, b: Timestamp) -> bool {
    a.secs < b.secs || (a.secs == b.secs && a.nanos <= b.nanos)
}

impl Timestamp {
    /// Whether `self` is not later than `other`.
    pub fn is_at_or_before(&self, other: &Timestamp) -> (r: bool)
        ensures
            r == at_or_before(*self, *other),
    {
        self.secs < other.secs || (self.secs == other.secs && self.nanos <= other.nanos)
    }
}

/// The instant that a UTC date-time text denotes, as seconds and nanoseconds
/// since the Unix epoch, when the text is one.
pub uninterp spec fn spec_utc_instant(text: Seq<char>) -> Option<(i64, u32)>;

/// Calls chrono's `DateTime::<Utc>::from_str` (a relaxed RFC 3339 reader that
/// converts any offset to UTC) and takes `timestamp()` and
/// `timestamp_subsec_nanos()` of the result. The contract claims that the
/// outcome depends on the text alone; which texts are accepted, and what
/// instant each denotes, is left to the name `spec_utc_instant`.
#[verifier::external_body]
fn parse_utc_instant(text: &str) -> (r: Option<(i64, u32)>)
    ensures
        r == spec_utc_instant(text@),
{
    match text.parse::<chrono::DateTime<chrono::Utc>>() {
        Ok(t) => Some((t.timestamp(), t.timestamp_subsec_nanos())),
        Err(_) => None,
    }
}

/// The instant that `text` denotes, read as a UTC date-time.
pub open spec fn spec_parse_instant(text: Seq<char>) -> Option<Timestamp> {
    match spec_utc_instant(text) {
        Some((secs, nanos)) => Some(Timestamp { secs, nanos }),
        None => None,
    }
}

/// Reads a date-time text (such as `2024-01-01T00:00:00Z`) as an instant.
pub fn parse_instant(text: &str) -> (r: Option<Timestamp>)
    ensures
        r == spec_parse_instant(text@),
{
    match parse_utc_instant(text) {
        Some((secs, nanos)) => Some(Timestamp { secs, nanos }),
        None => None,
    }
}

/// How long a message waited between the time its broker stamped it and
/// `now`, both in milliseconds since the epoch; never negative, so a stamp
/// from a clock ahead of ours counts as no wait.
pub fn wait_time_millis(now_ms: i64, stamped_ms: i64) -> (r: i64)
    requires
        i64::MIN <= now_ms - stamped_ms <= i64::MAX,
    ensures
        r == if now_ms - stamped_ms > 0 { now_ms - stamped_ms } else { 0 },
        r >= 0,
{
    let diff = now_ms - stamped_ms;
    if diff > 0 {
        diff
    } else {
        0
    }
}

/// The instant `interval_secs` seconds before `now`, from which on a fired
/// record counts as failed; `None` when it is before the first representable
/// second.
pub fn fail_detect_cutoff(now: Timestamp, interval_secs: u64) -> (r: Option<Timestamp>)
    ensures
        match r {
            Some(t) => t.secs == now.secs - interval_secs && t.nanos == now.nanos,
            None => now.secs - interval_secs < i64::MIN,
        },
{
    let secs: i128 = now.secs as i128 - interval_secs as i128;
    if secs >= i64::MIN as i128 {
        Some(Timestamp { secs: secs as i64, nanos: now.nanos })
    } else {
        None
    }
}

/// Lateness is monotone in time: a deadline that has come at one instant has
/// come at every later instant.
pub proof fn lemma_due_stays_due(deadline: Timestamp, now: Timestamp, later: Timestamp)
    requires
        at_or_before(deadline, now),
        at_or_before(now, later),
    ensures
        at_or_before(deadline, later),
{
}

/// The order on instants is total.
pub proof fn lemma_order_total(a: Timestamp, b: Timestamp)
    ensures
        at_or_before(a, b) || at_or_before(b, a),
        at_or_before(a, b) && at_or_before(b, a) ==> a == b,
{
}

} // verus!
