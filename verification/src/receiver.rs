//! What the receiver decides for each message taken from the input topic:
//! whether it is discarded, published at once, or stored until its deadline;
//! what each path needs from the message; how often a store is retried; and
//! which labels its handling time is recorded under.

use vstd::prelude::*;
use crate::headers::{
    has_text_header, lemma_header_map_keys, required_headers, spec_header_map,
    spec_required_headers, spec_utf8_text, utf8_text, HeaderMap, RawHeader, CHRONOS_ID, DEADLINE,
};
use crate::timestamp::spec_utc_instant;
use vstd::utf8::{decode_utf8, valid_utf8};
use crate::timestamp::{at_or_before, parse_instant, spec_parse_instant, Timestamp};

verus! {

/// Where a message goes: nowhere (it lacks a required header or its deadline
/// is not a date-time), to the output topic, or to the delay store.
#[derive(Clone, Copy, Debug, PartialEq, Eq, Structural)]
pub enum Destination {
    Unknown,
    Kafka,
    Postgres,
}

/// The destination of a message with the given deadline at instant `now`.
pub open spec fn spec_destination(deadline: Option<Timestamp>, now: Timestamp) -> Destination {
    match deadline {
        None => Destination::Unknown,
        Some(d) => if at_or_before(d, now) {
            Destination::Kafka
        } else {
            Destination::Postgres
        },
    }
}

/// A message whose deadline has come (is at or before `now`) is published
/// at once; one whose deadline is still ahead is stored; one without a
/// readable deadline goes nowhere.
pub fn destination_for(deadline: Option<Timestamp>, now: Timestamp) -> (r: Destination)
    ensures
        r == spec_destination(deadline, now),
        r is Unknown <==> deadline is None,
        r is Kafka <==> (deadline matches Some(d) && (d.secs < now.secs || (d.secs == now.secs
            && d.nanos <= now.nanos))),
        r is Postgres <==> (deadline matches Some(d) && (d.secs > now.secs || (d.secs == now.secs
            && d.nanos > now.nanos))),
{
    match deadline {
        None => Destination::Unknown,
        Some(d) => if d.is_at_or_before(&now) {
            Destination::Kafka
        } else {
            Destination::Postgres
        },
    }
}

impl Destination {
    /// The label value under which handling times are recorded.
    pub fn label(&self) -> (r: &'static str)
        ensures
            r@ == spec_destination_label(*self),
    {
        match self {
            Destination::Unknown => "unknown",
            Destination::Kafka => "kafka",
            Destination::Postgres => "postgres",
        }
    }
}

/// The label value of each destination.
pub open spec fn spec_destination_label(d: Destination) -> Seq<char> {
    match d {
        Destination::Unknown => "unknown"@,
        Destination::Kafka => "kafka"@,
        Destination::Postgres => "postgres"@,
    }
}

/// What becomes of a message.
pub enum Route {
    /// Dropped: a required header is missing or the deadline is unreadable.
    Discard,
    /// Published to the output topic now, with these headers.
    Publish(HeaderMap),
    /// Stored with these headers until the given deadline.
    Delay(HeaderMap, Timestamp),
}

impl Route {
    /// The destination of this route.
    pub fn destination(&self) -> (r: Destination)
        ensures
            r == match self {
                Route::Discard => Destination::Unknown,
                Route::Publish(_) => Destination::Kafka,
                Route::Delay(_, _) => Destination::Postgres,
            },
    {
        match self {
            Route::Discard => Destination::Unknown,
            Route::Publish(_) => Destination::Kafka,
            Route::Delay(_, _) => Destination::Postgres,
        }
    }
}

/// The route of a message with headers `raw` at instant `now`.
pub open spec fn spec_route_ok(raw: Seq<RawHeader>, now: Timestamp, r: Route) -> bool {
    match spec_required_headers(raw) {
        None => r is Discard,
        Some(m) => match spec_parse_instant(m[DEADLINE@]) {
            None => r is Discard,
            Some(d) => if at_or_before(d, now) {
                r matches Route::Publish(h) && h@ == m
            } else {
                r matches Route::Delay(h, t) && h@ == m && t == d
            },
        },
    }
}

/// How a message is routed, in terms of its raw headers and the instant read
/// from its deadline header: a message without both required headers, or
/// whose deadline is no date-time, is discarded; one whose deadline is
/// chronologically at or before `now` is published with its decoded headers;
/// any other is stored until exactly that deadline, which is then strictly
/// after `now`.
pub proof fn lemma_route_by_deadline(raw: Seq<RawHeader>, now: Timestamp, r: Route)
    requires
        spec_route_ok(raw, now, r),
    ensures
        !(has_text_header(raw, CHRONOS_ID@) && has_text_header(raw, DEADLINE@)) ==> r is Discard,
        has_text_header(raw, CHRONOS_ID@) && has_text_header(raw, DEADLINE@) ==> match spec_utc_instant(
            spec_header_map(raw)[DEADLINE@],
        ) {
            None => r is Discard,
            Some((s, n)) => if s < now.secs || (s == now.secs && n <= now.nanos) {
                r matches Route::Publish(h) && h@ == spec_header_map(raw)
            } else {
                r matches Route::Delay(h, d) && h@ == spec_header_map(raw) && d.secs == s && d.nanos
                    == n
            },
        },
        r matches Route::Delay(_, d) ==> d.secs > now.secs || (d.secs == now.secs && d.nanos
            > now.nanos),
        r matches Route::Publish(h) ==> spec_utc_instant(h@[DEADLINE@]) matches Some((s, n)) && (s
            < now.secs || (s == now.secs && n <= now.nanos)),
{
    lemma_header_map_keys(raw, CHRONOS_ID@);
    lemma_header_map_keys(raw, DEADLINE@);
}

/// Routes a message by its headers: a message that lacks the identifier or
/// the deadline header, or whose deadline is not a date-time, is discarded;
/// otherwise it is published when its deadline is at or before `now`, and
/// stored until its deadline when that is later.
pub fn route_message(raw: &Vec<RawHeader>, now: Timestamp) -> (r: Route)
    ensures
        spec_route_ok(raw@, now, r),
        !(has_text_header(raw@, CHRONOS_ID@) && has_text_header(raw@, DEADLINE@)) ==> r is Discard,
        has_text_header(raw@, CHRONOS_ID@) && has_text_header(raw@, DEADLINE@) ==> match spec_utc_instant(
            spec_header_map(raw@)[DEADLINE@],
        ) {
            None => r is Discard,
            Some((s, n)) => if s < now.secs || (s == now.secs && n <= now.nanos) {
                r matches Route::Publish(h) && h@ == spec_header_map(raw@)
            } else {
                r matches Route::Delay(h, d) && h@ == spec_header_map(raw@) && d.secs == s && d.nanos
                    == n
            },
        },
        r matches Route::Delay(_, d) ==> d.secs > now.secs || (d.secs == now.secs && d.nanos
            > now.nanos),
{
    let r = route_message_by_headers(raw, now);
    proof {
        lemma_route_by_deadline(raw@, now, r);
    }
    r
}

fn route_message_by_headers(raw: &Vec<RawHeader>, now: Timestamp) -> (r: Route)
    ensures
        spec_route_ok(raw@, now, r),
{
    match required_headers(raw) {
        None => Route::Discard,
        Some(headers) => {
            let deadline_text = match headers.get(&String::from_str(DEADLINE)) {
                Some(t) => t.clone(),
                None => {
                    return Route::Discard;
                },
            };
            let deadline = parse_instant(deadline_text.as_str());
            match destination_for(deadline, now) {
                Destination::Unknown => Route::Discard,
                Destination::Kafka => Route::Publish(headers),
                Destination::Postgres => match deadline {
                    Some(d) => Route::Delay(headers, d),
                    None => Route::Discard,
                },
            }
        },
    }
}

/// Why handling a message failed.
#[derive(Clone, Copy, Debug, PartialEq, Eq, Structural)]
pub enum HandleError {
    PayloadNotUtf8,
    JsonConversionFailed,
    MaxRetryReached,
    MessageKeyNotFound,
}

/// The text reported for each failure.
pub open spec fn spec_error_message(e: HandleError) -> Seq<char> {
    match e {
        HandleError::PayloadNotUtf8 => "message payload is not utf8 encoded"@,
        HandleError::JsonConversionFailed => "json conversion of payload failed"@,
        HandleError::MaxRetryReached => "max retry count reached for insert to delay query"@,
        HandleError::MessageKeyNotFound => "message key not found"@,
    }
}

impl HandleError {
    /// The text reported for this failure.
    pub fn message(&self) -> (r: &'static str)
        ensures
            r@ == spec_error_message(*self),
    {
        match self {
            HandleError::PayloadNotUtf8 => "message payload is not utf8 encoded",
            HandleError::JsonConversionFailed => "json conversion of payload failed",
            HandleError::MaxRetryReached => "max retry count reached for insert to delay query",
            HandleError::MessageKeyNotFound => "message key not found",
        }
    }
}

/// What publishing a due message takes.
pub enum PublishPlan {
    /// The payload is absent or not UTF-8: nothing is published and nothing
    /// is reported.
    Skip,
    /// The message cannot be published.
    Reject(HandleError),
    /// Publish this payload text under this key.
    Publish { payload: String, key: String },
}

/// The text of an optional UTF-8 byte string.
pub open spec fn opt_utf8_text(b: Option<Seq<u8>>) -> Option<Seq<char>> {
    match b {
        Some(v) => spec_utf8_text(v),
        None => None,
    }
}

/// The bytes of an optional byte slice.
pub open spec fn opt_bytes(b: Option<&[u8]>) -> Option<Seq<u8>> {
    match b {
        Some(v) => Some(v@),
        None => None,
    }
}

fn opt_utf8(b: Option<&[u8]>) -> (r: Option<String>)
    ensures
        r is Some <==> (b is Some && valid_utf8(b.unwrap()@)),
        r matches Some(s) ==> s@ == decode_utf8(b.unwrap()@),
        match r {
            Some(s) => opt_utf8_text(opt_bytes(b)) == Some(s@),
            None => opt_utf8_text(opt_bytes(b)) is None,
        },
{
    match b {
        Some(v) => utf8_text(v),
        None => None,
    }
}

/// The publish plan for payload and key bytes.
pub open spec fn publish_plan_ok(payload: Option<Seq<u8>>, key: Option<Seq<u8>>, r: PublishPlan) -> bool {
    match (opt_utf8_text(payload), opt_utf8_text(key)) {
        (None, _) => r is Skip,
        (Some(_), None) => r == PublishPlan::Reject(HandleError::MessageKeyNotFound),
        (Some(p), Some(k)) => r matches PublishPlan::Publish { payload: rp, key: rk } && rp@ == p
            && rk@ == k,
    }
}

/// A due message is skipped exactly when its payload is absent or not UTF-8;
/// with a UTF-8 payload and a UTF-8 key, of any length, exactly their texts
/// are published; with a UTF-8 payload and no usable key, the missing key is
/// reported.
pub proof fn lemma_publish_plan(payload: Option<Seq<u8>>, key: Option<Seq<u8>>, r: PublishPlan)
    requires
        publish_plan_ok(payload, key, r),
    ensures
        r is Skip <==> !(payload is Some && valid_utf8(payload.unwrap())),
        payload is Some && valid_utf8(payload.unwrap()) && key is Some && valid_utf8(key.unwrap())
            ==> (r matches PublishPlan::Publish { payload: rp, key: rk } && rp@ == decode_utf8(
            payload.unwrap(),
        ) && rk@ == decode_utf8(key.unwrap())),
        payload is Some && valid_utf8(payload.unwrap()) && !(key is Some && valid_utf8(
            key.unwrap(),
        )) ==> r == PublishPlan::Reject(HandleError::MessageKeyNotFound),
{
}

/// Decides how a due message is published, from its payload and key bytes:
/// a payload that is absent or not UTF-8 is skipped without error, a key
/// that is absent or not UTF-8 is reported, and otherwise the payload text is
/// published under the key text.
pub fn plan_publish(payload: Option<&[u8]>, key: Option<&[u8]>) -> (r: PublishPlan)
    ensures
        publish_plan_ok(opt_bytes(payload), opt_bytes(key), r),
        r is Skip <==> !(payload is Some && valid_utf8(payload.unwrap()@)),
        payload is Some && valid_utf8(payload.unwrap()@) && key is Some && valid_utf8(key.unwrap()@)
            ==> (r matches PublishPlan::Publish { payload: rp, key: rk } && rp@ == decode_utf8(
            payload.unwrap()@,
        ) && rk@ == decode_utf8(key.unwrap()@)),
        payload is Some && valid_utf8(payload.unwrap()@) && !(key is Some && valid_utf8(
            key.unwrap()@,
        )) ==> r == PublishPlan::Reject(HandleError::MessageKeyNotFound),
{
    let r = match opt_utf8(payload) {
        None => PublishPlan::Skip,
        Some(p) => match opt_utf8(key) {
            None => PublishPlan::Reject(HandleError::MessageKeyNotFound),
            Some(k) => PublishPlan::Publish { payload: p, key: k },
        },
    };
    proof {
        lemma_publish_plan(opt_bytes(payload), opt_bytes(key), r);
    }
    r
}


#[verifier::external_type_specification]
#[verifier::external_body]
pub struct ExJsonValue(serde_json::Value);

/// Whether a byte string is one JSON value (with nothing but whitespace
/// after it) that serde_json accepts: besides well-formed JSON this asks,
/// among other things, that numbers be in range (`1e400` is refused) and that
/// nesting be no deeper than serde_json's limit.
pub uninterp spec fn spec_is_json(bytes: Seq<u8>) -> bool;

/// The JSON value that serde_json reads from a byte string.
pub uninterp spec fn spec_json_value(bytes: Seq<u8>) -> serde_json::Value;

/// Calls `serde_json::from_slice::<serde_json::Value>`. The contract claims
/// that it succeeds on exactly the byte strings of which `spec_is_json`
/// holds, and that the value it yields is `spec_json_value` of the bytes;
/// both depend on the bytes alone.
#[verifier::external_body]
fn json_from_slice(bytes: &[u8]) -> (r: Option<serde_json::Value>)
    ensures
        r is Some <==> spec_is_json(bytes@),
        r matches Some(v) ==> v == spec_json_value(bytes@),
{
    match serde_json::from_slice::<serde_json::Value>(bytes) {
        Ok(v) => Some(v),
        Err(_) => None,
    }
}

/// What storing a message that is not yet due takes.
pub enum DelayPlan {
    /// The message cannot be stored.
    Reject(HandleError),
    /// The message has no readable key: nothing is stored and nothing is
    /// reported.
    Skip,
    /// Store this JSON payload under this key.
    Insert { value: serde_json::Value, key: String },
}

/// The outcome of checking a message before it is stored, with the stored
/// key where there is one.
pub open spec fn spec_delay_check(payload: Option<Seq<u8>>, key: Option<Seq<u8>>) -> Result<
    Option<Seq<char>>,
    HandleError,
> {
    match opt_utf8_text(payload) {
        None => Err(HandleError::PayloadNotUtf8),
        Some(_) => if !spec_is_json(payload.unwrap()) {
            Err(HandleError::JsonConversionFailed)
        } else {
            Ok(opt_utf8_text(key))
        },
    }
}

/// The delay plan for payload and key bytes.
pub open spec fn delay_plan_ok(payload: Option<Seq<u8>>, key: Option<Seq<u8>>, r: DelayPlan) -> bool {
    match spec_delay_check(payload, key) {
        Err(e) => r == DelayPlan::Reject(e),
        Ok(None) => r is Skip,
        Ok(Some(k)) => r matches DelayPlan::Insert { key: rk, value: rv } && rk@ == k && rv
            == spec_json_value(payload.unwrap()),
    }
}

/// A message that is not yet due is refused as not UTF-8 exactly when its
/// payload is absent or not UTF-8, and as not JSON exactly when the UTF-8
/// payload is not JSON; a JSON payload with a UTF-8 key, of any length, is
/// stored as the value read from the payload under the key's text; it is
/// skipped only when the key is absent or not UTF-8.
pub proof fn lemma_delay_plan(payload: Option<Seq<u8>>, key: Option<Seq<u8>>, r: DelayPlan)
    requires
        delay_plan_ok(payload, key, r),
    ensures
        r == DelayPlan::Reject(HandleError::PayloadNotUtf8) <==> !(payload is Some && valid_utf8(
            payload.unwrap(),
        )),
        r == DelayPlan::Reject(HandleError::JsonConversionFailed) <==> (payload is Some
            && valid_utf8(payload.unwrap()) && !spec_is_json(payload.unwrap())),
        payload is Some && valid_utf8(payload.unwrap()) && spec_is_json(payload.unwrap()) && key is Some
            && valid_utf8(key.unwrap()) ==> (r matches DelayPlan::Insert { key: rk, value: rv } && rk@
            == decode_utf8(key.unwrap()) && rv == spec_json_value(payload.unwrap())),
        r is Skip <==> (payload is Some && valid_utf8(payload.unwrap()) && spec_is_json(
            payload.unwrap(),
        ) && !(key is Some && valid_utf8(key.unwrap()))),
{
}

/// Decides how a message that is not yet due is stored, from its payload and
/// key bytes: a payload that is absent or not UTF-8, or not JSON, is
/// reported; a key that is absent or not UTF-8 means nothing is stored and
/// nothing reported; otherwise the value read from the payload is stored
/// under the key.
pub fn plan_delay_insert(payload: Option<&[u8]>, key: Option<&[u8]>) -> (r: DelayPlan)
    ensures
        delay_plan_ok(opt_bytes(payload), opt_bytes(key), r),
        r == DelayPlan::Reject(HandleError::PayloadNotUtf8) <==> !(payload is Some && valid_utf8(
            payload.unwrap()@,
        )),
        r == DelayPlan::Reject(HandleError::JsonConversionFailed) <==> (payload is Some
            && valid_utf8(payload.unwrap()@) && !spec_is_json(payload.unwrap()@)),
        payload is Some && valid_utf8(payload.unwrap()@) && spec_is_json(payload.unwrap()@) && key is Some
            && valid_utf8(key.unwrap()@) ==> (r matches DelayPlan::Insert { key: rk, value: rv } && rk@
            == decode_utf8(key.unwrap()@) && rv == spec_json_value(payload.unwrap()@)),
        r is Skip <==> (payload is Some && valid_utf8(payload.unwrap()@) && spec_is_json(
            payload.unwrap()@,
        ) && !(key is Some && valid_utf8(key.unwrap()@))),
{
    let r = plan_delay_insert_checked(payload, key);
    proof {
        lemma_delay_plan(opt_bytes(payload), opt_bytes(key), r);
    }
    r
}

fn plan_delay_insert_checked(payload: Option<&[u8]>, key: Option<&[u8]>) -> (r: DelayPlan)
    ensures
        delay_plan_ok(opt_bytes(payload), opt_bytes(key), r),
{
    match opt_utf8(payload) {
        None => DelayPlan::Reject(HandleError::PayloadNotUtf8),
        Some(_) => {
            let bytes = match payload {
                Some(b) => b,
                None => {
                    return DelayPlan::Reject(HandleError::PayloadNotUtf8);
                },
            };
            match json_from_slice(bytes) {
                None => DelayPlan::Reject(HandleError::JsonConversionFailed),
                Some(value) => match opt_utf8(key) {
                    None => DelayPlan::Skip,
                    Some(k) => DelayPlan::Insert { value, key: k },
                },
            }
        },
    }
}

/// How many times a store is tried before the message is reported failed.
pub const MAX_INSERT_ATTEMPTS: u32 = 3;

/// Counts the failed tries to store one message.
pub struct InsertRetry {
    failures: u32,
}

impl InsertRetry {
    /// The failed tries counted so far.
    pub closed spec fn failures(&self) -> nat {
        self.failures as nat
    }

    #[verifier::type_invariant]
    closed spec fn below_limit(&self) -> bool {
        self.failures < MAX_INSERT_ATTEMPTS
    }

    /// No failed try yet.
    pub fn new() -> (r: InsertRetry)
        ensures
            r.failures() == 0,
    {
        InsertRetry { failures: 0 }
    }

    /// Counts a failed try; `true` when the message is to be given up as
    /// this was the last allowed try, and `false` when it is to be tried
    /// again.
    pub fn record_failure(&mut self) -> (give_up: bool)
        ensures
            give_up == (old(self).failures() + 1 == MAX_INSERT_ATTEMPTS),
            give_up == retry_step(old(self).failures()) is None,
            !give_up ==> final(self).failures() == old(self).failures() + 1,
            !give_up ==> retry_step(old(self).failures()) == Some(final(self).failures()),
            give_up ==> final(self).failures() == old(self).failures(),
    {
        proof {
            use_type_invariant(&*self);
        }
        if self.failures + 1 == MAX_INSERT_ATTEMPTS {
            true
        } else {
            self.failures = self.failures + 1;
            false
        }
    }
}

/// The failure count after one more failed try, or `None` when that try was
/// the last allowed one.
pub open spec fn retry_step(failures: nat) -> Option<nat> {
    if failures + 1 >= MAX_INSERT_ATTEMPTS {
        None
    } else {
        Some(failures + 1)
    }
}

/// The tries to store a message, given the outcome of each try in order
/// (`true` for success): how many tries are made, and whether the message
/// ends stored.
pub open spec fn spec_insert_tries(outcomes: Seq<bool>) -> (nat, bool)
    decreases outcomes.len(),
{
    spec_insert_tries_from(0, outcomes)
}

/// As [`spec_insert_tries`], for an [`InsertRetry`] that has counted
/// `failures` failed tries, each failed try advancing it by [`retry_step`] as
/// [`InsertRetry::record_failure`] does.
pub open spec fn spec_insert_tries_from(failures: nat, outcomes: Seq<bool>) -> (nat, bool)
    decreases outcomes.len(),
{
    if outcomes.len() == 0 {
        (0, false)
    } else if outcomes[0] {
        (1, true)
    } else {
        match retry_step(failures) {
            None => (1, false),
            Some(f) => {
                let rest = spec_insert_tries_from(f, outcomes.drop_first());
                (rest.0 + 1, rest.1)
            },
        }
    }
}

/// Storing a message is tried at most three times: it ends stored exactly
/// when one of the first three tries succeeds, and it is given up only after
/// three failed tries.
pub proof fn lemma_at_most_three_tries(outcomes: Seq<bool>)
    requires
        outcomes.len() >= MAX_INSERT_ATTEMPTS,
    ensures
        spec_insert_tries(outcomes).0 <= MAX_INSERT_ATTEMPTS,
        spec_insert_tries(outcomes).1 <==> (outcomes[0] || outcomes[1] || outcomes[2]),
        !spec_insert_tries(outcomes).1 ==> spec_insert_tries(outcomes).0 == MAX_INSERT_ATTEMPTS,
{
    let o1 = outcomes.drop_first();
    let o2 = o1.drop_first();
    assert(o1[0] == outcomes[1]);
    assert(o2[0] == outcomes[2]);
    reveal_with_fuel(spec_insert_tries_from, 4);
}

/// The status label of a handled message.
pub open spec fn spec_status_label(failed: bool) -> Seq<char> {
    if failed {
        "fail"@
    } else {
        "pass"@
    }
}

/// The labels under which the handling time of a message is recorded: its
/// destination and `pass` or `fail`; none for a discarded message, whose
/// handling time is not recorded.
pub fn consume_labels(destination: Destination, failed: bool) -> (r: Option<
    (&'static str, &'static str),
>)
    ensures
        match r {
            Some((d, s)) => destination != Destination::Unknown && d@ == spec_destination_label(
                destination,
            ) && s@ == spec_status_label(failed) && s@ == (if failed {
                "fail"@
            } else {
                "pass"@
            }) && d@ == (if destination is Kafka {
                "kafka"@
            } else {
                "postgres"@
            }),
            None => destination == Destination::Unknown,
        },
{
    match destination {
        Destination::Unknown => None,
        _ => Some((destination.label(), if failed { "fail" } else { "pass" })),
    }
}

/// Every message that carries both required headers and a readable deadline
/// goes to exactly one of the output topic and the delay store, and one that
/// has been published at one instant would be published at every later one.
pub proof fn lemma_route_is_exclusive_and_stable(
    deadline: Timestamp,
    now: Timestamp,
    later: Timestamp,
)
    requires
        at_or_before(now, later),
    ensures
        spec_destination(Some(deadline), now) != Destination::Unknown,
        spec_destination(Some(deadline), now) is Kafka <==> !(spec_destination(
            Some(deadline),
            now,
        ) is Postgres),
        spec_destination(Some(deadline), now) is Kafka ==> spec_destination(
            Some(deadline),
            later,
        ) is Kafka,
        spec_destination(None, now) is Unknown,
{
}

} // verus!
