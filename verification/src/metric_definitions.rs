//! The static definition layer of the Chronos metrics.

use vstd::prelude::*;

verus! {

/// Identifies one of the Chronos metric families.
#[derive(Clone, Copy, Debug, PartialEq, Eq, Structural, Hash)]
pub enum MetricId {
    MsgConsumeLatency,
    MsgJitter,
    MsgProcessLatency,
    MsgReset,
    MsgWaitTime,
}

/// The instrument that records a metric.
#[derive(Clone, Copy, Debug, PartialEq, Eq, Structural)]
pub enum MetricKind {
    Counter,
    Histogram,
}

impl MetricKind {
    /// Whether the instrument is a counter.
    pub fn is_counter(self) -> (r: bool)
        ensures
            r == (self is Counter),
    {
        matches!(self, MetricKind::Counter)
    }

    /// Whether the instrument is a histogram.
    pub fn is_histogram(self) -> (r: bool)
        ensures
            r == (self is Histogram),
    {
        matches!(self, MetricKind::Histogram)
    }
}

/// Aggregation temporality of a metric.
#[derive(Clone, Copy, Debug, PartialEq, Eq, Structural)]
pub enum MetricTemporality {
    Cumulative,
}


/// One metric family: its name, description, unit, labels, instrument, and
/// the label combinations that are created before any observation.
///
/// Bucket bounds are held in thousandths of `unit` (so a bound of 500 on a
/// metric in seconds is half a second).
pub struct MetricDefinition {
    pub id: MetricId,
    pub name: &'static str,
    pub description: &'static str,
    pub unit: Option<&'static str>,
    pub label_names: Vec<&'static str>,
    pub kind: MetricKind,
    pub temporality: Option<MetricTemporality>,
    pub buckets: Option<Vec<u64>>,
    pub prewarm_label_values: Vec<Vec<&'static str>>,
}

/// The mathematical content of a [`MetricDefinition`].
pub struct MetricDefinitionView {
    pub id: MetricId,
    pub name: Seq<char>,
    pub description: Seq<char>,
    pub unit: Option<Seq<char>>,
    pub label_names: Seq<Seq<char>>,
    pub kind: MetricKind,
    pub temporality: Option<MetricTemporality>,
    pub buckets: Option<Seq<u64>>,
    pub prewarm_label_values: Seq<Seq<Seq<char>>>,
}

/// The characters of each string of a sequence of string slices.
pub open spec fn strs_view(v: Seq<&'static str>) -> Seq<Seq<char>> {
    v.map_values(|s: &'static str| s@)
}

impl View for MetricDefinition {
    type V = MetricDefinitionView;

    open spec fn view(&self) -> MetricDefinitionView {
        MetricDefinitionView {
            id: self.id,
            name: self.name@,
            description: self.description@,
            unit: match self.unit {
                Some(u) => Some(u@),
                None => None,
            },
            label_names: strs_view(self.label_names@),
            kind: self.kind,
            temporality: self.temporality,
            buckets: match self.buckets {
                Some(b) => Some(b@),
                None => None,
            },
            prewarm_label_values: self.prewarm_label_values@.map_values(
                |v: Vec<&'static str>| strs_view(v@),
            ),
        }
    }
}

/// The order in which the definitions are listed.
pub open spec fn id_at(i: int) -> MetricId {
    if i == 0 {
        MetricId::MsgConsumeLatency
    } else if i == 1 {
        MetricId::MsgJitter
    } else if i == 2 {
        MetricId::MsgProcessLatency
    } else if i == 3 {
        MetricId::MsgReset
    } else {
        MetricId::MsgWaitTime
    }
}

/// Number of metric families.
pub const METRIC_COUNT: usize = 5;

/// Bounds of the duration histograms of message handling, in milliseconds:
/// 1 ms doubling twelve times.
pub open spec fn duration_buckets() -> Seq<u64> {
    seq![1, 2, 4, 8, 16, 32, 64, 128, 256, 512, 1024, 2048]
}

/// Bounds of the jitter histogram, in milliseconds, with an explicit bound at
/// the 500 ms service level.
pub open spec fn jitter_buckets() -> Seq<u64> {
    seq![10, 50, 100, 250, 500, 1000, 2500, 5000, 10000]
}

/// Bounds of the queue wait histogram, in milliseconds: 100 ms doubling
/// fourteen times.
pub open spec fn wait_buckets() -> Seq<u64> {
    seq![100, 200, 400, 800, 1600, 3200, 6400, 12800, 25600, 51200, 102400, 204800, 409600, 819200]
}

/// The definition of each metric family.
pub open spec fn spec_definition(id: MetricId) -> MetricDefinitionView {
    match id {
        MetricId::MsgConsumeLatency => MetricDefinitionView {
            id,
            name: "chronos.message.consume.duration"@,
            description: "Duration of handle_message() in message_receiver."@,
            unit: Some("s"@),
            label_names: seq!["chronos.consume.status"@, "chronos.destination"@],
            kind: MetricKind::Histogram,
            temporality: Some(MetricTemporality::Cumulative),
            buckets: Some(duration_buckets()),
            prewarm_label_values: seq![
                seq!["pass"@, "kafka"@],
                seq!["fail"@, "kafka"@],
                seq!["pass"@, "postgres"@],
                seq!["fail"@, "postgres"@],
            ],
        },
        MetricId::MsgJitter => MetricDefinitionView {
            id,
            name: "chronos.message.jitter"@,
            description: "Difference between actual publish time and client-requested deadline."@,
            unit: Some("s"@),
            label_names: seq![],
            kind: MetricKind::Histogram,
            temporality: Some(MetricTemporality::Cumulative),
            buckets: Some(jitter_buckets()),
            prewarm_label_values: seq![],
        },
        MetricId::MsgProcessLatency => MetricDefinitionView {
            id,
            name: "chronos.message.process.duration"@,
            description: "Duration of processor_message_ready() loop in message_processor."@,
            unit: Some("s"@),
            label_names: seq!["chronos.process.status"@, "chronos.processor.returned"@],
            kind: MetricKind::Histogram,
            temporality: Some(MetricTemporality::Cumulative),
            buckets: Some(duration_buckets()),
            prewarm_label_values: seq![
                seq!["pass"@, "true"@],
                seq!["fail"@, "true"@],
                seq!["pass"@, "false"@],
                seq!["fail"@, "false"@],
            ],
        },
        MetricId::MsgReset => MetricDefinitionView {
            id,
            name: "chronos.message.reset"@,
            description: "Number of records reset by reset_to_init_db() in the monitor task."@,
            unit: Some("{message}"@),
            label_names: seq![],
            kind: MetricKind::Counter,
            temporality: None,
            buckets: None,
            prewarm_label_values: seq![],
        },
        MetricId::MsgWaitTime => MetricDefinitionView {
            id,
            name: "chronos.message.wait.duration"@,
            description: "Time a message spent in the Kafka input queue before processing."@,
            unit: Some("s"@),
            label_names: seq![],
            kind: MetricKind::Histogram,
            temporality: Some(MetricTemporality::Cumulative),
            buckets: Some(wait_buckets()),
            prewarm_label_values: seq![],
        },
    }
}

fn duration_bucket_vec() -> (r: Vec<u64>)
    ensures
        r@ == duration_buckets(),
{
    let r = vec![1, 2, 4, 8, 16, 32, 64, 128, 256, 512, 1024, 2048];
    assert(r@ =~= duration_buckets());
    r
}

impl MetricId {
    /// The definition of this metric family.
    pub fn definition(self) -> (r: MetricDefinition)
        ensures
            r@ == spec_definition(self),
            prewarm_fits_labels(r@),
    {
        proof {
            lemma_prewarm_values_in_label_domains(self);
        }
        match self {
            MetricId::MsgConsumeLatency => {
                let r = MetricDefinition {
                    id: self,
                    name: "chronos.message.consume.duration",
                    description: "Duration of handle_message() in message_receiver.",
                    unit: Some("s"),
                    label_names: vec!["chronos.consume.status", "chronos.destination"],
                    kind: MetricKind::Histogram,
                    temporality: Some(MetricTemporality::Cumulative),
                    buckets: Some(duration_bucket_vec()),
                    prewarm_label_values: vec![
                        vec!["pass", "kafka"],
                        vec!["fail", "kafka"],
                        vec!["pass", "postgres"],
                        vec!["fail", "postgres"],
                    ],
                };
                assert(r@.label_names =~= spec_definition(self).label_names);
                assert(r@.prewarm_label_values[0] =~= spec_definition(self).prewarm_label_values[0]);
                assert(r@.prewarm_label_values[1] =~= spec_definition(self).prewarm_label_values[1]);
                assert(r@.prewarm_label_values[2] =~= spec_definition(self).prewarm_label_values[2]);
                assert(r@.prewarm_label_values[3] =~= spec_definition(self).prewarm_label_values[3]);
                assert(r@.prewarm_label_values =~= spec_definition(self).prewarm_label_values);
                r
            },
            MetricId::MsgJitter => {
                let buckets = vec![10, 50, 100, 250, 500, 1000, 2500, 5000, 10000];
                assert(buckets@ =~= jitter_buckets());
                let r = MetricDefinition {
                    id: self,
                    name: "chronos.message.jitter",
                    description: "Difference between actual publish time and client-requested deadline.",
                    unit: Some("s"),
                    label_names: vec![],
                    kind: MetricKind::Histogram,
                    temporality: Some(MetricTemporality::Cumulative),
                    buckets: Some(buckets),
                    prewarm_label_values: vec![],
                };
                assert(r@.label_names =~= spec_definition(self).label_names);
                assert(r@.prewarm_label_values =~= spec_definition(self).prewarm_label_values);
                r
            },
            MetricId::MsgProcessLatency => {
                let r = MetricDefinition {
                    id: self,
                    name: "chronos.message.process.duration",
                    description: "Duration of processor_message_ready() loop in message_processor.",
                    unit: Some("s"),
                    label_names: vec!["chronos.process.status", "chronos.processor.returned"],
                    kind: MetricKind::Histogram,
                    temporality: Some(MetricTemporality::Cumulative),
                    buckets: Some(duration_bucket_vec()),
                    prewarm_label_values: vec![
                        vec!["pass", "true"],
                        vec!["fail", "true"],
                        vec!["pass", "false"],
                        vec!["fail", "false"],
                    ],
                };
                assert(r@.label_names =~= spec_definition(self).label_names);
                assert(r@.prewarm_label_values[0] =~= spec_definition(self).prewarm_label_values[0]);
                assert(r@.prewarm_label_values[1] =~= spec_definition(self).prewarm_label_values[1]);
                assert(r@.prewarm_label_values[2] =~= spec_definition(self).prewarm_label_values[2]);
                assert(r@.prewarm_label_values[3] =~= spec_definition(self).prewarm_label_values[3]);
                assert(r@.prewarm_label_values =~= spec_definition(self).prewarm_label_values);
                r
            },
            MetricId::MsgReset => {
                let r = MetricDefinition {
                    id: self,
                    name: "chronos.message.reset",
                    description: "Number of records reset by reset_to_init_db() in the monitor task.",
                    unit: Some("{message}"),
                    label_names: vec![],
                    kind: MetricKind::Counter,
                    temporality: None,
                    buckets: None,
                    prewarm_label_values: vec![],
                };
                assert(r@.label_names =~= spec_definition(self).label_names);
                assert(r@.prewarm_label_values =~= spec_definition(self).prewarm_label_values);
                r
            },
            MetricId::MsgWaitTime => {
                let buckets = vec![100, 200, 400, 800, 1600, 3200, 6400, 12800, 25600, 51200, 102400, 204800, 409600, 819200];
                assert(buckets@ =~= wait_buckets());
                let r = MetricDefinition {
                    id: self,
                    name: "chronos.message.wait.duration",
                    description: "Time a message spent in the Kafka input queue before processing.",
                    unit: Some("s"),
                    label_names: vec![],
                    kind: MetricKind::Histogram,
                    temporality: Some(MetricTemporality::Cumulative),
                    buckets: Some(buckets),
                    prewarm_label_values: vec![],
                };
                assert(r@.label_names =~= spec_definition(self).label_names);
                assert(r@.prewarm_label_values =~= spec_definition(self).prewarm_label_values);
                r
            },
        }
    }
}

/// All metric families, in the order of [`id_at`].
pub fn metric_definitions() -> (r: Vec<MetricDefinition>)
    ensures
        r@.len() == METRIC_COUNT,
        forall|i: int| 0 <= i < METRIC_COUNT ==> #[trigger] r@[i]@ == spec_definition(id_at(i)),
        forall|i: int| 0 <= i < METRIC_COUNT ==> prewarm_fits_labels(#[trigger] r@[i]@),
{
    let mut r: Vec<MetricDefinition> = Vec::new();
    r.push(MetricId::MsgConsumeLatency.definition());
    r.push(MetricId::MsgJitter.definition());
    r.push(MetricId::MsgProcessLatency.definition());
    r.push(MetricId::MsgReset.definition());
    r.push(MetricId::MsgWaitTime.definition());
    r
}


/// A sequence of bucket bounds in which each bound is larger than the one
/// before it.
pub open spec fn strictly_increasing(b: Seq<u64>) -> bool {
    forall|i: int, j: int| 0 <= i < j < b.len() ==> b[i] < b[j]
}

/// Histogram bucket bounds are strictly increasing and not empty, as a
/// histogram requires.
pub proof fn lemma_buckets_strictly_increasing(id: MetricId)
    ensures
        spec_definition(id).buckets matches Some(b) ==> b.len() > 0 && strictly_increasing(b),
{
    let d = duration_buckets();
    let j = jitter_buckets();
    let w = wait_buckets();
    assert(forall|i: int| 0 <= i < d.len() - 1 ==> #[trigger] d[i] < d[i + 1]);
    assert(forall|i: int| 0 <= i < j.len() - 1 ==> #[trigger] j[i] < j[i + 1]);
    assert(forall|i: int| 0 <= i < w.len() - 1 ==> #[trigger] w[i] < w[i + 1]);
    lemma_adjacent_increasing(d);
    lemma_adjacent_increasing(j);
    lemma_adjacent_increasing(w);
}

proof fn lemma_adjacent_increasing(b: Seq<u64>)
    requires
        forall|i: int| 0 <= i < b.len() - 1 ==> #[trigger] b[i] < b[i + 1],
    ensures
        strictly_increasing(b),
{
    assert forall|i: int, j: int| 0 <= i < j < b.len() implies b[i] < b[j] by {
        lemma_adjacent_increasing_from(b, i, j);
    }
}

proof fn lemma_adjacent_increasing_from(b: Seq<u64>, i: int, j: int)
    requires
        forall|k: int| 0 <= k < b.len() - 1 ==> #[trigger] b[k] < b[k + 1],
        0 <= i < j < b.len(),
    ensures
        b[i] < b[j],
    decreases j - i,
{
    if j > i + 1 {
        lemma_adjacent_increasing_from(b, i, j - 1);
        assert(b[j - 1] < b[j]);
    }
}

/// The duration histograms start at one millisecond and double at each
/// bucket; the wait histogram starts at 100 ms and doubles at each bucket.
pub proof fn lemma_exponential_buckets()
    ensures
        duration_buckets().len() == 12,
        duration_buckets()[0] == 1,
        forall|i: int| 1 <= i < 12 ==> #[trigger] duration_buckets()[i] == 2 * duration_buckets()[i - 1],
        wait_buckets().len() == 14,
        wait_buckets()[0] == 100,
        forall|i: int| 1 <= i < 14 ==> #[trigger] wait_buckets()[i] == 2 * wait_buckets()[i - 1],
{
}

/// The jitter histogram has a bound at exactly half a second, the service
/// level for scheduling jitter.
pub proof fn lemma_jitter_has_half_second_bucket()
    ensures
        spec_definition(MetricId::MsgJitter).buckets matches Some(b) && b.contains(500),
{
    assert(jitter_buckets()[4] == 500);
}

/// A counter has neither buckets nor temporality; a histogram has both, and
/// its temporality is cumulative.
pub proof fn lemma_kind_shapes_definition(id: MetricId)
    ensures
        spec_definition(id).kind is Counter <==> spec_definition(id).buckets is None,
        spec_definition(id).kind is Counter <==> spec_definition(id).temporality is None,
        spec_definition(id).kind is Histogram ==> spec_definition(id).temporality
            == Some(MetricTemporality::Cumulative),
        spec_definition(id).id == id,
{
}

/// Every pre-created label combination gives one value to each label name,
/// and no combination is listed twice.
pub proof fn lemma_prewarm_values_fit_labels(id: MetricId)
    ensures
        forall|k: int|
            0 <= k < spec_definition(id).prewarm_label_values.len()
                ==> #[trigger] spec_definition(id).prewarm_label_values[k].len()
                == spec_definition(id).label_names.len(),
        forall|k: int, l: int|
            0 <= k < l < spec_definition(id).prewarm_label_values.len()
                ==> #[trigger] spec_definition(id).prewarm_label_values[k]
                != #[trigger] spec_definition(id).prewarm_label_values[l],
        spec_definition(id).label_names.len() > 0 ==> spec_definition(id).prewarm_label_values.len()
            == 4,
{
    reveal_strlit("pass");
    reveal_strlit("fail");
    reveal_strlit("true");
    reveal_strlit("false");
    reveal_strlit("kafka");
    reveal_strlit("postgres");
    let p = spec_definition(id).prewarm_label_values;
    assert forall|k: int, l: int| 0 <= k < l < p.len() implies #[trigger] p[k] != #[trigger] p[l] by {
        if p[k] == p[l] {
            assert(p[k][0] == p[l][0]);
            assert(p[k][1] == p[l][1]);
            assert(p[k][0][0] == p[l][0][0]);
            assert(p[k][1][0] == p[l][1][0]);
        }
    }
}

/// The values a label may take: an outcome label is `pass` or `fail`, the
/// destination label is `kafka` or `postgres`, and the label saying whether
/// the processing loop returned early is `true` or `false`. Any other label
/// has no known values.
pub open spec fn label_domain(name: Seq<char>) -> Set<Seq<char>> {
    if name == "chronos.consume.status"@ || name == "chronos.process.status"@ {
        set!["pass"@, "fail"@]
    } else if name == "chronos.destination"@ {
        set!["kafka"@, "postgres"@]
    } else if name == "chronos.processor.returned"@ {
        set!["true"@, "false"@]
    } else {
        Set::empty()
    }
}

/// Every pre-created label combination sets each label, in the order of the
/// label names, to one of that label's values: the outcome label to `pass`
/// or `fail`, the destination label to a destination, the early-return label
/// to `true` or `false`.
pub open spec fn prewarm_fits_labels(d: MetricDefinitionView) -> bool {
    forall|k: int, i: int|
        0 <= k < d.prewarm_label_values.len() && 0 <= i < d.label_names.len()
            ==> d.prewarm_label_values[k].len() == d.label_names.len() && label_domain(
            d.label_names[i],
        ).contains(#[trigger] d.prewarm_label_values[k][i])
}

/// Each definition's pre-created combinations give every label a value from
/// its own domain, so label names and values line up.
pub proof fn lemma_prewarm_values_in_label_domains(id: MetricId)
    ensures
        prewarm_fits_labels(spec_definition(id)),
        spec_definition(id).prewarm_label_values.len() > 0 ==> spec_definition(id).label_names.len()
            > 0,
{
    reveal_strlit("chronos.consume.status");
    reveal_strlit("chronos.process.status");
    reveal_strlit("chronos.destination");
    reveal_strlit("chronos.processor.returned");
    let d = spec_definition(id);
    assert forall|k: int, i: int|
        0 <= k < d.prewarm_label_values.len() && 0 <= i < d.label_names.len() implies d.prewarm_label_values[k].len()
        == d.label_names.len() && label_domain(d.label_names[i]).contains(
        #[trigger] d.prewarm_label_values[k][i],
    ) by {
        assert("chronos.consume.status"@.len() == 22);
        assert("chronos.process.status"@.len() == 22);
        assert("chronos.destination"@.len() == 19);
        assert("chronos.processor.returned"@.len() == 26);
        assert(label_domain("chronos.consume.status"@) == set!["pass"@, "fail"@]);
        assert(label_domain("chronos.process.status"@) == set!["pass"@, "fail"@]);
        assert(label_domain("chronos.destination"@) == set!["kafka"@, "postgres"@]);
        assert(label_domain("chronos.processor.returned"@) == set!["true"@, "false"@]);
    }
}

/// Distinct metric families have distinct names, and the table lists each
/// family once.
pub proof fn lemma_names_distinct(a: MetricId, b: MetricId)
    ensures
        a != b ==> spec_definition(a).name != spec_definition(b).name,
        forall|i: int, j: int| 0 <= i < j < METRIC_COUNT ==> id_at(i) != id_at(j),
        exists|i: int| 0 <= i < METRIC_COUNT && #[trigger] id_at(i) == a,
{
    reveal_strlit("chronos.message.consume.duration");
    reveal_strlit("chronos.message.jitter");
    reveal_strlit("chronos.message.process.duration");
    reveal_strlit("chronos.message.reset");
    reveal_strlit("chronos.message.wait.duration");
    if a != b && spec_definition(a).name == spec_definition(b).name {
        let na = spec_definition(a).name;
        let nb = spec_definition(b).name;
        assert(na.len() == nb.len());
        assert(na[16] == nb[16]);
        assert(na[18] == nb[18]);
    }
    match a {
        MetricId::MsgConsumeLatency => assert(id_at(0) == a),
        MetricId::MsgJitter => assert(id_at(1) == a),
        MetricId::MsgProcessLatency => assert(id_at(2) == a),
        MetricId::MsgReset => assert(id_at(3) == a),
        MetricId::MsgWaitTime => assert(id_at(4) == a),
    }
}

/// Exactly one of the two kind tests holds of every kind.
pub proof fn lemma_kind_tests_exclusive(k: MetricKind)
    ensures
        (k is Counter) != (k is Histogram),
{
}

} // verus!
