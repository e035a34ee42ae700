//! The label sets of the labelled latency histograms of the metrics
//! registry, and the label combinations created with them so that every
//! family shows in a scrape before its first observation.

use vstd::prelude::*;
use crate::metric_definitions::strs_view;

verus! {

/// Each value of `b` paired after `x`.
pub open spec fn pairs_with(x: Seq<char>, b: Seq<Seq<char>>) -> Seq<Seq<Seq<char>>> {
    b.map_values(|y: Seq<char>| seq![x, y])
}

/// Every pair of a value of `a` and a value of `b`, ordered by the value of
/// `a` first and by the value of `b` second.
pub open spec fn label_product(a: Seq<Seq<char>>, b: Seq<Seq<char>>) -> Seq<Seq<Seq<char>>>
    decreases a.len(),
{
    if a.len() == 0 {
        seq![]
    } else {
        label_product(a.drop_last(), b) + pairs_with(a.last(), b)
    }
}

/// The characters of each label combination.
pub open spec fn combos_view(v: Seq<Vec<&'static str>>) -> Seq<Seq<Seq<char>>> {
    v.map_values(|c: Vec<&'static str>| strs_view(c@))
}

/// Every combination of a value of the first label with a value of the
/// second, the first label's values in the outer order.
pub fn label_combinations(first: &Vec<&'static str>, second: &Vec<&'static str>) -> (r: Vec<
    Vec<&'static str>,
>)
    ensures
        combos_view(r@) == label_product(strs_view(first@), strs_view(second@)),
{
    let ghost a = strs_view(first@);
    let ghost b = strs_view(second@);
    let mut r: Vec<Vec<&'static str>> = Vec::new();
    let mut i: usize = 0;
    while i < first.len()
        invariant
            i <= first@.len(),
            a == strs_view(first@),
            b == strs_view(second@),
            combos_view(r@) == label_product(a.take(i as int), b),
        decreases first@.len() - i,
    {
        let ghost before = combos_view(r@);
        let mut j: usize = 0;
        while j < second.len()
            invariant
                i < first@.len(),
                j <= second@.len(),
                a == strs_view(first@),
                b == strs_view(second@),
                combos_view(r@) == before + pairs_with(a[i as int], b.take(j as int)),
            decreases second@.len() - j,
        {
            let combo = vec![first[i], second[j]];
            let ghost prev = r@;
            r.push(combo);
            assert(strs_view(combo@) =~= seq![a[i as int], b[j as int]]);
            assert(combos_view(r@) =~= combos_view(prev).push(strs_view(combo@)));
            assert(pairs_with(a[i as int], b.take(j + 1)) =~= pairs_with(
                a[i as int],
                b.take(j as int),
            ).push(seq![a[i as int], b[j as int]]));
            j = j + 1;
        }
        assert(b.take(second@.len() as int) =~= b);
        assert(a.take(i + 1).drop_last() =~= a.take(i as int));
        assert(a.take(i + 1).last() == a[i as int]);
        i = i + 1;
    }
    assert(a.take(first@.len() as int) =~= a);
    r
}

/// There are as many combinations as the product of the numbers of values.
pub proof fn lemma_product_len(a: Seq<Seq<char>>, b: Seq<Seq<char>>)
    ensures
        label_product(a, b).len() == a.len() * b.len(),
    decreases a.len(),
{
    if a.len() > 0 {
        lemma_product_len(a.drop_last(), b);
        assert((a.len() - 1) * b.len() + b.len() == a.len() * b.len()) by (nonlinear_arith);
    }
}

/// Every pair of a value of the first label and a value of the second is
/// among the combinations, at the place that the outer-then-inner order
/// gives it.
pub proof fn lemma_product_has_every_pair(a: Seq<Seq<char>>, b: Seq<Seq<char>>, i: int, j: int)
    requires
        0 <= i < a.len(),
        0 <= j < b.len(),
    ensures
        0 <= i * b.len() + j < label_product(a, b).len(),
        label_product(a, b)[i * b.len() + j] == seq![a[i], b[j]],
        label_product(a, b).contains(seq![a[i], b[j]]),
    decreases a.len(),
{
    lemma_product_len(a, b);
    let n = b.len();
    let prefix = label_product(a.drop_last(), b);
    lemma_product_len(a.drop_last(), b);
    assert(i * n + j < a.len() * n) by (nonlinear_arith)
        requires
            0 <= i < a.len(),
            0 <= j < n,
    ;
    assert(0 <= i * n) by (nonlinear_arith)
        requires
            0 <= i,
            0 <= n,
    ;
    if i < a.len() - 1 {
        lemma_product_has_every_pair(a.drop_last(), b, i, j);
        assert(a.drop_last()[i] == a[i]);
    } else {
        assert(prefix.len() == i * n);
    }
}

/// A histogram of the metrics registry that carries two labels.
pub struct LabelledHistogram {
    pub name: &'static str,
    pub help: &'static str,
    pub label_names: Vec<&'static str>,
    /// The label combinations created with the histogram.
    pub prewarm: Vec<Vec<&'static str>>,
}

/// The destinations a handled message is recorded under.
pub open spec fn destination_values() -> Seq<Seq<char>> {
    seq!["kafka"@, "postgres"@]
}

/// The outcomes a handled message is recorded under.
pub open spec fn status_values() -> Seq<Seq<char>> {
    seq!["pass"@, "fail"@]
}

/// Whether the processing loop returned early for want of ready rows.
pub open spec fn returned_values() -> Seq<Seq<char>> {
    seq!["true"@, "false"@]
}

/// The histogram of how long handling one received message takes, labelled
/// by destination and outcome, with every destination/outcome pair created.
pub fn consume_latency_histogram() -> (r: LabelledHistogram)
    ensures
        r.name@ == "msg_consume_latency"@,
        r.help@ == "Duration of handle_message() in message_receiver"@,
        strs_view(r.label_names@) == seq!["destination"@, "status"@],
        combos_view(r.prewarm@) == label_product(destination_values(), status_values()),
{
    let destinations = vec!["kafka", "postgres"];
    let statuses = vec!["pass", "fail"];
    assert(strs_view(destinations@) =~= destination_values());
    assert(strs_view(statuses@) =~= status_values());
    let label_names = vec!["destination", "status"];
    assert(strs_view(label_names@) =~= seq!["destination"@, "status"@]);
    LabelledHistogram {
        name: "msg_consume_latency",
        help: "Duration of handle_message() in message_receiver",
        label_names,
        prewarm: label_combinations(&destinations, &statuses),
    }
}

/// The histogram of how long one pass of the processing loop takes,
/// labelled by whether it returned early and by outcome, with every pair
/// created.
pub fn process_latency_histogram() -> (r: LabelledHistogram)
    ensures
        r.name@ == "msg_process_latency"@,
        r.help@ == "Duration of processor_message_ready() loop in message_processor"@,
        strs_view(r.label_names@) == seq!["returned"@, "status"@],
        combos_view(r.prewarm@) == label_product(returned_values(), status_values()),
{
    let returned = vec!["true", "false"];
    let statuses = vec!["pass", "fail"];
    assert(strs_view(returned@) =~= returned_values());
    assert(strs_view(statuses@) =~= status_values());
    let label_names = vec!["returned", "status"];
    assert(strs_view(label_names@) =~= seq!["returned"@, "status"@]);
    LabelledHistogram {
        name: "msg_process_latency",
        help: "Duration of processor_message_ready() loop in message_processor",
        label_names,
        prewarm: label_combinations(&returned, &statuses),
    }
}

/// Both labelled histograms are created with exactly four label
/// combinations, each giving one value to each of their two labels.
pub proof fn lemma_four_prewarmed_combinations()
    ensures
        label_product(destination_values(), status_values()).len() == 4,
        label_product(returned_values(), status_values()).len() == 4,
        forall|k: int|
            0 <= k < 4 ==> #[trigger] label_product(destination_values(), status_values())[k].len()
                == 2,
        forall|k: int|
            0 <= k < 4 ==> #[trigger] label_product(returned_values(), status_values())[k].len()
                == 2,
{
    lemma_product_len(destination_values(), status_values());
    lemma_product_len(returned_values(), status_values());
    reveal_with_fuel(label_product, 3);
}

} // verus!
