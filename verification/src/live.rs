//! The live metrics backing the schema's declarations: each owns one backend
//! cell together with its exported name and help text, registers itself at
//! construction, and can render itself as one snapshot family.

use vstd::prelude::*;

use crate::backend::{
    acceptable_label, acceptable_opts, backend_names, counter_get, counter_inc, counter_name,
    counter_step, counter_value, counter_vec_counts, counter_vec_get, counter_vec_inc,
    counter_vec_name, gauge_get, gauge_name, gauge_set, gauge_value, histogram_vec_count,
    histogram_vec_counts, histogram_vec_name, histogram_vec_observe, label_id, no_colliding_name,
    observed, observed_sample, register_counter, register_counter_vec, register_gauge,
    register_histogram_vec, reserved_histogram_label, Backend, CounterCell, CounterVecCell,
    GaugeCell, HistogramVecCell,
};
use crate::schema::fq;
use crate::snapshot::{Family, FamilyData, LabeledValue};

verus! {

/// The observed label values of a vector family, as character sequences.
pub open spec fn views_of(labels: Seq<String>) -> Seq<Seq<char>> {
    labels.map_values(|l: String| l@)
}

/// A live gauge: a settable instantaneous level.
pub struct Gauge {
    cell: GaugeCell,
    name: String,
    help: String,
}

/// A live counter: a monotonic cumulative count.
pub struct Counter {
    cell: CounterCell,
    name: String,
    help: String,
}

/// A live counter family keyed by one label dimension, with the label values
/// observed so far, in order of first use.
pub struct VecCounter {
    cell: CounterVecCell,
    name: String,
    help: String,
    labels: Vec<String>,
}

/// A live histogram family keyed by one label dimension, with the label values
/// observed so far, in order of first use.
pub struct VecHistogram {
    cell: HistogramVecCell,
    name: String,
    help: String,
    labels: Vec<String>,
}

impl Gauge {
    /// The identity of the metric: its cell's exported name, the stored copy
    /// of that name, and the stored help text.
    pub closed spec fn meta(self) -> (Seq<char>, Seq<char>, Seq<char>) {
        (gauge_name(self.cell), self.name@, self.help@)
    }

    /// The gauge was created under `name` in namespace `ns`, with `help`.
    pub open spec fn named(self, ns: Seq<char>, name: Seq<char>, help: Seq<char>) -> bool {
        self.meta() == (fq(ns, name), fq(ns, name), help)
    }

    /// The gauge's current value.
    pub closed spec fn val(self) -> i64 {
        gauge_value(self.cell)
    }

    /// Creates the gauge and registers it with the backend; refused exactly
    /// when the backend already carries the exported name, or rejects it as
    /// malformed.
    pub fn register(b: &mut Backend, ns: &str, name: &str, help: &str) -> (r: Result<Gauge, String>)
        requires
            ns@.len() > 0,
        ensures
            r matches Ok(g) ==> {
                &&& g.named(ns@, name@, help@)
                &&& g.val() == 0
                &&& !backend_names(*old(b)).contains(fq(ns@, name@))
                &&& backend_names(*final(b)) == backend_names(*old(b)).insert(fq(ns@, name@))
            },
            r is Err ==> backend_names(*final(b)) == backend_names(*old(b)),
            backend_names(*old(b)).contains(fq(ns@, name@)) ==> r is Err,
            acceptable_opts(ns@, name@, help@) && no_colliding_name(
                backend_names(*old(b)),
                fq(ns@, name@),
            ) ==> r is Ok,
    {
        match register_gauge(b, ns, name, help) {
            Ok((cell, full)) => Ok(Gauge { cell, name: full, help: help.to_owned() }),
            Err(e) => Err(e),
        }
    }

    /// Sets the level.
    pub fn set(&mut self, v: i64)
        ensures
            final(self).meta() == old(self).meta(),
            final(self).val() == v,
    {
        gauge_set(&mut self.cell, v);
    }

    /// Reads the current level.
    pub fn get(&self) -> (r: i64)
        ensures
            r == self.val(),
    {
        gauge_get(&self.cell)
    }

    /// Renders the gauge as one snapshot family.
    pub fn family(&self) -> (f: Family)
        ensures
            is_gauge_family(f, *self),
    {
        Family {
            name: self.name.clone(),
            help: self.help.clone(),
            data: FamilyData::Gauge(gauge_get(&self.cell)),
        }
    }
}

/// `f` reports the gauge `g`: same name, same help, the current level.
pub open spec fn is_gauge_family(f: Family, g: Gauge) -> bool {
    &&& f.name@ == g.meta().1
    &&& f.help@ == g.meta().2
    &&& (f.data matches FamilyData::Gauge(v) && v == g.val())
}

impl Counter {
    /// The identity of the metric: its cell's exported name, the stored copy
    /// of that name, and the stored help text.
    pub closed spec fn meta(self) -> (Seq<char>, Seq<char>, Seq<char>) {
        (counter_name(self.cell), self.name@, self.help@)
    }

    /// The counter was created under `name` in namespace `ns`, with `help`.
    pub open spec fn named(self, ns: Seq<char>, name: Seq<char>, help: Seq<char>) -> bool {
        self.meta() == (fq(ns, name), fq(ns, name), help)
    }

    /// The counter's current value.
    pub closed spec fn val(self) -> u64 {
        counter_value(self.cell)
    }

    /// Creates the counter and registers it with the backend; refused exactly
    /// when the backend already carries the exported name, or rejects it as
    /// malformed.
    pub fn register(b: &mut Backend, ns: &str, name: &str, help: &str) -> (r: Result<
        Counter,
        String,
    >)
        requires
            ns@.len() > 0,
        ensures
            r matches Ok(c) ==> {
                &&& c.named(ns@, name@, help@)
                &&& c.val() == 0
                &&& !backend_names(*old(b)).contains(fq(ns@, name@))
                &&& backend_names(*final(b)) == backend_names(*old(b)).insert(fq(ns@, name@))
            },
            r is Err ==> backend_names(*final(b)) == backend_names(*old(b)),
            backend_names(*old(b)).contains(fq(ns@, name@)) ==> r is Err,
            acceptable_opts(ns@, name@, help@) && no_colliding_name(
                backend_names(*old(b)),
                fq(ns@, name@),
            ) ==> r is Ok,
    {
        match register_counter(b, ns, name, help) {
            Ok((cell, full)) => Ok(Counter { cell, name: full, help: help.to_owned() }),
            Err(e) => Err(e),
        }
    }

    /// Counts one more event; the count wraps only at the integer's limit.
    pub fn inc(&mut self)
        ensures
            final(self).meta() == old(self).meta(),
            final(self).val() == counter_step(old(self).val()),
    {
        counter_inc(&mut self.cell);
    }

    /// Reads the cumulative count.
    pub fn get(&self) -> (r: u64)
        ensures
            r == self.val(),
    {
        counter_get(&self.cell)
    }

    /// Renders the counter as one snapshot family.
    pub fn family(&self) -> (f: Family)
        ensures
            is_counter_family(f, *self),
    {
        Family {
            name: self.name.clone(),
            help: self.help.clone(),
            data: FamilyData::Counter(counter_get(&self.cell)),
        }
    }
}

/// `f` reports the counter `c`: same name, same help, the cumulative count.
pub open spec fn is_counter_family(f: Family, c: Counter) -> bool {
    &&& f.name@ == c.meta().1
    &&& f.help@ == c.meta().2
    &&& (f.data matches FamilyData::Counter(v) && v == c.val())
}

/// The series of a vector family report the label values `labels` with the
/// counts `counts`: one series per observed label, in order of first use,
/// each reporting the count filed under its label's identity.
pub open spec fn series_report(
    series: Seq<LabeledValue>,
    labels: Seq<Seq<char>>,
    counts: Map<u64, u64>,
) -> bool {
    &&& series.len() == labels.len()
    &&& forall|k: int|
        0 <= k < labels.len() ==> (#[trigger] series[k]).label@ == labels[k] && series[k].value
            == counts[label_id(labels[k])]
}

impl VecCounter {
    /// The identity of the metric: its cell's exported name, the stored copy
    /// of that name, and the stored help text.
    pub closed spec fn meta(self) -> (Seq<char>, Seq<char>, Seq<char>) {
        (counter_vec_name(self.cell), self.name@, self.help@)
    }

    /// The family was created under `name` in namespace `ns`, with `help`.
    pub open spec fn named(self, ns: Seq<char>, name: Seq<char>, help: Seq<char>) -> bool {
        self.meta() == (fq(ns, name), fq(ns, name), help)
    }

    /// The count of each existing series, keyed by its label identity.
    pub closed spec fn counts(self) -> Map<u64, u64> {
        counter_vec_counts(self.cell)
    }

    /// The observed label values, in order of first use.
    pub closed spec fn label_seq(self) -> Seq<Seq<char>> {
        views_of(self.labels@)
    }

    /// The label bookkeeping agrees with the cell: no label value twice, and
    /// the series table's domain holds exactly the observed labels'
    /// identities.
    pub closed spec fn wf(self) -> bool {
        &&& forall|i: int, j: int|
            0 <= i < j < views_of(self.labels@).len() ==> views_of(self.labels@)[i] != views_of(
                self.labels@,
            )[j]
        &&& forall|x: u64|
            #[trigger] counter_vec_counts(self.cell).dom().contains(x) <==> exists|k: int|
                0 <= k < views_of(self.labels@).len() && label_id(
                    #[trigger] views_of(self.labels@)[k],
                ) == x
    }

    /// Creates the family and registers it with the backend; refused exactly
    /// when the backend already carries the exported name, or rejects the name
    /// or the label dimension as malformed.
    pub fn register(b: &mut Backend, ns: &str, name: &str, help: &str, label: &str) -> (r: Result<
        VecCounter,
        String,
    >)
        requires
            ns@.len() > 0,
        ensures
            r matches Ok(c) ==> {
                &&& c.named(ns@, name@, help@)
                &&& c.wf()
                &&& c.counts() == Map::<u64, u64>::empty()
                &&& c.label_seq() == Seq::<Seq<char>>::empty()
                &&& !backend_names(*old(b)).contains(fq(ns@, name@))
                &&& backend_names(*final(b)) == backend_names(*old(b)).insert(fq(ns@, name@))
            },
            r is Err ==> backend_names(*final(b)) == backend_names(*old(b)),
            backend_names(*old(b)).contains(fq(ns@, name@)) ==> r is Err,
            acceptable_opts(ns@, name@, help@) && acceptable_label(label@) && no_colliding_name(
                backend_names(*old(b)),
                fq(ns@, name@),
            ) ==> r is Ok,
    {
        match register_counter_vec(b, ns, name, help, label) {
            Ok((cell, full)) => {
                let c = VecCounter { cell, name: full, help: help.to_owned(), labels: Vec::new() };
                proof {
                    assert(c.label_seq() =~= Seq::<Seq<char>>::empty());
                }
                Ok(c)
            },
            Err(e) => Err(e),
        }
    }

    /// Counts one more event under `label`, creating the series at its first
    /// use; no series under another identity is touched.
    pub fn observe(&mut self, label: &str)
        requires
            old(self).wf(),
        ensures
            final(self).wf(),
            final(self).meta() == old(self).meta(),
            final(self).counts() == observed(old(self).counts(), label_id(label@)),
            final(self).label_seq() == if old(self).label_seq().contains(label@) {
                old(self).label_seq()
            } else {
                old(self).label_seq().push(label@)
            },
    {
        let ghost pre_labels = old(self).label_seq();
        let ghost pre_counts = old(self).counts();
        let known = contains_label(&self.labels, label);
        if !known {
            self.labels.push(label.to_owned());
            proof {
                assert(self.label_seq() =~= pre_labels.push(label@));
            }
        }
        counter_vec_inc(&mut self.cell, label);
        proof {
            assert(counter_vec_counts(self.cell) == observed(pre_counts, label_id(label@)));
            assert(counter_vec_counts(self.cell).dom() =~= pre_counts.dom().insert(
                label_id(label@),
            ));
            lemma_observed_labels(
                pre_labels,
                pre_counts,
                counter_vec_counts(self.cell),
                self.label_seq(),
                label@,
            );
        }
    }

    /// Reads the count filed under `label`'s identity; an identity with no
    /// series reads zero.
    pub fn get(&self, label: &str) -> (r: u64)
        ensures
            r == if self.counts().dom().contains(label_id(label@)) {
                self.counts()[label_id(label@)]
            } else {
                0u64
            },
    {
        counter_vec_get(&self.cell, label)
    }

    /// Renders the family as one snapshot family, one series per observed
    /// label value.
    pub fn family(&self) -> (f: Family)
        requires
            self.wf(),
        ensures
            is_counter_vec_family(f, *self),
    {
        let series = read_series_counter(&self.cell, &self.labels);
        Family {
            name: self.name.clone(),
            help: self.help.clone(),
            data: FamilyData::CounterSeries(series),
        }
    }
}

/// `f` reports the counter family `c`: same name, same help, one series per
/// observed label value with its count.
pub open spec fn is_counter_vec_family(f: Family, c: VecCounter) -> bool {
    &&& f.name@ == c.meta().1
    &&& f.help@ == c.meta().2
    &&& (f.data matches FamilyData::CounterSeries(series) && series_report(
        series@,
        c.label_seq(),
        c.counts(),
    ))
}

impl VecHistogram {
    /// The identity of the metric: its cell's exported name, the stored copy
    /// of that name, and the stored help text.
    pub closed spec fn meta(self) -> (Seq<char>, Seq<char>, Seq<char>) {
        (histogram_vec_name(self.cell), self.name@, self.help@)
    }

    /// The family was created under `name` in namespace `ns`, with `help`.
    pub open spec fn named(self, ns: Seq<char>, name: Seq<char>, help: Seq<char>) -> bool {
        self.meta() == (fq(ns, name), fq(ns, name), help)
    }

    /// The sample count of each existing series, keyed by its label identity.
    pub closed spec fn counts(self) -> Map<u64, u64> {
        histogram_vec_counts(self.cell)
    }

    /// The observed label values, in order of first use.
    pub closed spec fn label_seq(self) -> Seq<Seq<char>> {
        views_of(self.labels@)
    }

    /// The label bookkeeping agrees with the cell: no label value twice, and
    /// the series table's domain holds exactly the observed labels'
    /// identities.
    pub closed spec fn wf(self) -> bool {
        &&& forall|i: int, j: int|
            0 <= i < j < views_of(self.labels@).len() ==> views_of(self.labels@)[i] != views_of(
                self.labels@,
            )[j]
        &&& forall|x: u64|
            #[trigger] histogram_vec_counts(self.cell).dom().contains(x) <==> exists|k: int|
                0 <= k < views_of(self.labels@).len() && label_id(
                    #[trigger] views_of(self.labels@)[k],
                ) == x
    }

    /// Creates the family and registers it with the backend; refused exactly
    /// when the backend already carries the exported name, or rejects the name
    /// or the label dimension as malformed.
    pub fn register(b: &mut Backend, ns: &str, name: &str, help: &str, label: &str) -> (r: Result<
        VecHistogram,
        String,
    >)
        requires
            ns@.len() > 0,
            !reserved_histogram_label(label@),
        ensures
            r matches Ok(h) ==> {
                &&& h.named(ns@, name@, help@)
                &&& h.wf()
                &&& h.counts() == Map::<u64, u64>::empty()
                &&& h.label_seq() == Seq::<Seq<char>>::empty()
                &&& !backend_names(*old(b)).contains(fq(ns@, name@))
                &&& backend_names(*final(b)) == backend_names(*old(b)).insert(fq(ns@, name@))
            },
            r is Err ==> backend_names(*final(b)) == backend_names(*old(b)),
            backend_names(*old(b)).contains(fq(ns@, name@)) ==> r is Err,
            acceptable_opts(ns@, name@, help@) && acceptable_label(label@) && no_colliding_name(
                backend_names(*old(b)),
                fq(ns@, name@),
            ) ==> r is Ok,
    {
        match register_histogram_vec(b, ns, name, help, label) {
            Ok((cell, full)) => {
                let h = VecHistogram {
                    cell,
                    name: full,
                    help: help.to_owned(),
                    labels: Vec::new(),
                };
                proof {
                    assert(h.label_seq() =~= Seq::<Seq<char>>::empty());
                }
                Ok(h)
            },
            Err(e) => Err(e),
        }
    }

    /// Records one observation of `seconds` under `label`, creating the
    /// series at its first use; no series under another identity is touched.
    pub fn observe(&mut self, label: &str, seconds: u64)
        requires
            old(self).wf(),
        ensures
            final(self).wf(),
            final(self).meta() == old(self).meta(),
            final(self).counts() == observed_sample(old(self).counts(), label_id(label@)),
            final(self).label_seq() == if old(self).label_seq().contains(label@) {
                old(self).label_seq()
            } else {
                old(self).label_seq().push(label@)
            },
    {
        let ghost pre_labels = old(self).label_seq();
        let ghost pre_counts = old(self).counts();
        let known = contains_label(&self.labels, label);
        if !known {
            self.labels.push(label.to_owned());
            proof {
                assert(self.label_seq() =~= pre_labels.push(label@));
            }
        }
        histogram_vec_observe(&mut self.cell, label, seconds);
        proof {
            assert(histogram_vec_counts(self.cell) == observed_sample(
                pre_counts,
                label_id(label@),
            ));
            assert(histogram_vec_counts(self.cell).dom() =~= pre_counts.dom().insert(
                label_id(label@),
            ));
            lemma_observed_labels(
                pre_labels,
                pre_counts,
                histogram_vec_counts(self.cell),
                self.label_seq(),
                label@,
            );
        }
    }

    /// Reads the sample count filed under `label`'s identity; an identity
    /// with no series reads zero.
    pub fn get(&self, label: &str) -> (r: u64)
        ensures
            r == if self.counts().dom().contains(label_id(label@)) {
                self.counts()[label_id(label@)]
            } else {
                0u64
            },
    {
        histogram_vec_count(&self.cell, label)
    }

    /// Renders the family as one snapshot family, one series per observed
    /// label value.
    pub fn family(&self) -> (f: Family)
        requires
            self.wf(),
        ensures
            is_histogram_vec_family(f, *self),
    {
        let series = read_series_histogram(&self.cell, &self.labels);
        Family {
            name: self.name.clone(),
            help: self.help.clone(),
            data: FamilyData::HistogramSeries(series),
        }
    }
}

/// `f` reports the histogram family `h`: same name, same help, one series per
/// observed label value with its sample count.
pub open spec fn is_histogram_vec_family(f: Family, h: VecHistogram) -> bool {
    &&& f.name@ == h.meta().1
    &&& f.help@ == h.meta().2
    &&& (f.data matches FamilyData::HistogramSeries(series) && series_report(
        series@,
        h.label_seq(),
        h.counts(),
    ))
}

/// Observing under label `l` keeps the label bookkeeping consistent: the
/// observed labels stay pairwise distinct, and the series table's domain
/// holds exactly the identities of the observed labels.
proof fn lemma_observed_labels(
    pre_labels: Seq<Seq<char>>,
    pre: Map<u64, u64>,
    post: Map<u64, u64>,
    post_labels: Seq<Seq<char>>,
    l: Seq<char>,
)
    requires
        forall|i: int, j: int| 0 <= i < j < pre_labels.len() ==> pre_labels[i] != pre_labels[j],
        forall|x: u64|
            #[trigger] pre.dom().contains(x) <==> exists|k: int|
                0 <= k < pre_labels.len() && label_id(#[trigger] pre_labels[k]) == x,
        post.dom() == pre.dom().insert(label_id(l)),
        post_labels == if pre_labels.contains(l) {
            pre_labels
        } else {
            pre_labels.push(l)
        },
    ensures
        forall|i: int, j: int| 0 <= i < j < post_labels.len() ==> post_labels[i] != post_labels[j],
        forall|x: u64|
            #[trigger] post.dom().contains(x) <==> exists|k: int|
                0 <= k < post_labels.len() && label_id(#[trigger] post_labels[k]) == x,
{
    if pre_labels.contains(l) {
        let w = choose|w: int| 0 <= w < pre_labels.len() && pre_labels[w] == l;
        assert forall|x: u64| #[trigger] post.dom().contains(x) implies exists|k: int|
            0 <= k < post_labels.len() && label_id(#[trigger] post_labels[k]) == x by {
            if x == label_id(l) {
                assert(label_id(post_labels[w]) == x);
            } else {
                assert(pre.dom().contains(x));
            }
        }
    } else {
        assert forall|i: int, j: int| 0 <= i < j < post_labels.len() implies post_labels[i]
            != post_labels[j] by {
            if j == post_labels.len() - 1 {
                assert(post_labels[i] == pre_labels[i]);
                if pre_labels[i] == l {
                    assert(pre_labels.contains(l));
                }
            }
        }
        assert forall|x: u64| #[trigger] post.dom().contains(x) implies exists|k: int|
            0 <= k < post_labels.len() && label_id(#[trigger] post_labels[k]) == x by {
            if x == label_id(l) {
                assert(label_id(post_labels[post_labels.len() - 1]) == x);
            } else {
                assert(pre.dom().contains(x));
                let k = choose|k: int|
                    0 <= k < pre_labels.len() && label_id(pre_labels[k]) == x;
                assert(label_id(post_labels[k]) == x);
            }
        }
        assert forall|x: u64|
            (exists|k: int| 0 <= k < post_labels.len() && label_id(#[trigger] post_labels[k]) == x)
                implies #[trigger] post.dom().contains(x) by {
            let k = choose|k: int|
                0 <= k < post_labels.len() && label_id(post_labels[k]) == x;
            if k == post_labels.len() - 1 {
                assert(x == label_id(l));
            } else {
                assert(label_id(pre_labels[k]) == x);
                assert(pre.dom().contains(x));
            }
        }
    }
}


/// The cumulative count after `n` single increments of a counter that starts
/// at zero.
pub open spec fn counter_after(n: nat) -> u64
    decreases n,
{
    if n == 0 {
        0u64
    } else {
        counter_step(counter_after((n - 1) as nat))
    }
}

/// A counter incremented by `n` events reads back exactly `n`, the exact
/// cumulative sum of the increments since construction, for every count the
/// counter's integer can hold.
pub proof fn lemma_counter_counts_exactly(n: nat)
    requires
        n <= u64::MAX,
    ensures
        counter_after(n) == n,
    decreases n,
{
    if n > 0 {
        lemma_counter_counts_exactly((n - 1) as nat);
    }
}


/// The count table after `k` observations under the series identity `id`.
pub open spec fn observed_times(m: Map<u64, u64>, id: u64, k: nat) -> Map<u64, u64>
    decreases k,
{
    if k == 0 {
        m
    } else {
        observed(observed_times(m, id, (k - 1) as nat), id)
    }
}

/// A vector family observed exactly `k` times under a previously unseen label
/// value carries a series for it reporting exactly `k`, for every count the
/// series' integer can hold.
pub proof fn lemma_vector_counts_exactly(m: Map<u64, u64>, id: u64, k: nat)
    requires
        !m.dom().contains(id),
        k <= u64::MAX,
    ensures
        k >= 1 ==> observed_times(m, id, k).dom().contains(id) && observed_times(m, id, k)[id]
            == k,
        k == 0 ==> !observed_times(m, id, k).dom().contains(id),
    decreases k,
{
    if k >= 1 {
        lemma_vector_counts_exactly(m, id, (k - 1) as nat);
    }
}

/// An observation under one label value never changes any other label value's
/// series, as long as the two labels carry distinct identities: whether the
/// other has a series, and what it reports, stay as they were.
pub proof fn lemma_observation_isolated(m: Map<u64, u64>, id: u64, other: u64)
    requires
        id != other,
    ensures
        observed(m, other).dom().contains(id) == m.dom().contains(id),
        m.dom().contains(id) ==> observed(m, other)[id] == m[id],
{
}

/// Observing a previously unseen label value creates its series at count one;
/// a second observation under it counts two; an observation under a label
/// value with a different identity leaves its count untouched.
pub proof fn lemma_vector_series_isolated(m: Map<u64, u64>, foo: Seq<char>, bar: Seq<char>)
    requires
        !m.dom().contains(label_id(foo)),
        label_id(foo) != label_id(bar),
    ensures
        observed(m, label_id(foo))[label_id(foo)] == 1,
        observed(observed(m, label_id(foo)), label_id(foo))[label_id(foo)] == 2,
        observed(observed(m, label_id(foo)), label_id(bar))[label_id(foo)] == 1,
{
}

/// Whether one of the observed label values reads back as `label`.
fn contains_label(labels: &Vec<String>, label: &str) -> (r: bool)
    ensures
        r == views_of(labels@).contains(label@),
{
    let owned: String = label.to_owned();
    let n = labels.len();
    let mut i: usize = 0;
    while i < n
        invariant
            n == labels@.len(),
            i <= n,
            owned@ == label@,
            forall|j: int| 0 <= j < i ==> labels@[j]@ != label@,
        decreases n - i,
    {
        let x = &labels[i];
        let hit = x.eq(&owned);
        if hit {
            proof {
                let mapped = views_of(labels@);
                assert(labels@[i as int]@ == owned@);
                assert(mapped[i as int] == label@);
                assert(mapped.contains(label@));
            }
            return true;
        }
        i = i + 1;
    }
    proof {
        let mapped = views_of(labels@);
        if mapped.contains(label@) {
            let k = choose|k: int| 0 <= k < mapped.len() && mapped[k] == label@;
            assert(labels@[k]@ == label@);
        }
    }
    false
}

/// Reads the current count of every observed series of a counter family, in
/// order of first use.
fn read_series_counter(cell: &CounterVecCell, labels: &Vec<String>) -> (series: Vec<LabeledValue>)
    requires
        forall|x: u64|
            #[trigger] counter_vec_counts(*cell).dom().contains(x) <==> exists|k: int|
                0 <= k < views_of(labels@).len() && label_id(#[trigger] views_of(labels@)[k]) == x,
    ensures
        series_report(series@, views_of(labels@), counter_vec_counts(*cell)),
{
    let n = labels.len();
    let mut series: Vec<LabeledValue> = Vec::new();
    let mut i: usize = 0;
    while i < n
        invariant
            n == labels@.len(),
            i <= n,
            series@.len() == i,
            forall|x: u64|
                #[trigger] counter_vec_counts(*cell).dom().contains(x) <==> exists|k: int|
                    0 <= k < views_of(labels@).len() && label_id(
                        #[trigger] views_of(labels@)[k],
                    ) == x,
            forall|k: int|
                0 <= k < i ==> (#[trigger] series@[k]).label@ == labels@[k]@ && series@[k].value
                    == counter_vec_counts(*cell)[label_id(labels@[k]@)],
        decreases n - i,
    {
        proof {
            assert(views_of(labels@)[i as int] == labels@[i as int]@);
            assert(label_id(views_of(labels@)[i as int]) == label_id(labels@[i as int]@));
            assert(counter_vec_counts(*cell).dom().contains(label_id(labels@[i as int]@)));
        }
        let value = counter_vec_get(cell, labels[i].as_str());
        series.push(LabeledValue { label: labels[i].clone(), value });
        i = i + 1;
    }
    series
}

/// Reads the current sample count of every observed series of a histogram
/// family, in order of first use.
fn read_series_histogram(cell: &HistogramVecCell, labels: &Vec<String>) -> (series: Vec<
    LabeledValue,
>)
    requires
        forall|x: u64|
            #[trigger] histogram_vec_counts(*cell).dom().contains(x) <==> exists|k: int|
                0 <= k < views_of(labels@).len() && label_id(#[trigger] views_of(labels@)[k]) == x,
    ensures
        series_report(series@, views_of(labels@), histogram_vec_counts(*cell)),
{
    let n = labels.len();
    let mut series: Vec<LabeledValue> = Vec::new();
    let mut i: usize = 0;
    while i < n
        invariant
            n == labels@.len(),
            i <= n,
            series@.len() == i,
            forall|x: u64|
                #[trigger] histogram_vec_counts(*cell).dom().contains(x) <==> exists|k: int|
                    0 <= k < views_of(labels@).len() && label_id(
                        #[trigger] views_of(labels@)[k],
                    ) == x,
            forall|k: int|
                0 <= k < i ==> (#[trigger] series@[k]).label@ == labels@[k]@ && series@[k].value
                    == histogram_vec_counts(*cell)[label_id(labels@[k]@)],
        decreases n - i,
    {
        proof {
            assert(views_of(labels@)[i as int] == labels@[i as int]@);
            assert(label_id(views_of(labels@)[i as int]) == label_id(labels@[i as int]@));
            assert(histogram_vec_counts(*cell).dom().contains(label_id(labels@[i as int]@)));
        }
        let value = histogram_vec_count(cell, labels[i].as_str());
        series.push(LabeledValue { label: labels[i].clone(), value });
        i = i + 1;
    }
    series
}

} // verus!
