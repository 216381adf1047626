//! The collection backend: trusted wrappers around the `prometheus` crate.
//!
//! A `Backend` owns a `prometheus::Registry`; the cell types own one live
//! Prometheus metric each. What a cell currently holds is named by an
//! uninterpreted spec function (`gauge_value`, `counter_vec_counts`, ...), and
//! each wrapper's contract says, over those names, what the wrapped call does,
//! as the crate's source shows it.

use vstd::prelude::*;

use crate::schema::fq;

verus! {

/// A name may start with an ASCII letter, `_` or `:` (Prometheus's
/// `is_valid_metric_name` charset).
pub open spec fn name_start_char(c: char) -> bool {
    ('a' <= c && c <= 'z') || ('A' <= c && c <= 'Z') || c == '_' || c == ':'
}

/// Later name characters also admit ASCII digits.
pub open spec fn name_char(c: char) -> bool {
    name_start_char(c) || ('0' <= c && c <= '9')
}

/// A label name may start with an ASCII letter or `_` (no colon).
pub open spec fn label_start_char(c: char) -> bool {
    ('a' <= c && c <= 'z') || ('A' <= c && c <= 'Z') || c == '_'
}

/// Later label characters also admit ASCII digits.
pub open spec fn label_char(c: char) -> bool {
    label_start_char(c) || ('0' <= c && c <= '9')
}

/// A namespace and metric name pair the backend is sure to accept: the
/// namespace starts a valid metric name, every following character of either
/// part is a valid name character, and the help text is non-empty. Under these
/// conditions `namespace _ name` matches Prometheus's metric name format and
/// `Desc::new` does not reject it.
pub open spec fn acceptable_opts(ns: Seq<char>, name: Seq<char>, help: Seq<char>) -> bool {
    &&& ns.len() > 0
    &&& name_start_char(ns[0])
    &&& forall|i: int| 0 <= i < ns.len() ==> name_char(#[trigger] ns[i])
    &&& name.len() > 0
    &&& forall|i: int| 0 <= i < name.len() ==> name_char(#[trigger] name[i])
    &&& help.len() > 0
}

/// A label dimension name the backend is sure to accept
/// (Prometheus's `is_valid_label_name`).
pub open spec fn acceptable_label(l: Seq<char>) -> bool {
    &&& l.len() > 0
    &&& label_start_char(l[0])
    &&& forall|i: int| 0 <= i < l.len() ==> label_char(#[trigger] l[i])
}

/// The 64-bit identity Prometheus files a metric name under (an FNV-1a hash
/// of the fully qualified name): the registry distinguishes registered
/// metrics by this identity alone, never by comparing the names.
pub uninterp spec fn metric_id(n: Seq<char>) -> u64;

/// The 64-bit identity Prometheus files a label value under (an FNV-1a hash
/// of its bytes): the series of one family are distinguished by this identity
/// alone, never by comparing the strings, so label values with equal
/// identities share one series.
pub uninterp spec fn label_id(l: Seq<char>) -> u64;

/// No name among `names` is filed under the same identity as `n`. Since equal
/// names have equal identities, this also says `n` itself is not among them.
pub open spec fn no_colliding_name(names: Set<Seq<char>>, n: Seq<char>) -> bool {
    forall|o: Seq<char>| #[trigger] names.contains(o) ==> metric_id(o) != metric_id(n)
}

/// How one more event changes a cumulative count: Prometheus counters add with
/// `fetch_add`, which wraps at the integer's limit.
pub open spec fn counter_step(v: u64) -> u64 {
    if v == u64::MAX {
        0
    } else {
        (v + 1) as u64
    }
}

/// How one more observation changes a histogram's sample count: the count
/// lives in the low 63 bits of one shared atomic (the top bit selects the
/// active shard), so it wraps there, not at the integer's limit.
pub open spec fn sample_step(v: u64) -> u64 {
    if v == 0x7fff_ffff_ffff_ffffu64 {
        0
    } else {
        (v + 1) as u64
    }
}

/// How one counting event under the series identity `id` changes a family's
/// count table: the series is created at zero on first use, then counts one
/// more.
pub open spec fn observed(m: Map<u64, u64>, id: u64) -> Map<u64, u64> {
    m.insert(
        id,
        counter_step(
            if m.dom().contains(id) {
                m[id]
            } else {
                0
            },
        ),
    )
}

/// How one observation under the series identity `id` changes a histogram
/// family's sample-count table.
pub open spec fn observed_sample(m: Map<u64, u64>, id: u64) -> Map<u64, u64> {
    m.insert(
        id,
        sample_step(
            if m.dom().contains(id) {
                m[id]
            } else {
                0
            },
        ),
    )
}

/// The label dimension `le` is reserved by Prometheus for a histogram's
/// bucket bounds. A histogram family under it passes registration — only
/// series creation refuses it — and the refusal is then unwrapped, so such a
/// family must never exist.
pub open spec fn reserved_histogram_label(l: Seq<char>) -> bool {
    l == seq!['l', 'e']
}

/// The collection backend: one `prometheus::Registry`.
#[verifier::external_body]
pub struct Backend {
    inner: prometheus::Registry,
}

/// A live gauge: one `prometheus::IntGauge`.
#[verifier::external_body]
pub struct GaugeCell {
    inner: prometheus::IntGauge,
}

/// A live counter: one `prometheus::IntCounter`.
#[verifier::external_body]
pub struct CounterCell {
    inner: prometheus::IntCounter,
}

/// A live counter family keyed by one label dimension:
/// one `prometheus::IntCounterVec`.
#[verifier::external_body]
pub struct CounterVecCell {
    inner: prometheus::IntCounterVec,
}

/// A live histogram family keyed by one label dimension:
/// one `prometheus::HistogramVec`.
#[verifier::external_body]
pub struct HistogramVecCell {
    inner: prometheus::HistogramVec,
}

/// The set of fully qualified metric names registered with the backend.
pub uninterp spec fn backend_names(b: Backend) -> Set<Seq<char>>;

/// The fully qualified name a gauge was created under.
pub uninterp spec fn gauge_name(c: GaugeCell) -> Seq<char>;

/// The gauge's current value.
pub uninterp spec fn gauge_value(c: GaugeCell) -> i64;

/// The fully qualified name a counter was created under.
pub uninterp spec fn counter_name(c: CounterCell) -> Seq<char>;

/// The counter's current value.
pub uninterp spec fn counter_value(c: CounterCell) -> u64;

/// The fully qualified name a counter family was created under.
pub uninterp spec fn counter_vec_name(c: CounterVecCell) -> Seq<char>;

/// The counter family's current contents: the count of each series that
/// exists, keyed by the series' 64-bit label identity.
pub uninterp spec fn counter_vec_counts(c: CounterVecCell) -> Map<u64, u64>;

/// The fully qualified name a histogram family was created under.
pub uninterp spec fn histogram_vec_name(c: HistogramVecCell) -> Seq<char>;

/// The histogram family's current contents: the sample count of each series
/// that exists, keyed by the series' 64-bit label identity.
pub uninterp spec fn histogram_vec_counts(c: HistogramVecCell) -> Map<u64, u64>;

/// Relies on `prometheus::Registry::new`: a fresh registry has no collectors.
#[verifier::external_body]
pub fn new_backend() -> (b: Backend)
    ensures
        backend_names(b) == Set::<Seq<char>>::empty(),
{
    Backend { inner: prometheus::Registry::new() }
}

/// Relies on `prometheus::IntGauge::with_opts` (name and help validation in
/// `Desc::new`, initial value zero) and `prometheus::Registry::register`
/// (refused exactly when the fully qualified name is already registered,
/// identified by its hash). Returns the cell and its exported name. The
/// namespace must be non-empty: `build_fq_name` drops an empty namespace
/// instead of prefixing it, so the exported name would not be `ns _ name`.
#[verifier::external_body]
pub fn register_gauge(b: &mut Backend, ns: &str, name: &str, help: &str) -> (r: Result<
    (GaugeCell, String),
    String,
>)
    requires
        ns@.len() > 0,
    ensures
        r matches Ok(p) ==> {
            &&& gauge_name(p.0) == fq(ns@, name@)
            &&& gauge_value(p.0) == 0
            &&& p.1@ == fq(ns@, name@)
            &&& !backend_names(*old(b)).contains(fq(ns@, name@))
            &&& backend_names(*final(b)) == backend_names(*old(b)).insert(fq(ns@, name@))
        },
        r is Err ==> backend_names(*final(b)) == backend_names(*old(b)),
        backend_names(*old(b)).contains(fq(ns@, name@)) ==> r is Err,
        acceptable_opts(ns@, name@, help@) && (forall|o: Seq<char>|
            #[trigger] backend_names(*old(b)).contains(o) ==> metric_id(o) != metric_id(
                fq(ns@, name@),
            )) ==> r is Ok,
{
    let opts = prometheus::Opts::new(name, help).namespace(ns);
    let cell = match prometheus::IntGauge::with_opts(opts) {
        Ok(c) => c,
        Err(e) => return Err(e.to_string()),
    };
    if let Err(e) = b.inner.register(Box::new(cell.clone())) {
        return Err(e.to_string());
    }
    let full = prometheus::core::Collector::desc(&cell)[0].fq_name.clone();
    Ok((GaugeCell { inner: cell }, full))
}

/// Relies on `prometheus::IntCounter::with_opts` and
/// `prometheus::Registry::register`, as for gauges.
#[verifier::external_body]
pub fn register_counter(b: &mut Backend, ns: &str, name: &str, help: &str) -> (r: Result<
    (CounterCell, String),
    String,
>)
    requires
        ns@.len() > 0,
    ensures
        r matches Ok(p) ==> {
            &&& counter_name(p.0) == fq(ns@, name@)
            &&& counter_value(p.0) == 0
            &&& p.1@ == fq(ns@, name@)
            &&& !backend_names(*old(b)).contains(fq(ns@, name@))
            &&& backend_names(*final(b)) == backend_names(*old(b)).insert(fq(ns@, name@))
        },
        r is Err ==> backend_names(*final(b)) == backend_names(*old(b)),
        backend_names(*old(b)).contains(fq(ns@, name@)) ==> r is Err,
        acceptable_opts(ns@, name@, help@) && (forall|o: Seq<char>|
            #[trigger] backend_names(*old(b)).contains(o) ==> metric_id(o) != metric_id(
                fq(ns@, name@),
            )) ==> r is Ok,
{
    let opts = prometheus::Opts::new(name, help).namespace(ns);
    let cell = match prometheus::IntCounter::with_opts(opts) {
        Ok(c) => c,
        Err(e) => return Err(e.to_string()),
    };
    if let Err(e) = b.inner.register(Box::new(cell.clone())) {
        return Err(e.to_string());
    }
    let full = prometheus::core::Collector::desc(&cell)[0].fq_name.clone();
    Ok((CounterCell { inner: cell }, full))
}

/// Relies on `prometheus::IntCounterVec::new` (name, help and label name
/// validation in `Desc::new`, no series yet) and
/// `prometheus::Registry::register`, as for gauges.
#[verifier::external_body]
pub fn register_counter_vec(b: &mut Backend, ns: &str, name: &str, help: &str, label: &str) -> (r:
    Result<(CounterVecCell, String), String>)
    requires
        ns@.len() > 0,
    ensures
        r matches Ok(p) ==> {
            &&& counter_vec_name(p.0) == fq(ns@, name@)
            &&& counter_vec_counts(p.0) == Map::<u64, u64>::empty()
            &&& p.1@ == fq(ns@, name@)
            &&& !backend_names(*old(b)).contains(fq(ns@, name@))
            &&& backend_names(*final(b)) == backend_names(*old(b)).insert(fq(ns@, name@))
        },
        r is Err ==> backend_names(*final(b)) == backend_names(*old(b)),
        backend_names(*old(b)).contains(fq(ns@, name@)) ==> r is Err,
        acceptable_opts(ns@, name@, help@) && acceptable_label(label@) && (forall|o: Seq<char>|
            #[trigger] backend_names(*old(b)).contains(o) ==> metric_id(o) != metric_id(
                fq(ns@, name@),
            )) ==> r is Ok,
{
    let opts = prometheus::Opts::new(name, help).namespace(ns);
    let cell = match prometheus::IntCounterVec::new(opts, &[label]) {
        Ok(c) => c,
        Err(e) => return Err(e.to_string()),
    };
    if let Err(e) = b.inner.register(Box::new(cell.clone())) {
        return Err(e.to_string());
    }
    let full = prometheus::core::Collector::desc(&cell)[0].fq_name.clone();
    Ok((CounterVecCell { inner: cell }, full))
}

/// Relies on `prometheus::HistogramVec::new` and
/// `prometheus::Registry::register`, as for counter families.
#[verifier::external_body]
pub fn register_histogram_vec(b: &mut Backend, ns: &str, name: &str, help: &str, label: &str) -> (r:
    Result<(HistogramVecCell, String), String>)
    requires
        ns@.len() > 0,
        !reserved_histogram_label(label@),
    ensures
        r matches Ok(p) ==> {
            &&& histogram_vec_name(p.0) == fq(ns@, name@)
            &&& histogram_vec_counts(p.0) == Map::<u64, u64>::empty()
            &&& p.1@ == fq(ns@, name@)
            &&& !backend_names(*old(b)).contains(fq(ns@, name@))
            &&& backend_names(*final(b)) == backend_names(*old(b)).insert(fq(ns@, name@))
        },
        r is Err ==> backend_names(*final(b)) == backend_names(*old(b)),
        backend_names(*old(b)).contains(fq(ns@, name@)) ==> r is Err,
        acceptable_opts(ns@, name@, help@) && acceptable_label(label@) && (forall|o: Seq<char>|
            #[trigger] backend_names(*old(b)).contains(o) ==> metric_id(o) != metric_id(
                fq(ns@, name@),
            )) ==> r is Ok,
{
    let opts = prometheus::HistogramOpts::new(name, help).namespace(ns);
    let cell = match prometheus::HistogramVec::new(opts, &[label]) {
        Ok(c) => c,
        Err(e) => return Err(e.to_string()),
    };
    if let Err(e) = b.inner.register(Box::new(cell.clone())) {
        return Err(e.to_string());
    }
    let full = prometheus::core::Collector::desc(&cell)[0].fq_name.clone();
    Ok((HistogramVecCell { inner: cell }, full))
}

/// Relies on `prometheus::core::GenericGauge::set`: stores the value.
#[verifier::external_body]
pub fn gauge_set(c: &mut GaugeCell, v: i64)
    ensures
        gauge_name(*final(c)) == gauge_name(*old(c)),
        gauge_value(*final(c)) == v,
{
    c.inner.set(v);
}

/// Relies on `prometheus::core::GenericGauge::get`: loads the current value.
#[verifier::external_body]
pub fn gauge_get(c: &GaugeCell) -> (r: i64)
    ensures
        r == gauge_value(*c),
{
    c.inner.get()
}

/// Relies on `prometheus::core::GenericCounter::inc`: adds one with `fetch_add`,
/// wrapping at the integer's limit.
#[verifier::external_body]
pub fn counter_inc(c: &mut CounterCell)
    ensures
        counter_name(*final(c)) == counter_name(*old(c)),
        counter_value(*final(c)) == counter_step(counter_value(*old(c))),
{
    c.inner.inc();
}

/// Relies on `prometheus::core::GenericCounter::get`: loads the current value.
#[verifier::external_body]
pub fn counter_get(c: &CounterCell) -> (r: u64)
    ensures
        r == counter_value(*c),
{
    c.inner.get()
}

/// Relies on `prometheus::core::MetricVec::with_label_values` (creates the
/// series at zero on first use) and `GenericCounter::inc`. The cell was created
/// with exactly one label dimension, so the call cannot be refused.
#[verifier::external_body]
pub fn counter_vec_inc(c: &mut CounterVecCell, label: &str)
    ensures
        counter_vec_name(*final(c)) == counter_vec_name(*old(c)),
        counter_vec_counts(*final(c)) == observed(counter_vec_counts(*old(c)), label_id(label@)),
{
    c.inner.with_label_values(&[label]).inc();
}

/// Relies on `prometheus::core::MetricVec::with_label_values` and
/// `GenericCounter::get`: a label value without a series reads zero.
#[verifier::external_body]
pub fn counter_vec_get(c: &CounterVecCell, label: &str) -> (r: u64)
    ensures
        r == if counter_vec_counts(*c).dom().contains(label_id(label@)) {
            counter_vec_counts(*c)[label_id(label@)]
        } else {
            0u64
        },
{
    c.inner.with_label_values(&[label]).get()
}

/// Relies on `prometheus::core::MetricVec::with_label_values` and
/// `prometheus::Histogram::observe`: one more sample is recorded under the
/// label. The observed duration is handed over in whole seconds.
#[verifier::external_body]
pub fn histogram_vec_observe(c: &mut HistogramVecCell, label: &str, seconds: u64)
    ensures
        histogram_vec_name(*final(c)) == histogram_vec_name(*old(c)),
        histogram_vec_counts(*final(c)) == observed_sample(
            histogram_vec_counts(*old(c)),
            label_id(label@),
        ),
{
    c.inner.with_label_values(&[label]).observe(seconds as _);
}

/// Relies on `prometheus::core::MetricVec::with_label_values` and
/// `prometheus::Histogram::get_sample_count`: a label value without a series
/// reads zero samples.
#[verifier::external_body]
pub fn histogram_vec_count(c: &HistogramVecCell, label: &str) -> (r: u64)
    ensures
        r == if histogram_vec_counts(*c).dom().contains(label_id(label@)) {
            histogram_vec_counts(*c)[label_id(label@)]
        } else {
            0u64
        },
{
    c.inner.with_label_values(&[label]).get_sample_count()
}

} // verus!
