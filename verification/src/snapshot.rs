//! The exportable snapshot: an ordered sequence of metric families, each with
//! its exported name, help text and current value(s). Immutable once produced.

use vstd::prelude::*;

use crate::schema::MetricKind;

verus! {

/// One series of a vector family: a label value and its current count.
pub struct LabeledValue {
    pub label: String,
    pub value: u64,
}

/// The values of one family, which also carry the family's kind.
pub enum FamilyData {
    /// A scalar gauge's current level.
    Gauge(i64),
    /// A scalar counter's cumulative count.
    Counter(u64),
    /// One count per observed label value of a counter family.
    CounterSeries(Vec<LabeledValue>),
    /// One sample count per observed label value of a histogram family.
    HistogramSeries(Vec<LabeledValue>),
}

/// One metric family of a snapshot.
pub struct Family {
    /// The exported, namespace-prefixed name.
    pub name: String,
    /// The declared help text, verbatim.
    pub help: String,
    pub data: FamilyData,
}

/// A point-in-time readout of every registered metric, in schema order.
pub struct Snapshot {
    pub families: Vec<Family>,
}

/// The metric kind a family's data carries.
pub open spec fn family_kind(d: FamilyData) -> MetricKind {
    match d {
        FamilyData::Gauge(_) => MetricKind::Gauge,
        FamilyData::Counter(_) => MetricKind::Counter,
        FamilyData::CounterSeries(_) => MetricKind::CounterVec,
        FamilyData::HistogramSeries(_) => MetricKind::HistogramVec,
    }
}

} // verus!
