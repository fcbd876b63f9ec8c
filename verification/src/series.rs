//! Time series as a metric source reports them.

use vstd::prelude::*;
use crate::ieee::Double;

verus! {

/// One observation: a timestamp in seconds and the value measured then.
#[derive(Clone, Copy, Debug, PartialEq, Eq, Structural)]
pub struct Sample {
    pub timestamp: u64,
    pub value: Double,
}

impl Sample {
    pub fn new(timestamp: u64, value: Double) -> (r: Sample)
        ensures
            r.timestamp == timestamp,
            r.value == value,
    {
        Sample { timestamp, value }
    }
}

/// An ordered sequence of samples. It may be empty.
pub type TimeSeries = Vec<Sample>;

/// The ordering invariant of a series: timestamps strictly increase.
pub open spec fn strictly_increasing(series: Seq<Sample>) -> bool {
    forall|i: int, j: int|
        0 <= i < j < series.len() ==> (#[trigger] series[i]).timestamp < (#[trigger] series[j]).timestamp
}

/// Checks the ordering invariant of a series.
pub fn is_strictly_increasing(series: &Vec<Sample>) -> (r: bool)
    ensures
        r == strictly_increasing(series@),
{
    if series.len() < 2 {
        return true;
    }
    let mut i: usize = 1;
    while i < series.len()
        invariant
            1 <= i <= series.len(),
            strictly_increasing(series@.take(i as int)),
        decreases series.len() - i,
    {
        if series[i - 1].timestamp >= series[i].timestamp {
            return false;
        }
        proof {
            let before = series@.take(i as int);
            let after = series@.take(i + 1);
            assert forall|a: int, b: int| 0 <= a < b < after.len() implies (#[trigger] after[a]).timestamp < (
            #[trigger] after[b]).timestamp by {
                if b < i {
                    assert(before[a].timestamp < before[b].timestamp);
                } else if a < i - 1 {
                    assert(before[a].timestamp < before[i - 1].timestamp);
                }
            }
        }
        i += 1;
    }
    assert(series@.take(i as int) == series@);
    true
}

/// One labelled series of a query result.
#[derive(Clone, Debug, PartialEq, Eq)]
pub struct LabeledSeries {
    pub label: String,
    pub samples: Vec<Sample>,
}

/// What a metric source answers to a query: the series it found, each under
/// its label, in the order in which the source hands them out.
#[derive(Clone, Debug, PartialEq, Eq)]
pub struct MetricResult {
    pub data: Vec<LabeledSeries>,
}

impl MetricResult {
    /// The samples that detection runs on: those of the first series, or none
    /// where the source found no series.
    pub open spec fn primary(self) -> Seq<Sample> {
        if self.data@.len() == 0 {
            Seq::empty()
        } else {
            self.data@[0].samples@
        }
    }

    /// The invariant of a result: no label occurs twice, and the timestamps
    /// of each series strictly increase.
    pub open spec fn is_well_formed(self) -> bool {
        &&& forall|i: int, j: int|
            0 <= i < j < self.data@.len() ==> (#[trigger] self.data@[i]).label@ != (
            #[trigger] self.data@[j]).label@
        &&& forall|i: int|
            0 <= i < self.data@.len() ==> strictly_increasing((#[trigger] self.data@[i]).samples@)
    }

    /// Checks the invariant of a result.
    pub fn check_well_formed(&self) -> (r: bool)
        ensures
            r == self.is_well_formed(),
    {
        let mut i: usize = 0;
        while i < self.data.len()
            invariant
                0 <= i <= self.data.len(),
                forall|a: int, b: int|
                    0 <= a < b < i ==> (#[trigger] self.data@[a]).label@ != (
                    #[trigger] self.data@[b]).label@,
                forall|a: int| 0 <= a < i ==> strictly_increasing((#[trigger] self.data@[a]).samples@),
            decreases self.data.len() - i,
        {
            if !is_strictly_increasing(&self.data[i].samples) {
                return false;
            }
            let mut j: usize = 0;
            while j < i
                invariant
                    0 <= j <= i < self.data.len(),
                    forall|a: int|
                        0 <= a < j ==> (#[trigger] self.data@[a]).label@ != self.data@[i as int].label@,
                decreases i - j,
            {
                if self.data[j].label == self.data[i].label {
                    return false;
                }
                j += 1;
            }
            i += 1;
        }
        true
    }

    /// A result without any series.
    pub fn empty() -> (r: MetricResult)
        ensures
            r.data@.len() == 0,
            r.is_well_formed(),
    {
        MetricResult { data: Vec::new() }
    }

    /// Whether the source found no series.
    pub fn is_empty(&self) -> (r: bool)
        ensures
            r == (self.data@.len() == 0),
    {
        self.data.len() == 0
    }
}

/// A request to a metric source for the samples in `from..to`, one every
/// `step` seconds.
#[derive(Clone, Copy, Debug, PartialEq, Eq, Structural)]
pub struct MetricQuery {
    pub from: u64,
    pub to: u64,
    pub step: u64,
}

impl MetricQuery {
    /// A query that a source can answer covers a non-empty window with a
    /// positive step.
    pub open spec fn is_answerable(self) -> bool {
        self.from < self.to && self.step > 0
    }

    /// Whether a source can answer the query.
    pub fn check_answerable(&self) -> (r: bool)
        ensures
            r == self.is_answerable(),
    {
        self.from < self.to && self.step > 0
    }
}

} // verus!
