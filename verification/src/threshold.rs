//! Threshold detection: the intervals in which a series exceeds a threshold.
//!
//! A *run* is a maximal stretch of consecutive samples that all exceed the
//! threshold. Each run is reported as one interval. It starts at the run's
//! first sample and ends at the first sample after the run, which does not
//! exceed. A run that reaches the end of the series has no such sample: its
//! interval ends at the last sample and is marked open-ended, since more data
//! may extend it.

use vstd::prelude::*;
use crate::ieee::{lemma_gt_excludes_le, Double};
use crate::series::{Sample, strictly_increasing};

verus! {

/// An interval in which the series exceeds the threshold.
#[derive(Clone, Copy, Debug, PartialEq, Eq, Structural)]
pub struct Interval {
    /// Timestamp of the first sample that exceeds.
    pub from: u64,
    /// Timestamp of the first later sample that does not exceed; for an
    /// open-ended interval, of the last sample of the series.
    pub to: u64,
    /// Whether the series ended before the value fell back.
    pub open_ended: bool,
}

impl Interval {
    /// Whether the interval holds the instant `t`. An interval holds its
    /// start and not its end, unless it is open-ended: then it holds both.
    pub open spec fn covers(self, t: u64) -> bool {
        self.from <= t && (t < self.to || (self.open_ended && t <= self.to))
    }

    /// Whether the interval does not end before it starts and, if it is
    /// closed, is not empty.
    pub open spec fn is_proper(self) -> bool {
        self.from <= self.to && (!self.open_ended ==> self.from < self.to)
    }

    /// Whether the interval is closed and ends before `next` starts.
    pub open spec fn precedes(self, next: Interval) -> bool {
        !self.open_ended && self.to < next.from
    }
}

/// Whether sample `i` of the series exceeds the threshold. A value equal to
/// the threshold does not, and neither does a NaN.
pub open spec fn exceeds(series: Seq<Sample>, threshold: Double, i: int) -> bool {
    0 <= i < series.len() && series[i].value.spec_gt(threshold)
}

/// Index of the first sample at or after `i` that does not exceed the
/// threshold, or the length of the series if all of them do.
pub open spec fn run_end(series: Seq<Sample>, threshold: Double, i: int) -> int
    decreases series.len() - i,
{
    if exceeds(series, threshold, i) {
        run_end(series, threshold, i + 1)
    } else {
        i
    }
}

/// Whether the samples `start..end` are a run: each of them exceeds the
/// threshold, and neither the sample before them nor the one after does.
pub open spec fn is_run(series: Seq<Sample>, threshold: Double, start: int, end: int) -> bool {
    &&& 0 <= start < end <= series.len()
    &&& forall|j: int| start <= j < end ==> exceeds(series, threshold, j)
    &&& !exceeds(series, threshold, start - 1)
    &&& !exceeds(series, threshold, end)
}

/// The interval that reports the run of samples `start..end`.
pub open spec fn interval_of_run(series: Seq<Sample>, start: int, end: int) -> Interval {
    if end < series.len() {
        Interval { from: series[start].timestamp, to: series[end].timestamp, open_ended: false }
    } else {
        Interval {
            from: series[start].timestamp,
            to: series[series.len() - 1].timestamp,
            open_ended: true,
        }
    }
}

/// The intervals of the runs that start at or after sample `i`, in order.
pub open spec fn intervals_from(series: Seq<Sample>, threshold: Double, i: int) -> Seq<Interval>
    decreases series.len() - i,
{
    if i < 0 || i >= series.len() {
        Seq::empty()
    } else if !exceeds(series, threshold, i) {
        intervals_from(series, threshold, i + 1)
    } else {
        let end = run_end(series, threshold, i + 1);
        proof {
            lemma_run_end_bounds(series, threshold, i + 1);
        }
        seq![interval_of_run(series, i, end)] + intervals_from(series, threshold, end)
    }
}

/// The intervals in which `series` exceeds `threshold`: one for each run, in
/// the order of the series.
pub open spec fn threshold_intervals(series: Seq<Sample>, threshold: Double) -> Seq<Interval> {
    intervals_from(series, threshold, 0)
}

/// Whether one of the intervals holds the instant `t`.
pub open spec fn covered(intervals: Seq<Interval>, t: u64) -> bool {
    exists|k: int| 0 <= k < intervals.len() && (#[trigger] intervals[k]).covers(t)
}

/// Whether the intervals are proper and follow one another: each one but the
/// last is closed and ends before the next one starts.
pub open spec fn well_ordered(intervals: Seq<Interval>) -> bool {
    &&& forall|k: int| 0 <= k < intervals.len() ==> (#[trigger] intervals[k]).is_proper()
    &&& forall|k: int, l: int|
        0 <= k < l < intervals.len() ==> (#[trigger] intervals[k]).precedes(#[trigger] intervals[l])
}

/// Whether `interval` reports a run that starts at or after sample `i`.
pub open spec fn reports_run(
    series: Seq<Sample>,
    threshold: Double,
    i: int,
    interval: Interval,
) -> bool {
    exists|start: int, end: int|
        i <= start && #[trigger] is_run(series, threshold, start, end) && interval == interval_of_run(
            series,
            start,
            end,
        )
}

/// Whether `interval` is among the intervals found from sample `i` on.
pub open spec fn found_from(
    series: Seq<Sample>,
    threshold: Double,
    i: int,
    interval: Interval,
) -> bool {
    exists|k: int|
        0 <= k < intervals_from(series, threshold, i).len() && #[trigger] intervals_from(
            series,
            threshold,
            i,
        )[k] == interval
}

/// Scans `series` once and returns the intervals in which it exceeds
/// `threshold`.
pub fn detect_threshold(series: &Vec<Sample>, threshold: Double) -> (r: Vec<Interval>)
    ensures
        r@ == threshold_intervals(series@, threshold),
        series@.len() == 0 ==> r@.len() == 0,
        r@.len() == 0 <==> (forall|i: int| 0 <= i < series@.len() ==> !exceeds(series@, threshold, i)),
        (forall|i: int| 0 <= i < series@.len() ==> (#[trigger] series@[i]).value.spec_le(threshold))
            ==> r@.len() == 0,
        strictly_increasing(series@) ==> well_ordered(r@),
        forall|k: int| 0 <= k < r@.len() - 1 ==> !(#[trigger] r@[k]).open_ended,
        r@.len() > 0 && r@.last().open_ended <==> exceeds(series@, threshold, series@.len() - 1),
{
    let ghost full = threshold_intervals(series@, threshold);
    let mut result: Vec<Interval> = Vec::new();
    let mut segment_start: Option<u64> = None;
    let ghost mut start_index: int = 0;
    let mut i: usize = 0;
    while i < series.len()
        invariant
            0 <= i <= series.len(),
            full == threshold_intervals(series@, threshold),
            segment_start is None ==> full == result@ + intervals_from(series@, threshold, i as int),
            segment_start is Some ==> {
                &&& 0 <= start_index < i
                &&& segment_start == Some(series@[start_index].timestamp)
                &&& full == result@ + seq![
                    interval_of_run(series@, start_index, run_end(series@, threshold, i as int)),
                ] + intervals_from(series@, threshold, run_end(series@, threshold, i as int))
            },
        decreases series.len() - i,
    {
        let sample = series[i];
        if sample.value.gt(threshold) {
            if segment_start.is_none() {
                segment_start = Some(sample.timestamp);
                proof {
                    start_index = i as int;
                }
            }
        } else {
            match segment_start {
                Some(from) => {
                    proof {
                        assert(intervals_from(series@, threshold, i as int) == intervals_from(
                            series@,
                            threshold,
                            i + 1,
                        ));
                        assert(result@.push(interval_of_run(series@, start_index, i as int))
                            == result@ + seq![interval_of_run(series@, start_index, i as int)]);
                    }
                    result.push(Interval { from, to: sample.timestamp, open_ended: false });
                    segment_start = None;
                },
                None => {},
            }
        }
        i += 1;
    }
    match segment_start {
        Some(from) => {
            proof {
                assert(result@.push(interval_of_run(series@, start_index, i as int)) == result@
                    + seq![interval_of_run(series@, start_index, i as int)]
                    + intervals_from(series@, threshold, i as int));
            }
            result.push(Interval { from, to: series[i - 1].timestamp, open_ended: true });
        },
        None => {
        },
    }
    proof {
        if strictly_increasing(series@) {
            lemma_intervals_well_ordered(series@, threshold);
        }
        lemma_empty_iff_none_exceeds(series@, threshold, 0);
        lemma_open_ended_is_last(series@, threshold, 0);
        assert forall|k: int| 0 <= k < series@.len() && (#[trigger] series@[k]).value.spec_le(
            threshold,
        ) implies !exceeds(series@, threshold, k) by {
            lemma_gt_excludes_le(series@[k].value, threshold);
        }
    }
    result
}

/// A run that is looked for inside the series ends inside it or at its end,
/// every sample before its end exceeds, and the sample at its end does not.
pub proof fn lemma_run_end_bounds(series: Seq<Sample>, threshold: Double, i: int)
    requires
        0 <= i <= series.len(),
    ensures
        i <= run_end(series, threshold, i) <= series.len(),
        !exceeds(series, threshold, run_end(series, threshold, i)),
        forall|j: int| i <= j < run_end(series, threshold, i) ==> exceeds(series, threshold, j),
    decreases series.len() - i,
{
    if exceeds(series, threshold, i) {
        lemma_run_end_bounds(series, threshold, i + 1);
    }
}

/// From sample `i` on there is no interval exactly when no sample exceeds.
pub proof fn lemma_empty_iff_none_exceeds(series: Seq<Sample>, threshold: Double, i: int)
    requires
        0 <= i <= series.len(),
    ensures
        intervals_from(series, threshold, i).len() == 0 <==> (forall|j: int|
            i <= j < series.len() ==> !exceeds(series, threshold, j)),
    decreases series.len() - i,
{
    if i < series.len() {
        if exceeds(series, threshold, i) {
        } else {
            lemma_empty_iff_none_exceeds(series, threshold, i + 1);
        }
    }
}

/// Among the intervals found from sample `i` on, only the last can be
/// open-ended, and it is exactly when the last sample of the series exceeds
/// the threshold.
pub proof fn lemma_open_ended_is_last(series: Seq<Sample>, threshold: Double, i: int)
    requires
        0 <= i <= series.len(),
    ensures
        forall|k: int|
            0 <= k < intervals_from(series, threshold, i).len() - 1 ==> !(#[trigger] intervals_from(
                series,
                threshold,
                i,
            )[k]).open_ended,
        intervals_from(series, threshold, i).len() > 0 && intervals_from(
            series,
            threshold,
            i,
        ).last().open_ended <==> i < series.len() && exceeds(series, threshold, series.len() - 1),
    decreases series.len() - i,
{
    if i < series.len() {
        if exceeds(series, threshold, i) {
            // The run that starts here is closed unless it reaches the end
            // of the series, and then nothing follows it.
            let end = run_end(series, threshold, i + 1);
            lemma_run_end_bounds(series, threshold, i + 1);
            lemma_open_ended_is_last(series, threshold, end);
            let found = intervals_from(series, threshold, i);
            let rest = intervals_from(series, threshold, end);
            assert(found == seq![interval_of_run(series, i, end)] + rest);
            assert forall|k: int| 0 <= k < found.len() - 1 implies !(#[trigger] found[k]).open_ended by {
                if k > 0 {
                    assert(found[k] == rest[k - 1]);
                }
            }
        } else {
            lemma_open_ended_is_last(series, threshold, i + 1);
        }
    }
}

/// What holds of the intervals found from sample `i` on, in a series whose
/// timestamps strictly increase: they are well ordered, none starts before
/// sample `i`, and they hold the timestamps of exactly those samples from `i`
/// on that exceed the threshold.
proof fn lemma_intervals_from(series: Seq<Sample>, threshold: Double, i: int)
    requires
        strictly_increasing(series),
        0 <= i <= series.len(),
    ensures
        well_ordered(intervals_from(series, threshold, i)),
        forall|k: int|
            0 <= k < intervals_from(series, threshold, i).len() ==> series[i].timestamp <= (
            #[trigger] intervals_from(series, threshold, i)[k]).from,
        forall|j: int|
            i <= j < series.len() ==> (exceeds(series, threshold, j) <==> covered(
                intervals_from(series, threshold, i),
                (#[trigger] series[j]).timestamp,
            )),
    decreases series.len() - i,
{
    let found = intervals_from(series, threshold, i);
    if i >= series.len() {
    } else if !exceeds(series, threshold, i) {
        // Every interval starts after sample `i`, so none holds it.
        lemma_intervals_from(series, threshold, i + 1);
        assert(!covered(found, series[i].timestamp)) by {
            if covered(found, series[i].timestamp) {
                let k = choose|k: int|
                    0 <= k < found.len() && (#[trigger] found[k]).covers(series[i].timestamp);
                assert(series[i + 1].timestamp <= found[k].from);
            }
        }
    } else {
        // The run `i..end` gives the first interval. The others come from
        // the samples after `end`, which itself does not exceed.
        let end = run_end(series, threshold, i + 1);
        lemma_run_end_bounds(series, threshold, i + 1);
        let first = interval_of_run(series, i, end);
        let rest = intervals_from(series, threshold, end);
        assert(found == seq![first] + rest);
        if end < series.len() {
            lemma_intervals_from(series, threshold, end + 1);
            assert forall|k: int| 0 <= k < rest.len() implies series[end].timestamp < (
            #[trigger] rest[k]).from by {
                assert(series[end + 1].timestamp <= rest[k].from);
            }
        }
        assert forall|k: int, l: int| 0 <= k < l < found.len() implies (#[trigger] found[k]).precedes(
            #[trigger] found[l],
        ) by {
            assert(found[l] == rest[l - 1]);
        }
        assert forall|k: int| 0 <= k < found.len() implies (#[trigger] found[k]).is_proper() by {
            if k > 0 {
                assert(found[k] == rest[k - 1]);
            }
        }
        assert forall|k: int| 0 <= k < found.len() implies series[i].timestamp <= (
        #[trigger] found[k]).from by {
            if k > 0 {
                assert(found[k] == rest[k - 1]);
            }
        }
        assert forall|j: int| i <= j < series.len() implies (exceeds(series, threshold, j) <==> covered(
            found,
            (#[trigger] series[j]).timestamp,
        )) by {
            let t = series[j].timestamp;
            if j < end {
                assert(found[0].covers(t));
            } else {
                // The first interval ends at or before `t`: only one of the
                // others can hold it.
                assert(!first.covers(t));
                if covered(rest, t) {
                    let k = choose|k: int| 0 <= k < rest.len() && (#[trigger] rest[k]).covers(t);
                    assert(found[k + 1].covers(t));
                }
                if covered(found, t) {
                    let k = choose|k: int| 0 <= k < found.len() && (#[trigger] found[k]).covers(t);
                    assert(rest[k - 1].covers(t));
                }
            }
        }
    }
}

/// In a series whose timestamps strictly increase, the intervals found are
/// well ordered: no interval ends before it starts, and each ends before the
/// next one starts. Only the last can be open-ended.
pub proof fn lemma_intervals_well_ordered(series: Seq<Sample>, threshold: Double)
    requires
        strictly_increasing(series),
    ensures
        well_ordered(threshold_intervals(series, threshold)),
{
    lemma_intervals_from(series, threshold, 0);
}

/// In a series whose timestamps strictly increase, the intervals found hold
/// the timestamps of the samples that exceed the threshold, and of no other
/// sample.
pub proof fn lemma_intervals_cover_exceeding(series: Seq<Sample>, threshold: Double, j: int)
    requires
        strictly_increasing(series),
        0 <= j < series.len(),
    ensures
        exceeds(series, threshold, j) <==> covered(
            threshold_intervals(series, threshold),
            series[j].timestamp,
        ),
{
    lemma_intervals_from(series, threshold, 0);
}

/// From a sample on that does not continue a run, the intervals found are
/// those of the runs that start there or later: each interval found reports
/// such a run, and each such run is reported.
proof fn lemma_runs_from(series: Seq<Sample>, threshold: Double, i: int)
    requires
        0 <= i <= series.len(),
        !exceeds(series, threshold, i - 1) || !exceeds(series, threshold, i),
    ensures
        forall|k: int|
            0 <= k < intervals_from(series, threshold, i).len() ==> reports_run(
                series,
                threshold,
                i,
                #[trigger] intervals_from(series, threshold, i)[k],
            ),
        forall|start: int, end: int|
            i <= start && #[trigger] is_run(series, threshold, start, end) ==> found_from(
                series,
                threshold,
                i,
                interval_of_run(series, start, end),
            ),
    decreases series.len() - i,
{
    let found = intervals_from(series, threshold, i);
    if i >= series.len() {
    } else if !exceeds(series, threshold, i) {
        // No run starts at a sample that does not exceed.
        lemma_runs_from(series, threshold, i + 1);
        let next = intervals_from(series, threshold, i + 1);
        assert(found == next);
        assert forall|k: int| 0 <= k < found.len() implies reports_run(
            series,
            threshold,
            i,
            #[trigger] found[k],
        ) by {
            assert(reports_run(series, threshold, i + 1, next[k]));
        }
    } else {
        // Sample `i` starts a run, which ends at `last`. Any other run from
        // `i` on starts after `last`: a sample inside the run follows one
        // that exceeds, and the sample at `last` does not exceed.
        let last = run_end(series, threshold, i + 1);
        lemma_run_end_bounds(series, threshold, i + 1);
        lemma_runs_from(series, threshold, last);
        let rest = intervals_from(series, threshold, last);
        assert(found == seq![interval_of_run(series, i, last)] + rest);
        assert(is_run(series, threshold, i, last));
        assert forall|k: int| 0 <= k < found.len() implies reports_run(
            series,
            threshold,
            i,
            #[trigger] found[k],
        ) by {
            if k > 0 {
                assert(reports_run(series, threshold, last, rest[k - 1]));
            }
        }
        assert forall|start: int, end: int|
            i <= start && #[trigger] is_run(series, threshold, start, end) implies found_from(
            series,
            threshold,
            i,
            interval_of_run(series, start, end),
        ) by {
            let interval = interval_of_run(series, start, end);
            if start == i {
                // A run ends where the first sample does not exceed.
                assert(end == last) by {
                    if end < last {
                        assert(exceeds(series, threshold, end));
                    } else if end > last {
                        assert(exceeds(series, threshold, last));
                    }
                }
                assert(found[0] == interval);
            } else if start < last {
                assert(exceeds(series, threshold, start - 1));
            } else {
                assert(found_from(series, threshold, last, interval));
                let k = choose|k: int| 0 <= k < rest.len() && #[trigger] rest[k] == interval;
                assert(found[k + 1] == interval);
            }
        }
    }
}

/// Each interval found reports a run of the series.
pub proof fn lemma_intervals_report_runs(series: Seq<Sample>, threshold: Double, k: int)
    requires
        0 <= k < threshold_intervals(series, threshold).len(),
    ensures
        reports_run(series, threshold, 0, threshold_intervals(series, threshold)[k]),
{
    lemma_runs_from(series, threshold, 0);
}

/// Each run of the series is reported by one of the intervals found.
pub proof fn lemma_runs_are_reported(series: Seq<Sample>, threshold: Double, start: int, end: int)
    requires
        is_run(series, threshold, start, end),
    ensures
        found_from(series, threshold, 0, interval_of_run(series, start, end)),
{
    lemma_runs_from(series, threshold, 0);
}

} // verus!
