//! The analytic service: detection over query results, reported as segments.

use vstd::prelude::*;
use crate::ieee::Double;
use crate::segment::{detection_segments, ends_open, segments_of, Detections, Segment};
use crate::series::{strictly_increasing, MetricResult};
use crate::config::ThresholdConfig;
use crate::threshold::{
    exceeds, lemma_intervals_well_ordered, lemma_open_ended_is_last, threshold_intervals,
};
use crate::unit::{ThresholdAnalyticUnit, UnitError};

verus! {

/// The service keeps the handles of its two collaborators: the source of
/// metrics, which answers queries, and the store of segments. It never calls
/// them itself; the caller runs the query and hands the answer in.
#[derive(Clone)]
pub struct AnalyticService<M, S> {
    metric_service: M,
    segments_service: S,
}

impl<M, S> AnalyticService<M, S> {
    pub closed spec fn spec_metric_service(&self) -> M {
        self.metric_service
    }

    pub closed spec fn spec_segments_service(&self) -> S {
        self.segments_service
    }

    pub fn new(metric_service: M, segments_service: S) -> (r: AnalyticService<M, S>)
        ensures
            r.spec_metric_service() == metric_service,
            r.spec_segments_service() == segments_service,
    {
        AnalyticService { metric_service, segments_service }
    }

    /// The source of metrics.
    pub fn metric_service(&self) -> (r: &M)
        ensures
            *r == self.spec_metric_service(),
    {
        &self.metric_service
    }

    /// The store of segments.
    pub fn segments_service(&self) -> (r: &S)
        ensures
            *r == self.spec_segments_service(),
    {
        &self.segments_service
    }

    /// Pattern detection has no algorithm: fails rather than report nothing.
    pub fn get_pattern_detection() -> (r: Result<Vec<Segment>, UnitError>)
        ensures
            r == Err::<Vec<Segment>, UnitError>(UnitError::NotImplemented),
    {
        Err(UnitError::NotImplemented)
    }

    /// The segments in which the first series of `result` exceeds
    /// `threshold`, in the order of the series; none where the source found
    /// no series. The segments are detections and not yet stored. The last
    /// of them is marked open-ended if the series ends above the threshold.
    pub fn get_threshold_detections(
        &self,
        result: &MetricResult,
        threshold: Double,
    ) -> (r: Detections)
        ensures
            r.segments@ == detection_segments(threshold_intervals(result.primary(), threshold)),
            r.open_ended == ends_open(threshold_intervals(result.primary(), threshold)),
            r.open_ended <==> exceeds(result.primary(), threshold, result.primary().len() - 1),
            result.data@.len() == 0 ==> r.segments@.len() == 0 && !r.open_ended,
            strictly_increasing(result.primary()) ==> forall|k: int|
                0 <= k < r.segments@.len() ==> (#[trigger] r.segments@[k]).is_valid(),
    {
        if result.data.len() == 0 {
            return Detections { segments: Vec::new(), open_ended: false };
        }
        let strategy = ThresholdAnalyticUnit::new(ThresholdConfig { threshold });
        let intervals = strategy.detect(result);
        proof {
            lemma_open_ended_is_last(result.primary(), threshold, 0);
            if strictly_increasing(result.primary()) {
                lemma_intervals_well_ordered(result.primary(), threshold);
            }
        }
        segments_of(&intervals)
    }
}

} // verus!
