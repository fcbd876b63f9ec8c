//! Analytic units: a strategy of detection bound to its configuration.
//!
//! The strategies are a closed set, told apart by the variant of the unit's
//! configuration. Threshold detection is the one strategy with an algorithm;
//! a unit of another strategy says so when asked to detect, and reports that
//! learning produced no model.
//!
//! A unit does not fetch data. It says which query it needs answered, and
//! works on the answer.

use vstd::prelude::*;
use crate::config::{AnalyticUnitConfig, PatchConfig, ThresholdConfig};
use crate::series::{MetricQuery, MetricResult, Sample};
use crate::threshold::{detect_threshold, threshold_intervals, well_ordered, Interval};
use crate::series::strictly_increasing;

verus! {

/// Seconds between the samples that a unit asks a metric source for,
/// whatever the window that the caller looks at.
pub const DETECTION_STEP: u64 = 10;

/// How learning ended.
#[derive(Clone, Copy, Debug, PartialEq, Eq, Structural)]
pub enum LearningResult {
    /// The unit is ready to detect.
    Finished,
    /// There was nothing to build a model from.
    FinishedEmpty,
}

/// Why a unit could not do what it was asked.
#[derive(Clone, Copy, Debug, PartialEq, Eq, Structural)]
pub enum UnitError {
    /// The unit's strategy has no algorithm.
    NotImplemented,
}

/// The scores that a unit gave the samples of a window, by timestamp.
#[derive(Clone, Debug, PartialEq, Eq)]
pub struct HistoricalScoreResult {
    pub scores: Vec<Sample>,
}

/// The threshold strategy: it reports where a series exceeds the configured
/// threshold. It keeps no model.
#[derive(Clone, Copy, Debug, PartialEq, Eq, Structural)]
pub struct ThresholdAnalyticUnit {
    pub config: ThresholdConfig,
}

impl ThresholdAnalyticUnit {
    pub fn new(config: ThresholdConfig) -> (r: ThresholdAnalyticUnit)
        ensures
            r.config == config,
    {
        ThresholdAnalyticUnit { config }
    }

    /// There is nothing to learn: always finishes, and changes nothing.
    pub fn learn(&mut self) -> (r: LearningResult)
        ensures
            r == LearningResult::Finished,
            *final(self) == *old(self),
    {
        LearningResult::Finished
    }

    /// The intervals in which the first series of `result` exceeds the
    /// threshold; none where the source found no series.
    pub fn detect(&self, result: &MetricResult) -> (r: Vec<Interval>)
        ensures
            r@ == threshold_intervals(result.primary(), self.config.threshold),
            result.data@.len() == 0 ==> r@.len() == 0,
            strictly_increasing(result.primary()) ==> well_ordered(r@),
            forall|k: int| 0 <= k < r@.len() - 1 ==> !(#[trigger] r@[k]).open_ended,
    {
        if result.data.len() == 0 {
            return Vec::new();
        }
        detect_threshold(&result.data[0].samples, self.config.threshold)
    }

    /// The score of a sample is its value: returns the first series of
    /// `result`, or no scores where the source found no series.
    pub fn get_hsr(&self, result: &MetricResult) -> (r: HistoricalScoreResult)
        ensures
            r.scores@ == result.primary(),
    {
        let mut scores: Vec<Sample> = Vec::new();
        if result.data.len() == 0 {
            return HistoricalScoreResult { scores };
        }
        let samples = &result.data[0].samples;
        let mut i: usize = 0;
        while i < samples.len()
            invariant
                0 <= i <= samples.len(),
                scores@ == samples@.take(i as int),
            decreases samples.len() - i,
        {
            scores.push(samples[i]);
            assert(samples@.take(i + 1) == samples@.take(i as int).push(samples@[i as int]));
            i += 1;
        }
        assert(samples@.take(i as int) == samples@);
        HistoricalScoreResult { scores }
    }
}

/// An analytic unit: an identifier and the configuration of the strategy
/// that the unit runs.
#[derive(Clone, Debug, PartialEq, Eq)]
pub struct AnalyticUnit {
    id: String,
    config: AnalyticUnitConfig,
}

impl AnalyticUnit {
    /// The identifier of the unit. It never changes.
    pub closed spec fn spec_id(&self) -> Seq<char> {
        self.id@
    }

    /// The configuration of the unit.
    pub closed spec fn spec_config(&self) -> AnalyticUnitConfig {
        self.config
    }

    /// Whether the unit's strategy has an algorithm.
    pub open spec fn is_implemented(&self) -> bool {
        self.spec_config() is Threshold
    }

    pub fn new(id: String, config: AnalyticUnitConfig) -> (r: AnalyticUnit)
        ensures
            r.spec_id() == id@,
            r.spec_config() == config,
    {
        AnalyticUnit { id, config }
    }

    pub fn get_id(&self) -> (r: String)
        ensures
            r@ == self.spec_id(),
    {
        self.id.clone()
    }

    pub fn get_config(&self) -> (r: AnalyticUnitConfig)
        ensures
            r == self.spec_config(),
    {
        self.config
    }

    /// The least span of history, in seconds, in which the unit can detect:
    /// one sampling step.
    pub fn get_detection_window(&self) -> (r: u64)
        ensures
            r == DETECTION_STEP,
    {
        DETECTION_STEP
    }

    /// The query whose answer [`AnalyticUnit::detect`] and
    /// [`AnalyticUnit::get_hsr`] work on, for the window `from..to`: the
    /// window as given, sampled at the unit's own step.
    pub fn detection_query(&self, from: u64, to: u64) -> (r: MetricQuery)
        ensures
            r == (MetricQuery { from, to, step: DETECTION_STEP }),
            r.is_answerable() <==> from < to,
    {
        MetricQuery { from, to, step: DETECTION_STEP }
    }

    /// Replaces the configuration, and with it the strategy if the variant
    /// differs. Whether the unit has to learn again is for the caller to
    /// have decided.
    pub fn set_config(&mut self, config: AnalyticUnitConfig)
        ensures
            final(self).spec_config() == config,
            final(self).spec_id() == old(self).spec_id(),
    {
        self.config = config;
    }

    /// Applies a patch to the unit's configuration. Returns whether the unit
    /// has to learn again, and whether its strategy stayed the same.
    pub fn patch_config(&mut self, patch: PatchConfig) -> (r: (bool, bool))
        ensures
            final(self).spec_config() == patch.target(),
            final(self).spec_id() == old(self).spec_id(),
            r.0 == old(self).spec_config().needs_relearning(patch),
            r.1 == old(self).spec_config().same_variant(patch),
    {
        let (config, needs_relearning, same_variant) = self.config.patch(patch);
        self.config = config;
        (needs_relearning, same_variant)
    }

    /// Builds what the strategy detects with. The threshold strategy has
    /// nothing to learn and finishes; the other strategies build no model.
    /// The unit stays as it was.
    pub fn learn(&mut self) -> (r: Result<LearningResult, UnitError>)
        ensures
            *final(self) == *old(self),
            r == Ok::<LearningResult, UnitError>(
                if old(self).is_implemented() {
                    LearningResult::Finished
                } else {
                    LearningResult::FinishedEmpty
                },
            ),
    {
        match self.config {
            AnalyticUnitConfig::Threshold(config) => {
                let mut strategy = ThresholdAnalyticUnit::new(config);
                Ok(strategy.learn())
            },
            AnalyticUnitConfig::Pattern(_) => Ok(LearningResult::FinishedEmpty),
            AnalyticUnitConfig::Anomaly(_) => Ok(LearningResult::FinishedEmpty),
        }
    }

    /// Detects in the answer to the unit's query. A threshold unit returns
    /// the intervals in which the first series exceeds its threshold; a unit
    /// of another strategy fails rather than report nothing.
    pub fn detect(&self, result: &MetricResult) -> (r: Result<Vec<Interval>, UnitError>)
        ensures
            match self.spec_config() {
                AnalyticUnitConfig::Threshold(config) => {
                    &&& r is Ok
                    &&& r->Ok_0@ == threshold_intervals(result.primary(), config.threshold)
                    &&& strictly_increasing(result.primary()) ==> well_ordered(r->Ok_0@)
                },
                _ => r == Err::<Vec<Interval>, UnitError>(UnitError::NotImplemented),
            },
    {
        match self.config {
            AnalyticUnitConfig::Threshold(config) => Ok(ThresholdAnalyticUnit::new(config).detect(result)),
            AnalyticUnitConfig::Pattern(_) => Err(UnitError::NotImplemented),
            AnalyticUnitConfig::Anomaly(_) => Err(UnitError::NotImplemented),
        }
    }

    /// Scores the samples in the answer to the unit's query. A threshold
    /// unit scores a sample by its value; a unit of another strategy fails.
    pub fn get_hsr(&self, result: &MetricResult) -> (r: Result<HistoricalScoreResult, UnitError>)
        ensures
            match self.spec_config() {
                AnalyticUnitConfig::Threshold(_) => r is Ok && r->Ok_0.scores@ == result.primary(),
                _ => r == Err::<HistoricalScoreResult, UnitError>(UnitError::NotImplemented),
            },
    {
        match self.config {
            AnalyticUnitConfig::Threshold(config) => Ok(ThresholdAnalyticUnit::new(config).get_hsr(result)),
            AnalyticUnitConfig::Pattern(_) => Err(UnitError::NotImplemented),
            AnalyticUnitConfig::Anomaly(_) => Err(UnitError::NotImplemented),
        }
    }
}

} // verus!
