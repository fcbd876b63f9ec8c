//! Configuration of analytic units, and the protocol by which it is patched.
//!
//! A unit runs one strategy, and its configuration is that of the strategy.
//! A patch names a strategy and either carries a configuration for it or asks
//! for the strategy's defaults. Applying a patch also decides whether the
//! unit has to learn again: always when the strategy changes, and within one
//! strategy only where a parameter changes that shaped what was learned.

use vstd::prelude::*;
use crate::ieee::{Double, Single};

verus! {

/// Bit pattern of three tenths as a binary32 number.
pub const DEFAULT_CORRELATION_SCORE: u32 = 0x3E99_999A;

/// Bit pattern of one tenth as a binary32 number.
pub const DEFAULT_ANTI_CORRELATION_SCORE: u32 = 0x3DCC_CCCD;

/// Bit pattern of eight tenths as a binary32 number.
pub const DEFAULT_MODEL_SCORE: u32 = 0x3F4C_CCCD;

/// Bit pattern of one as a binary32 number.
pub const DEFAULT_THRESHOLD_SCORE: u32 = 0x3F80_0000;

/// Bit pattern of one half as a binary64 number.
pub const DEFAULT_ALPHA: u64 = 0x3FE0_0000_0000_0000;

/// Bit pattern of ten as a binary64 number.
pub const DEFAULT_CONFIDENCE: u64 = 0x4024_0000_0000_0000;

/// One hour, in seconds.
pub const DEFAULT_SEASONALITY: u64 = 3600;

/// Number of seasons that anomaly detection looks back on.
pub const DEFAULT_SEASONALITY_ITERATIONS: u64 = 3;

/// Bit pattern of one half as a binary64 number.
pub const DEFAULT_THRESHOLD: u64 = 0x3FE0_0000_0000_0000;

/// Parameters of pattern detection.
#[derive(Clone, Copy, Debug, PartialEq, Eq, Structural)]
pub struct PatternConfig {
    pub correlation_score: Single,
    pub anti_correlation_score: Single,
    pub model_score: Single,
    pub threshold_score: Single,
}

impl PatternConfig {
    /// The defaults of pattern detection.
    pub open spec fn spec_default() -> PatternConfig {
        PatternConfig {
            correlation_score: Single { bits: DEFAULT_CORRELATION_SCORE },
            anti_correlation_score: Single { bits: DEFAULT_ANTI_CORRELATION_SCORE },
            model_score: Single { bits: DEFAULT_MODEL_SCORE },
            threshold_score: Single { bits: DEFAULT_THRESHOLD_SCORE },
        }
    }
}

impl Default for PatternConfig {
    fn default() -> (r: Self)
        ensures
            r == PatternConfig::spec_default(),
    {
        PatternConfig {
            correlation_score: Single::from_bits(DEFAULT_CORRELATION_SCORE),
            anti_correlation_score: Single::from_bits(DEFAULT_ANTI_CORRELATION_SCORE),
            model_score: Single::from_bits(DEFAULT_MODEL_SCORE),
            threshold_score: Single::from_bits(DEFAULT_THRESHOLD_SCORE),
        }
    }
}

/// Parameters of anomaly detection.
#[derive(Clone, Copy, Debug, PartialEq, Eq, Structural)]
pub struct AnomalyConfig {
    pub alpha: Double,
    pub confidence: Double,
    /// Length of a season in seconds. It can be zero.
    pub seasonality: u64,
    pub seasonality_iterations: u64,
}

impl AnomalyConfig {
    /// The defaults of anomaly detection.
    pub open spec fn spec_default() -> AnomalyConfig {
        AnomalyConfig {
            alpha: Double { bits: DEFAULT_ALPHA },
            confidence: Double { bits: DEFAULT_CONFIDENCE },
            seasonality: DEFAULT_SEASONALITY,
            seasonality_iterations: DEFAULT_SEASONALITY_ITERATIONS,
        }
    }

    /// Whether the two configurations shape the training window alike.
    pub open spec fn same_seasons(self, other: AnomalyConfig) -> bool {
        self.seasonality == other.seasonality && self.seasonality_iterations
            == other.seasonality_iterations
    }
}

impl Default for AnomalyConfig {
    fn default() -> (r: Self)
        ensures
            r == AnomalyConfig::spec_default(),
    {
        AnomalyConfig {
            alpha: Double::from_bits(DEFAULT_ALPHA),
            confidence: Double::from_bits(DEFAULT_CONFIDENCE),
            seasonality: DEFAULT_SEASONALITY,
            seasonality_iterations: DEFAULT_SEASONALITY_ITERATIONS,
        }
    }
}

/// Parameters of threshold detection.
#[derive(Clone, Copy, Debug, PartialEq, Eq, Structural)]
pub struct ThresholdConfig {
    pub threshold: Double,
}

impl ThresholdConfig {
    /// The defaults of threshold detection.
    pub open spec fn spec_default() -> ThresholdConfig {
        ThresholdConfig { threshold: Double { bits: DEFAULT_THRESHOLD } }
    }
}

impl Default for ThresholdConfig {
    fn default() -> (r: Self)
        ensures
            r == ThresholdConfig::spec_default(),
    {
        ThresholdConfig { threshold: Double::from_bits(DEFAULT_THRESHOLD) }
    }
}

/// The configuration of an analytic unit: that of the one strategy it runs.
#[derive(Clone, Copy, Debug, PartialEq, Eq, Structural)]
pub enum AnalyticUnitConfig {
    Pattern(PatternConfig),
    Threshold(ThresholdConfig),
    Anomaly(AnomalyConfig),
}

/// A change of configuration. The payload is the new configuration of the
/// named strategy; without one, the patch resets the strategy to its
/// defaults.
#[derive(Clone, Copy, Debug, PartialEq, Eq, Structural)]
pub enum PatchConfig {
    Pattern(Option<PatternConfig>),
    Threshold(Option<ThresholdConfig>),
    Anomaly(Option<AnomalyConfig>),
}

impl PatchConfig {
    /// The configuration that the patch asks for: its payload, or the
    /// defaults of its strategy.
    pub open spec fn target(self) -> AnalyticUnitConfig {
        match self {
            PatchConfig::Pattern(Some(config)) => AnalyticUnitConfig::Pattern(config),
            PatchConfig::Pattern(None) => AnalyticUnitConfig::Pattern(PatternConfig::spec_default()),
            PatchConfig::Threshold(Some(config)) => AnalyticUnitConfig::Threshold(config),
            PatchConfig::Threshold(None) => AnalyticUnitConfig::Threshold(
                ThresholdConfig::spec_default(),
            ),
            PatchConfig::Anomaly(Some(config)) => AnalyticUnitConfig::Anomaly(config),
            PatchConfig::Anomaly(None) => AnalyticUnitConfig::Anomaly(AnomalyConfig::spec_default()),
        }
    }

    /// Whether the patch carries a configuration.
    pub open spec fn has_payload(self) -> bool {
        match self {
            PatchConfig::Pattern(payload) => payload is Some,
            PatchConfig::Threshold(payload) => payload is Some,
            PatchConfig::Anomaly(payload) => payload is Some,
        }
    }
}

impl AnalyticUnitConfig {
    /// Whether the patch names the strategy that this configuration is of.
    pub open spec fn same_variant(self, patch: PatchConfig) -> bool {
        match (self, patch) {
            (AnalyticUnitConfig::Pattern(_), PatchConfig::Pattern(_)) => true,
            (AnalyticUnitConfig::Threshold(_), PatchConfig::Threshold(_)) => true,
            (AnalyticUnitConfig::Anomaly(_), PatchConfig::Anomaly(_)) => true,
            _ => false,
        }
    }

    /// Whether a unit with this configuration has to learn again once the
    /// patch is applied: if the strategy changes, or if the patch carries an
    /// anomaly configuration whose seasons differ from the current ones.
    pub open spec fn needs_relearning(self, patch: PatchConfig) -> bool {
        match (self, patch) {
            (AnalyticUnitConfig::Pattern(_), PatchConfig::Pattern(_)) => false,
            (AnalyticUnitConfig::Threshold(_), PatchConfig::Threshold(_)) => false,
            (AnalyticUnitConfig::Anomaly(current), PatchConfig::Anomaly(Some(config))) => {
                !config.same_seasons(current)
            },
            (AnalyticUnitConfig::Anomaly(_), PatchConfig::Anomaly(None)) => false,
            _ => true,
        }
    }

    /// The patch that asks for exactly this configuration.
    pub open spec fn as_patch(self) -> PatchConfig {
        match self {
            AnalyticUnitConfig::Pattern(config) => PatchConfig::Pattern(Some(config)),
            AnalyticUnitConfig::Threshold(config) => PatchConfig::Threshold(Some(config)),
            AnalyticUnitConfig::Anomaly(config) => PatchConfig::Anomaly(Some(config)),
        }
    }

    /// What applying the patch gives: the new configuration, whether the unit
    /// has to learn again, and whether the strategy stayed the same.
    pub open spec fn spec_patch(self, patch: PatchConfig) -> (AnalyticUnitConfig, bool, bool) {
        (patch.target(), self.needs_relearning(patch), self.same_variant(patch))
    }

    /// Applies a patch. Returns the new configuration, whether the unit has
    /// to learn again, and whether the strategy stayed the same.
    pub fn patch(&self, patch: PatchConfig) -> (r: (AnalyticUnitConfig, bool, bool))
        ensures
            r == self.spec_patch(patch),
            r.0 == patch.target(),
            !self.same_variant(patch) ==> r.1 && !r.2,
            self.same_variant(patch) ==> r.2,
            self.same_variant(patch) && !patch.has_payload() ==> !r.1,
            self.same_variant(patch) && !(patch is Anomaly) ==> !r.1,
            self matches AnalyticUnitConfig::Anomaly(current) ==> (patch matches PatchConfig::Anomaly(
                Some(config),
            ) ==> (r.1 <==> config.seasonality != current.seasonality
                || config.seasonality_iterations != current.seasonality_iterations)),
    {
        match patch {
            PatchConfig::Pattern(payload) => {
                let config = match payload {
                    Some(config) => config,
                    None => PatternConfig::default(),
                };
                match self {
                    AnalyticUnitConfig::Pattern(_) => (
                        AnalyticUnitConfig::Pattern(config),
                        false,
                        true,
                    ),
                    _ => (AnalyticUnitConfig::Pattern(config), true, false),
                }
            },
            PatchConfig::Anomaly(payload) => {
                match self {
                    AnalyticUnitConfig::Anomaly(current) => {
                        match payload {
                            Some(config) => {
                                let need_learning = config.seasonality != current.seasonality
                                    || config.seasonality_iterations
                                    != current.seasonality_iterations;
                                (AnalyticUnitConfig::Anomaly(config), need_learning, true)
                            },
                            None => (
                                AnalyticUnitConfig::Anomaly(AnomalyConfig::default()),
                                false,
                                true,
                            ),
                        }
                    },
                    _ => {
                        let config = match payload {
                            Some(config) => config,
                            None => AnomalyConfig::default(),
                        };
                        (AnalyticUnitConfig::Anomaly(config), true, false)
                    },
                }
            },
            PatchConfig::Threshold(payload) => {
                let config = match payload {
                    Some(config) => config,
                    None => ThresholdConfig::default(),
                };
                match self {
                    AnalyticUnitConfig::Threshold(_) => (
                        AnalyticUnitConfig::Threshold(config),
                        false,
                        true,
                    ),
                    _ => (AnalyticUnitConfig::Threshold(config), true, false),
                }
            },
        }
    }
}

/// Patching settles at once. A patch applied a second time gives the
/// configuration that it gave the first time, as does that configuration
/// sent back as a patch; neither changes the strategy nor asks the unit to
/// learn again.
pub proof fn lemma_patch_idempotent(current: AnalyticUnitConfig, patch: PatchConfig)
    ensures
        current.spec_patch(patch).0.spec_patch(patch) == (current.spec_patch(patch).0, false, true),
        current.spec_patch(patch).0.spec_patch(current.spec_patch(patch).0.as_patch()) == (
            current.spec_patch(patch).0,
            false,
            true,
        ),
{
}

/// A patch that names another strategy than the current one asks the unit to
/// learn again and reports the change, whether or not it carries a
/// configuration.
pub proof fn lemma_variant_switch_relearns(current: AnalyticUnitConfig, patch: PatchConfig)
    requires
        !current.same_variant(patch),
    ensures
        current.spec_patch(patch).1,
        !current.spec_patch(patch).2,
{
}

/// Between two anomaly configurations, the unit has to learn again exactly
/// when the length or the number of the seasons changes; `alpha` and
/// `confidence` alone never ask for it.
pub proof fn lemma_anomaly_relearns_on_seasons(current: AnomalyConfig, config: AnomalyConfig)
    ensures
        AnalyticUnitConfig::Anomaly(current).spec_patch(PatchConfig::Anomaly(Some(config))).1 <==> (
        config.seasonality != current.seasonality || config.seasonality_iterations
            != current.seasonality_iterations),
{
}

} // verus!
