use analytics_core::config::{
    AnalyticUnitConfig, AnomalyConfig, PatchConfig, PatternConfig, ThresholdConfig,
};
use analytics_core::ieee::{Double, Single};

fn double(value: f64) -> Double {
    Double::from_bits(value.to_bits())
}

fn single(value: f32) -> Single {
    Single::from_bits(value.to_bits())
}

fn pattern(a: f32, b: f32, c: f32, d: f32) -> PatternConfig {
    PatternConfig {
        correlation_score: single(a),
        anti_correlation_score: single(b),
        model_score: single(c),
        threshold_score: single(d),
    }
}

fn anomaly(alpha: f64, confidence: f64, seasonality: u64, iterations: u64) -> AnomalyConfig {
    AnomalyConfig {
        alpha: double(alpha),
        confidence: double(confidence),
        seasonality,
        seasonality_iterations: iterations,
    }
}

fn threshold(value: f64) -> ThresholdConfig {
    ThresholdConfig { threshold: double(value) }
}

fn currents() -> Vec<AnalyticUnitConfig> {
    vec![
        AnalyticUnitConfig::Pattern(pattern(0.4, 0.2, 0.7, 0.9)),
        AnalyticUnitConfig::Threshold(threshold(3.5)),
        AnalyticUnitConfig::Anomaly(anomaly(0.25, 4.0, 60, 5)),
    ]
}

fn patches() -> Vec<PatchConfig> {
    vec![
        PatchConfig::Pattern(Some(pattern(0.6, 0.3, 0.5, 0.8))),
        PatchConfig::Pattern(None),
        PatchConfig::Threshold(Some(threshold(7.0))),
        PatchConfig::Threshold(None),
        PatchConfig::Anomaly(Some(anomaly(0.75, 2.0, 120, 5))),
        PatchConfig::Anomaly(Some(anomaly(0.75, 2.0, 60, 5))),
        PatchConfig::Anomaly(None),
    ]
}

fn strategy(config: &AnalyticUnitConfig) -> u8 {
    match config {
        AnalyticUnitConfig::Pattern(_) => 0,
        AnalyticUnitConfig::Threshold(_) => 1,
        AnalyticUnitConfig::Anomaly(_) => 2,
    }
}

fn named(patch: &PatchConfig) -> u8 {
    match patch {
        PatchConfig::Pattern(_) => 0,
        PatchConfig::Threshold(_) => 1,
        PatchConfig::Anomaly(_) => 2,
    }
}

#[test]
fn pattern_defaults() {
    let config = PatternConfig::default();
    assert_eq!(f32::from_bits(config.correlation_score.to_bits()), 0.3);
    assert_eq!(f32::from_bits(config.anti_correlation_score.to_bits()), 0.1);
    assert_eq!(f32::from_bits(config.model_score.to_bits()), 0.8);
    assert_eq!(f32::from_bits(config.threshold_score.to_bits()), 1.0);
}

#[test]
fn anomaly_defaults() {
    let config = AnomalyConfig::default();
    assert_eq!(f64::from_bits(config.alpha.to_bits()), 0.5);
    assert_eq!(f64::from_bits(config.confidence.to_bits()), 10.0);
    assert_eq!(config.seasonality, 3600);
    assert_eq!(config.seasonality_iterations, 3);
}

#[test]
fn threshold_defaults() {
    assert_eq!(f64::from_bits(ThresholdConfig::default().threshold.to_bits()), 0.5);
}

#[test]
fn same_strategy_with_payload_takes_the_payload_without_relearning() {
    let current = AnalyticUnitConfig::Threshold(threshold(3.5));
    let result = current.patch(PatchConfig::Threshold(Some(threshold(7.0))));
    assert_eq!(result, (AnalyticUnitConfig::Threshold(threshold(7.0)), false, true));

    let current = AnalyticUnitConfig::Pattern(pattern(0.4, 0.2, 0.7, 0.9));
    let result = current.patch(PatchConfig::Pattern(Some(pattern(0.6, 0.3, 0.5, 0.8))));
    assert_eq!(result, (AnalyticUnitConfig::Pattern(pattern(0.6, 0.3, 0.5, 0.8)), false, true));
}

#[test]
fn same_strategy_without_payload_resets_to_defaults_without_relearning() {
    let current = AnalyticUnitConfig::Threshold(threshold(3.5));
    assert_eq!(
        current.patch(PatchConfig::Threshold(None)),
        (AnalyticUnitConfig::Threshold(threshold(0.5)), false, true)
    );
    let current = AnalyticUnitConfig::Pattern(pattern(0.4, 0.2, 0.7, 0.9));
    assert_eq!(
        current.patch(PatchConfig::Pattern(None)),
        (AnalyticUnitConfig::Pattern(pattern(0.3, 0.1, 0.8, 1.0)), false, true)
    );
    let current = AnalyticUnitConfig::Anomaly(anomaly(0.25, 4.0, 60, 5));
    assert_eq!(
        current.patch(PatchConfig::Anomaly(None)),
        (AnalyticUnitConfig::Anomaly(anomaly(0.5, 10.0, 3600, 3)), false, true)
    );
}

#[test]
fn other_strategy_with_payload_takes_the_payload_and_relearns() {
    let current = AnalyticUnitConfig::Threshold(threshold(3.5));
    assert_eq!(
        current.patch(PatchConfig::Anomaly(Some(anomaly(0.75, 2.0, 120, 5)))),
        (AnalyticUnitConfig::Anomaly(anomaly(0.75, 2.0, 120, 5)), true, false)
    );
    let current = AnalyticUnitConfig::Anomaly(anomaly(0.25, 4.0, 60, 5));
    assert_eq!(
        current.patch(PatchConfig::Pattern(Some(pattern(0.6, 0.3, 0.5, 0.8)))),
        (AnalyticUnitConfig::Pattern(pattern(0.6, 0.3, 0.5, 0.8)), true, false)
    );
}

#[test]
fn other_strategy_without_payload_takes_the_defaults_and_relearns() {
    let current = AnalyticUnitConfig::Pattern(pattern(0.4, 0.2, 0.7, 0.9));
    assert_eq!(
        current.patch(PatchConfig::Threshold(None)),
        (AnalyticUnitConfig::Threshold(threshold(0.5)), true, false)
    );
    let current = AnalyticUnitConfig::Threshold(threshold(3.5));
    assert_eq!(
        current.patch(PatchConfig::Anomaly(None)),
        (AnalyticUnitConfig::Anomaly(anomaly(0.5, 10.0, 3600, 3)), true, false)
    );
    assert_eq!(
        current.patch(PatchConfig::Pattern(None)),
        (AnalyticUnitConfig::Pattern(pattern(0.3, 0.1, 0.8, 1.0)), true, false)
    );
}

#[test]
fn a_variant_switch_always_relearns() {
    for current in currents() {
        for patch in patches() {
            if strategy(&current) != named(&patch) {
                let (config, needs_relearning, same_variant) = current.patch(patch);
                assert!(needs_relearning);
                assert!(!same_variant);
                assert_eq!(strategy(&config), named(&patch));
            }
        }
    }
}

#[test]
fn a_patch_within_the_strategy_reports_the_same_variant() {
    for current in currents() {
        for patch in patches() {
            if strategy(&current) == named(&patch) {
                let (config, _, same_variant) = current.patch(patch);
                assert!(same_variant);
                assert_eq!(strategy(&config), strategy(&current));
            }
        }
    }
}

#[test]
fn an_anomaly_patch_of_confidence_alone_does_not_relearn() {
    let current = AnalyticUnitConfig::Anomaly(anomaly(0.25, 4.0, 60, 5));
    let result = current.patch(PatchConfig::Anomaly(Some(anomaly(0.25, 8.0, 60, 5))));
    assert_eq!(result, (AnalyticUnitConfig::Anomaly(anomaly(0.25, 8.0, 60, 5)), false, true));
    let result = current.patch(PatchConfig::Anomaly(Some(anomaly(0.9, 4.0, 60, 5))));
    assert_eq!(result, (AnalyticUnitConfig::Anomaly(anomaly(0.9, 4.0, 60, 5)), false, true));
}

#[test]
fn an_anomaly_patch_of_seasonality_relearns() {
    let current = AnalyticUnitConfig::Anomaly(anomaly(0.25, 4.0, 60, 5));
    let result = current.patch(PatchConfig::Anomaly(Some(anomaly(0.25, 4.0, 61, 5))));
    assert_eq!(result, (AnalyticUnitConfig::Anomaly(anomaly(0.25, 4.0, 61, 5)), true, true));
    let result = current.patch(PatchConfig::Anomaly(Some(anomaly(0.25, 4.0, 0, 5))));
    assert_eq!(result, (AnalyticUnitConfig::Anomaly(anomaly(0.25, 4.0, 0, 5)), true, true));
}

#[test]
fn an_anomaly_patch_of_the_iterations_relearns() {
    let current = AnalyticUnitConfig::Anomaly(anomaly(0.25, 4.0, 60, 5));
    let result = current.patch(PatchConfig::Anomaly(Some(anomaly(0.25, 4.0, 60, 6))));
    assert_eq!(result, (AnalyticUnitConfig::Anomaly(anomaly(0.25, 4.0, 60, 6)), true, true));
}

#[test]
fn an_anomaly_reset_does_not_relearn_even_if_the_seasons_change() {
    let current = AnalyticUnitConfig::Anomaly(anomaly(0.25, 4.0, 60, 5));
    let (config, needs_relearning, same_variant) = current.patch(PatchConfig::Anomaly(None));
    assert_eq!(config, AnalyticUnitConfig::Anomaly(AnomalyConfig::default()));
    assert!(!needs_relearning);
    assert!(same_variant);
}

#[test]
fn a_patch_applied_twice_settles() {
    for current in currents() {
        for patch in patches() {
            let (once, _, _) = current.patch(patch);
            let (twice, needs_relearning, same_variant) = once.patch(patch);
            assert_eq!(twice, once);
            assert!(!needs_relearning);
            assert!(same_variant);
            let (thrice, _, _) = twice.patch(patch);
            assert_eq!(thrice, once);
        }
    }
}

#[test]
fn a_variant_switch_carries_no_field_over() {
    let current = AnalyticUnitConfig::Anomaly(anomaly(0.25, 4.0, 60, 5));
    let (config, _, _) = current.patch(PatchConfig::Threshold(None));
    assert_eq!(config, AnalyticUnitConfig::Threshold(ThresholdConfig::default()));
    let (back, _, _) = config.patch(PatchConfig::Anomaly(None));
    assert_eq!(back, AnalyticUnitConfig::Anomaly(AnomalyConfig::default()));
}

#[test]
fn a_configuration_sent_back_as_a_patch_changes_nothing() {
    for current in currents() {
        let patch = match current {
            AnalyticUnitConfig::Pattern(config) => PatchConfig::Pattern(Some(config)),
            AnalyticUnitConfig::Threshold(config) => PatchConfig::Threshold(Some(config)),
            AnalyticUnitConfig::Anomaly(config) => PatchConfig::Anomaly(Some(config)),
        };
        assert_eq!(current.patch(patch), (current, false, true));
    }
}
