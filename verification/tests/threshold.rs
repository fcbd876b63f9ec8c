use analytics_core::ieee::Double;
use analytics_core::series::{is_strictly_increasing, Sample};
use analytics_core::threshold::{detect_threshold, Interval};

fn number(value: f64) -> Double {
    Double::from_bits(value.to_bits())
}

fn series(samples: &[(u64, f64)]) -> Vec<Sample> {
    samples.iter().map(|(t, v)| Sample::new(*t, number(*v))).collect()
}

fn closed(from: u64, to: u64) -> Interval {
    Interval { from, to, open_ended: false }
}

fn open(from: u64, to: u64) -> Interval {
    Interval { from, to, open_ended: true }
}

#[test]
fn a_series_at_or_below_the_threshold_has_no_interval() {
    let input = series(&[(0, 0.1), (10, 0.5), (20, 0.49), (30, -3.0)]);
    assert_eq!(detect_threshold(&input, number(0.5)), vec![]);
}

#[test]
fn a_run_that_falls_back_gives_one_closed_interval() {
    let input = series(&[(0, 0.1), (10, 0.9), (20, 0.95), (30, 0.2)]);
    assert_eq!(detect_threshold(&input, number(0.5)), vec![closed(10, 30)]);
}

#[test]
fn a_run_that_reaches_the_end_gives_one_open_ended_interval() {
    let input = series(&[(0, 0.1), (10, 0.9), (20, 0.95)]);
    assert_eq!(detect_threshold(&input, number(0.5)), vec![open(10, 20)]);
}

#[test]
fn an_empty_series_has_no_interval() {
    let input: Vec<Sample> = Vec::new();
    assert_eq!(detect_threshold(&input, number(0.5)), vec![]);
}

#[test]
fn a_value_equal_to_the_threshold_does_not_exceed() {
    let input = series(&[(0, 0.5), (10, 0.5000000000000001), (20, 0.5), (30, 0.5)]);
    assert_eq!(detect_threshold(&input, number(0.5)), vec![closed(10, 20)]);
}

#[test]
fn every_run_gives_an_interval_in_the_order_of_the_series() {
    let input = series(
        &[(1, 2.0), (2, 0.0), (3, 2.0), (4, 2.0), (5, 0.0), (6, 0.0), (7, 2.0), (8, 0.0), (9, 2.0)],
    );
    assert_eq!(
        detect_threshold(&input, number(1.0)),
        vec![closed(1, 2), closed(3, 5), closed(7, 8), open(9, 9)]
    );
}

#[test]
fn a_single_sample_above_the_threshold_is_open_ended_at_itself() {
    let input = series(&[(42, 7.0)]);
    assert_eq!(detect_threshold(&input, number(0.5)), vec![open(42, 42)]);
}

#[test]
fn a_series_wholly_above_the_threshold_is_one_open_ended_interval() {
    let input = series(&[(5, 1.0), (6, 2.0), (7, 3.0)]);
    assert_eq!(detect_threshold(&input, number(0.5)), vec![open(5, 7)]);
}

#[test]
fn a_nan_sample_closes_a_run_and_opens_none() {
    let input = series(&[(0, f64::NAN), (10, 1.0), (20, f64::NAN), (30, 1.0), (40, 0.0)]);
    assert_eq!(detect_threshold(&input, number(0.5)), vec![closed(10, 20), closed(30, 40)]);
}

#[test]
fn nothing_exceeds_a_nan_threshold() {
    let input = series(&[(0, 1.0), (10, f64::INFINITY), (20, -1.0)]);
    assert_eq!(detect_threshold(&input, number(f64::NAN)), vec![]);
}

#[test]
fn negative_values_and_thresholds_are_ordered_as_numbers() {
    let input = series(&[(0, -2.0), (10, -0.5), (20, 0.0), (30, -1.0), (40, -1.5)]);
    assert_eq!(detect_threshold(&input, number(-1.0)), vec![closed(10, 30)]);
}

#[test]
fn negative_zero_does_not_exceed_zero() {
    let input = series(&[(0, -0.0), (10, 0.0), (20, f64::MIN_POSITIVE), (30, -0.0)]);
    assert_eq!(detect_threshold(&input, number(0.0)), vec![closed(20, 30)]);
    assert_eq!(detect_threshold(&input, number(-0.0)), vec![closed(20, 30)]);
}

#[test]
fn detection_is_repeatable() {
    let input = series(&[(0, 0.1), (10, 0.9), (20, 0.2), (30, 0.7)]);
    let first = detect_threshold(&input, number(0.5));
    let second = detect_threshold(&input, number(0.5));
    assert_eq!(first, second);
    assert_eq!(first, vec![closed(0 + 10, 20), open(30, 30)]);
}

#[test]
fn intervals_of_an_ordered_series_are_proper_and_follow_one_another() {
    let input = series(
        &[(3, 9.0), (4, 0.0), (10, 9.0), (11, 9.0), (17, 0.0), (20, 9.0), (21, 9.0), (30, 9.0)],
    );
    assert!(is_strictly_increasing(&input));
    let found = detect_threshold(&input, number(1.0));
    assert_eq!(found, vec![closed(3, 4), closed(10, 17), open(20, 30)]);
    for (k, interval) in found.iter().enumerate() {
        assert!(interval.from <= interval.to);
        if !interval.open_ended {
            assert!(interval.from < interval.to);
        }
        if k + 1 < found.len() {
            assert!(!interval.open_ended);
            assert!(interval.to < found[k + 1].from);
        }
    }
}

#[test]
fn intervals_hold_the_samples_that_exceed_and_no_other() {
    let samples = [(3, 9.0), (4, 0.0), (10, 9.0), (11, 9.0), (17, 0.0), (20, 9.0), (21, 9.0), (30, 9.0)];
    let input = series(&samples);
    let found = detect_threshold(&input, number(1.0));
    for (t, v) in samples.iter() {
        let held = found
            .iter()
            .any(|i| i.from <= *t && (*t < i.to || (i.open_ended && *t <= i.to)));
        assert_eq!(held, *v > 1.0, "sample at {}", t);
    }
}

#[test]
fn strictly_increasing_timestamps_are_recognised() {
    assert!(is_strictly_increasing(&series(&[])));
    assert!(is_strictly_increasing(&series(&[(7, 0.0)])));
    assert!(is_strictly_increasing(&series(&[(0, 0.0), (1, 0.0), (u64::MAX, 0.0)])));
    assert!(!is_strictly_increasing(&series(&[(0, 0.0), (0, 0.0)])));
    assert!(!is_strictly_increasing(&series(&[(0, 0.0), (5, 0.0), (4, 0.0), (6, 0.0)])));
    assert!(!is_strictly_increasing(&series(&[(1, 0.0), (2, 0.0), (3, 0.0), (3, 0.0)])));
}

#[test]
fn only_the_last_interval_can_be_open_ended() {
    let inputs = [
        series(&[(1, 2.0), (2, 0.0), (3, 2.0), (4, 2.0)]),
        series(&[(1, 2.0), (2, 0.0), (3, 2.0), (4, 0.0)]),
        series(&[(9, 2.0), (2, 0.0), (1, 2.0), (1, 2.0), (0, 2.0)]),
        series(&[(1, 0.0)]),
        series(&[(1, 2.0)]),
    ];
    let last_exceeds = [true, false, true, false, true];
    for (input, expected) in inputs.iter().zip(last_exceeds.iter()) {
        let found = detect_threshold(input, number(1.0));
        for (k, interval) in found.iter().enumerate() {
            if k + 1 < found.len() {
                assert!(!interval.open_ended);
            }
        }
        assert_eq!(found.last().map_or(false, |i| i.open_ended), *expected);
    }
}

#[test]
fn an_unordered_series_is_scanned_in_the_order_given() {
    let input = series(&[(50, 2.0), (40, 0.0), (30, 2.0), (30, 2.0), (10, 0.0), (5, 2.0)]);
    assert!(!is_strictly_increasing(&input));
    assert_eq!(
        detect_threshold(&input, number(1.0)),
        vec![closed(50, 40), closed(30, 10), open(5, 5)]
    );
}
