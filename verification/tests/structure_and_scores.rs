use indicators::signal::schedule::{accel_ready, centroids_due, hurst_due, supertrend_ready};
use indicators::signal::confluence::{confluence_score_halves, grade_halves};
use indicators::signal::structure::{structure_break, structure_window, BreakOutcome};
use indicators::signal::vol_regime::{regime_code, volatility_band, VolBand};

#[test]
fn first_high_break_is_change_of_character() {
    let o = structure_break(0, 0, true, false);
    assert_eq!(
        o,
        BreakOutcome { bos: false, choch: true, choch_dir: 1, bias: 1, fib_dir: 1 }
    );
}

#[test]
fn high_break_in_uptrend_is_break_of_structure() {
    let o = structure_break(1, 1, true, false);
    assert!(o.bos);
    assert!(!o.choch);
    assert_eq!(o.choch_dir, 0);
    assert_eq!(o.bias, 1);
}

#[test]
fn low_break_in_uptrend_turns_bias_down() {
    let o = structure_break(1, 1, false, true);
    assert!(o.choch);
    assert!(!o.bos);
    assert_eq!(o.choch_dir, -1);
    assert_eq!(o.bias, -1);
    assert_eq!(o.fib_dir, -1);
}

#[test]
fn low_break_in_downtrend_is_break_of_structure() {
    let o = structure_break(-1, -1, false, true);
    assert!(o.bos);
    assert!(!o.choch);
    assert_eq!(o.bias, -1);
}

#[test]
fn both_breaks_on_one_bar_end_bearish() {
    // From a bearish bias the high break is a change of character, the low
    // break that follows is another one; the low break is applied last.
    let o = structure_break(-1, -1, true, true);
    assert!(o.choch);
    assert!(!o.bos);
    assert_eq!(o.choch_dir, -1);
    assert_eq!(o.bias, -1);
    assert_eq!(o.fib_dir, -1);
    // From a bullish bias: break of structure up, then change of character down.
    let o = structure_break(1, 1, true, true);
    assert!(o.bos);
    assert!(o.choch);
    assert_eq!(o.choch_dir, -1);
    assert_eq!(o.bias, -1);
}

#[test]
fn quiet_bar_keeps_structure() {
    let o = structure_break(1, -1, false, false);
    assert_eq!(
        o,
        BreakOutcome { bos: false, choch: false, choch_dir: 0, bias: 1, fib_dir: -1 }
    );
}

#[test]
fn structure_window_size() {
    assert_eq!(structure_window(5), 30);
    assert_eq!(structure_window(0), 10);
}

#[test]
fn confluence_scores_in_half_points() {
    assert_eq!(confluence_score_halves(&[false; 7], false), 0);
    assert_eq!(confluence_score_halves(&[true; 7], true), 15);
    assert_eq!(
        confluence_score_halves(&[true, false, true, false, false, false, true], true),
        7
    );
    assert_eq!(
        confluence_score_halves(&[true, true, true, true, false, false, false], false),
        8
    );
}

#[test]
fn confluence_grades() {
    assert_eq!(grade_halves(16), "A+");
    assert_eq!(grade_halves(15), "A");
    assert_eq!(grade_halves(13), "A");
    assert_eq!(grade_halves(12), "B");
    assert_eq!(grade_halves(10), "B");
    assert_eq!(grade_halves(9), "C");
    assert_eq!(grade_halves(0), "C");
}

#[test]
fn volatility_bands_by_share_below() {
    assert_eq!(volatility_band(80, 100), VolBand::VeryHigh);
    assert_eq!(volatility_band(79, 100), VolBand::High);
    assert_eq!(volatility_band(60, 100), VolBand::High);
    assert_eq!(volatility_band(59, 100), VolBand::Med);
    assert_eq!(volatility_band(41, 100), VolBand::Med);
    assert_eq!(volatility_band(40, 100), VolBand::Low);
    assert_eq!(volatility_band(21, 100), VolBand::Low);
    assert_eq!(volatility_band(20, 100), VolBand::VeryLow);
    assert_eq!(volatility_band(0, 1), VolBand::VeryLow);
    assert_eq!(volatility_band(1, 1), VolBand::VeryHigh);
}

#[test]
fn volatility_band_labels_and_codes() {
    let bands = [
        (VolBand::VeryLow, "VERY LOW", 0u8),
        (VolBand::Low, "LOW", 1),
        (VolBand::Med, "MED", 2),
        (VolBand::High, "HIGH", 3),
        (VolBand::VeryHigh, "VERY HIGH", 4),
    ];
    for (band, label, code) in bands {
        assert_eq!(band.label(), label);
        assert_eq!(regime_code(band.label()), code);
    }
}

#[test]
fn engine_schedule_decisions() {
    assert!(!supertrend_ready(99, 100));
    assert!(supertrend_ready(100, 100));
    assert!(!accel_ready(6));
    assert!(accel_ready(7));
    assert!(centroids_due(false, 0, 0, 10));
    assert!(!centroids_due(true, 109, 100, 10));
    assert!(centroids_due(true, 110, 100, 10));
    assert!(!hurst_due(40, 20, 500, 0, 10));
    assert!(hurst_due(41, 20, 10, 0, 10));
    assert!(!hurst_due(41, 20, 19, 10, 10));
}
