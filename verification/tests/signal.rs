use indicators::signal::aggregator::{
    ao_vote, cvd_vote, fib_gate, fib_zone, signal_required_len, supertrend_vote, LayerVotes,
    SignalMode, SignalStreak,
};
use indicators::signal::vol_regime::regime_code;

#[test]
fn streak_fires_after_required_consecutive() {
    let mut s = SignalStreak::new(3);
    assert!(!s.update(1));
    assert!(!s.update(1));
    assert!(s.update(1)); // third consecutive → fires
    assert!(s.update(1)); // keeps firing
}

#[test]
fn streak_resets_on_direction_change() {
    let mut s = SignalStreak::new(2);
    assert!(!s.update(1));
    assert!(s.update(1)); // fires
    assert!(!s.update(-1)); // direction changed → resets
    assert!(s.update(-1)); // fires again
}

#[test]
fn streak_zero_signal_breaks_streak() {
    let mut s = SignalStreak::new(2);
    s.update(1);
    s.update(0); // zero resets
    assert!(!s.update(1)); // back to count=1
}

#[test]
fn streak_required_1_fires_immediately() {
    let mut s = SignalStreak::new(1);
    assert!(s.update(1));
    assert!(s.update(-1));
    assert!(!s.update(0));
}

#[test]
fn streak_tracks_direction_and_count() {
    let mut s = SignalStreak::new(3);
    s.update(1);
    s.update(1);
    assert_eq!(s.current_direction(), 1);
    assert_eq!(s.current_count(), 2);
    s.update(-1);
    assert_eq!(s.current_direction(), -1);
    assert_eq!(s.current_count(), 1);
}

#[test]
fn streak_reset_clears_state() {
    let mut s = SignalStreak::new(2);
    s.update(1);
    s.update(1);
    s.reset();
    assert_eq!(s.current_count(), 0);
    assert_eq!(s.current_direction(), 0);
    assert!(!s.update(1)); // must rebuild from zero
}

#[test]
fn streak_required_zero_fires_on_any_nonzero() {
    let mut s = SignalStreak::new(0);
    assert!(s.update(-1));
    assert!(!s.update(0));
    assert_eq!(s.current_count(), 0);
}

#[test]
fn streak_count_is_trailing_run() {
    let mut s = SignalStreak::new(4);
    for sig in [1, 1, -1, -1, -1, 0, 1, 1] {
        s.update(sig);
    }
    assert_eq!(s.current_direction(), 1);
    assert_eq!(s.current_count(), 2);
}

#[test]
fn streak_confirm_passes_only_confirmed_signals() {
    let mut s = SignalStreak::new(2);
    assert_eq!(s.confirm(-1), 0);
    assert_eq!(s.confirm(-1), -1);
    assert_eq!(s.confirm(1), 0);
}

fn bullish_core() -> LayerVotes {
    LayerVotes {
        vwap: 1,
        ema: 1,
        supertrend: -1,
        trend_speed: 1,
        liquidity: -1,
        conf_bull: -1,
        conf_bear: -1,
        structure: 0,
        cvd: 0,
        ao: 0,
        hurst: 0,
        accel_bull: 0,
        accel_bear: 0,
        fib_ok_long: false,
        fib_ok_short: false,
        wave_ok_long: false,
        wave_ok_short: false,
        mom_ok_long: false,
        mom_ok_short: false,
    }
}

#[test]
fn any_mode_needs_only_core_layers() {
    let v = bullish_core();
    assert_eq!(v.combine(SignalMode::Any), 1);
    assert_eq!(v.combine(SignalMode::Majority), 0);
    assert_eq!(v.combine(SignalMode::Strict), 0);
}

#[test]
fn majority_needs_two_extended_confirmations() {
    let mut v = bullish_core();
    v.cvd = 1;
    assert_eq!(v.combine(SignalMode::Majority), 0);
    v.wave_ok_long = true;
    assert_eq!(v.combine(SignalMode::Majority), 1);
}

fn fully_bullish() -> LayerVotes {
    let mut v = bullish_core();
    v.liquidity = 1;
    v.conf_bull = 1;
    v.structure = 1;
    v.fib_ok_long = true;
    v.ao = 1;
    v.hurst = 1;
    v.accel_bull = 1;
    v.wave_ok_long = true;
    v.mom_ok_long = true;
    v
}

#[test]
fn strict_needs_every_layer() {
    let v = fully_bullish();
    assert_eq!(v.combine(SignalMode::Strict), 1);
    let mut w = v;
    w.cvd = -1;
    assert_eq!(w.combine(SignalMode::Strict), 0);
    assert_eq!(w.combine(SignalMode::Majority), 1);
}

#[test]
fn strict_refuses_any_disagreeing_extended_layer() {
    let v = fully_bullish();
    let mut bearish_ao = v;
    bearish_ao.ao = -1;
    assert_eq!(bearish_ao.combine(SignalMode::Strict), 0);
    let mut neutral_hurst = v;
    neutral_hurst.hurst = 0;
    assert_eq!(neutral_hurst.combine(SignalMode::Strict), 0);
    let mut no_accel = v;
    no_accel.accel_bull = 0;
    assert_eq!(no_accel.combine(SignalMode::Strict), 0);
    let mut no_wave = v;
    no_wave.wave_ok_long = false;
    assert_eq!(no_wave.combine(SignalMode::Strict), 0);
    let mut no_mom = v;
    no_mom.mom_ok_long = false;
    assert_eq!(no_mom.combine(SignalMode::Strict), 0);
    for w in [bearish_ao, neutral_hurst, no_accel, no_wave, no_mom] {
        assert_eq!(w.combine(SignalMode::Majority), 1);
    }
}

#[test]
fn bearish_core_gives_short() {
    let v = LayerVotes {
        vwap: -1,
        ema: -1,
        supertrend: 1,
        trend_speed: -1,
        liquidity: -1,
        conf_bull: -1,
        conf_bear: 1,
        structure: -1,
        cvd: -1,
        ao: -1,
        hurst: 1,
        accel_bull: -1,
        accel_bear: 1,
        fib_ok_long: false,
        fib_ok_short: true,
        wave_ok_long: false,
        wave_ok_short: true,
        mom_ok_long: false,
        mom_ok_short: true,
    };
    assert_eq!(v.combine(SignalMode::Strict), -1);
    assert_eq!(v.combine(SignalMode::Majority), -1);
    assert_eq!(v.combine(SignalMode::Any), -1);
    assert_eq!(v.sides(SignalMode::Any), (false, true));
}

#[test]
fn mode_names() {
    assert_eq!(SignalMode::from_name("strict"), SignalMode::Strict);
    assert_eq!(SignalMode::from_name("majority"), SignalMode::Majority);
    assert_eq!(SignalMode::from_name("any"), SignalMode::Any);
    assert_eq!(SignalMode::from_name("Majority"), SignalMode::Any);
}

#[test]
fn individual_votes() {
    assert_eq!(supertrend_vote(-1), -1);
    assert_eq!(supertrend_vote(1), 1);
    assert_eq!(supertrend_vote(0), 1);
    assert_eq!(cvd_vote(None), 0);
    assert_eq!(cvd_vote(Some((-1, true))), -1);
    assert_eq!(cvd_vote(Some((0, true))), 1);
    assert_eq!(cvd_vote(Some((0, false))), -1);
    assert_eq!(ao_vote(33, true), 0);
    assert_eq!(ao_vote(34, true), 1);
    assert_eq!(ao_vote(40, false), -1);
    assert!(fib_gate(false, false, true));
    assert!(fib_gate(true, false, false));
    assert!(!fib_gate(true, false, true));
    assert_eq!(fib_zone(true, true), "discount");
    assert_eq!(fib_zone(false, true), "premium");
    assert_eq!(fib_zone(false, false), "mid");
}

#[test]
fn pipeline_warm_up_is_largest_requirement() {
    assert_eq!(signal_required_len(100, 55, 50, 20, 5), 100);
    assert_eq!(signal_required_len(10, 55, 50, 20, 5), 56);
    assert_eq!(signal_required_len(10, 5, 50, 20, 12), 58);
}

#[test]
fn volatility_regime_codes() {
    assert_eq!(regime_code("VERY LOW"), 0);
    assert_eq!(regime_code("LOW"), 1);
    assert_eq!(regime_code("MED"), 2);
    assert_eq!(regime_code("HIGH"), 3);
    assert_eq!(regime_code("VERY HIGH"), 4);
}
