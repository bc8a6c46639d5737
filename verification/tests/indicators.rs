use std::collections::HashMap;

use indicators::error::{check_len, IndicatorError};
use indicators::indicator::PriceColumn;
use indicators::momentum::{Rsi, SchaffTrendCycle, Stochastic, StochasticRsi, WilliamsR};
use indicators::regime::{AdxIndicator, AtrPrimIndicator, EmaPrimIndicator, RsiPrimIndicator};
use indicators::signal::{CvdIndicator, LiquidityIndicator, VolumeRegime};
use indicators::trend::{Atr, AtrMethod, LinearRegression, Macd, Sma, Wma};
use indicators::volatility::market_cycle::{cycle_phases, CyclePhase};
use indicators::volatility::{ChoppinessIndex, ElderRayIndex, MarketCycle};
use indicators::volume::{Adl, ChaikinMoneyFlow, VolumeZoneOscillator, Vwap};

fn params(pairs: &[(&str, &str)]) -> HashMap<String, String> {
    pairs.iter().map(|(k, v)| (k.to_string(), v.to_string())).collect()
}

#[test]
fn sma_output_key() {
    let sma = Sma::with_period(20);
    assert_eq!(sma.output_key(), "SMA_20");
}

#[test]
fn factory_creates_sma() {
    let ind = Sma::from_params(&params(&[("period", "10")])).unwrap();
    assert_eq!(ind.name(), "SMA");
    assert_eq!(ind.required_len(), 10);
}

#[test]
fn factory_creates_wma() {
    assert_eq!(Wma::from_params(&params(&[("period", "10")])).unwrap().name(), "WMA");
}

#[test]
fn factory_creates_atr() {
    let ind = Atr::from_params(&params(&[("period", "14"), ("method", "ema")])).unwrap();
    assert_eq!(ind.name(), "ATR");
    assert_eq!(ind.params.method, AtrMethod::Ema);
}

#[test]
fn factory_creates_macd() {
    let ind = Macd::from_params(&HashMap::new()).unwrap();
    assert_eq!(ind.name(), "MACD");
}

#[test]
fn factory_creates_lr() {
    assert_eq!(LinearRegression::from_params(&HashMap::new()).unwrap().name(), "LinearRegression");
}

#[test]
fn factory_creates_rsi() {
    let ind = Rsi::from_params(&HashMap::new()).unwrap();
    assert_eq!(ind.name(), "RSI");
    assert_eq!(ind.required_len(), 15);
}

#[test]
fn factory_creates_stc() {
    assert_eq!(SchaffTrendCycle::from_params(&HashMap::new()).unwrap().name(), "SchaffTrendCycle");
}

#[test]
fn factory_creates_stochastic() {
    let ind = Stochastic::from_params(&HashMap::new()).unwrap();
    assert_eq!(ind.name(), "Stochastic");
}

#[test]
fn factory_creates_stochrsi() {
    let ind = StochasticRsi::from_params(&HashMap::new()).unwrap();
    assert_eq!(ind.name(), "StochasticRSI");
}

#[test]
fn factory_creates_wr() {
    assert_eq!(WilliamsR::from_params(&HashMap::new()).unwrap().name(), "WilliamsR");
}

#[test]
fn factory_creates_chop() {
    assert_eq!(ChoppinessIndex::from_params(&HashMap::new()).unwrap().name(), "ChoppinessIndex");
}

#[test]
fn factory_creates_elder_ray() {
    assert_eq!(ElderRayIndex::from_params(&HashMap::new()).unwrap().name(), "ElderRayIndex");
}

#[test]
fn factory_creates_market_cycle() {
    assert_eq!(MarketCycle::from_params(&HashMap::new()).unwrap().name(), "MarketCycle");
}

#[test]
fn factory_creates_cmf() {
    assert_eq!(ChaikinMoneyFlow::from_params(&HashMap::new()).unwrap().name(), "ChaikinMoneyFlow");
}

#[test]
fn factory_creates_adl() {
    let ind = Adl::new();
    assert_eq!(ind.name(), "ADL");
}

#[test]
fn factory_default_is_cumulative() {
    let ind = Vwap::from_params(&HashMap::new()).unwrap();
    assert_eq!(ind.name(), "VWAP");
    assert_eq!(ind.params.period, None);
}

fn phase_signs(closes: &[f64], lag: usize) -> Vec<i8> {
    (0..closes.len())
        .map(|i| {
            if i < lag {
                0
            } else {
                let m = closes[i] - closes[i - lag];
                if m > 0.0 {
                    1
                } else if m < 0.0 {
                    -1
                } else {
                    0
                }
            }
        })
        .collect()
}

#[test]
fn rising_prices_give_markup() {
    let closes = vec![1.0, 2.0, 3.0, 4.0, 5.0];
    let lag = MarketCycle::default().params.momentum_period;
    let vals = cycle_phases(&phase_signs(&closes, lag), lag);
    assert_eq!(vals[1], CyclePhase::Markup);
    assert_eq!(f64::from(vals[1].code()) / 2.0, 1.0);
}

#[test]
fn falling_after_rising_gives_distribution() {
    let closes = vec![1.0, 2.0, 3.0, 2.0];
    let lag = MarketCycle::default().params.momentum_period;
    let vals = cycle_phases(&phase_signs(&closes, lag), lag);
    assert_eq!(vals[3], CyclePhase::Distribution);
    assert_eq!(f64::from(vals[3].code()) / 2.0, -0.5);
}

#[test]
fn cycle_codes_follow_documented_encoding() {
    let closes = vec![1.0, 2.0, 3.0, 2.0];
    let lag = MarketCycle::default().params.momentum_period;
    let out: Vec<f64> = cycle_phases(&phase_signs(&closes, lag), lag)
        .into_iter()
        .map(|p| f64::from(p.code()) / 2.0)
        .collect();
    assert_eq!(out, vec![0.0, 1.0, 1.0, -0.5]);
    assert_eq!(CyclePhase::Markdown.code(), -2);
    assert_eq!(CyclePhase::Plateau.code(), 0);
    assert_eq!(CyclePhase::Accumulation.code(), 1);
}

#[test]
fn rising_after_falling_gives_accumulation() {
    let vals = cycle_phases(&vec![0, -1, -1, 1, 1, 0], 1);
    assert_eq!(
        vals,
        vec![
            CyclePhase::Plateau,
            CyclePhase::Markdown,
            CyclePhase::Markdown,
            CyclePhase::Accumulation,
            CyclePhase::Markup,
            CyclePhase::Distribution,
        ]
    );
}

#[test]
fn output_keys_carry_the_period() {
    assert_eq!(Rsi::with_period(7).output_key(), "RSI_7");
    assert_eq!(Wma::with_period(0).output_key(), "WMA_0");
    assert_eq!(Atr::with_period(14).output_key(), "ATR_14");
    assert_eq!(Atr::with_period(14).norm_key(), "ATR_14_normalized");
    assert_eq!(LinearRegression::with_period(14).output_key(), "LR_slope_14");
    assert_eq!(WilliamsR::with_period(21).output_key(), "WR_21");
    assert_eq!(ChoppinessIndex::with_period(14).output_key(), "CHOP_14");
    assert_eq!(ChaikinMoneyFlow::with_period(20).output_key(), "CMF_20");
    assert_eq!(Vwap::cumulative().output_key(), "VWAP");
    assert_eq!(Vwap::rolling(3).output_key(), "VWAP_3");
    assert_eq!(VolumeZoneOscillator::new(123456789).output_key(), "vzo_123456789");
}

#[test]
fn required_lengths() {
    assert_eq!(Stochastic::default().required_len(), 18);
    assert_eq!(StochasticRsi::default().required_len(), 33);
    assert_eq!(SchaffTrendCycle::default().required_len(), 26);
    assert_eq!(Macd::default().required_len(), 35);
    assert_eq!(Vwap::cumulative().required_len(), 1);
    assert_eq!(Vwap::rolling(5).required_len(), 5);
    assert_eq!(VolumeZoneOscillator::new(14).required_len(), 15);
    assert_eq!(MarketCycle::default().required_len(), 2);
    assert_eq!(AdxIndicator::new(14).required_len(), 28);
    assert_eq!(AtrPrimIndicator::new(14).required_len(), 15);
    assert_eq!(EmaPrimIndicator::new(9).required_len(), 9);
    assert_eq!(RsiPrimIndicator::new(14).required_len(), 15);
    assert_eq!(CvdIndicator::new(Default::default()).required_len(), 21);
    assert_eq!(LiquidityIndicator::with_defaults().required_len(), 50);
    assert_eq!(VolumeRegime::with_defaults().required_len(), 15);
}

#[test]
fn column_parameter_selects_field() {
    let sma = Sma::from_params(&params(&[("column", "volume")])).unwrap();
    assert_eq!(sma.params.column, PriceColumn::Volume);
    assert_eq!(sma.params.period, 20);
    let wma = Wma::from_params(&params(&[("column", "volume")])).unwrap();
    assert_eq!(wma.params.column, PriceColumn::Close);
    let rsi = Rsi::from_params(&params(&[("column", "high")])).unwrap();
    assert_eq!(rsi.params.column, PriceColumn::High);
    assert_eq!(PriceColumn::from_param("hl2", true), PriceColumn::Close);
    assert_eq!(PriceColumn::TypicalPrice.as_str(), "typical_price");
    assert_eq!(PriceColumn::default(), PriceColumn::Close);
}

#[test]
fn first_malformed_parameter_is_reported() {
    let bad = params(&[("smooth_k", "x"), ("d_period", "y")]);
    match Stochastic::from_params(&bad) {
        Err(IndicatorError::InvalidParameter { name, value }) => {
            assert_eq!(name, "smooth_k");
            assert_eq!(value, "x");
        }
        _ => panic!("expected smooth_k to be reported"),
    }
    assert!(Vwap::from_params(&params(&[("period", "")])).is_err());
    assert_eq!(Vwap::from_params(&params(&[("period", "7")])).unwrap().params.period, Some(7));
    let zero = Vwap::from_params(&params(&[("period", "0")])).unwrap();
    assert_eq!(zero.params.period, None);
    assert_eq!(zero.required_len(), 1);
    assert_eq!(zero.output_key(), "VWAP");
}

#[test]
fn check_len_reports_shortfall() {
    assert_eq!(check_len(5, 5), Ok(()));
    assert_eq!(
        check_len(2, 5),
        Err(IndicatorError::InsufficientData { required: 5, available: 2 })
    );
    let e = IndicatorError::InsufficientData { required: 5, available: 2 };
    assert_eq!(e.message(), "Insufficient data: required 5 candles, but only 2 available");
    let u = IndicatorError::UnknownIndicator { name: "foo".into() };
    assert_eq!(u.message(), "Unknown indicator: 'foo'");
}
