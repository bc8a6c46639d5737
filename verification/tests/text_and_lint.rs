use indicators::lint::{badge, count_diagnostics, output_block, overall_status};
use indicators::text::{decimal_string, parse_usize, tagged_number, to_ascii_lowercase};
use indicators::types::{MarketRegime, RecommendedStrategy, TrendDirection};

#[test]
fn decimal_rendering_and_parsing() {
    assert_eq!(decimal_string(0), "0");
    assert_eq!(decimal_string(u64::MAX), u64::MAX.to_string());
    assert_eq!(tagged_number("SMA_", 20), "SMA_20");
    assert_eq!(parse_usize("42"), Some(42));
    assert_eq!(parse_usize("+42"), Some(42));
    assert_eq!(parse_usize("-42"), None);
    assert_eq!(parse_usize("4 2"), None);
    assert_eq!(parse_usize(""), None);
    for n in [0usize, 7, 10, 99, 12345, usize::MAX] {
        assert_eq!(parse_usize(&decimal_string(n as u64)), Some(n));
        assert_eq!(parse_usize(&n.to_string()), n.to_string().parse::<usize>().ok());
    }
}

#[test]
fn ascii_lowercase() {
    assert_eq!(to_ascii_lowercase("BollingerBands"), "bollingerbands");
    assert_eq!(to_ascii_lowercase("ÄBC"), "Äbc");
}

#[test]
fn diagnostics_are_counted_per_line() {
    let out = "error[E0308]: mismatched types\n  warning: unused variable\nerror: could not compile `x`\nerror: aborting due to 1 previous error\nwarning: build failed\n   error: something\nnote: fine\n";
    assert_eq!(count_diagnostics(out), (2, 1));
    assert_eq!(count_diagnostics(""), (0, 0));
    assert_eq!(count_diagnostics("warning[unused]: x"), (0, 1));
}

#[test]
fn report_badges() {
    assert_eq!(badge(true, 3), "✅ Pass");
    assert_eq!(badge(false, 3), "❌ 3 error(s)");
    assert_eq!(badge(false, 0), "❌ Fail");
    assert_eq!(overall_status(&vec![true, true]), "✅ All checks passed");
    assert_eq!(overall_status(&vec![true, false]), "❌ One or more checks failed");
    assert_eq!(output_block("  \n"), "No output.");
    assert_eq!(output_block("\n ok \n"), "ok");
}

#[test]
fn regime_strategy_table() {
    let bull = MarketRegime::Trending(TrendDirection::Bullish);
    assert!(bull.is_tradeable());
    assert!(MarketRegime::MeanReverting.is_tradeable());
    assert!(!MarketRegime::Volatile.is_tradeable());
    assert!(!MarketRegime::default().is_tradeable());
    assert_eq!(bull.recommended_strategy(), RecommendedStrategy::TrendFollowing);
    assert_eq!(MarketRegime::MeanReverting.recommended_strategy(), RecommendedStrategy::MeanReversion);
    assert_eq!(MarketRegime::Volatile.recommended_strategy(), RecommendedStrategy::ReducedExposure);
    assert_eq!(MarketRegime::Uncertain.recommended_strategy(), RecommendedStrategy::StayCash);
    assert_eq!(bull.label(), "Trending (Bullish)");
    assert_eq!(MarketRegime::Volatile.label(), "Volatile/Choppy");
    assert_eq!(RecommendedStrategy::StayCash.label(), "Stay Cash");
    assert_eq!(TrendDirection::Bearish.label(), "Bearish");
}
