use std::collections::HashMap;

use indicators::error::IndicatorError;
use indicators::registry::{param_present, param_str, param_usize, Registry};

type DummyFactory = fn(&HashMap<String, String>) -> Result<u32, IndicatorError>;

fn dummy_factory(_p: &HashMap<String, String>) -> Result<u32, IndicatorError> {
    Err(IndicatorError::UnknownIndicator { name: "dummy".into() })
}

fn other_factory(_p: &HashMap<String, String>) -> Result<u32, IndicatorError> {
    Ok(7)
}

#[test]
fn registry_register_and_list() {
    let mut reg: Registry<DummyFactory> = Registry::new();
    reg.register("sma", dummy_factory);
    reg.register("ema", dummy_factory);
    let mut names = reg.list();
    names.sort();
    assert_eq!(names, vec!["ema", "sma"]);
}

#[test]
fn registry_unknown_returns_error() {
    let reg: Registry<DummyFactory> = Registry::new();
    let err = reg
        .factory_for("no_such_indicator")
        .and_then(|f| f(&HashMap::new()))
        .unwrap_err();
    assert!(matches!(err, IndicatorError::UnknownIndicator { .. }));
}

#[test]
fn param_usize_default() {
    let params = HashMap::new();
    assert_eq!(param_usize(&params, "period", 14).unwrap(), 14);
}

#[test]
fn param_usize_override() {
    let params = [("period".to_string(), "20".to_string())].into();
    assert_eq!(param_usize(&params, "period", 14).unwrap(), 20);
}

#[test]
fn param_usize_bad_value() {
    let params = [("period".to_string(), "abc".to_string())].into();
    assert!(param_usize(&params, "period", 14).is_err());
}

#[test]
fn param_usize_bad_value_reports_key_and_text() {
    let params = [("period".to_string(), "-3".to_string())].into();
    assert_eq!(
        param_usize(&params, "period", 14),
        Err(IndicatorError::InvalidParameter { name: "period".into(), value: "-3".into() })
    );
}

#[test]
fn param_usize_accepts_plus_and_leading_zeros() {
    let params = [("period".to_string(), "+007".to_string())].into();
    assert_eq!(param_usize(&params, "period", 14).unwrap(), 7);
}

#[test]
fn param_usize_rejects_empty_and_overflow() {
    let empty = [("period".to_string(), "".to_string())].into();
    assert!(param_usize(&empty, "period", 14).is_err());
    let plus = [("period".to_string(), "+".to_string())].into();
    assert!(param_usize(&plus, "period", 14).is_err());
    let huge = [("period".to_string(), "99999999999999999999999".to_string())].into();
    assert!(param_usize(&huge, "period", 14).is_err());
    let max = [("period".to_string(), usize::MAX.to_string())].into();
    assert_eq!(param_usize(&max, "period", 14).unwrap(), usize::MAX);
}

#[test]
fn param_str_falls_back_to_default() {
    let params: HashMap<String, String> = [("column".to_string(), "high".to_string())].into();
    assert_eq!(param_str(&params, "column", "close"), "high");
    assert_eq!(param_str(&params, "method", "sma"), "sma");
    assert!(param_present(&params, "column"));
    assert!(!param_present(&params, "period"));
}

#[test]
fn registry_names_are_case_insensitive() {
    let mut reg: Registry<DummyFactory> = Registry::new();
    reg.register("BollingerBands", dummy_factory);
    assert!(reg.contains("bollingerbands"));
    assert!(reg.contains("BOLLINGERBANDS"));
    assert_eq!(reg.list(), vec!["bollingerbands"]);
    assert!(!reg.contains("bollinger"));
}

#[test]
fn registry_read_after_write_replaces() {
    let mut reg: Registry<DummyFactory> = Registry::new();
    reg.register("rsi", dummy_factory);
    reg.register("RSI", other_factory);
    assert_eq!(reg.len(), 1);
    let f = reg.get("Rsi").unwrap();
    assert_eq!(f(&HashMap::new()).unwrap(), 7);
}

#[test]
fn registry_unknown_error_keeps_given_name() {
    let reg: Registry<DummyFactory> = Registry::new();
    match reg.factory_for("NoSuch") {
        Err(IndicatorError::UnknownIndicator { name }) => assert_eq!(name, "NoSuch"),
        _ => panic!("expected an unknown-indicator error"),
    }
}
