use ai_engine::config::Config;
use ai_engine::errors::CoreError;

// A strictly positive interval and a risk bound within [0, 1] validate.
#[test]
fn valid_configuration_passes() {
    let config = Config {
        detection_interval_ms: 1_000,
        min_profit_threshold_micro: 1_000,
        max_risk_score_micro: 700_000,
    };
    assert_eq!(config.validate(), Ok(()));
}

// A non-positive detection interval is fatal at startup.
#[test]
fn zero_interval_is_rejected() {
    let config = Config {
        detection_interval_ms: 0,
        min_profit_threshold_micro: 1_000,
        max_risk_score_micro: 700_000,
    };
    assert_eq!(config.validate(), Err(CoreError::ConfigurationInvalid));
}

// A risk bound above one unit is out of range and fatal at startup.
#[test]
fn out_of_range_risk_bound_is_rejected() {
    let config = Config {
        detection_interval_ms: 1_000,
        min_profit_threshold_micro: 1_000,
        max_risk_score_micro: 1_000_001,
    };
    assert_eq!(config.validate(), Err(CoreError::ConfigurationInvalid));
}

// The boundary values themselves are admissible: a one-millisecond
// interval and a risk bound of exactly one unit.
#[test]
fn boundary_values_are_admissible() {
    let config = Config {
        detection_interval_ms: 1,
        min_profit_threshold_micro: 0,
        max_risk_score_micro: 1_000_000,
    };
    assert_eq!(config.validate(), Ok(()));
}
