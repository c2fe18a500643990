use ai_engine::model::{MarketData, RawOpportunity};
use ai_engine::risk::RiskScorer;

fn quote(exchange: &str, pair: &str, price_micro: u64) -> MarketData {
    MarketData {
        exchange: String::from(exchange),
        pair: String::from(pair),
        price_micro,
        volume_micro: 0,
        liquidity_micro: 0,
        timestamp_ms: 1_700_000_000_000,
    }
}

fn candidate(margin_micro: u64, net_micro: u64, liquidity_score_micro: u64) -> RawOpportunity {
    RawOpportunity {
        pair: String::from("X/Y"),
        buy_exchange: String::from("A"),
        buy_price_micro: 100_000_000,
        sell_exchange: String::from("B"),
        sell_price_micro: 101_000_000,
        profit_margin_micro: margin_micro,
        net_profit_micro: net_micro,
        ai_score_micro: 500_000,
        liquidity_score_micro,
        estimated_gas_micro: 50_000,
    }
}

// A margin of 0.01 falls in the medium profit band (0.5); a liquidity
// score of 0.8 gives 0.2; a 30% normalized price range gives 0.3; a fee of
// 0.05 dollars against one dollar of net profit gives 0.05. The score is
// their mean: (0.5 + 0.2 + 0.3 + 0.05) / 4 = 0.2625.
#[test]
fn scenario_score_is_mean_of_four_factors() {
    let scorer = RiskScorer::new();
    let opp = candidate(10_000, 1_000_000, 800_000);
    let context = vec![
        quote("A", "X/Y", 1_000_000),
        quote("B", "X/Y", 700_000),
    ];
    let risk = scorer.calculate_risk(&opp, &context);
    assert_eq!(risk, 262_500);
}

// Identical inputs give an identical score, bit for bit.
#[test]
fn scoring_is_deterministic() {
    let scorer = RiskScorer::new();
    let opp = candidate(10_000, 1_000_000, 800_000);
    let context = vec![
        quote("A", "X/Y", 1_000_000),
        quote("B", "X/Y", 700_000),
    ];
    let first = scorer.calculate_risk(&opp, &context);
    let second = scorer.calculate_risk(&opp, &context);
    assert_eq!(first, second);
    let again = RiskScorer::new().calculate_risk(&opp, &context);
    assert_eq!(first, again);
}

// Even when every factor is pushed to its worst value, the score stays
// within [0, 1]: the fee factor is capped before averaging.
#[test]
fn score_stays_within_unit_interval() {
    let scorer = RiskScorer::new();
    // Margin in the high band, zero liquidity score, near-total price
    // dispersion, and a fee that dwarfs the floored net profit.
    let opp = candidate(100, 1, 0);
    let context = vec![
        quote("A", "X/Y", 1),
        quote("B", "X/Y", 1_000_000_000),
    ];
    let risk = scorer.calculate_risk(&opp, &context);
    assert!(risk <= 1_000_000);
    // high band 0.8 + liquidity 1.0 + range 0.999999 + capped fee 1.0,
    // averaged and rounded down.
    assert_eq!(risk, 949_999);
}

// A margin of exactly the mid cutoff (0.01) still counts as medium, not
// low: with every other factor zeroed out the mean is 0.5 / 4.
#[test]
fn mid_cutoff_margin_is_medium_band() {
    let scorer = RiskScorer::new();
    let opp = candidate(10_000, 1_000_000_000, 1_000_000);
    // A single quote for the pair: no dispersion measurement.
    let context = vec![quote("A", "X/Y", 100_000_000)];
    let risk = scorer.calculate_risk(&opp, &context);
    // profit 0.5, liquidity 0, volatility 0, fee 0.05/1000 = 0.00005;
    // (500000 + 0 + 0 + 50) / 4.
    assert_eq!(risk, 125_012);
}

// Margins above the mid cutoff fall in the low band.
#[test]
fn above_mid_cutoff_margin_is_low_band() {
    let scorer = RiskScorer::new();
    let opp = candidate(10_001, 1_000_000_000, 1_000_000);
    let context = vec![quote("A", "X/Y", 100_000_000)];
    let risk = scorer.calculate_risk(&opp, &context);
    // (200000 + 0 + 0 + 50) / 4.
    assert_eq!(risk, 50_012);
}

// A pair with fewer than two quotes in the context has zero volatility
// risk; the other factors are unchanged.
#[test]
fn volatility_needs_two_quotes() {
    let scorer = RiskScorer::new();
    let opp = candidate(10_000, 1_000_000, 800_000);
    let context = vec![quote("A", "X/Y", 1_000_000)];
    let risk = scorer.calculate_risk(&opp, &context);
    // (0.5 + 0.2 + 0.0 + 0.05) / 4
    assert_eq!(risk, 187_500);
}

// Quotes of other pairs do not enter the dispersion measurement.
#[test]
fn volatility_ignores_other_pairs() {
    let scorer = RiskScorer::new();
    let opp = candidate(10_000, 1_000_000, 800_000);
    let context = vec![
        quote("A", "X/Y", 1_000_000),
        quote("B", "X/Y", 700_000),
        quote("C", "U/V", 1),
        quote("D", "U/V", 900_000_000),
    ];
    let risk = scorer.calculate_risk(&opp, &context);
    assert_eq!(risk, 262_500);
}

// The fee factor divides by a floored net profit, so a near-zero net
// profit cannot blow the ratio up past the cap.
#[test]
fn fee_factor_uses_floored_net_profit() {
    let scorer = RiskScorer::new();
    let opp = candidate(20_000, 5_000, 1_000_000);
    let context = vec![quote("A", "X/Y", 100_000_000)];
    let risk = scorer.calculate_risk(&opp, &context);
    // fee = 0.05 / max(0.005, 0.01) = 5.0, capped at 1.0;
    // (0.2 + 0.0 + 0.0 + 1.0) / 4 = 0.3.
    assert_eq!(risk, 300_000);
}
