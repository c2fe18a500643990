use ai_engine::detector::OpportunityDetector;
use ai_engine::model::MarketData;

fn quote(exchange: &str, pair: &str, price_micro: u64, volume_micro: u64, liquidity_micro: u64) -> MarketData {
    MarketData {
        exchange: String::from(exchange),
        pair: String::from(pair),
        price_micro,
        volume_micro,
        liquidity_micro,
        timestamp_ms: 1_700_000_000_000,
    }
}

// Two quotes of the same pair from two exchanges, one price step apart:
// exactly one candidate, buying low and selling high, with the liquidity
// scale saturated and the confidence score capped at one unit.
#[test]
fn scenario_two_exchanges_one_candidate() {
    let detector = OpportunityDetector::new();
    let snapshots = vec![
        quote("A", "X/Y", 100_000_000, 2_000_000_000_000, 200_000_000_000),
        quote("B", "X/Y", 101_000_000, 2_000_000_000_000, 200_000_000_000),
    ];
    let raws = detector.detect(&snapshots);
    assert_eq!(raws.len(), 1);
    let r = &raws[0];
    assert_eq!(r.pair, "X/Y");
    assert_eq!(r.buy_exchange, "A");
    assert_eq!(r.buy_price_micro, 100_000_000);
    assert_eq!(r.sell_exchange, "B");
    assert_eq!(r.sell_price_micro, 101_000_000);
    assert_eq!(r.profit_margin_micro, 10_000);
    assert_eq!(r.net_profit_micro, 9_900_000);
    assert_eq!(r.liquidity_score_micro, 1_000_000);
    assert_eq!(r.ai_score_micro, 1_000_000);
    assert_eq!(r.estimated_gas_micro, 50_000);
}

// A margin of 0.0001 sits below the fixed sanity floor of 0.0005: no
// candidate, whatever any configurable threshold says.
#[test]
fn scenario_margin_below_sanity_floor() {
    let detector = OpportunityDetector::new();
    let snapshots = vec![
        quote("A", "X/Y", 100_000_000, 2_000_000_000_000, 200_000_000_000),
        quote("B", "X/Y", 100_010_000, 2_000_000_000_000, 200_000_000_000),
    ];
    let raws = detector.detect(&snapshots);
    assert_eq!(raws.len(), 0);
}

// A margin of exactly the sanity floor (0.0005) is not below it and the
// net profit is still positive, so the candidate survives.
#[test]
fn margin_exactly_at_sanity_floor_survives() {
    let detector = OpportunityDetector::new();
    let snapshots = vec![
        quote("A", "X/Y", 100_000_000, 0, 0),
        quote("B", "X/Y", 100_050_000, 0, 0),
    ];
    let raws = detector.detect(&snapshots);
    assert_eq!(raws.len(), 1);
    assert_eq!(raws[0].profit_margin_micro, 500);
    assert_eq!(raws[0].net_profit_micro, 400_000);
    assert_eq!(raws[0].liquidity_score_micro, 0);
}

// A pair quoted by fewer than two distinct exchanges yields no candidate,
// even when the two quotes differ in price.
#[test]
fn single_exchange_pair_yields_nothing() {
    let detector = OpportunityDetector::new();
    let snapshots = vec![
        quote("A", "X/Y", 100_000_000, 2_000_000_000_000, 200_000_000_000),
        quote("A", "X/Y", 101_000_000, 2_000_000_000_000, 200_000_000_000),
    ];
    let raws = detector.detect(&snapshots);
    assert_eq!(raws.len(), 0);
}

// Same-exchange quote combinations are skipped even inside a pair that
// other exchanges also quote: three quotes A@100, A@101, B@102 give only
// the two cross-exchange candidates.
#[test]
fn same_exchange_combinations_are_skipped() {
    let detector = OpportunityDetector::new();
    let snapshots = vec![
        quote("A", "X/Y", 100_000_000, 0, 0),
        quote("A", "X/Y", 101_000_000, 0, 0),
        quote("B", "X/Y", 102_000_000, 0, 0),
    ];
    let raws = detector.detect(&snapshots);
    assert_eq!(raws.len(), 2);
    for r in &raws {
        assert_eq!(r.buy_exchange, "A");
        assert_eq!(r.sell_exchange, "B");
    }
}

// Equal prices yield no candidate.
#[test]
fn equal_prices_yield_nothing() {
    let detector = OpportunityDetector::new();
    let snapshots = vec![
        quote("A", "X/Y", 100_000_000, 2_000_000_000_000, 200_000_000_000),
        quote("B", "X/Y", 100_000_000, 2_000_000_000_000, 200_000_000_000),
    ];
    let raws = detector.detect(&snapshots);
    assert_eq!(raws.len(), 0);
}

// Quotes of different pairs are never combined.
#[test]
fn different_pairs_are_not_combined() {
    let detector = OpportunityDetector::new();
    let snapshots = vec![
        quote("A", "X/Y", 100_000_000, 2_000_000_000_000, 200_000_000_000),
        quote("B", "U/V", 101_000_000, 2_000_000_000_000, 200_000_000_000),
    ];
    let raws = detector.detect(&snapshots);
    assert_eq!(raws.len(), 0);
}

// Every produced candidate has buy_price < sell_price and a strictly
// positive margin, over all combinations of a three-exchange snapshot set.
#[test]
fn candidates_always_buy_low_sell_high() {
    let detector = OpportunityDetector::new();
    let snapshots = vec![
        quote("A", "X/Y", 100_000_000, 2_000_000_000_000, 200_000_000_000),
        quote("B", "X/Y", 101_000_000, 1_000_000_000_000, 100_000_000_000),
        quote("C", "X/Y", 102_000_000, 3_000_000_000_000, 300_000_000_000),
    ];
    let raws = detector.detect(&snapshots);
    assert_eq!(raws.len(), 3);
    for r in &raws {
        assert!(r.buy_price_micro < r.sell_price_micro);
        assert!(r.profit_margin_micro > 0);
        assert!(r.net_profit_micro > 0);
        assert!(r.ai_score_micro <= 1_000_000);
        assert!(r.liquidity_score_micro <= 1_000_000);
        assert_ne!(r.buy_exchange, r.sell_exchange);
    }
}

// Net profit is computed on the fixed 1000-dollar reference notional with
// the flat fee charged twice, once per leg.
#[test]
fn net_profit_charges_both_fee_legs() {
    let detector = OpportunityDetector::new();
    let snapshots = vec![
        quote("A", "X/Y", 100_000_000, 0, 0),
        quote("B", "X/Y", 101_000_000, 0, 0),
    ];
    let raws = detector.detect(&snapshots);
    assert_eq!(raws.len(), 1);
    // gross = 1000 dollars * 0.01 = 10 dollars; minus two 0.05 dollar legs.
    assert_eq!(raws[0].net_profit_micro, 10_000_000 - 2 * 50_000);
}
