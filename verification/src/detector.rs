//! Pairwise cross-exchange candidate detection.
//!
//! The detector scans the snapshot set and, for every unordered combination
//! of two quotes for the same trading pair from two distinct exchanges,
//! treats the lower-priced quote as the buy side and the higher-priced one
//! as the sell side. A candidate survives only if its profit margin clears
//! a fixed sanity floor and its net profit on the reference notional, after
//! both fee legs, is strictly positive. Quotes with equal prices, or from a
//! single exchange, never yield a candidate.

use vstd::prelude::*;

use crate::model::{
    MarketData, MarketDataView, RawOpportunity, RawOpportunityView, GAS_FEE_MICRO,
    LIQUIDITY_SCALE_UNITS, MICRO_UNITS, REFERENCE_NOTIONAL_MICRO, SANITY_FLOOR_MICRO,
    VOLUME_SCALE_UNITS,
};
use crate::model::{cap_micro, min_u64, sat_u64};

verus! {

/// Profit margin of a buy/sell price pair, as a micro-ratio (rounded down).
pub open spec fn margin_micro_of(buy_price: int, sell_price: int) -> int {
    (sell_price - buy_price) * (MICRO_UNITS as int) / buy_price
}

/// Net profit on the reference notional after both fee legs, in micro-dollars.
pub open spec fn net_profit_micro_of(margin_micro: int) -> int {
    margin_micro * (REFERENCE_NOTIONAL_MICRO as int) / (MICRO_UNITS as int) - 2 * (
    GAS_FEE_MICRO as int)
}

/// Liquidity factor: the thinner side's liquidity against its scale, capped at 1.
pub open spec fn liquidity_factor_micro(buy_liquidity: u64, sell_liquidity: u64) -> int {
    cap_micro(min_u64(buy_liquidity, sell_liquidity) as int / (LIQUIDITY_SCALE_UNITS as int))
}

/// Volume factor: the thinner side's volume against its scale, capped at 1.
pub open spec fn volume_factor_micro(buy_volume: u64, sell_volume: u64) -> int {
    cap_micro(min_u64(buy_volume, sell_volume) as int / (VOLUME_SCALE_UNITS as int))
}

/// Profit factor: one hundred times the margin, capped at 1.
pub open spec fn profit_factor_micro(margin_micro: int) -> int {
    cap_micro(margin_micro * 100)
}

/// Confidence score: fixed linear blend of the three factors, capped at 1.
pub open spec fn ai_score_micro_of(lf: int, vf: int, pf: int) -> int {
    cap_micro((4 * lf + 3 * vf + 3 * pf) / 10)
}

/// The candidate produced from an oriented buy/sell quote combination, or
/// `None` when the margin sits below the sanity floor or the net profit on
/// the reference notional is not strictly positive.
pub open spec fn opportunity_of(buy: MarketDataView, sell: MarketDataView) -> Option<
    RawOpportunityView,
> {
    let margin = margin_micro_of(buy.price_micro as int, sell.price_micro as int);
    let net = net_profit_micro_of(margin);
    if margin < SANITY_FLOOR_MICRO || net <= 0 {
        None
    } else {
        let lf = liquidity_factor_micro(buy.liquidity_micro, sell.liquidity_micro);
        let vf = volume_factor_micro(buy.volume_micro, sell.volume_micro);
        let pf = profit_factor_micro(margin);
        Some(
            RawOpportunityView {
                pair: buy.pair,
                buy_exchange: buy.exchange,
                buy_price_micro: buy.price_micro,
                sell_exchange: sell.exchange,
                sell_price_micro: sell.price_micro,
                profit_margin_micro: sat_u64(margin),
                net_profit_micro: sat_u64(net),
                ai_score_micro: ai_score_micro_of(lf, vf, pf) as u64,
                liquidity_score_micro: lf as u64,
                estimated_gas_micro: GAS_FEE_MICRO,
            },
        )
    }
}

/// An optional candidate as a (possibly empty) sequence.
pub open spec fn opt_to_seq(o: Option<RawOpportunityView>) -> Seq<RawOpportunityView> {
    match o {
        Some(r) => seq![r],
        None => Seq::empty(),
    }
}

/// The candidates of one unordered quote combination: none unless the two
/// quotes share the pair, come from distinct exchanges and differ in price.
pub open spec fn combo_candidates(a: MarketDataView, b: MarketDataView) -> Seq<
    RawOpportunityView,
> {
    if a.pair == b.pair && a.exchange != b.exchange {
        if a.price_micro < b.price_micro {
            opt_to_seq(opportunity_of(a, b))
        } else if b.price_micro < a.price_micro {
            opt_to_seq(opportunity_of(b, a))
        } else {
            Seq::empty()
        }
    } else {
        Seq::empty()
    }
}

/// Candidates of all combinations of quote `i` with quotes `j, j+1, ...`.
pub open spec fn row_candidates(s: Seq<MarketDataView>, i: int, j: int) -> Seq<
    RawOpportunityView,
>
    decreases s.len() - j,
{
    if 0 <= j && j < s.len() {
        combo_candidates(s[i], s[j]) + row_candidates(s, i, j + 1)
    } else {
        Seq::empty()
    }
}

/// Candidates of all unordered combinations drawn from quotes `i` onward.
pub open spec fn candidates_from(s: Seq<MarketDataView>, i: int) -> Seq<RawOpportunityView>
    decreases s.len() - i,
{
    if 0 <= i && i < s.len() {
        row_candidates(s, i, i + 1) + candidates_from(s, i + 1)
    } else {
        Seq::empty()
    }
}

/// Every candidate of the whole snapshot set, in scan order.
pub open spec fn detect_spec(s: Seq<MarketDataView>) -> Seq<RawOpportunityView> {
    candidates_from(s, 0)
}

/// The pair `p` is quoted by at least two distinct exchanges within `s`.
pub open spec fn has_two_distinct_exchange_quotes(s: Seq<MarketDataView>, p: Seq<char>) -> bool {
    exists|i: int, j: int|
        0 <= i < s.len() && 0 <= j < s.len() && (#[trigger] s[i]).pair == p && (#[trigger] s[j]).pair
            == p && s[i].exchange != s[j].exchange
}

/// Every candidate in a row carries the pair of quote `i`, and that pair is
/// quoted by two distinct exchanges.
proof fn lemma_row_sources(s: Seq<MarketDataView>, i: int, j: int)
    requires
        0 <= i < s.len(),
    ensures
        forall|k: int|
            0 <= k < row_candidates(s, i, j).len() ==> (#[trigger] row_candidates(s, i, j)[k]).pair
                == s[i].pair && has_two_distinct_exchange_quotes(s, s[i].pair),
    decreases s.len() - j,
{
    if 0 <= j && j < s.len() {
        lemma_row_sources(s, i, j + 1);
        let combo = combo_candidates(s[i], s[j]);
        if combo.len() > 0 {
            assert(s[i].pair == s[j].pair && s[i].exchange != s[j].exchange);
            assert(combo.len() == 1);
            assert(combo[0].pair == s[i].pair);
            assert(has_two_distinct_exchange_quotes(s, s[i].pair));
        }
        assert forall|k: int| 0 <= k < row_candidates(s, i, j).len() implies (
        #[trigger] row_candidates(s, i, j)[k]).pair == s[i].pair
            && has_two_distinct_exchange_quotes(s, s[i].pair) by {
            if k < combo.len() {
                assert(row_candidates(s, i, j)[k] == combo[k]);
            } else {
                assert(row_candidates(s, i, j)[k] == row_candidates(s, i, j + 1)[k - combo.len()]);
            }
        }
    }
}

/// Every candidate drawn from quotes `i` onward names a pair that is quoted
/// by two distinct exchanges within the snapshot set.
proof fn lemma_candidates_sources(s: Seq<MarketDataView>, i: int)
    ensures
        forall|k: int|
            0 <= k < candidates_from(s, i).len() ==> has_two_distinct_exchange_quotes(
                s,
                (#[trigger] candidates_from(s, i)[k]).pair,
            ),
    decreases s.len() - i,
{
    if 0 <= i && i < s.len() {
        lemma_row_sources(s, i, i + 1);
        lemma_candidates_sources(s, i + 1);
        let row = row_candidates(s, i, i + 1);
        assert forall|k: int| 0 <= k < candidates_from(s, i).len() implies
        has_two_distinct_exchange_quotes(s, (#[trigger] candidates_from(s, i)[k]).pair) by {
            if k < row.len() {
                assert(candidates_from(s, i)[k] == row[k]);
            } else {
                assert(candidates_from(s, i)[k] == candidates_from(s, i + 1)[k - row.len()]);
            }
        }
    }
}

/// A trading pair quoted by fewer than two distinct exchanges yields no
/// candidate: detection only ever pairs quotes from different exchanges.
pub proof fn lemma_pair_needs_two_exchanges(s: Seq<MarketDataView>, p: Seq<char>)
    requires
        !has_two_distinct_exchange_quotes(s, p),
    ensures
        forall|k: int|
            0 <= k < detect_spec(s).len() ==> (#[trigger] detect_spec(s)[k]).pair != p,
{
    lemma_candidates_sources(s, 0);
}

/// Rule-based detector for cross-exchange price discrepancies.
#[derive(Clone, Debug)]
pub struct OpportunityDetector {}

impl OpportunityDetector {
    pub fn new() -> (r: Self) {
        OpportunityDetector {}
    }

    /// Scans all unordered quote combinations per pair and returns every
    /// surviving candidate. Candidates are exactly `detect_spec` of the
    /// snapshot views; their order carries no meaning to callers.
    pub fn detect(&self, market_data: &Vec<MarketData>) -> (r: Vec<RawOpportunity>)
        requires
            forall|k: int| 0 <= k < market_data@.len() ==> (#[trigger] market_data@[k])@.wf(),
        ensures
            r.deep_view() == detect_spec(market_data.deep_view()),
            forall|k: int| 0 <= k < r@.len() ==> (#[trigger] r@[k])@.wf(),
    {
        let ghost v = market_data.deep_view();
        let n = market_data.len();
        let mut result: Vec<RawOpportunity> = Vec::new();
        proof {
            assert(result.deep_view() + candidates_from(v, 0) =~= candidates_from(v, 0));
        }
        let mut i: usize = 0;
        while i < n
            invariant
                v == market_data.deep_view(),
                n == market_data@.len(),
                i <= n,
                forall|k: int| 0 <= k < market_data@.len() ==> (#[trigger] market_data@[k])@.wf(),
                result.deep_view() + candidates_from(v, i as int) == detect_spec(v),
                forall|k: int| 0 <= k < result@.len() ==> (#[trigger] result@[k])@.wf(),
            decreases n - i,
        {
            let mut j: usize = i + 1;
            proof {
                assert(candidates_from(v, i as int) == row_candidates(v, i as int, i + 1)
                    + candidates_from(v, i + 1));
                assert(result.deep_view() + row_candidates(v, i as int, j as int)
                    + candidates_from(v, i + 1) =~= result.deep_view() + candidates_from(
                    v,
                    i as int,
                ));
            }
            while j < n
                invariant
                    v == market_data.deep_view(),
                    n == market_data@.len(),
                    i < n,
                    i < j,
                    j <= n,
                    forall|k: int|
                        0 <= k < market_data@.len() ==> (#[trigger] market_data@[k])@.wf(),
                    result.deep_view() + row_candidates(v, i as int, j as int) + candidates_from(
                        v,
                        i + 1,
                    ) == detect_spec(v),
                    forall|k: int| 0 <= k < result@.len() ==> (#[trigger] result@[k])@.wf(),
                decreases n - j,
            {
                let ghost pre = result.deep_view();
                let a = &market_data[i];
                let b = &market_data[j];
                if a.pair == b.pair && !(a.exchange == b.exchange) {
                    if a.price_micro < b.price_micro {
                        match self.calculate_opportunity(&a.pair, a, b) {
                            Some(o) => {
                                result.push(o);
                                proof {
                                    assert(result.deep_view() =~= pre + combo_candidates(
                                        v[i as int],
                                        v[j as int],
                                    ));
                                }
                            },
                            None => {},
                        }
                    } else if b.price_micro < a.price_micro {
                        match self.calculate_opportunity(&b.pair, b, a) {
                            Some(o) => {
                                result.push(o);
                                proof {
                                    assert(result.deep_view() =~= pre + combo_candidates(
                                        v[i as int],
                                        v[j as int],
                                    ));
                                }
                            },
                            None => {},
                        }
                    }
                }
                proof {
                    assert(result.deep_view() =~= pre + combo_candidates(v[i as int], v[j as int]));
                    assert(row_candidates(v, i as int, j as int) == combo_candidates(
                        v[i as int],
                        v[j as int],
                    ) + row_candidates(v, i as int, j + 1));
                    assert(result.deep_view() + row_candidates(v, i as int, j + 1)
                        + candidates_from(v, i + 1) =~= pre + row_candidates(v, i as int, j as int)
                        + candidates_from(v, i + 1));
                }
                j = j + 1;
            }
            proof {
                assert(row_candidates(v, i as int, n as int) =~= Seq::<RawOpportunityView>::empty());
                assert(result.deep_view() + candidates_from(v, i + 1) =~= result.deep_view()
                    + row_candidates(v, i as int, n as int) + candidates_from(v, i + 1));
            }
            i = i + 1;
        }
        proof {
            assert(candidates_from(v, n as int) =~= Seq::<RawOpportunityView>::empty());
            assert(result.deep_view() =~= result.deep_view() + candidates_from(v, n as int));
        }
        result
    }

    /// Builds the candidate for one oriented buy/sell combination, applying
    /// the sanity floor and the net-profit reject in fixed-point arithmetic.
    fn calculate_opportunity(
        &self,
        pair: &String,
        buy_exchange: &MarketData,
        sell_exchange: &MarketData,
    ) -> (r: Option<RawOpportunity>)
        requires
            buy_exchange@.wf(),
            buy_exchange@.price_micro < sell_exchange@.price_micro,
            buy_exchange@.pair == sell_exchange@.pair,
            buy_exchange@.exchange != sell_exchange@.exchange,
            pair@ == buy_exchange@.pair,
        ensures
            r.deep_view() == opportunity_of(buy_exchange@, sell_exchange@),
            r matches Some(o) ==> o@.wf(),
    {
        let buy_p = buy_exchange.price_micro;
        let sell_p = sell_exchange.price_micro;
        let diff = sell_p - buy_p;
        proof {
            assert((diff as int) * (MICRO_UNITS as int) <= (u64::MAX as int) * (
            MICRO_UNITS as int)) by (nonlinear_arith)
                requires
                    0 <= diff as int <= u64::MAX as int,
            ;
        }
        let num: u128 = (diff as u128) * (MICRO_UNITS as u128);
        let margin128: u128 = num / (buy_p as u128);
        let ghost margin = margin_micro_of(buy_p as int, sell_p as int);
        proof {
            assert(margin128 == margin);
            vstd::arithmetic::div_mod::lemma_div_nonincreasing(num as int, buy_p as int);
            assert(margin128 <= num);
        }
        if margin128 < (SANITY_FLOOR_MICRO as u128) {
            return None;
        }
        proof {
            assert((margin128 as int) * (REFERENCE_NOTIONAL_MICRO as int) <= (u64::MAX as int) * (
            MICRO_UNITS as int) * (REFERENCE_NOTIONAL_MICRO as int)) by (nonlinear_arith)
                requires
                    0 <= margin128 as int <= (u64::MAX as int) * (MICRO_UNITS as int),
            ;
        }
        let gross128: u128 = margin128 * (REFERENCE_NOTIONAL_MICRO as u128) / (MICRO_UNITS as u128);
        let ghost net = net_profit_micro_of(margin);
        if gross128 <= 2 * (GAS_FEE_MICRO as u128) {
            proof {
                assert(net <= 0);
            }
            return None;
        }
        let net128: u128 = gross128 - 2 * (GAS_FEE_MICRO as u128);
        proof {
            assert(net128 == net);
        }
        let profit_margin_micro: u64 = if margin128 > (u64::MAX as u128) {
            u64::MAX
        } else {
            margin128 as u64
        };
        let net_profit_micro: u64 = if net128 > (u64::MAX as u128) {
            u64::MAX
        } else {
            net128 as u64
        };
        let buy_liq = buy_exchange.liquidity_micro;
        let sell_liq = sell_exchange.liquidity_micro;
        let min_liq = if buy_liq <= sell_liq {
            buy_liq
        } else {
            sell_liq
        };
        let lf_raw = min_liq / LIQUIDITY_SCALE_UNITS;
        let lf: u64 = if lf_raw > MICRO_UNITS {
            MICRO_UNITS
        } else {
            lf_raw
        };
        let buy_vol = buy_exchange.volume_micro;
        let sell_vol = sell_exchange.volume_micro;
        let min_vol = if buy_vol <= sell_vol {
            buy_vol
        } else {
            sell_vol
        };
        let vf_raw = min_vol / VOLUME_SCALE_UNITS;
        let vf: u64 = if vf_raw > MICRO_UNITS {
            MICRO_UNITS
        } else {
            vf_raw
        };
        let pf: u64 = if margin128 >= 10_000 {
            MICRO_UNITS
        } else {
            (margin128 as u64) * 100
        };
        proof {
            assert(pf == profit_factor_micro(margin));
        }
        let weighted: u64 = (4 * lf + 3 * vf + 3 * pf) / 10;
        let ai: u64 = if weighted > MICRO_UNITS {
            MICRO_UNITS
        } else {
            weighted
        };
        let r = RawOpportunity {
            pair: pair.clone(),
            buy_exchange: buy_exchange.exchange.clone(),
            buy_price_micro: buy_p,
            sell_exchange: sell_exchange.exchange.clone(),
            sell_price_micro: sell_p,
            profit_margin_micro,
            net_profit_micro,
            ai_score_micro: ai,
            liquidity_score_micro: lf,
            estimated_gas_micro: GAS_FEE_MICRO,
        };
        proof {
            assert(r@ == opportunity_of(buy_exchange@, sell_exchange@).unwrap());
        }
        Some(r)
    }
}

} // verus!
