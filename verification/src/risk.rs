//! Deterministic rule-based risk scoring.
//!
//! The score of a candidate against a snapshot context is the arithmetic
//! mean of four factors, each a micro-ratio within [0, 1]: a tiered profit
//! band, the complement of the liquidity score, the normalized dispersion
//! of the pair's quoted prices within the context, and the fee impact on
//! the net profit. The mean is capped at one unit again, so the score is
//! always within [0, 1]. Scoring is a pure function of its two arguments.

use vstd::prelude::*;

use crate::model::{
    cap_micro, MarketData, MarketDataView, RawOpportunity, RawOpportunityView, MICRO_UNITS,
};

verus! {

/// Margins below this micro-ratio fall in the high profit-risk band (0.005).
pub const LOW_MARGIN_CUTOFF_MICRO: u64 = 5_000;

/// Margins up to and including this micro-ratio fall in the medium band (0.01).
pub const MID_MARGIN_CUTOFF_MICRO: u64 = 10_000;

/// Profit-risk value of the high band.
pub const PROFIT_RISK_HIGH_MICRO: u64 = 800_000;

/// Profit-risk value of the medium band.
pub const PROFIT_RISK_MEDIUM_MICRO: u64 = 500_000;

/// Profit-risk value of the low band.
pub const PROFIT_RISK_LOW_MICRO: u64 = 200_000;

/// Floor for the fee-risk denominator, in micro-dollars (0.01 dollars);
/// prevents the ratio from blowing up when the net profit is near zero.
pub const NET_PROFIT_FLOOR_MICRO: u64 = 10_000;

/// Tiered profit-risk band: three discrete values, not a continuous curve.
/// A margin of exactly the mid cutoff still counts as medium.
pub open spec fn profit_risk_micro(margin_micro: u64) -> u64 {
    if margin_micro < LOW_MARGIN_CUTOFF_MICRO {
        PROFIT_RISK_HIGH_MICRO
    } else if margin_micro <= MID_MARGIN_CUTOFF_MICRO {
        PROFIT_RISK_MEDIUM_MICRO
    } else {
        PROFIT_RISK_LOW_MICRO
    }
}

/// Liquidity risk: the complement of the liquidity score.
pub open spec fn liquidity_risk_micro(liquidity_score_micro: u64) -> int {
    MICRO_UNITS - liquidity_score_micro
}

/// How many quotes in `s` belong to the pair `p`.
pub open spec fn pair_quote_count(s: Seq<MarketDataView>, p: Seq<char>) -> nat
    decreases s.len(),
{
    if s.len() == 0 {
        0
    } else {
        pair_quote_count(s.drop_last(), p) + if s.last().pair == p {
            1nat
        } else {
            0nat
        }
    }
}

/// Largest quoted price of the pair `p` within `s`; zero when `p` is unquoted.
pub open spec fn pair_max_price(s: Seq<MarketDataView>, p: Seq<char>) -> u64
    decreases s.len(),
{
    if s.len() == 0 {
        0
    } else {
        let rest = pair_max_price(s.drop_last(), p);
        if s.last().pair == p && s.last().price_micro > rest {
            s.last().price_micro
        } else {
            rest
        }
    }
}

/// Smallest quoted price of the pair `p` within `s`; zero when `p` is unquoted.
pub open spec fn pair_min_price(s: Seq<MarketDataView>, p: Seq<char>) -> u64
    decreases s.len(),
{
    if s.len() == 0 {
        0
    } else {
        let rest = pair_min_price(s.drop_last(), p);
        let m = s.last();
        if m.pair == p {
            if pair_quote_count(s.drop_last(), p) == 0 {
                m.price_micro
            } else if m.price_micro < rest {
                m.price_micro
            } else {
                rest
            }
        } else {
            rest
        }
    }
}

/// Volatility risk: the price range of the pair within the context,
/// normalized by the largest price. Zero when the pair has fewer than two
/// quotes in the context. Deterministic and bounded by one unit.
pub open spec fn volatility_risk_micro(s: Seq<MarketDataView>, p: Seq<char>) -> int {
    let mx = pair_max_price(s, p);
    let mn = pair_min_price(s, p);
    if pair_quote_count(s, p) < 2 || mx == 0 {
        0
    } else {
        (mx - mn) * (MICRO_UNITS as int) / (mx as int)
    }
}

/// Fee risk: the fee against the net profit (floored), capped at one unit.
pub open spec fn fee_risk_micro(estimated_gas_micro: u64, net_profit_micro: u64) -> int {
    let denom = if net_profit_micro >= NET_PROFIT_FLOOR_MICRO {
        net_profit_micro
    } else {
        NET_PROFIT_FLOOR_MICRO
    };
    cap_micro((estimated_gas_micro as int) * (MICRO_UNITS as int) / (denom as int))
}

/// The composite risk score: the arithmetic mean of the four factors,
/// capped at one unit.
pub open spec fn risk_score_micro_of(o: RawOpportunityView, ctx: Seq<MarketDataView>) -> int {
    cap_micro(
        (profit_risk_micro(o.profit_margin_micro) + liquidity_risk_micro(o.liquidity_score_micro)
            + volatility_risk_micro(ctx, o.pair) + fee_risk_micro(
            o.estimated_gas_micro,
            o.net_profit_micro,
        )) / 4,
    )
}

/// When the pair is unquoted within `s`, its maximum price is zero.
proof fn lemma_unquoted_max_is_zero(s: Seq<MarketDataView>, p: Seq<char>)
    requires
        pair_quote_count(s, p) == 0,
    ensures
        pair_max_price(s, p) == 0,
    decreases s.len(),
{
    if s.len() > 0 {
        lemma_unquoted_max_is_zero(s.drop_last(), p);
    }
}

/// Whenever the pair is quoted at all, its smallest quoted price does not
/// exceed its largest.
proof fn lemma_pair_min_le_max(s: Seq<MarketDataView>, p: Seq<char>)
    requires
        pair_quote_count(s, p) > 0,
    ensures
        pair_min_price(s, p) <= pair_max_price(s, p),
    decreases s.len(),
{
    if s.len() > 0 {
        let rest = s.drop_last();
        if s.last().pair == p {
            if pair_quote_count(rest, p) == 0 {
                lemma_unquoted_max_is_zero(rest, p);
            } else {
                lemma_pair_min_le_max(rest, p);
            }
        } else {
            lemma_pair_min_le_max(rest, p);
        }
    }
}

/// The risk score of any candidate whose liquidity score is a valid ratio
/// lies within [0, 1], whatever the snapshot context — even though the four
/// factors are simply summed before averaging.
pub proof fn lemma_risk_score_bounds(o: RawOpportunityView, ctx: Seq<MarketDataView>)
    requires
        o.liquidity_score_micro <= MICRO_UNITS,
    ensures
        0 <= risk_score_micro_of(o, ctx) <= MICRO_UNITS,
{
    let vol = volatility_risk_micro(ctx, o.pair);
    let mx = pair_max_price(ctx, o.pair);
    let mn = pair_min_price(ctx, o.pair);
    if pair_quote_count(ctx, o.pair) >= 2 && mx > 0 {
        lemma_pair_min_le_max(ctx, o.pair);
        vstd::arithmetic::div_mod::lemma_div_pos_is_pos(
            (mx - mn) * (MICRO_UNITS as int),
            mx as int,
        );
        vstd::arithmetic::mul::lemma_mul_inequality(mx - mn, mx as int, MICRO_UNITS as int);
        vstd::arithmetic::div_mod::lemma_div_is_ordered(
            (mx - mn) * (MICRO_UNITS as int),
            (mx as int) * (MICRO_UNITS as int),
            mx as int,
        );
        vstd::arithmetic::div_mod::lemma_div_multiples_vanish(MICRO_UNITS as int, mx as int);
        assert(0 <= vol <= MICRO_UNITS);
    }
    let denom = if o.net_profit_micro >= NET_PROFIT_FLOOR_MICRO {
        o.net_profit_micro
    } else {
        NET_PROFIT_FLOOR_MICRO
    };
    vstd::arithmetic::div_mod::lemma_div_pos_is_pos(
        (o.estimated_gas_micro as int) * (MICRO_UNITS as int),
        denom as int,
    );
    vstd::arithmetic::mul::lemma_mul_nonnegative(o.estimated_gas_micro as int, MICRO_UNITS as int);
    let fee = fee_risk_micro(o.estimated_gas_micro, o.net_profit_micro);
    assert(0 <= fee <= MICRO_UNITS);
    let sum = profit_risk_micro(o.profit_margin_micro) + liquidity_risk_micro(
        o.liquidity_score_micro,
    ) + vol + fee;
    assert(0 <= sum);
    vstd::arithmetic::div_mod::lemma_div_pos_is_pos(sum, 4);
}

/// Scoring is idempotent: it keeps no hidden state, so any two scores
/// obtained for identical candidate/context inputs are the same value —
/// `calculate_risk` returns exactly `risk_score_micro_of` of its inputs,
/// and that is a function of the two arguments alone.
pub proof fn lemma_risk_scoring_deterministic(
    o: RawOpportunityView,
    ctx: Seq<MarketDataView>,
    r1: int,
    r2: int,
)
    requires
        r1 == risk_score_micro_of(o, ctx),
        r2 == risk_score_micro_of(o, ctx),
    ensures
        r1 == r2,
{
}

/// Deterministic risk scoring model.
#[derive(Clone, Debug)]
pub struct RiskScorer {}

impl RiskScorer {
    pub fn new() -> (r: Self) {
        RiskScorer {}
    }

    /// Scores a candidate against the snapshot context. The result is
    /// exactly `risk_score_micro_of` of the two inputs — identical inputs
    /// always give an identical score — and is always within [0, 1].
    pub fn calculate_risk(
        &self,
        opportunity: &RawOpportunity,
        market_data: &Vec<MarketData>,
    ) -> (r: u64)
        requires
            opportunity@.liquidity_score_micro <= MICRO_UNITS,
        ensures
            r == risk_score_micro_of(opportunity@, market_data.deep_view()),
            r <= MICRO_UNITS,
    {
        let profit_risk: u64 = if opportunity.profit_margin_micro < LOW_MARGIN_CUTOFF_MICRO {
            PROFIT_RISK_HIGH_MICRO
        } else if opportunity.profit_margin_micro <= MID_MARGIN_CUTOFF_MICRO {
            PROFIT_RISK_MEDIUM_MICRO
        } else {
            PROFIT_RISK_LOW_MICRO
        };
        let liquidity_risk: u64 = MICRO_UNITS - opportunity.liquidity_score_micro;
        let price_volatility: u64 = self.calculate_price_volatility(&opportunity.pair, market_data);
        let denom: u64 = if opportunity.net_profit_micro >= NET_PROFIT_FLOOR_MICRO {
            opportunity.net_profit_micro
        } else {
            NET_PROFIT_FLOOR_MICRO
        };
        proof {
            assert((opportunity.estimated_gas_micro as int) * (MICRO_UNITS as int) <= (
            u64::MAX as int) * (MICRO_UNITS as int)) by (nonlinear_arith)
                requires
                    0 <= opportunity.estimated_gas_micro as int <= u64::MAX as int,
            ;
        }
        let fee128: u128 = (opportunity.estimated_gas_micro as u128) * (MICRO_UNITS as u128) / (
        denom as u128);
        let fee_risk: u64 = if fee128 > (MICRO_UNITS as u128) {
            MICRO_UNITS
        } else {
            fee128 as u64
        };
        let sum: u64 = profit_risk + liquidity_risk + price_volatility + fee_risk;
        let avg: u64 = sum / 4;
        let r: u64 = if avg > MICRO_UNITS {
            MICRO_UNITS
        } else {
            avg
        };
        r
    }

    /// Dispersion of the pair's quoted prices within the snapshot context:
    /// the price range normalized by the largest price, as a micro-ratio.
    fn calculate_price_volatility(&self, pair: &String, market_data: &Vec<MarketData>) -> (r: u64)
        ensures
            r == volatility_risk_micro(market_data.deep_view(), pair@),
            r <= MICRO_UNITS,
    {
        let ghost v = market_data.deep_view();
        let n = market_data.len();
        let mut count: usize = 0;
        let mut mx: u64 = 0;
        let mut mn: u64 = 0;
        let mut idx: usize = 0;
        proof {
            assert(v.subrange(0, 0) =~= Seq::<MarketDataView>::empty());
        }
        while idx < n
            invariant
                v == market_data.deep_view(),
                n == market_data@.len(),
                idx <= n,
                count <= idx,
                count == pair_quote_count(v.subrange(0, idx as int), pair@),
                mx == pair_max_price(v.subrange(0, idx as int), pair@),
                count == 0 ==> mn == 0,
                count > 0 ==> mn == pair_min_price(v.subrange(0, idx as int), pair@),
            decreases n - idx,
        {
            let ghost pre = v.subrange(0, idx as int);
            proof {
                assert(v.subrange(0, idx + 1).drop_last() =~= pre);
                assert(v.subrange(0, idx + 1).last() == v[idx as int]);
            }
            let m = &market_data[idx];
            if m.pair == *pair {
                if count == 0 {
                    mn = m.price_micro;
                } else if m.price_micro < mn {
                    mn = m.price_micro;
                }
                if m.price_micro > mx {
                    mx = m.price_micro;
                }
                count = count + 1;
            }
            idx = idx + 1;
        }
        proof {
            assert(v.subrange(0, n as int) =~= v);
        }
        if count < 2 || mx == 0 {
            return 0;
        }
        proof {
            lemma_pair_min_le_max(v, pair@);
        }
        let diff = mx - mn;
        proof {
            assert((diff as int) * (MICRO_UNITS as int) <= (u64::MAX as int) * (
            MICRO_UNITS as int)) by (nonlinear_arith)
                requires
                    0 <= diff as int <= u64::MAX as int,
            ;
            vstd::arithmetic::mul::lemma_mul_inequality(
                diff as int,
                mx as int,
                MICRO_UNITS as int,
            );
            vstd::arithmetic::div_mod::lemma_div_is_ordered(
                (diff as int) * (MICRO_UNITS as int),
                (mx as int) * (MICRO_UNITS as int),
                mx as int,
            );
            vstd::arithmetic::div_mod::lemma_div_multiples_vanish(MICRO_UNITS as int, mx as int);
            assert((mx as int) * (MICRO_UNITS as int) / (mx as int) == MICRO_UNITS as int);
        }
        let r128: u128 = (diff as u128) * (MICRO_UNITS as u128) / (mx as u128);
        r128 as u64
    }
}

} // verus!
