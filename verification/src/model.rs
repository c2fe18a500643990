//! Data model: market snapshots, unscored candidates and decisioned records.
//!
//! All quantities are fixed-point integers in micro-units: a price, volume,
//! liquidity or dollar amount of `x` units is stored as `x * 1_000_000`, and
//! a ratio or score of `1.0` is stored as `1_000_000`.

use vstd::prelude::*;

verus! {

/// Fixed-point denominator: one whole unit, and the value of a full score.
pub const MICRO_UNITS: u64 = 1_000_000;

/// Structural reject floor for the profit margin (0.0005 as a micro-ratio).
/// This is a fixed fast-reject constant, independent of the configurable
/// profit threshold applied later by the pipeline.
pub const SANITY_FLOOR_MICRO: u64 = 500;

/// Flat per-transaction fee estimate in micro-dollars (0.05 dollars per leg).
pub const GAS_FEE_MICRO: u64 = 50_000;

/// Reference notional for profitability: 1000 dollars in micro-dollars.
pub const REFERENCE_NOTIONAL_MICRO: u64 = 1_000_000_000;

/// Liquidity scale: a liquidity of 100,000 units saturates its factor.
pub const LIQUIDITY_SCALE_UNITS: u64 = 100_000;

/// Volume scale: a volume of 1,000,000 units saturates its factor.
pub const VOLUME_SCALE_UNITS: u64 = 1_000_000;

/// Validity horizon of an emitted opportunity, in milliseconds.
pub const HORIZON_MS: u64 = 15_000;

/// Caps a micro-ratio at one whole unit.
pub open spec fn cap_micro(x: int) -> int {
    if x > MICRO_UNITS { MICRO_UNITS as int } else { x }
}

/// Saturating conversion of a non-negative quantity into a `u64` field.
pub open spec fn sat_u64(x: int) -> u64 {
    if x > u64::MAX { u64::MAX } else { x as u64 }
}

/// The smaller of two quantities.
pub open spec fn min_u64(a: u64, b: u64) -> u64 {
    if a <= b { a } else { b }
}

/// One point-in-time price/volume/liquidity observation for one exchange
/// and one trading pair. Produced externally; read-only within a cycle.
#[derive(Clone, Debug)]
pub struct MarketData {
    pub exchange: String,
    pub pair: String,
    pub price_micro: u64,
    pub volume_micro: u64,
    pub liquidity_micro: u64,
    pub timestamp_ms: u64,
}

/// Mathematical image of a `MarketData` value.
pub struct MarketDataView {
    pub exchange: Seq<char>,
    pub pair: Seq<char>,
    pub price_micro: u64,
    pub volume_micro: u64,
    pub liquidity_micro: u64,
    pub timestamp_ms: u64,
}

impl MarketDataView {
    /// A snapshot is well formed when its price is strictly positive.
    pub open spec fn wf(self) -> bool {
        self.price_micro > 0
    }
}

impl View for MarketData {
    type V = MarketDataView;

    open spec fn view(&self) -> MarketDataView {
        MarketDataView {
            exchange: self.exchange@,
            pair: self.pair@,
            price_micro: self.price_micro,
            volume_micro: self.volume_micro,
            liquidity_micro: self.liquidity_micro,
            timestamp_ms: self.timestamp_ms,
        }
    }
}

impl DeepView for MarketData {
    type V = MarketDataView;

    open spec fn deep_view(&self) -> MarketDataView {
        self@
    }
}

/// An unscored arbitrage candidate: the lower-priced quote is the buy side,
/// the higher-priced one the sell side. Ephemeral within one cycle.
#[derive(Clone, Debug)]
pub struct RawOpportunity {
    pub pair: String,
    pub buy_exchange: String,
    pub buy_price_micro: u64,
    pub sell_exchange: String,
    pub sell_price_micro: u64,
    pub profit_margin_micro: u64,
    pub net_profit_micro: u64,
    pub ai_score_micro: u64,
    pub liquidity_score_micro: u64,
    pub estimated_gas_micro: u64,
}

/// Mathematical image of a `RawOpportunity` value.
pub struct RawOpportunityView {
    pub pair: Seq<char>,
    pub buy_exchange: Seq<char>,
    pub buy_price_micro: u64,
    pub sell_exchange: Seq<char>,
    pub sell_price_micro: u64,
    pub profit_margin_micro: u64,
    pub net_profit_micro: u64,
    pub ai_score_micro: u64,
    pub liquidity_score_micro: u64,
    pub estimated_gas_micro: u64,
}

impl RawOpportunityView {
    /// Invariant of every constructed candidate: a strict buy/sell price gap,
    /// strictly positive margin and net profit, and scores within one unit.
    pub open spec fn wf(self) -> bool {
        &&& self.buy_price_micro < self.sell_price_micro
        &&& self.profit_margin_micro >= SANITY_FLOOR_MICRO
        &&& self.profit_margin_micro > 0
        &&& self.net_profit_micro > 0
        &&& self.ai_score_micro <= MICRO_UNITS
        &&& self.liquidity_score_micro <= MICRO_UNITS
        &&& self.buy_exchange != self.sell_exchange
        &&& self.estimated_gas_micro == GAS_FEE_MICRO
    }
}

impl View for RawOpportunity {
    type V = RawOpportunityView;

    open spec fn view(&self) -> RawOpportunityView {
        RawOpportunityView {
            pair: self.pair@,
            buy_exchange: self.buy_exchange@,
            buy_price_micro: self.buy_price_micro,
            sell_exchange: self.sell_exchange@,
            sell_price_micro: self.sell_price_micro,
            profit_margin_micro: self.profit_margin_micro,
            net_profit_micro: self.net_profit_micro,
            ai_score_micro: self.ai_score_micro,
            liquidity_score_micro: self.liquidity_score_micro,
            estimated_gas_micro: self.estimated_gas_micro,
        }
    }
}

impl DeepView for RawOpportunity {
    type V = RawOpportunityView;

    open spec fn deep_view(&self) -> RawOpportunityView {
        self@
    }
}

/// A decisioned, time-bounded record: candidate fields plus identity,
/// risk score and validity window. Immutable once constructed.
#[derive(Clone, Debug)]
pub struct Opportunity {
    pub id: String,
    pub opportunity_type: String,
    pub pair: String,
    pub buy_exchange: String,
    pub buy_price_micro: u64,
    pub sell_exchange: String,
    pub sell_price_micro: u64,
    pub profit_margin_micro: u64,
    pub net_profit_micro: u64,
    pub ai_score_micro: u64,
    pub risk_score_micro: u64,
    pub liquidity_score_micro: u64,
    pub estimated_gas_micro: u64,
    pub expires_at_ms: u64,
    pub timestamp_ms: u64,
}

/// Mathematical image of an `Opportunity` value.
pub struct OpportunityView {
    pub id: Seq<char>,
    pub opportunity_type: Seq<char>,
    pub pair: Seq<char>,
    pub buy_exchange: Seq<char>,
    pub buy_price_micro: u64,
    pub sell_exchange: Seq<char>,
    pub sell_price_micro: u64,
    pub profit_margin_micro: u64,
    pub net_profit_micro: u64,
    pub ai_score_micro: u64,
    pub risk_score_micro: u64,
    pub liquidity_score_micro: u64,
    pub estimated_gas_micro: u64,
    pub expires_at_ms: u64,
    pub timestamp_ms: u64,
}

impl View for Opportunity {
    type V = OpportunityView;

    open spec fn view(&self) -> OpportunityView {
        OpportunityView {
            id: self.id@,
            opportunity_type: self.opportunity_type@,
            pair: self.pair@,
            buy_exchange: self.buy_exchange@,
            buy_price_micro: self.buy_price_micro,
            sell_exchange: self.sell_exchange@,
            sell_price_micro: self.sell_price_micro,
            profit_margin_micro: self.profit_margin_micro,
            net_profit_micro: self.net_profit_micro,
            ai_score_micro: self.ai_score_micro,
            risk_score_micro: self.risk_score_micro,
            liquidity_score_micro: self.liquidity_score_micro,
            estimated_gas_micro: self.estimated_gas_micro,
            expires_at_ms: self.expires_at_ms,
            timestamp_ms: self.timestamp_ms,
        }
    }
}

impl DeepView for Opportunity {
    type V = OpportunityView;

    open spec fn deep_view(&self) -> OpportunityView {
        self@
    }
}

} // verus!
