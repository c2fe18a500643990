//! Per-tick orchestration: sanitize, detect, score, filter, assemble.
//!
//! One tick turns the fetched snapshot set into the cycle's finished
//! records: malformed snapshots are dropped one by one, the detector runs
//! over the remaining valid set, every candidate is risk-scored against it,
//! the two policy filters are applied, and each survivor is stamped with a
//! fresh identifier and its validity window. Fetching the snapshots and
//! writing the records out are the caller's I/O; a failed fetch skips the
//! whole cycle and the next tick starts from a clean slate, since no state
//! crosses cycle boundaries except the configuration.

use vstd::prelude::*;
use vstd::string::StringExecFns;

use crate::config::Config;
use crate::detector::{detect_spec, OpportunityDetector};
use crate::errors::CoreError;
use crate::model::{
    MarketData, MarketDataView, Opportunity, OpportunityView, RawOpportunity, RawOpportunityView,
    HORIZON_MS, MICRO_UNITS,
};
use crate::risk::{risk_score_micro_of, RiskScorer};

verus! {

/// The well-formed snapshots of a fetched set, in order.
pub open spec fn valid_snapshots(s: Seq<MarketDataView>) -> Seq<MarketDataView>
    decreases s.len(),
{
    if s.len() == 0 {
        Seq::empty()
    } else {
        let rest = valid_snapshots(s.drop_last());
        if s.last().wf() {
            rest.push(s.last())
        } else {
            rest
        }
    }
}

/// The candidates that survive both policy filters, each with its score,
/// in detection order.
pub open spec fn scored_survivors(
    raws: Seq<RawOpportunityView>,
    ctx: Seq<MarketDataView>,
    cfg: Config,
) -> Seq<(RawOpportunityView, u64)>
    decreases raws.len(),
{
    if raws.len() == 0 {
        Seq::empty()
    } else {
        let rest = scored_survivors(raws.drop_last(), ctx, cfg);
        let o = raws.last();
        let risk = risk_score_micro_of(o, ctx);
        if risk <= cfg.max_risk_score_micro && o.profit_margin_micro
            >= cfg.min_profit_threshold_micro {
            rest.push((o, risk as u64))
        } else {
            rest
        }
    }
}

/// Everything one cycle owes its caller: the survivors of detection and
/// scoring over the valid part of the fetched snapshot set.
pub open spec fn cycle_survivors(snapshots: Seq<MarketDataView>, cfg: Config) -> Seq<
    (RawOpportunityView, u64),
> {
    let valid = valid_snapshots(snapshots);
    scored_survivors(detect_spec(valid), valid, cfg)
}

/// The record `o` is the candidate `raw` decisioned with score `risk_micro`:
/// all candidate fields carried over unchanged, the fixed kind label, and a
/// validity window of exactly the fixed horizon.
pub open spec fn assembled_from(o: OpportunityView, raw: RawOpportunityView, risk_micro: u64) -> bool {
    &&& o.opportunity_type == "arbitrage"@
    &&& o.pair == raw.pair
    &&& o.buy_exchange == raw.buy_exchange
    &&& o.buy_price_micro == raw.buy_price_micro
    &&& o.sell_exchange == raw.sell_exchange
    &&& o.sell_price_micro == raw.sell_price_micro
    &&& o.profit_margin_micro == raw.profit_margin_micro
    &&& o.net_profit_micro == raw.net_profit_micro
    &&& o.ai_score_micro == raw.ai_score_micro
    &&& o.risk_score_micro == risk_micro
    &&& o.liquidity_score_micro == raw.liquidity_score_micro
    &&& o.estimated_gas_micro == raw.estimated_gas_micro
    &&& o.expires_at_ms == o.timestamp_ms + HORIZON_MS
}

/// The records `os` are, one for one and in order, the survivors `sv`
/// decisioned by `assembled_from`.
pub open spec fn all_assembled(os: Seq<OpportunityView>, sv: Seq<(RawOpportunityView, u64)>) -> bool {
    &&& os.len() == sv.len()
    &&& forall|k: int| 0 <= k < os.len() ==> assembled_from(#[trigger] os[k], sv[k].0, sv[k].1)
}

/// Every survivor passes both policy filters, is a well-formed candidate,
/// and carries exactly its risk score.
proof fn lemma_survivors_pass(raws: Seq<RawOpportunityView>, ctx: Seq<MarketDataView>, cfg: Config)
    requires
        forall|k: int| 0 <= k < raws.len() ==> (#[trigger] raws[k]).wf(),
    ensures
        forall|k: int|
            0 <= k < scored_survivors(raws, ctx, cfg).len() ==> {
                let s = #[trigger] scored_survivors(raws, ctx, cfg)[k];
                &&& s.1 <= cfg.max_risk_score_micro
                &&& s.0.profit_margin_micro >= cfg.min_profit_threshold_micro
                &&& s.0.wf()
                &&& s.1 == risk_score_micro_of(s.0, ctx)
            },
    decreases raws.len(),
{
    if raws.len() > 0 {
        assert(forall|k: int|
            0 <= k < raws.drop_last().len() ==> (#[trigger] raws.drop_last()[k]).wf());
        lemma_survivors_pass(raws.drop_last(), ctx, cfg);
        let rest = scored_survivors(raws.drop_last(), ctx, cfg);
        let o = raws.last();
        assert(o.wf());
        crate::risk::lemma_risk_score_bounds(o, ctx);
        let risk = risk_score_micro_of(o, ctx);
        assert forall|k: int| 0 <= k < scored_survivors(raws, ctx, cfg).len() implies {
            let s = #[trigger] scored_survivors(raws, ctx, cfg)[k];
            &&& s.1 <= cfg.max_risk_score_micro
            &&& s.0.profit_margin_micro >= cfg.min_profit_threshold_micro
            &&& s.0.wf()
            &&& s.1 == risk_score_micro_of(s.0, ctx)
        } by {
            if k < rest.len() {
                assert(scored_survivors(raws, ctx, cfg)[k] == rest[k]);
            } else {
                assert(scored_survivors(raws, ctx, cfg)[k] == (o, risk as u64));
            }
        }
    }
}

/// Drops every malformed snapshot (a non-positive price) and keeps the
/// well-formed ones, in order; the rest of the cycle continues on these.
pub fn sanitize_snapshots(snapshots: &Vec<MarketData>) -> (r: Vec<MarketData>)
    ensures
        r.deep_view() == valid_snapshots(snapshots.deep_view()),
        forall|k: int| 0 <= k < r@.len() ==> (#[trigger] r@[k])@.wf(),
{
    let ghost v = snapshots.deep_view();
    let n = snapshots.len();
    let mut result: Vec<MarketData> = Vec::new();
    let mut idx: usize = 0;
    proof {
        assert(v.subrange(0, 0) =~= Seq::<MarketDataView>::empty());
        assert(result.deep_view() =~= valid_snapshots(v.subrange(0, 0)));
    }
    while idx < n
        invariant
            v == snapshots.deep_view(),
            n == snapshots@.len(),
            idx <= n,
            result.deep_view() == valid_snapshots(v.subrange(0, idx as int)),
            forall|k: int| 0 <= k < result@.len() ==> (#[trigger] result@[k])@.wf(),
        decreases n - idx,
    {
        let ghost pre = result.deep_view();
        proof {
            assert(v.subrange(0, idx + 1).drop_last() =~= v.subrange(0, idx as int));
            assert(v.subrange(0, idx + 1).last() == v[idx as int]);
        }
        let m = &snapshots[idx];
        if m.price_micro > 0 {
            let copy = MarketData {
                exchange: m.exchange.clone(),
                pair: m.pair.clone(),
                price_micro: m.price_micro,
                volume_micro: m.volume_micro,
                liquidity_micro: m.liquidity_micro,
                timestamp_ms: m.timestamp_ms,
            };
            result.push(copy);
            proof {
                assert(result.deep_view() =~= pre.push(v[idx as int]));
            }
        }
        idx = idx + 1;
    }
    proof {
        assert(v.subrange(0, n as int) =~= v);
    }
    result
}

/// Relies on `uuid::Uuid::new_v4` and its hyphenated rendering: a fresh
/// random version-4 identifier of 36 characters, prefixed here with four
/// more. Nothing is assumed about which identifier comes back.
#[verifier::external_body]
fn fresh_opportunity_id() -> (r: String)
    ensures
        r@.len() == 40,
{
    format!("opp_{}", uuid::Uuid::new_v4())
}

/// Relies on `chrono::Utc::now`: the current wall-clock time in
/// milliseconds since the Unix epoch. Nothing is assumed about the value.
#[verifier::external_body]
fn wall_clock_millis() -> (r: i64) {
    chrono::Utc::now().timestamp_millis()
}

/// The current time as an unsigned millisecond count; a clock reading from
/// before the epoch is clamped to zero.
fn current_time_ms() -> (r: u64)
    ensures
        r <= i64::MAX as u64,
{
    let t = wall_clock_millis();
    if t <= 0 {
        0
    } else {
        t as u64
    }
}

/// Stamps one surviving candidate into an immutable decisioned record:
/// identity, the fixed kind label, the score, and a validity window of
/// exactly the fixed horizon after its creation time.
pub fn assemble_opportunity(raw: &RawOpportunity, risk_micro: u64, id: String, now_ms: u64) -> (o:
    Opportunity)
    requires
        now_ms + HORIZON_MS <= u64::MAX,
    ensures
        o@.id == id@,
        o@.timestamp_ms == now_ms,
        o@.expires_at_ms == now_ms + HORIZON_MS,
        assembled_from(o@, raw@, risk_micro),
{
    Opportunity {
        id,
        opportunity_type: String::from_str("arbitrage"),
        pair: raw.pair.clone(),
        buy_exchange: raw.buy_exchange.clone(),
        buy_price_micro: raw.buy_price_micro,
        sell_exchange: raw.sell_exchange.clone(),
        sell_price_micro: raw.sell_price_micro,
        profit_margin_micro: raw.profit_margin_micro,
        net_profit_micro: raw.net_profit_micro,
        ai_score_micro: raw.ai_score_micro,
        risk_score_micro: risk_micro,
        liquidity_score_micro: raw.liquidity_score_micro,
        estimated_gas_micro: raw.estimated_gas_micro,
        expires_at_ms: now_ms + HORIZON_MS,
        timestamp_ms: now_ms,
    }
}

/// One cycle's pure computation: sanitize the fetched snapshots, detect
/// candidates, score each against the valid snapshot context, apply the
/// risk and profit filters, and assemble the survivors. No record with a
/// risk score above the configured bound, or a margin below the configured
/// threshold, is ever returned — and so never persisted or published.
pub fn detect_opportunities(
    opportunity_detector: &OpportunityDetector,
    risk_scorer: &RiskScorer,
    snapshots: &Vec<MarketData>,
    config: &Config,
) -> (r: Vec<Opportunity>)
    requires
        config.wf(),
    ensures
        all_assembled(r.deep_view(), cycle_survivors(snapshots.deep_view(), *config)),
        forall|k: int|
            0 <= k < r@.len() ==> (#[trigger] r@[k])@.risk_score_micro
                <= config.max_risk_score_micro,
        forall|k: int|
            0 <= k < r@.len() ==> (#[trigger] r@[k])@.profit_margin_micro
                >= config.min_profit_threshold_micro,
        forall|k: int|
            0 <= k < r@.len() ==> (#[trigger] r@[k])@.expires_at_ms - r@[k]@.timestamp_ms
                == HORIZON_MS,
{
    let valid = sanitize_snapshots(snapshots);
    let raws = opportunity_detector.detect(&valid);
    let ghost ctx = valid.deep_view();
    let ghost rv = raws.deep_view();
    let n = raws.len();
    let mut result: Vec<Opportunity> = Vec::new();
    let mut idx: usize = 0;
    proof {
        assert(rv.subrange(0, 0) =~= Seq::<RawOpportunityView>::empty());
        assert(forall|k: int| 0 <= k < rv.len() ==> (#[trigger] rv[k]).wf());
    }
    while idx < n
        invariant
            ctx == valid.deep_view(),
            rv == raws.deep_view(),
            n == raws@.len(),
            idx <= n,
            config.wf(),
            forall|k: int| 0 <= k < raws@.len() ==> (#[trigger] raws@[k])@.wf(),
            all_assembled(
                result.deep_view(),
                scored_survivors(rv.subrange(0, idx as int), ctx, *config),
            ),
        decreases n - idx,
    {
        let ghost pre = result.deep_view();
        let ghost pre_sv = scored_survivors(rv.subrange(0, idx as int), ctx, *config);
        proof {
            assert(rv.subrange(0, idx + 1).drop_last() =~= rv.subrange(0, idx as int));
            assert(rv.subrange(0, idx + 1).last() == rv[idx as int]);
        }
        let raw = &raws[idx];
        let risk = risk_scorer.calculate_risk(raw, &valid);
        if risk <= config.max_risk_score_micro && raw.profit_margin_micro
            >= config.min_profit_threshold_micro {
            let id = fresh_opportunity_id();
            let now = current_time_ms();
            let o = assemble_opportunity(raw, risk, id, now);
            result.push(o);
            proof {
                let sv = scored_survivors(rv.subrange(0, idx + 1), ctx, *config);
                assert(sv == pre_sv.push((rv[idx as int], risk)));
                assert(result.deep_view() =~= pre.push(o@));
                assert forall|k: int| 0 <= k < result.deep_view().len() implies assembled_from(
                    #[trigger] result.deep_view()[k],
                    sv[k].0,
                    sv[k].1,
                ) by {
                    if k < pre.len() {
                        assert(result.deep_view()[k] == pre[k]);
                        assert(sv[k] == pre_sv[k]);
                    } else {
                        assert(result.deep_view()[k] == o@);
                        assert(sv[k] == (rv[idx as int], risk));
                    }
                }
            }
        } else {
            proof {
                assert(scored_survivors(rv.subrange(0, idx + 1), ctx, *config) == pre_sv);
            }
        }
        idx = idx + 1;
    }
    proof {
        assert(rv.subrange(0, n as int) =~= rv);
        lemma_survivors_pass(rv, ctx, *config);
        let sv = scored_survivors(rv, ctx, *config);
        assert forall|k: int|
            0 <= k < result@.len() implies (#[trigger] result@[k])@.risk_score_micro
            <= config.max_risk_score_micro && result@[k]@.profit_margin_micro
            >= config.min_profit_threshold_micro && result@[k]@.expires_at_ms
            - result@[k]@.timestamp_ms == HORIZON_MS by {
            assert(result.deep_view()[k] == result@[k]@);
            assert(assembled_from(result@[k]@, sv[k].0, sv[k].1));
        }
    }
    result
}

/// One scheduler tick. A failed snapshot fetch skips the whole cycle and
/// yields no records; a successful fetch runs the full cycle computation.
/// The pipeline keeps no state across ticks, so the next tick after a
/// skipped cycle behaves exactly as if the failure had never happened.
pub fn run_tick(
    opportunity_detector: &OpportunityDetector,
    risk_scorer: &RiskScorer,
    fetch: &Result<Vec<MarketData>, CoreError>,
    config: &Config,
) -> (r: Vec<Opportunity>)
    requires
        config.wf(),
    ensures
        (*fetch) is Err ==> r@.len() == 0,
        (*fetch) matches Ok(snapshots) ==> all_assembled(
            r.deep_view(),
            cycle_survivors(snapshots.deep_view(), *config),
        ),
        forall|k: int|
            0 <= k < r@.len() ==> (#[trigger] r@[k])@.risk_score_micro
                <= config.max_risk_score_micro,
        forall|k: int|
            0 <= k < r@.len() ==> (#[trigger] r@[k])@.profit_margin_micro
                >= config.min_profit_threshold_micro,
        forall|k: int|
            0 <= k < r@.len() ==> (#[trigger] r@[k])@.expires_at_ms - r@[k]@.timestamp_ms
                == HORIZON_MS,
{
    match fetch {
        Ok(snapshots) => detect_opportunities(opportunity_detector, risk_scorer, snapshots, config),
        Err(_) => Vec::new(),
    }
}

} // verus!
