//! SLA computation: penalty and reward amounts, statistics, per-severity
//! telemetry and the calculation history.
use vstd::prelude::*;
use crate::symbol::{Address, Symbol};
use crate::history::copy_range;
use crate::env::{event, ContractEnv, ContractEvent, EnvView, EventContext, EventData, StorageView};
use crate::{
    SLAConfig, SLAError, SLAResult, SLAStats, SeverityTelemetry, SLACalculatorContract,
    MAX_HISTORY_SIZE,
};

verus! {

/// Length of the telemetry window, in seconds (one week).
pub const WEEK_SECONDS: u64 = 604800;

// ---------------------------------------------------------------------
// Result computation
// ---------------------------------------------------------------------

/// Reward multiplier (percent) and rating for a repair time that is
/// `ratio` percent of the threshold: below 50 `top` (200), below 75
/// `excel` (150), otherwise `good` (100).
pub open spec fn reward_tier(ratio: int) -> (u32, Symbol) {
    if ratio < 50 {
        (200, Symbol::top())
    } else if ratio < 75 {
        (150, Symbol::excel())
    } else {
        (100, Symbol::good())
    }
}

/// The result of one SLA evaluation.
///
/// Above the threshold the SLA is violated: the amount is minus the
/// overtime times the penalty per minute, and `InvalidPenaltyAmount` is
/// returned unless that penalty is positive and fits in `i128`.  At or
/// below the threshold the SLA is met: the amount is the reward base times
/// the tier multiplier, divided by 100 (rounding down), and
/// `InvalidRewardAmount` is returned unless the product fits in `i128` and
/// the reward is positive.  The tier uses `mttr * 100 / threshold`
/// (0 when the threshold is 0).
pub open spec fn spec_compute_result(
    outage_id: Symbol,
    mttr_minutes: u32,
    cfg: SLAConfig,
    config_version_hash: u64,
    recorded_at: u64,
) -> Result<SLAResult, SLAError> {
    let threshold = cfg.threshold_minutes;
    if mttr_minutes > threshold {
        let penalty: int = (mttr_minutes - threshold) * cfg.penalty_per_minute;
        if penalty <= 0 || penalty > i128::MAX {
            Err(SLAError::InvalidPenaltyAmount)
        } else {
            Ok(SLAResult {
                outage_id,
                status: Symbol::viol(),
                mttr_minutes,
                threshold_minutes: threshold,
                amount: (-penalty) as i128,
                payment_type: Symbol::pen(),
                rating: Symbol::poor(),
                config_version_hash,
                recorded_at,
            })
        }
    } else {
        let ratio: int = if threshold == 0 {
            0
        } else {
            (mttr_minutes * 100) / (threshold as int)
        };
        let (multiplier, rating) = reward_tier(ratio);
        let product: int = cfg.reward_base * multiplier;
        if product < i128::MIN || product > i128::MAX || product / 100 <= 0 {
            Err(SLAError::InvalidRewardAmount)
        } else {
            Ok(SLAResult {
                outage_id,
                status: Symbol::met(),
                mttr_minutes,
                threshold_minutes: threshold,
                amount: (product / 100) as i128,
                payment_type: Symbol::rew(),
                rating,
                config_version_hash,
                recorded_at,
            })
        }
    }
}

/// Computes the result of one SLA evaluation, with no effect on any state.
pub fn compute_result(
    outage_id: Symbol,
    mttr_minutes: u32,
    cfg: &SLAConfig,
    config_version_hash: u64,
    recorded_at: u64,
) -> (r: Result<SLAResult, SLAError>)
    ensures
        r == spec_compute_result(outage_id, mttr_minutes, *cfg, config_version_hash, recorded_at),
{
    let threshold = cfg.threshold_minutes;
    if mttr_minutes > threshold {
        let overtime = (mttr_minutes - threshold) as i128;
        let penalty = match overtime.checked_mul(cfg.penalty_per_minute) {
            Some(val) => val,
            None => return Err(SLAError::InvalidPenaltyAmount),
        };
        if penalty == i128::MIN {
            return Err(SLAError::InvalidPenaltyAmount);
        }
        let amount = -penalty;
        if amount >= 0 {
            return Err(SLAError::InvalidPenaltyAmount);
        }
        Ok(SLAResult {
            outage_id,
            status: Symbol::viol(),
            mttr_minutes,
            threshold_minutes: threshold,
            amount,
            payment_type: Symbol::pen(),
            rating: Symbol::poor(),
            config_version_hash,
            recorded_at,
        })
    } else {
        let performance_ratio = (mttr_minutes as u64 * 100).checked_div(threshold as u64).unwrap_or(0);
        let (multiplier, rating) = if performance_ratio < 50 {
            (200u32, Symbol::top())
        } else if performance_ratio < 75 {
            (150u32, Symbol::excel())
        } else {
            (100u32, Symbol::good())
        };
        let product = match cfg.reward_base.checked_mul(multiplier as i128) {
            Some(val) => val,
            None => return Err(SLAError::InvalidRewardAmount),
        };
        if product < 100 {
            proof {
                assert(product / 100 <= 0) by (nonlinear_arith)
                    requires
                        product < 100,
                ;
            }
            return Err(SLAError::InvalidRewardAmount);
        }
        let reward = product / 100;
        proof {
            assert(reward == product as int / 100);
            assert(reward > 0) by (nonlinear_arith)
                requires
                    reward == product as int / 100,
                    product >= 100,
            ;
        }
        Ok(SLAResult {
            outage_id,
            status: Symbol::met(),
            mttr_minutes,
            threshold_minutes: threshold,
            amount: reward,
            payment_type: Symbol::rew(),
            rating,
            config_version_hash,
            recorded_at,
        })
    }
}

// ---------------------------------------------------------------------
// Packed per-severity counters
// ---------------------------------------------------------------------

/// Lane `index` (32 bits) of a packed counter word.
pub open spec fn spec_lane(packed: u128, index: u32) -> u32 {
    ((packed >> ((index * 32) as u32)) & 0xffff_ffffu128) as u32
}

/// `packed` with lane `index` replaced by `value`.
pub open spec fn spec_set_lane(packed: u128, index: u32, value: u32) -> u128 {
    (packed & !(0xffff_ffffu128 << ((index * 32) as u32))) | ((value as u128) << ((index * 32) as u32))
}

/// Reads counter lane `index` (0..4).
pub fn count_lane(packed: u128, index: u32) -> (r: u32)
    requires
        index < 4,
    ensures
        r == spec_lane(packed, index),
{
    ((packed >> (index * 32)) & 0xFFFF_FFFF) as u32
}

/// Returns `packed` with lane `index` (0..4) replaced by `value`.
pub fn set_count_lane(packed: u128, index: u32, value: u32) -> (r: u128)
    requires
        index < 4,
    ensures
        r == spec_set_lane(packed, index, value),
{
    let mask = !(0xFFFF_FFFFu128 << (index * 32));
    (packed & mask) | ((value as u128) << (index * 32))
}

/// A stored counter word; an absent entry reads as zero.
pub open spec fn counts_or_zero(entry: Option<u128>) -> u128 {
    match entry {
        Some(v) => v,
        None => 0,
    }
}

/// Reads a stored counter word; an absent entry reads as zero.
pub fn load_counts(entry: &Option<u128>) -> (r: u128)
    ensures
        r == counts_or_zero(*entry),
{
    match entry {
        Some(v) => *v,
        None => 0,
    }
}

/// `a + b`, capped at `u32::MAX`.
pub open spec fn sat_add_u32(a: u32, b: u32) -> u32 {
    if a + b > u32::MAX {
        u32::MAX
    } else {
        (a + b) as u32
    }
}

/// The four telemetry words after recording one calculation in lane
/// `index` at time `now`: the lane's counters restart when its last
/// calculation or last violation is a week old or older; the calculation
/// counter, and on a violation the violation counter, grow by one
/// (saturating); the lane's last-calculation time, and on a violation its
/// last-violation time, become `now` capped at `u32::MAX`.
pub open spec fn telemetry_after(
    calc: u128,
    viol: u128,
    last_calc: u128,
    last_viol: u128,
    index: u32,
    now: u64,
    met: bool,
) -> (u128, u128, u128, u128) {
    let lc = spec_lane(last_calc, index) as u64;
    let lv = spec_lane(last_viol, index) as u64;
    let calc_stale = lc != 0 && now.saturating_sub(lc) >= WEEK_SECONDS;
    let viol_stale = lv != 0 && now.saturating_sub(lv) >= WEEK_SECONDS;
    let c1 = if calc_stale || viol_stale { spec_set_lane(calc, index, 0) } else { calc };
    let v1 = if calc_stale || viol_stale { spec_set_lane(viol, index, 0) } else { viol };
    let c2 = spec_set_lane(c1, index, sat_add_u32(spec_lane(c1, index), 1));
    let v2 = if !met { spec_set_lane(v1, index, sat_add_u32(spec_lane(v1, index), 1)) } else { v1 };
    let current: u32 = if now > u32::MAX { u32::MAX } else { now as u32 };
    let lc2 = spec_set_lane(last_calc, index, current);
    let lv2 = if !met { spec_set_lane(last_viol, index, current) } else { last_viol };
    (c2, v2, lc2, lv2)
}

/// Telemetry lane of a severity: its canonical index, or 0 for others.
pub open spec fn telemetry_lane(severity: Symbol) -> u32 {
    match SLACalculatorContract::spec_canonical_index(severity) {
        Some(i) => i,
        None => 0,
    }
}

/// Storage after recording one calculation for `severity`.
pub open spec fn telemetry_recorded(s: StorageView, severity: Symbol, met: bool, now: u64) -> StorageView {
    let t = telemetry_after(
        counts_or_zero(s.calc_counts),
        counts_or_zero(s.viol_counts),
        counts_or_zero(s.last_calc_times),
        counts_or_zero(s.last_viol_times),
        telemetry_lane(severity),
        now,
        met,
    );
    StorageView {
        calc_counts: Some(t.0),
        viol_counts: Some(t.1),
        last_calc_times: Some(t.2),
        last_viol_times: Some(t.3),
        ..s
    }
}

fn telemetry_words(
    calc: u128,
    viol: u128,
    last_calc: u128,
    last_viol: u128,
    index: u32,
    now: u64,
    met: bool,
) -> (r: (u128, u128, u128, u128))
    requires
        index < 4,
    ensures
        r == telemetry_after(calc, viol, last_calc, last_viol, index, now, met),
{
    let mut calculations = calc;
    let mut violations = viol;
    let last_c = count_lane(last_calc, index) as u64;
    let last_v = count_lane(last_viol, index) as u64;
    let calc_stale = last_c != 0 && now.saturating_sub(last_c) >= WEEK_SECONDS;
    let violation_stale = last_v != 0 && now.saturating_sub(last_v) >= WEEK_SECONDS;
    if calc_stale || violation_stale {
        calculations = set_count_lane(calculations, index, 0);
        violations = set_count_lane(violations, index, 0);
    }
    calculations = set_count_lane(calculations, index, count_lane(calculations, index).saturating_add(1));
    if !met {
        violations = set_count_lane(violations, index, count_lane(violations, index).saturating_add(1));
    }
    let current: u32 = if now > u32::MAX as u64 {
        u32::MAX
    } else {
        now as u32
    };
    let last_calculations = set_count_lane(last_calc, index, current);
    let last_violations = if !met {
        set_count_lane(last_viol, index, current)
    } else {
        last_viol
    };
    (calculations, violations, last_calculations, last_violations)
}

/// Records one calculation for `severity` in the weekly telemetry.
pub fn record_severity_telemetry(env: &mut ContractEnv, severity: &Symbol, met: bool)
    ensures
        final(env)@ == old(env)@.with_storage(
            telemetry_recorded(old(env)@.storage, *severity, met, old(env)@.timestamp),
        ),
{
    let index = match SLACalculatorContract::canonical_severity_index(severity) {
        Some(i) => i,
        None => 0,
    };
    let t = telemetry_words(
        load_counts(&env.storage.calc_counts),
        load_counts(&env.storage.viol_counts),
        load_counts(&env.storage.last_calc_times),
        load_counts(&env.storage.last_viol_times),
        index,
        env.timestamp,
        met,
    );
    env.storage.calc_counts = Some(t.0);
    env.storage.viol_counts = Some(t.1);
    env.storage.last_calc_times = Some(t.2);
    env.storage.last_viol_times = Some(t.3);
}

// ---------------------------------------------------------------------
// Statistics
// ---------------------------------------------------------------------

/// The all-zero statistics.
pub open spec fn zero_stats() -> SLAStats {
    SLAStats { total_calculations: 0, total_violations: 0, total_rewards: 0, total_penalties: 0 }
}

/// Stored statistics, zero when absent.
pub open spec fn stats_or_zero(s: StorageView) -> SLAStats {
    match s.stats {
        Some(st) => st,
        None => zero_stats(),
    }
}

/// The event reporting that a statistics counter saturated.
#[verifier::allow_in_spec]
pub fn saturation_event(counter: Symbol, previous_value: i128, attempted_increment: i128) -> ContractEvent
    returns
        event(
            Symbol::stats_sat(),
            EventContext::Name(counter),
            EventData::StatsSaturated { field: counter, previous_value, attempted_increment },
        ),
{
    event(
        Symbol::stats_sat(),
        EventContext::Name(counter),
        EventData::StatsSaturated { field: counter, previous_value, attempted_increment },
    )
}

/// `total + amount` if it fits in `i128`; otherwise the bound in the
/// direction of `amount`, with a saturation event for `counter`.
pub open spec fn add_or_saturate(counter: Symbol, total: i128, amount: i128) -> (i128, Seq<ContractEvent>) {
    if total + amount > i128::MAX || total + amount < i128::MIN {
        (
            if amount > 0 { i128::MAX } else { i128::MIN },
            seq![saturation_event(counter, total, amount)],
        )
    } else {
        ((total + amount) as i128, Seq::empty())
    }
}

/// `total + 1` unless `total` is `u64::MAX`, which stays, with a
/// saturation event for `counter`.
pub open spec fn count_or_saturate(counter: Symbol, total: u64) -> (u64, Seq<ContractEvent>) {
    if total == u64::MAX {
        (u64::MAX, seq![saturation_event(counter, total as i128, 1)])
    } else {
        ((total + 1) as u64, Seq::empty())
    }
}

/// Statistics after one calculation, and the saturation events raised,
/// in counter order: calculations, then rewards (SLA met) or violations
/// and penalties (SLA violated).
pub open spec fn stats_after(st: SLAStats, met: bool, reward: i128, penalty: i128) -> (SLAStats, Seq<ContractEvent>) {
    let (calc, e0) = count_or_saturate(Symbol::totcalc(), st.total_calculations);
    if met {
        let (rew, e1) = add_or_saturate(Symbol::totrew(), st.total_rewards, reward);
        (SLAStats { total_calculations: calc, total_rewards: rew, ..st }, e0 + e1)
    } else {
        let (viol, e1) = count_or_saturate(Symbol::totviol(), st.total_violations);
        let (pen, e2) = add_or_saturate(Symbol::totpen(), st.total_penalties, penalty);
        (
            SLAStats { total_calculations: calc, total_violations: viol, total_penalties: pen, ..st },
            e0 + e1 + e2,
        )
    }
}

/// Emits the event reporting that a statistics counter saturated.
fn emit_stats_saturated(env: &mut ContractEnv, counter: Symbol, previous_value: i128, attempted_increment: i128)
    ensures
        final(env)@ == old(env)@.emit(saturation_event(counter, previous_value, attempted_increment)),
{
    env.emit(saturation_event(counter, previous_value, attempted_increment));
}

/// Adds `amount` to `total`, saturating and reporting as `add_or_saturate` says.
fn add_saturating(env: &mut ContractEnv, counter: Symbol, total: i128, amount: i128) -> (r: i128)
    ensures
        r == add_or_saturate(counter, total, amount).0,
        final(env)@ == (EnvView { events: old(env)@.events + add_or_saturate(counter, total, amount).1, ..old(env)@ }),
{
    match total.checked_add(amount) {
        Some(v) => {
            assert(old(env)@.events + Seq::<ContractEvent>::empty() =~= old(env)@.events);
            v
        },
        None => {
            emit_stats_saturated(env, counter, total, amount);
            if amount > 0 {
                i128::MAX
            } else {
                i128::MIN
            }
        },
    }
}

/// Adds one to `total`, saturating and reporting as `count_or_saturate` says.
fn count_saturating(env: &mut ContractEnv, counter: Symbol, total: u64) -> (r: u64)
    ensures
        r == count_or_saturate(counter, total).0,
        final(env)@ == (EnvView { events: old(env)@.events + count_or_saturate(counter, total).1, ..old(env)@ }),
{
    match total.checked_add(1) {
        Some(v) => {
            assert(old(env)@.events + Seq::<ContractEvent>::empty() =~= old(env)@.events);
            v
        },
        None => {
            emit_stats_saturated(env, counter, total as i128, 1);
            u64::MAX
        },
    }
}

/// Adds one calculation to the statistics: `met` with the reward to add,
/// or not `met` with the (positive) penalty to add.  A counter that would
/// leave its range stays at its bound and a saturation event is emitted.
pub fn increment_stats(env: &mut ContractEnv, met: bool, reward: i128, penalty: i128)
    ensures
        ({
            let (st, evs) = stats_after(stats_or_zero(old(env)@.storage), met, reward, penalty);
            final(env)@ == EnvView {
                storage: StorageView { stats: Some(st), ..old(env)@.storage },
                events: old(env)@.events + evs,
                ..old(env)@
            }
        }),
{
    let mut stats = match env.storage.stats {
        Some(st) => st,
        None => SLAStats { total_calculations: 0, total_violations: 0, total_rewards: 0, total_penalties: 0 },
    };
    let ghost e0 = env@;
    stats.total_calculations = count_saturating(env, Symbol::totcalc(), stats.total_calculations);
    let ghost e1 = env@;
    if met {
        stats.total_rewards = add_saturating(env, Symbol::totrew(), stats.total_rewards, reward);
    } else {
        stats.total_violations = count_saturating(env, Symbol::totviol(), stats.total_violations);
        let ghost e2 = env@;
        stats.total_penalties = add_saturating(env, Symbol::totpen(), stats.total_penalties, penalty);
    }
    env.storage.stats = Some(stats);
    proof {
        let (st, evs) = stats_after(stats_or_zero(e0.storage), met, reward, penalty);
        assert(stats == st);
        assert(env@.events =~= e0.events + evs);
    }
}

// ---------------------------------------------------------------------
// History lookups
// ---------------------------------------------------------------------

/// The stored history, empty when absent.
pub open spec fn history_or_empty(s: StorageView) -> Seq<SLAResult> {
    match s.history {
        Some(h) => h,
        None => Seq::empty(),
    }
}

/// The most recent entry for `outage_id`.
pub open spec fn latest_by_outage(h: Seq<SLAResult>, outage_id: Symbol) -> Option<SLAResult>
    decreases h.len(),
{
    if h.len() == 0 {
        None
    } else if h.last().outage_id == outage_id {
        Some(h.last())
    } else {
        latest_by_outage(h.drop_last(), outage_id)
    }
}

/// Finds the most recent entry for `outage_id`.
pub fn find_latest(h: &Vec<SLAResult>, outage_id: &Symbol) -> (r: Option<SLAResult>)
    ensures
        r == latest_by_outage(h@, *outage_id),
{
    let mut latest: Option<SLAResult> = None;
    let mut i: usize = 0;
    while i < h.len()
        invariant
            i <= h@.len(),
            latest == latest_by_outage(h@.take(i as int), *outage_id),
        decreases h@.len() - i,
    {
        let entry = h[i];
        assert(h@.take(i + 1).drop_last() =~= h@.take(i as int));
        if entry.outage_id == *outage_id {
            latest = Some(entry);
        }
        i += 1;
    }
    assert(h@.take(i as int) =~= h@);
    latest
}

// ---------------------------------------------------------------------
// SLA calculation
// ---------------------------------------------------------------------

/// The stored retention limit, `MAX_HISTORY_SIZE` when absent.
pub open spec fn retention_or_default(s: StorageView) -> u32 {
    match s.retention_limit {
        Some(l) => l,
        None => MAX_HISTORY_SIZE,
    }
}

/// The history after appending `result`, cut to its newest `limit`
/// entries when it then exceeds the retention limit.
pub open spec fn history_appended(h: Seq<SLAResult>, result: SLAResult, limit: u32) -> Seq<SLAResult> {
    let t = h.push(result);
    if t.len() > limit {
        t.subrange(t.len() - limit, t.len() as int)
    } else {
        t
    }
}

/// The `sla_calc` event of a result.
pub open spec fn sla_event(severity: Symbol, r: SLAResult) -> ContractEvent {
    event(
        Symbol::sla_calc(),
        EventContext::Name(severity),
        EventData::SlaCalculated {
            outage_id: r.outage_id,
            status: r.status,
            payment_type: r.payment_type,
            rating: r.rating,
            mttr_minutes: r.mttr_minutes,
            threshold_minutes: r.threshold_minutes,
            amount: r.amount,
        },
    )
}

/// The `set_int` (settlement intent) event of a result.
pub open spec fn settlement_intent_event(severity: Symbol, r: SLAResult) -> ContractEvent {
    event(
        Symbol::set_int(),
        EventContext::Name(severity),
        EventData::SettlementIntent {
            outage_id: r.outage_id,
            status: r.status,
            payment_type: r.payment_type,
            amount: r.amount,
            config_version_hash: r.config_version_hash,
            recorded_at: r.recorded_at,
        },
    )
}

/// The effect of a freshly computed `result` for `severity` on the
/// environment `e` (whose storage is `s`).  If the history already holds
/// an entry for the outage computed under the same configuration hash,
/// that entry is returned as it is, with no change, when its repair time
/// and threshold match, and `DuplicateOutageInput` is returned otherwise.
/// Else the result is recorded in the severity telemetry, appended to the
/// history (cut to its newest entries when the retention limit is
/// exceeded), added to the statistics, and announced by a `sla_calc` and
/// a `set_int` event.
pub open spec fn spec_record_result(
    e: EnvView,
    severity: Symbol,
    mttr_minutes: u32,
    cfg: SLAConfig,
    h: u64,
    result: SLAResult,
) -> (Result<SLAResult, SLAError>, EnvView) {
    let s = e.storage;
    let met = result.status != Symbol::viol();
    let s1 = telemetry_recorded(s, severity, met, e.timestamp);
    let hist = history_or_empty(s);
    let prev = latest_by_outage(hist, result.outage_id);
    if prev is Some && prev->Some_0.config_version_hash == h {
        let p = prev->Some_0;
        if p.mttr_minutes != mttr_minutes || p.threshold_minutes != cfg.threshold_minutes {
            (Err(SLAError::DuplicateOutageInput), e)
        } else {
            (Ok(p), e)
        }
    } else {
        let (st, evs) = stats_after(
            stats_or_zero(s1),
            met,
            if met { result.amount } else { 0 },
            if met { 0 } else { (-result.amount) as i128 },
        );
        (
            Ok(result),
            EnvView {
                storage: StorageView {
                    history: Some(history_appended(hist, result, retention_or_default(s))),
                    stats: Some(st),
                    ..s1
                },
                events: e.events + evs + seq![
                    sla_event(severity, result),
                    settlement_intent_event(severity, result),
                ],
                ..e
            },
        )
    }
}

/// Operator-gated SLA calculation.
///
/// Checks, in order: schema version, pause flag, the caller's
/// authorization and operator role, the severity's configuration and the
/// configuration hash; then computes the result at the ledger timestamp
/// and records it as [`spec_record_result`] says.
pub open spec fn spec_calculate_sla(
    e: EnvView,
    caller: Address,
    outage_id: Symbol,
    severity: Symbol,
    mttr_minutes: u32,
) -> (Result<SLAResult, SLAError>, EnvView) {
    if SLACalculatorContract::spec_check_version(e.storage) is Err {
        (Err(SLACalculatorContract::spec_check_version(e.storage)->Err_0), e)
    } else if SLACalculatorContract::spec_paused(e.storage) {
        (Err(SLAError::ContractPaused), e)
    } else {
        let e1 = e.with_auth(caller);
        let s = e.storage;
        match SLACalculatorContract::spec_role_check(s.operator, caller) {
            Err(x) => (Err(x), e1),
            Ok(_) => match SLACalculatorContract::spec_load_config(s, severity) {
                Err(x) => (Err(x), e1),
                Ok(cfg) => match SLACalculatorContract::spec_compute_config_version_hash(s) {
                    Err(x) => (Err(x), e1),
                    Ok(h) => match spec_compute_result(outage_id, mttr_minutes, cfg, h, e.timestamp) {
                        Err(x) => (Err(x), e1),
                        Ok(result) => spec_record_result(e1, severity, mttr_minutes, cfg, h, result),
                    },
                },
            },
        }
    }
}

/// Appends a result to the stored history, keeping its newest entries when
/// the retention limit is then exceeded.
fn append_history(env: &mut ContractEnv, result: SLAResult)
    ensures
        final(env)@ == old(env)@.with_storage(StorageView {
            history: Some(history_appended(
                history_or_empty(old(env)@.storage),
                result,
                retention_or_default(old(env)@.storage),
            )),
            ..old(env)@.storage
        }),
{
    let retention_limit = match env.storage.retention_limit {
        Some(l) => l,
        None => MAX_HISTORY_SIZE,
    };
    let mut history = match env.storage.history.take() {
        Some(h) => h,
        None => Vec::new(),
    };
    history.push(result);
    if history.len() > retention_limit as usize {
        let len = history.len();
        history = copy_range(&history, len - retention_limit as usize, len);
    }
    env.storage.history = Some(history);
}

/// Records a freshly computed result; see [`spec_record_result`].
fn record_result(
    env: &mut ContractEnv,
    severity: Symbol,
    mttr_minutes: u32,
    cfg: &SLAConfig,
    config_version_hash: u64,
    result: SLAResult,
) -> (r: Result<SLAResult, SLAError>)
    requires
        result.status == Symbol::viol() ==> result.amount > i128::MIN,
    ensures
        r == spec_record_result(old(env)@, severity, mttr_minutes, *cfg, config_version_hash, result).0,
        final(env)@ == spec_record_result(old(env)@, severity, mttr_minutes, *cfg, config_version_hash, result).1,
{
    let met = result.status != Symbol::viol();
    let existing = match &env.storage.history {
        Some(h) => find_latest(h, &result.outage_id),
        None => None,
    };
    if let Some(prev) = existing {
        if prev.config_version_hash == config_version_hash {
            if prev.mttr_minutes != mttr_minutes || prev.threshold_minutes != cfg.threshold_minutes {
                return Err(SLAError::DuplicateOutageInput);
            }
            return Ok(prev);
        }
    }
    let ghost e0 = env@;
    record_severity_telemetry(env, &severity, met);
    let ghost e1 = env@;
    append_history(env, result);
    let ghost e2 = env@;
    if !met {
        increment_stats(env, false, 0, -result.amount);
    } else {
        increment_stats(env, true, result.amount, 0);
    }
    let ghost e3 = env@;
    publish_sla_event(env, severity, &result);
    publish_settlement_intent_event(env, severity, &result);
    proof {
        let (st, evs) = stats_after(
            stats_or_zero(e1.storage),
            met,
            if met { result.amount } else { 0 },
            if met { 0 } else { (-result.amount) as i128 },
        );
        assert(e3.events =~= e0.events + evs);
        assert(env@.events =~= e0.events + evs + seq![
            sla_event(severity, result),
            settlement_intent_event(severity, result),
        ]);
    }
    Ok(result)
}

/// Operator-gated SLA calculation; see [`spec_calculate_sla`].
pub fn calculate_sla(
    env: &mut ContractEnv,
    caller: &Address,
    outage_id: Symbol,
    severity: Symbol,
    mttr_minutes: u32,
) -> (r: Result<SLAResult, SLAError>)
    ensures
        r == spec_calculate_sla(old(env)@, *caller, outage_id, severity, mttr_minutes).0,
        final(env)@ == spec_calculate_sla(old(env)@, *caller, outage_id, severity, mttr_minutes).1,
{
    SLACalculatorContract::check_version(env)?;
    SLACalculatorContract::require_not_paused(env)?;
    SLACalculatorContract::require_operator(env, caller)?;
    let cfg = SLACalculatorContract::load_config(env, &severity)?;
    let config_version_hash = SLACalculatorContract::compute_config_version_hash(env)?;
    let result = compute_result(outage_id, mttr_minutes, &cfg, config_version_hash, env.timestamp)?;
    record_result(env, severity, mttr_minutes, &cfg, config_version_hash, result)
}

fn publish_sla_event(env: &mut ContractEnv, severity: Symbol, result: &SLAResult)
    ensures
        final(env)@ == old(env)@.emit(sla_event(severity, *result)),
{
    env.emit(
        event(
            Symbol::sla_calc(),
            EventContext::Name(severity),
            EventData::SlaCalculated {
                outage_id: result.outage_id,
                status: result.status,
                payment_type: result.payment_type,
                rating: result.rating,
                mttr_minutes: result.mttr_minutes,
                threshold_minutes: result.threshold_minutes,
                amount: result.amount,
            },
        ),
    );
}

fn publish_settlement_intent_event(env: &mut ContractEnv, severity: Symbol, result: &SLAResult)
    ensures
        final(env)@ == old(env)@.emit(settlement_intent_event(severity, *result)),
{
    env.emit(
        event(
            Symbol::set_int(),
            EventContext::Name(severity),
            EventData::SettlementIntent {
                outage_id: result.outage_id,
                status: result.status,
                payment_type: result.payment_type,
                amount: result.amount,
                config_version_hash: result.config_version_hash,
                recorded_at: result.recorded_at,
            },
        ),
    );
}

/// Read-only SLA calculation at the ledger timestamp: schema version,
/// configuration and configuration hash, then the result; no pause or
/// role check.
pub open spec fn spec_calculate_sla_view(
    e: EnvView,
    outage_id: Symbol,
    severity: Symbol,
    mttr_minutes: u32,
) -> Result<SLAResult, SLAError> {
    match SLACalculatorContract::spec_check_version(e.storage) {
        Err(x) => Err(x),
        Ok(_) => match SLACalculatorContract::spec_load_config(e.storage, severity) {
            Err(x) => Err(x),
            Ok(cfg) => match SLACalculatorContract::spec_compute_config_version_hash(e.storage) {
                Err(x) => Err(x),
                Ok(h) => spec_compute_result(outage_id, mttr_minutes, cfg, h, e.timestamp),
            },
        },
    }
}

/// Read-only SLA calculation; see [`spec_calculate_sla_view`].
pub fn calculate_sla_view(
    env: &ContractEnv,
    outage_id: Symbol,
    severity: Symbol,
    mttr_minutes: u32,
) -> (r: Result<SLAResult, SLAError>)
    ensures
        r == spec_calculate_sla_view(env@, outage_id, severity, mttr_minutes),
{
    SLACalculatorContract::check_version(env)?;
    let cfg = SLACalculatorContract::load_config(env, &severity)?;
    let config_version_hash = SLACalculatorContract::compute_config_version_hash(env)?;
    compute_result(outage_id, mttr_minutes, &cfg, config_version_hash, env.timestamp)
}

/// The cumulative statistics (`NotInitialized` when absent).
pub fn get_stats(env: &ContractEnv) -> (r: Result<SLAStats, SLAError>)
    ensures
        r == (match SLACalculatorContract::spec_check_version(env@.storage) {
            Err(x) => Err(x),
            Ok(_) => match env@.storage.stats {
                Some(st) => Ok(st),
                None => Err(SLAError::NotInitialized),
            },
        }),
{
    SLACalculatorContract::check_version(env)?;
    match env.storage.stats {
        Some(st) => Ok(st),
        None => Err(SLAError::NotInitialized),
    }
}

/// Telemetry of lane `i`: its counters and its violation rate, the
/// violations per hundred calculations (saturating), capped at 100, and 0
/// when there was no calculation.
pub open spec fn telemetry_entry(s: StorageView, i: int) -> SeverityTelemetry {
    let c = spec_lane(counts_or_zero(s.calc_counts), i as u32);
    let v = spec_lane(counts_or_zero(s.viol_counts), i as u32);
    let scaled: u32 = if v * 100 > u32::MAX { u32::MAX } else { (v * 100) as u32 };
    let rate: u32 = if c == 0 {
        0
    } else if scaled / c > 100 {
        100
    } else {
        (scaled / c) as u32
    };
    SeverityTelemetry {
        severity: SLACalculatorContract::canonical_severity(i),
        calculations: c,
        violations: v,
        violation_rate: rate,
    }
}

/// Per-severity weekly telemetry, one entry per canonical severity in
/// canonical order.
pub fn get_severity_telemetry(env: &ContractEnv) -> (r: Result<Vec<SeverityTelemetry>, SLAError>)
    ensures
        match SLACalculatorContract::spec_check_version(env@.storage) {
            Err(x) => r == Err::<Vec<SeverityTelemetry>, SLAError>(x),
            Ok(_) => r is Ok && r->Ok_0@ == Seq::new(4, |i: int| telemetry_entry(env@.storage, i)),
        },
{
    SLACalculatorContract::check_version(env)?;
    let mut telemetry: Vec<SeverityTelemetry> = Vec::new();
    let severities = SLACalculatorContract::canonical_severities(env);
    let calculations = load_counts(&env.storage.calc_counts);
    let violations = load_counts(&env.storage.viol_counts);
    let mut index: u32 = 0;
    while index < 4
        invariant
            index <= 4,
            severities@ == SLACalculatorContract::spec_canonical_severities(),
            calculations == counts_or_zero(env@.storage.calc_counts),
            violations == counts_or_zero(env@.storage.viol_counts),
            telemetry@ == Seq::new(index as nat, |i: int| telemetry_entry(env@.storage, i)),
        decreases 4 - index,
    {
        let severity = severities[index as usize];
        let calc_count = count_lane(calculations, index);
        let violation_count = count_lane(violations, index);
        let scaled = if violation_count > u32::MAX / 100 {
            u32::MAX
        } else {
            violation_count * 100
        };
        let violation_rate = if calc_count == 0 {
            0u32
        } else if scaled / calc_count > 100 {
            100
        } else {
            scaled / calc_count
        };
        telemetry.push(SeverityTelemetry {
            severity,
            calculations: calc_count,
            violations: violation_count,
            violation_rate,
        });
        index += 1;
        assert(telemetry@ =~= Seq::new(index as nat, |i: int| telemetry_entry(env@.storage, i)));
    }
    Ok(telemetry)
}

/// Deterministic replay: the result `calculate_sla` would produce for the
/// given inputs under the current configuration, recorded at
/// `recorded_at_ledger`, with the configuration hash used.
pub open spec fn spec_replay(
    e: EnvView,
    outage_id: Symbol,
    severity: Symbol,
    mttr_minutes: u32,
    recorded_at_ledger: u64,
) -> Result<(SLAResult, u64), SLAError> {
    match SLACalculatorContract::spec_check_version(e.storage) {
        Err(x) => Err(x),
        Ok(_) => match SLACalculatorContract::spec_load_config(e.storage, severity) {
            Err(x) => Err(x),
            Ok(cfg) => match SLACalculatorContract::spec_compute_config_version_hash(e.storage) {
                Err(x) => Err(x),
                Ok(h) => match spec_compute_result(outage_id, mttr_minutes, cfg, h, recorded_at_ledger) {
                    Err(x) => Err(x),
                    Ok(r) => Ok((r, h)),
                },
            },
        },
    }
}

impl SLACalculatorContract {
    /// Operator-gated SLA calculation; see [`spec_calculate_sla`].
    pub fn calculate_sla(
        env: &mut ContractEnv,
        caller: Address,
        outage_id: Symbol,
        severity: Symbol,
        mttr_minutes: u32,
    ) -> (r: Result<SLAResult, SLAError>)
        ensures
            r == spec_calculate_sla(old(env)@, caller, outage_id, severity, mttr_minutes).0,
            final(env)@ == spec_calculate_sla(old(env)@, caller, outage_id, severity, mttr_minutes).1,
    {
        calculate_sla(env, &caller, outage_id, severity, mttr_minutes)
    }

    /// Read-only SLA calculation, open to anyone, ignoring the pause flag.
    pub fn calculate_sla_view(
        env: &ContractEnv,
        outage_id: Symbol,
        severity: Symbol,
        mttr_minutes: u32,
    ) -> (r: Result<SLAResult, SLAError>)
        ensures
            r == spec_calculate_sla_view(env@, outage_id, severity, mttr_minutes),
    {
        calculate_sla_view(env, outage_id, severity, mttr_minutes)
    }

    /// Deterministic replay view; see [`spec_replay`].
    pub fn replay_calculate_sla(
        env: &ContractEnv,
        outage_id: Symbol,
        severity: Symbol,
        mttr_minutes: u32,
        recorded_at_ledger: u64,
    ) -> (r: Result<(SLAResult, u64), SLAError>)
        ensures
            r == spec_replay(env@, outage_id, severity, mttr_minutes, recorded_at_ledger),
    {
        Self::check_version(env)?;
        let cfg = Self::load_config(env, &severity)?;
        let config_version_hash = Self::compute_config_version_hash(env)?;
        let result = compute_result(outage_id, mttr_minutes, &cfg, config_version_hash, recorded_at_ledger)?;
        Ok((result, config_version_hash))
    }

    /// Computes one SLA result; see [`spec_compute_result`].
    pub fn compute_result(
        outage_id: Symbol,
        mttr_minutes: u32,
        cfg: &SLAConfig,
        config_version_hash: u64,
        recorded_at: u64,
    ) -> (r: Result<SLAResult, SLAError>)
        ensures
            r == spec_compute_result(outage_id, mttr_minutes, *cfg, config_version_hash, recorded_at),
    {
        compute_result(outage_id, mttr_minutes, cfg, config_version_hash, recorded_at)
    }

    /// The cumulative statistics.
    pub fn get_stats(env: &ContractEnv) -> (r: Result<SLAStats, SLAError>)
        ensures
            r == (match Self::spec_check_version(env@.storage) {
                Err(x) => Err(x),
                Ok(_) => match env@.storage.stats {
                    Some(st) => Ok(st),
                    None => Err(SLAError::NotInitialized),
                },
            }),
    {
        get_stats(env)
    }

    /// Per-severity weekly telemetry.
    pub fn get_severity_telemetry(env: &ContractEnv) -> (r: Result<Vec<SeverityTelemetry>, SLAError>)
        ensures
            match Self::spec_check_version(env@.storage) {
                Err(x) => r == Err::<Vec<SeverityTelemetry>, SLAError>(x),
                Ok(_) => r is Ok && r->Ok_0@ == Seq::new(4, |i: int| telemetry_entry(env@.storage, i)),
            },
    {
        get_severity_telemetry(env)
    }

    /// Reads counter lane `index` (0..4).
    pub fn count_lane(packed: u128, index: u32) -> (r: u32)
        requires
            index < 4,
        ensures
            r == spec_lane(packed, index),
    {
        count_lane(packed, index)
    }

    /// Returns `packed` with lane `index` (0..4) replaced by `value`.
    pub fn set_count_lane(packed: u128, index: u32, value: u32) -> (r: u128)
        requires
            index < 4,
        ensures
            r == spec_set_lane(packed, index, value),
    {
        set_count_lane(packed, index, value)
    }
}

} // verus!
