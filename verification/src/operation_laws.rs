//! What the calculation, validation and history operations give, stated
//! over their inputs and results.
use vstd::prelude::*;
use crate::symbol::{Address, Symbol};
use crate::env::{ContractEvent, EnvView, EventContext, EventData};
use crate::calculation::{sat_add_u32, spec_lane, spec_set_lane, telemetry_after, WEEK_SECONDS, history_or_empty, latest_by_outage, retention_or_default, spec_calculate_sla, spec_calculate_sla_view, spec_compute_result};
use crate::history::{entries_for_outage, history_page, recorded_since, spec_prune_history_by_age};
use crate::{SLAConfig, SLAError, SLAResult, SLAStats, SLACalculatorContract};

use crate::laws::law_lane_roundtrip;

verus! {

/// For `t > 0` and `a >= 0`: `a / t < k` exactly when `a < k t`.
proof fn lemma_div_below(a: int, t: int, k: int)
    requires
        t > 0,
        a >= 0,
        k >= 0,
    ensures
        (a / t < k) <==> (a < k * t),
{
    assert(t * (a / t) + a % t == a) by (nonlinear_arith)
        requires
            t > 0,
    ;
    assert(0 <= a % t < t) by (nonlinear_arith)
        requires
            t > 0,
    ;
    if a / t < k {
        assert(a / t <= k - 1);
        assert(t * (a / t) <= t * (k - 1)) by (nonlinear_arith)
            requires
                a / t <= k - 1,
                t > 0,
        ;
        assert(a < k * t) by (nonlinear_arith)
            requires
                t * (a / t) + a % t == a,
                a % t < t,
                t * (a / t) <= t * (k - 1),
        ;
    } else {
        assert(t * (a / t) >= t * k) by (nonlinear_arith)
            requires
                a / t >= k,
                t > 0,
        ;
        assert(a >= k * t) by (nonlinear_arith)
            requires
                t * (a / t) + a % t == a,
                a % t >= 0,
                t * (a / t) >= t * k,
        ;
    }
}

/// The SLA amount.  Above the threshold the SLA is violated and the amount
/// is minus the whole overtime times the penalty per minute, rated `poor`;
/// the result exists exactly when that penalty is positive and fits in
/// `i128`.  At or below the threshold the SLA is met and the amount is the
/// reward base times 200 (repair time under half the threshold, or a zero
/// threshold; rated `top`), 150 (under three quarters; `excel`) or 100
/// (`good`), divided by 100 and rounded down; the result exists exactly
/// when that product is at least 100 and fits in `i128`.  Every result
/// echoes the outage, repair time, threshold, hash and recording time.
pub proof fn law_compute_result_amounts(
    outage_id: Symbol,
    mttr_minutes: u32,
    cfg: SLAConfig,
    config_version_hash: u64,
    recorded_at: u64,
)
    ensures
        ({
            let r = spec_compute_result(outage_id, mttr_minutes, cfg, config_version_hash, recorded_at);
            let t = cfg.threshold_minutes;
            &&& mttr_minutes > t ==> {
                let p: int = (mttr_minutes - t) * cfg.penalty_per_minute;
                &&& (r is Ok <==> 0 < p <= i128::MAX)
                &&& r is Ok ==> r->Ok_0.amount == -p && r->Ok_0.status == Symbol::viol()
                    && r->Ok_0.payment_type == Symbol::pen() && r->Ok_0.rating == Symbol::poor()
                &&& r is Err ==> r->Err_0 == SLAError::InvalidPenaltyAmount
            }
            &&& mttr_minutes <= t ==> {
                let m: int = if t == 0 || mttr_minutes * 100 < 50 * t {
                    200
                } else if mttr_minutes * 100 < 75 * t {
                    150
                } else {
                    100
                };
                let q: int = cfg.reward_base * m;
                &&& (r is Ok <==> 100 <= q <= i128::MAX)
                &&& r is Ok ==> r->Ok_0.amount == q / 100 && r->Ok_0.status == Symbol::met()
                    && r->Ok_0.payment_type == Symbol::rew()
                    && r->Ok_0.rating == (if m == 200 {
                    Symbol::top()
                } else if m == 150 {
                    Symbol::excel()
                } else {
                    Symbol::good()
                })
                &&& r is Err ==> r->Err_0 == SLAError::InvalidRewardAmount
            }
            &&& r is Ok ==> {
                &&& r->Ok_0.outage_id == outage_id
                &&& r->Ok_0.mttr_minutes == mttr_minutes
                &&& r->Ok_0.threshold_minutes == t
                &&& r->Ok_0.config_version_hash == config_version_hash
                &&& r->Ok_0.recorded_at == recorded_at
            }
        }),
{
    let t = cfg.threshold_minutes;
    if mttr_minutes <= t && t > 0 {
        let a: int = mttr_minutes * 100;
        lemma_div_below(a, t as int, 50);
        lemma_div_below(a, t as int, 75);
        let m: int = if mttr_minutes * 100 < 50 * t {
            200
        } else if mttr_minutes * 100 < 75 * t {
            150
        } else {
            100
        };
        let q: int = cfg.reward_base * m;
        assert((q / 100 <= 0) <==> (q < 100)) by (nonlinear_arith);
        assert(q >= 100 ==> q >= i128::MIN);
    } else if mttr_minutes <= t {
        let q: int = cfg.reward_base * 200;
        assert((q / 100 <= 0) <==> (q < 100)) by (nonlinear_arith);
    }
}

/// The validation table of canonical severities.  A configuration passes
/// exactly when the severity is canonical, the threshold is between 1 and
/// the severity's maximum (critical 60, high 120, medium 240, low 1440),
/// the penalty per minute is between the severity's minimum (critical 50,
/// high 25, medium 10, low 1) and its maximum (low 100, others 10000),
/// the reward base is between 1 and 100000, and the penalty is below the
/// reward.  A threshold over the severity's maximum, with penalty and
/// reward in their general ranges, fails with `InvalidThreshold`; so does
/// a zero threshold or one over 1440.  A non-canonical severity fails
/// with `InvalidSeverity`.
pub proof fn law_validation_table(severity: Symbol, t: u32, p: i128, r: i128)
    ensures
        ({
            let v = SLACalculatorContract::spec_validate_config(severity, t, p, r);
            let canonical = severity == Symbol::critical() || severity == Symbol::high() || severity
                == Symbol::medium() || severity == Symbol::low();
            let max_t: int = if severity == Symbol::critical() {
                60
            } else if severity == Symbol::high() {
                120
            } else if severity == Symbol::medium() {
                240
            } else {
                1440
            };
            let min_p: int = if severity == Symbol::critical() {
                50
            } else if severity == Symbol::high() {
                25
            } else if severity == Symbol::medium() {
                10
            } else {
                1
            };
            let max_p: int = if severity == Symbol::low() {
                100
            } else {
                10000
            };
            let general = 1 <= p <= 10000 && 1 <= r <= 100000;
            &&& (v is Ok <==> canonical && 1 <= t <= max_t && min_p <= p <= max_p && 1 <= r <= 100000 && p < r)
            &&& !canonical ==> v == Err::<(), SLAError>(SLAError::InvalidSeverity)
            &&& canonical && (t == 0 || t > 1440) ==> v == Err::<(), SLAError>(SLAError::InvalidThreshold)
            &&& canonical && t > max_t && general ==> v == Err::<(), SLAError>(SLAError::InvalidThreshold)
            &&& canonical && 1 <= t <= max_t && general && (p < min_p || p > max_p || p >= r) ==> v
                == Err::<(), SLAError>(SLAError::InvalidPenalty)
        }),
{
}

/// A page of the history holds at most `limit` entries: the entries from
/// `offset` on, as many as `limit` allows and the history holds.
pub proof fn law_history_page_bounds(h: Seq<SLAResult>, offset: u32, limit: u32)
    ensures
        ({
            let page = history_page(h, offset, limit);
            let n: int = if offset >= h.len() {
                0
            } else if h.len() - offset < limit {
                h.len() - offset
            } else {
                limit as int
            };
            &&& page.len() <= limit
            &&& page.len() == n
            &&& forall|i: int| 0 <= i < page.len() ==> #[trigger] page[i] == h[offset + i]
        }),
{
}

/// The entries recorded at or after `cutoff` are the entries of `h` that
/// were recorded at or after `cutoff`: nothing else, nothing left out.
proof fn lemma_recorded_since(h: Seq<SLAResult>, cutoff: u64)
    ensures
        ({
            let k = recorded_since(h, cutoff);
            &&& k.len() <= h.len()
            &&& forall|i: int| 0 <= i < k.len() ==> (#[trigger] k[i]).recorded_at >= cutoff && h.contains(k[i])
            &&& forall|i: int| 0 <= i < h.len() && (#[trigger] h[i]).recorded_at >= cutoff ==> k.contains(h[i])
            &&& k.len() == h.len() ==> forall|i: int| 0 <= i < h.len() ==> (#[trigger] h[i]).recorded_at >= cutoff
        }),
    decreases h.len(),
{
    if h.len() > 0 {
        let d = h.drop_last();
        lemma_recorded_since(d, cutoff);
        let kd = recorded_since(d, cutoff);
        let k = recorded_since(h, cutoff);
        assert forall|i: int| 0 <= i < k.len() implies (#[trigger] k[i]).recorded_at >= cutoff && h.contains(k[i]) by {
            if i < kd.len() {
                assert(k[i] == kd[i]);
                let j = choose|j: int| 0 <= j < d.len() && d[j] == kd[i];
                assert(h[j] == d[j]);
            } else {
                assert(k[i] == h.last());
                assert(h[h.len() - 1] == h.last());
            }
        }
        assert forall|i: int| 0 <= i < h.len() && (#[trigger] h[i]).recorded_at >= cutoff implies k.contains(h[i]) by {
            if i < h.len() - 1 {
                assert(d[i] == h[i]);
                assert(kd.contains(d[i]));
                let j = choose|j: int| 0 <= j < kd.len() && kd[j] == d[i];
                assert(k[j] == kd[j]);
            } else {
                assert(k[k.len() - 1] == h.last());
            }
        }
        if k.len() == h.len() {
            assert(h.last().recorded_at >= cutoff);
            assert(kd.len() == d.len());
            assert forall|i: int| 0 <= i < h.len() implies (#[trigger] h[i]).recorded_at >= cutoff by {
                if i < h.len() - 1 {
                    assert(d[i] == h[i]);
                }
            }
        }
    }
}

/// Pruning by age, at ledger time `now`, keeps exactly the entries recorded
/// at or after `now - min_age_seconds` (0 when that is negative): every
/// kept entry is one of the history's and is that recent, and every entry
/// that recent is kept.
pub proof fn law_prune_by_age_keeps_recent(e: EnvView, caller: Address, min_age_seconds: u64)
    requires
        spec_prune_history_by_age(e, caller, min_age_seconds).0 is Ok,
    ensures
        ({
            let cutoff: int = if e.timestamp >= min_age_seconds {
                e.timestamp - min_age_seconds
            } else {
                0
            };
            let h = history_or_empty(e.storage);
            let h1 = history_or_empty(spec_prune_history_by_age(e, caller, min_age_seconds).1.storage);
            &&& forall|i: int| 0 <= i < h1.len() ==> (#[trigger] h1[i]).recorded_at >= cutoff && h.contains(h1[i])
            &&& forall|i: int| 0 <= i < h.len() && (#[trigger] h[i]).recorded_at >= cutoff ==> h1.contains(h[i])
            &&& h1.len() < h.len() ==> spec_prune_history_by_age(e, caller, min_age_seconds).1.events.last().data
                == EventData::Counts { removed: (h.len() - h1.len()) as u32, kept: h1.len() as u32 }
        }),
{
    let h = history_or_empty(e.storage);
    let c = e.timestamp.saturating_sub(min_age_seconds);
    lemma_recorded_since(h, c);
    let h1 = history_or_empty(spec_prune_history_by_age(e, caller, min_age_seconds).1.storage);
    if h1 == h {
        assert forall|i: int| 0 <= i < h.len() && (#[trigger] h[i]).recorded_at >= c implies h1.contains(h[i]) by {
            assert(h1[i] == h[i]);
        }
        assert forall|i: int| 0 <= i < h1.len() implies h.contains(#[trigger] h1[i]) by {
            assert(h[i] == h1[i]);
        }
    }
}

/// The newest entry for an outage is one of the history's, for that outage.
proof fn lemma_latest_in_history(h: Seq<SLAResult>, outage_id: Symbol)
    ensures
        latest_by_outage(h, outage_id) is Some ==> {
            &&& latest_by_outage(h, outage_id)->Some_0.outage_id == outage_id
            &&& h.contains(latest_by_outage(h, outage_id)->Some_0)
        },
    decreases h.len(),
{
    if h.len() > 0 {
        lemma_latest_in_history(h.drop_last(), outage_id);
        if h.last().outage_id == outage_id {
            assert(h[h.len() - 1] == h.last());
        } else if latest_by_outage(h, outage_id) is Some {
            let p = latest_by_outage(h, outage_id)->Some_0;
            let j = choose|j: int| 0 <= j < h.drop_last().len() && h.drop_last()[j] == p;
            assert(h[j] == h.drop_last()[j]);
        }
    }
}

/// A calculation for an outage none of whose stored entries was computed
/// under the current configuration hash is a fresh calculation: it
/// returns exactly what the read-only calculation returns on the same
/// state, carrying the current hash; the history ends with it (when the
/// retention limit keeps at least one entry); the calculation counter
/// grows by one (unless saturated); and the last event is its settlement
/// intent.
#[verifier::rlimit(40)]
pub proof fn law_changed_config_recalculates(
    e: EnvView,
    caller: Address,
    outage_id: Symbol,
    severity: Symbol,
    mttr_minutes: u32,
)
    requires
        spec_calculate_sla(e, caller, outage_id, severity, mttr_minutes).0 is Ok,
        forall|i: int|
            0 <= i < history_or_empty(e.storage).len() && (#[trigger] history_or_empty(e.storage)[i]).outage_id
                == outage_id ==> Ok::<u64, SLAError>(history_or_empty(e.storage)[i].config_version_hash)
                != SLACalculatorContract::spec_compute_config_version_hash(e.storage),
    ensures
        ({
            let (r, e1) = spec_calculate_sla(e, caller, outage_id, severity, mttr_minutes);
            let v = spec_calculate_sla_view(e, outage_id, severity, mttr_minutes);
            let h1 = history_or_empty(e1.storage);
            let c0: int = match e.storage.stats {
                Some(st) => st.total_calculations as int,
                None => 0,
            };
            let st0 = match e.storage.stats {
                Some(st) => st,
                None => SLAStats { total_calculations: 0, total_violations: 0, total_rewards: 0, total_penalties: 0 },
            };
            let st1 = e1.storage.stats->Some_0;
            let amount = r->Ok_0.amount;
            let l = retention_or_default(e.storage);
            let h = history_or_empty(e.storage);
            &&& v is Ok
            &&& r->Ok_0 == v->Ok_0
            &&& SLACalculatorContract::spec_compute_config_version_hash(e.storage) == Ok::<u64, SLAError>(
                r->Ok_0.config_version_hash,
            )
            &&& retention_or_default(e.storage) >= 1 ==> h1.len() >= 1 && h1.last() == r->Ok_0
            &&& h1.len() == if h.len() + 1 > l { l as int } else { h.len() + 1int }
            &&& e1.storage.stats is Some
            &&& st1.total_calculations == if c0 == u64::MAX { c0 } else { c0 + 1 }
            &&& amount > 0 ==> st1.total_violations == st0.total_violations && st1.total_penalties
                == st0.total_penalties && (st0.total_rewards + amount <= i128::MAX ==> st1.total_rewards
                == st0.total_rewards + amount)
            &&& amount < 0 ==> st1.total_rewards == st0.total_rewards && (st0.total_violations < u64::MAX
                ==> st1.total_violations == st0.total_violations + 1) && (st0.total_penalties - amount
                <= i128::MAX ==> st1.total_penalties == st0.total_penalties - amount)
            &&& e1.events.len() >= e.events.len() + 2
            &&& e1.events.last() == (ContractEvent {
                topic: Symbol::set_int(),
                version: Symbol::v1(),
                context: EventContext::Name(severity),
                data: EventData::SettlementIntent {
                    outage_id,
                    status: r->Ok_0.status,
                    payment_type: r->Ok_0.payment_type,
                    amount,
                    config_version_hash: r->Ok_0.config_version_hash,
                    recorded_at: e.timestamp,
                },
            })
        }),
{
    let h = history_or_empty(e.storage);
    lemma_latest_in_history(h, outage_id);
    let prev = latest_by_outage(h, outage_id);
    if prev is Some {
        let p = prev->Some_0;
        let j = choose|j: int| 0 <= j < h.len() && h[j] == p;
        assert(h[j].outage_id == outage_id);
    }
    let r = spec_calculate_sla(e, caller, outage_id, severity, mttr_minutes).0->Ok_0;
    let e1 = spec_calculate_sla(e, caller, outage_id, severity, mttr_minutes).1;
    let t = h.push(r);
    let l = retention_or_default(e.storage);
    if l >= 1 {
        if t.len() > l {
            assert(history_or_empty(e1.storage) == t.subrange(t.len() - l, t.len() as int));
        }
        assert(history_or_empty(e1.storage).last() == r);
    }
}

/// The newest entry for an outage is the one at the last index holding it.
proof fn lemma_latest_is_last_index(h: Seq<SLAResult>, outage_id: Symbol, j: int)
    requires
        0 <= j < h.len(),
        h[j].outage_id == outage_id,
        forall|k: int| j < k < h.len() ==> (#[trigger] h[k]).outage_id != outage_id,
    ensures
        latest_by_outage(h, outage_id) == Some(h[j]),
    decreases h.len(),
{
    if j < h.len() - 1 {
        let d = h.drop_last();
        assert(h.last() == h[h.len() - 1]);
        assert forall|k: int| j < k < d.len() implies (#[trigger] d[k]).outage_id != outage_id by {
            assert(d[k] == h[k]);
        }
        assert(d[j] == h[j]);
        lemma_latest_is_last_index(d, outage_id, j);
    } else {
        assert(h.last() == h[j]);
    }
}

/// Resubmitting an outage whose newest stored entry was computed under the
/// current configuration hash, once the version, pause, role and
/// configuration checks pass: with the same repair time and threshold the
/// stored entry is returned and nothing but the authorization is recorded;
/// with a different repair time or threshold the call fails with
/// `DuplicateOutageInput` and storage and events stay as they were.
pub proof fn law_duplicate_outage_inputs(
    e: EnvView,
    caller: Address,
    outage_id: Symbol,
    severity: Symbol,
    mttr_minutes: u32,
    j: int,
)
    requires
        SLACalculatorContract::spec_check_version(e.storage) is Ok,
        !SLACalculatorContract::spec_paused(e.storage),
        e.storage.operator == Some(caller),
        spec_calculate_sla_view(e, outage_id, severity, mttr_minutes) is Ok,
        0 <= j < history_or_empty(e.storage).len(),
        history_or_empty(e.storage)[j].outage_id == outage_id,
        forall|k: int|
            j < k < history_or_empty(e.storage).len() ==> (#[trigger] history_or_empty(e.storage)[k]).outage_id
                != outage_id,
        SLACalculatorContract::spec_compute_config_version_hash(e.storage) == Ok::<u64, SLAError>(
            history_or_empty(e.storage)[j].config_version_hash,
        ),
    ensures
        ({
            let p = history_or_empty(e.storage)[j];
            let (r, e1) = spec_calculate_sla(e, caller, outage_id, severity, mttr_minutes);
            let cfg = SLACalculatorContract::spec_load_config(e.storage, severity)->Ok_0;
            &&& p.mttr_minutes == mttr_minutes && p.threshold_minutes == cfg.threshold_minutes ==> r == Ok::<
                SLAResult,
                SLAError,
            >(p) && e1 == e.with_auth(caller)
            &&& !(p.mttr_minutes == mttr_minutes && p.threshold_minutes == cfg.threshold_minutes) ==> r == Err::<
                SLAResult,
                SLAError,
            >(SLAError::DuplicateOutageInput) && e1.storage == e.storage && e1.events == e.events
        }),
{
    lemma_latest_is_last_index(history_or_empty(e.storage), outage_id, j);
}

/// The newest entry of an outage: none exactly when no entry is for the
/// outage; otherwise the entry at the last index holding the outage.
pub proof fn law_latest_by_outage(h: Seq<SLAResult>, outage_id: Symbol)
    ensures
        latest_by_outage(h, outage_id) is None <==> forall|i: int| 0 <= i < h.len() ==> (#[trigger] h[i]).outage_id
            != outage_id,
        latest_by_outage(h, outage_id) is Some ==> exists|j: int|
            0 <= j < h.len() && h[j] == latest_by_outage(h, outage_id)->Some_0 && h[j].outage_id == outage_id
                && forall|k: int| j < k < h.len() ==> (#[trigger] h[k]).outage_id != outage_id,
    decreases h.len(),
{
    if h.len() > 0 {
        let d = h.drop_last();
        law_latest_by_outage(d, outage_id);
        assert(h.last() == h[h.len() - 1]);
        if h.last().outage_id != outage_id {
            assert forall|i: int| 0 <= i < d.len() implies d[i] == h[i] by {}
            if latest_by_outage(d, outage_id) is Some {
                let j = choose|j: int|
                    0 <= j < d.len() && d[j] == latest_by_outage(d, outage_id)->Some_0 && d[j].outage_id == outage_id
                        && forall|k: int| j < k < d.len() ==> (#[trigger] d[k]).outage_id != outage_id;
                assert(h[j] == d[j]);
                assert forall|k: int| j < k < h.len() implies (#[trigger] h[k]).outage_id != outage_id by {
                    if k < d.len() {
                        assert(d[k] == h[k]);
                    }
                }
            } else {
                assert forall|i: int| 0 <= i < h.len() implies (#[trigger] h[i]).outage_id != outage_id by {
                    if i < d.len() {
                        assert(d[i] == h[i]);
                    }
                }
            }
        }
    }
}

/// The entries of an outage: every one of them is a history entry for the
/// outage, and every history entry for the outage is among them.
pub proof fn law_entries_for_outage(h: Seq<SLAResult>, outage_id: Symbol)
    ensures
        ({
            let k = entries_for_outage(h, outage_id);
            &&& forall|i: int| 0 <= i < k.len() ==> (#[trigger] k[i]).outage_id == outage_id && h.contains(k[i])
            &&& forall|i: int| 0 <= i < h.len() && (#[trigger] h[i]).outage_id == outage_id ==> k.contains(h[i])
        }),
    decreases h.len(),
{
    if h.len() > 0 {
        let d = h.drop_last();
        law_entries_for_outage(d, outage_id);
        let kd = entries_for_outage(d, outage_id);
        let k = entries_for_outage(h, outage_id);
        assert forall|i: int| 0 <= i < k.len() implies (#[trigger] k[i]).outage_id == outage_id && h.contains(k[i]) by {
            if i < kd.len() {
                assert(k[i] == kd[i]);
                let j = choose|j: int| 0 <= j < d.len() && d[j] == kd[i];
                assert(h[j] == d[j]);
            } else {
                assert(k[i] == h.last());
                assert(h[h.len() - 1] == h.last());
            }
        }
        assert forall|i: int| 0 <= i < h.len() && (#[trigger] h[i]).outage_id == outage_id implies k.contains(h[i]) by {
            if i < h.len() - 1 {
                assert(d[i] == h[i]);
                assert(kd.contains(d[i]));
                let j = choose|j: int| 0 <= j < kd.len() && kd[j] == d[i];
                assert(k[j] == kd[j]);
            } else {
                assert(k[k.len() - 1] == h.last());
            }
        }
    }
}

/// Recording one calculation in telemetry lane `index` at time `now`: the
/// lane's counters restart from zero when its last calculation or last
/// violation happened a week or more before `now`; then its calculation
/// counter grows by one and, on a violation, its violation counter too
/// (both capped at `u32::MAX`); its last-calculation time, and on a
/// violation its last-violation time, become `now` (capped at
/// `u32::MAX`).  Every other lane keeps all its values.
pub proof fn law_telemetry_lane_update(
    calc: u128,
    viol: u128,
    last_calc: u128,
    last_viol: u128,
    index: u32,
    now: u64,
    met: bool,
    other: u32,
)
    requires
        index < 4,
        other < 4,
    ensures
        ({
            let (c2, v2, lc2, lv2) = telemetry_after(calc, viol, last_calc, last_viol, index, now, met);
            let lc: int = spec_lane(last_calc, index) as int;
            let lv: int = spec_lane(last_viol, index) as int;
            let stale = (lc != 0 && now >= lc + WEEK_SECONDS) || (lv != 0 && now >= lv + WEEK_SECONDS);
            let base_c: int = if stale { 0 } else { spec_lane(calc, index) as int };
            let base_v: int = if stale { 0 } else { spec_lane(viol, index) as int };
            let cap = |x: int| if x > u32::MAX { u32::MAX as int } else { x };
            &&& spec_lane(c2, index) == cap(base_c + 1)
            &&& spec_lane(v2, index) == (if met { base_v } else { cap(base_v + 1) })
            &&& spec_lane(lc2, index) == cap(now as int)
            &&& spec_lane(lv2, index) == (if met { lv } else { cap(now as int) })
            &&& other != index ==> {
                &&& spec_lane(c2, other) == spec_lane(calc, other)
                &&& spec_lane(v2, other) == spec_lane(viol, other)
                &&& spec_lane(lc2, other) == spec_lane(last_calc, other)
                &&& spec_lane(lv2, other) == spec_lane(last_viol, other)
            }
        }),
{
    let lc = spec_lane(last_calc, index) as u64;
    let lv = spec_lane(last_viol, index) as u64;
    let calc_stale = lc != 0 && now.saturating_sub(lc) >= WEEK_SECONDS;
    let viol_stale = lv != 0 && now.saturating_sub(lv) >= WEEK_SECONDS;
    let c1 = if calc_stale || viol_stale { spec_set_lane(calc, index, 0) } else { calc };
    let v1 = if calc_stale || viol_stale { spec_set_lane(viol, index, 0) } else { viol };
    law_lane_roundtrip(calc, index, other, 0);
    law_lane_roundtrip(viol, index, other, 0);
    let c2v = sat_add_u32(spec_lane(c1, index), 1);
    law_lane_roundtrip(c1, index, other, c2v);
    let v2v = sat_add_u32(spec_lane(v1, index), 1);
    law_lane_roundtrip(v1, index, other, v2v);
    let current: u32 = if now > u32::MAX { u32::MAX } else { now as u32 };
    law_lane_roundtrip(last_calc, index, other, current);
    law_lane_roundtrip(last_viol, index, other, current);
}

} // verus!
