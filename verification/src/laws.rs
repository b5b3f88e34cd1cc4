//! Properties of the calculator that span inputs, operations or states.
use vstd::prelude::*;
use crate::symbol::{Address, Symbol};
use crate::symbol_map::{entries_get, entries_remove, entries_set, entries_sorted};
use crate::env::{EnvView, PauseView, StorageView};
use crate::governance::{
    spec_accept_admin, spec_accept_operator, spec_cancel_admin_proposal, spec_cancel_operator_proposal,
    spec_propose_admin, spec_propose_operator, spec_renounce_admin, spec_set_operator,
};
use crate::metadata::{spec_pause, spec_unpause};
use crate::config_freeze::{spec_freeze, spec_unfreeze};
use crate::history::{spec_prune_history, spec_prune_history_by_age, spec_set_retention_limit};
use crate::calculation::{
    history_appended, history_or_empty, latest_by_outage, retention_or_default, spec_calculate_sla,
    spec_calculate_sla_view, spec_compute_result, spec_lane, spec_replay, telemetry_entry,
    spec_set_lane,
};
use crate::config::{canonical_entries, custom_or_empty, spec_remove_custom_severity, spec_set_config, spec_set_custom_severity};
use crate::calculation::zero_stats;
use crate::ordered_map::{entries_unique, lemma_remove_appended, lemma_remove_get, lemma_upsert_absent, lemma_upsert_get};
use crate::lifecycle::{with_defaults, default_configs, default_critical, default_high, default_low, default_medium, spec_initialize, spec_migrate};
use crate::{SLAConfig, SLAConfigEntry, SLAError, SLAResult, SLACalculatorContract};

verus! {

/// A configuration that passes the general bounds always yields a result:
/// for every repair time the SLA is met exactly when the repair time is
/// within the threshold; a met SLA pays a positive reward, a violated one
/// charges a negative penalty rated `poor`; the result echoes the outage,
/// the threshold, the hash and the recording time.
pub proof fn law_valid_config_always_computes(
    outage_id: Symbol,
    mttr_minutes: u32,
    cfg: SLAConfig,
    config_version_hash: u64,
    recorded_at: u64,
)
    requires
        SLACalculatorContract::spec_validate_general_bounds(
            cfg.threshold_minutes,
            cfg.penalty_per_minute,
            cfg.reward_base,
        ) is Ok,
    ensures
        ({
            let r = spec_compute_result(outage_id, mttr_minutes, cfg, config_version_hash, recorded_at);
            &&& r is Ok
            &&& r->Ok_0.outage_id == outage_id
            &&& r->Ok_0.threshold_minutes == cfg.threshold_minutes
            &&& r->Ok_0.mttr_minutes == mttr_minutes
            &&& r->Ok_0.config_version_hash == config_version_hash
            &&& r->Ok_0.recorded_at == recorded_at
            &&& (mttr_minutes <= cfg.threshold_minutes ==> {
                &&& r->Ok_0.status == Symbol::met()
                &&& r->Ok_0.payment_type == Symbol::rew()
                &&& r->Ok_0.amount > 0
            })
            &&& (mttr_minutes > cfg.threshold_minutes ==> {
                &&& r->Ok_0.status == Symbol::viol()
                &&& r->Ok_0.payment_type == Symbol::pen()
                &&& r->Ok_0.rating == Symbol::poor()
                &&& r->Ok_0.amount < 0
            })
        }),
{
    let threshold = cfg.threshold_minutes;
    if mttr_minutes > threshold {
        let overtime: int = mttr_minutes - threshold;
        assert(overtime * cfg.penalty_per_minute <= u32::MAX * 10000) by (nonlinear_arith)
            requires
                0 < overtime <= u32::MAX,
                0 < cfg.penalty_per_minute <= 10000,
        ;
        assert(overtime * cfg.penalty_per_minute > 0) by (nonlinear_arith)
            requires
                0 < overtime,
                0 < cfg.penalty_per_minute,
        ;
    } else {
        let ratio: int = if threshold == 0 {
            0
        } else {
            (mttr_minutes * 100) / (threshold as int)
        };
        let m: int = if ratio < 50 {
            200
        } else if ratio < 75 {
            150
        } else {
            100
        };
        assert(100 <= cfg.reward_base * m <= 100000 * 200) by (nonlinear_arith)
            requires
                1 <= cfg.reward_base <= 100000,
                100 <= m <= 200,
        ;
        assert((cfg.reward_base * m) / 100 > 0) by (nonlinear_arith)
            requires
                cfg.reward_base * m >= 100,
        ;
    }
}

/// Validation of a canonical severity is at least as strict as the
/// general bounds.
pub proof fn law_validate_config_implies_general_bounds(
    severity: Symbol,
    threshold_minutes: u32,
    penalty_per_minute: i128,
    reward_base: i128,
)
    requires
        SLACalculatorContract::spec_validate_config(severity, threshold_minutes, penalty_per_minute, reward_base) is Ok,
    ensures
        SLACalculatorContract::spec_validate_general_bounds(threshold_minutes, penalty_per_minute, reward_base) is Ok,
        SLACalculatorContract::spec_canonical_index(severity) is Some,
{
}

/// Writing a counter lane and reading it back gives the written value;
/// the other lanes keep their values.
pub proof fn law_lane_roundtrip(packed: u128, index: u32, other: u32, value: u32)
    requires
        index < 4,
        other < 4,
    ensures
        spec_lane(spec_set_lane(packed, index, value), index) == value,
        other != index ==> spec_lane(spec_set_lane(packed, index, value), other) == spec_lane(packed, other),
{
    assert(((((packed & !(0xffff_ffffu128 << ((index * 32) as u32))) | ((value as u128) << ((index * 32) as u32)))
        >> ((index * 32) as u32)) & 0xffff_ffffu128) as u32 == value) by (bit_vector)
        requires
            index < 4,
    ;
    assert(other != index ==> ((((packed & !(0xffff_ffffu128 << ((index * 32) as u32))) | ((value as u128) << ((index
        * 32) as u32))) >> ((other * 32) as u32)) & 0xffff_ffffu128) as u32 == ((packed >> ((other * 32) as u32))
        & 0xffff_ffffu128) as u32) by (bit_vector)
        requires
            index < 4,
            other < 4,
    ;
}

/// After setting `k` to `v` the map yields `v` for `k` and its old value
/// for every other key.
pub proof fn law_map_set_get(s: Seq<SLAConfigEntry>, k: Symbol, v: SLAConfig, other: Symbol)
    ensures
        entries_get(entries_set(s, k, v), k) == Some(v),
        other != k ==> entries_get(entries_set(s, k, v), other) == entries_get(s, other),
    decreases s.len(),
{
    if s.len() > 0 && s[0].severity != k && !k.spec_lt(s[0].severity) {
        law_map_set_get(s.drop_first(), k, v, other);
        let t = entries_set(s, k, v);
        assert(t[0] == s[0]);
        assert(t.drop_first() =~= entries_set(s.drop_first(), k, v));
        assert(other != k ==> entries_get(t, other) == entries_get(s, other));
    } else if s.len() > 0 && s[0].severity == k {
        let t = entries_set(s, k, v);
        assert(t[0].severity == k);
        assert(t.drop_first() =~= s.drop_first());
        assert(other != k ==> entries_get(t, other) == entries_get(s, other));
    } else if s.len() > 0 {
        let t = entries_set(s, k, v);
        assert(t[0].severity == k);
        assert(t.drop_first() =~= s);
        assert(other != k ==> entries_get(t, other) == entries_get(s, other));
    } else {
        let t = entries_set(s, k, v);
        assert(t.drop_first() =~= Seq::<SLAConfigEntry>::empty());
    }
}

/// After removing `k` from a map with ascending keys the map yields
/// nothing for `k` and its old value for every other key.
pub proof fn law_map_remove_get(s: Seq<SLAConfigEntry>, k: Symbol, other: Symbol)
    requires
        entries_sorted(s),
    ensures
        entries_get(entries_remove(s, k), k) is None,
        other != k ==> entries_get(entries_remove(s, k), other) == entries_get(s, other),
    decreases s.len(),
{
    if s.len() > 0 {
        assert(entries_sorted(s.drop_first())) by {
            assert forall|i: int, j: int| 0 <= i < j < s.drop_first().len() implies
                (#[trigger] s.drop_first()[i]).severity.spec_lt((#[trigger] s.drop_first()[j]).severity) by {
                assert(s[i + 1] == s.drop_first()[i]);
                assert(s[j + 1] == s.drop_first()[j]);
            }
        }
        law_map_remove_get(s.drop_first(), k, other);
        if s[0].severity == k {
            lemma_sorted_head_absent(s);
        } else {
            let t = entries_remove(s, k);
            assert(t.drop_first() =~= entries_remove(s.drop_first(), k));
        }
    }
}

/// In a map with ascending keys the first key occurs nowhere else.
proof fn lemma_sorted_head_absent(s: Seq<SLAConfigEntry>)
    requires
        entries_sorted(s),
        s.len() > 0,
    ensures
        entries_get(s.drop_first(), s[0].severity) is None,
{
    lemma_absent_if_below(s.drop_first(), s[0].severity);
}

/// A key below every key of a map is absent from it.
proof fn lemma_absent_if_below(s: Seq<SLAConfigEntry>, k: Symbol)
    requires
        forall|i: int| 0 <= i < s.len() ==> k.spec_lt(#[trigger] s[i].severity),
    ensures
        entries_get(s, k) is None,
    decreases s.len(),
{
    if s.len() > 0 {
        assert(k.spec_lt(s[0].severity));
        assert forall|i: int| 0 <= i < s.drop_first().len() implies k.spec_lt(#[trigger] s.drop_first()[i].severity) by {
            assert(s.drop_first()[i] == s[i + 1]);
        }
        lemma_absent_if_below(s.drop_first(), k);
    }
}

/// The configuration hash depends on the canonical map alone: two
/// storages with the same canonical map have the same hash (or the same
/// error).
pub proof fn law_hash_depends_only_on_canonical_map(s1: StorageView, s2: StorageView)
    requires
        s1.configs == s2.configs,
    ensures
        SLACalculatorContract::spec_compute_config_version_hash(s1)
            == SLACalculatorContract::spec_compute_config_version_hash(s2),
        canonical_entries(s1) == canonical_entries(s2),
{
}

/// Registering or removing a custom severity leaves the canonical
/// snapshot and the configuration hash untouched.
pub proof fn law_custom_severities_leave_canonical_untouched(
    e: EnvView,
    severity: Symbol,
    threshold_minutes: u32,
    penalty_per_minute: i128,
    reward_base: i128,
)
    ensures
        ({
            let s1 = spec_set_custom_severity(e, severity, threshold_minutes, penalty_per_minute, reward_base).1.storage;
            &&& SLACalculatorContract::spec_compute_config_version_hash(s1)
                == SLACalculatorContract::spec_compute_config_version_hash(e.storage)
            &&& canonical_entries(s1) == canonical_entries(e.storage)
        }),
        ({
            let s2 = spec_remove_custom_severity(e, severity).1.storage;
            &&& SLACalculatorContract::spec_compute_config_version_hash(s2)
                == SLACalculatorContract::spec_compute_config_version_hash(e.storage)
            &&& canonical_entries(s2) == canonical_entries(e.storage)
        }),
{
    law_hash_depends_only_on_canonical_map(
        spec_set_custom_severity(e, severity, threshold_minutes, penalty_per_minute, reward_base).1.storage,
        e.storage,
    );
    law_hash_depends_only_on_canonical_map(spec_remove_custom_severity(e, severity).1.storage, e.storage);
}

/// After a successful configuration update the severity reads back the
/// new configuration, and every other severity keeps its configuration.
pub proof fn law_set_config_reads_back(
    e: EnvView,
    severity: Symbol,
    threshold_minutes: u32,
    penalty_per_minute: i128,
    reward_base: i128,
    other: Symbol,
)
    requires
        spec_set_config(e, severity, threshold_minutes, penalty_per_minute, reward_base).0 is Ok,
    ensures
        ({
            let s1 = spec_set_config(e, severity, threshold_minutes, penalty_per_minute, reward_base).1.storage;
            &&& SLACalculatorContract::spec_load_config(s1, severity)
                == Ok::<SLAConfig, SLAError>(SLAConfig { threshold_minutes, penalty_per_minute, reward_base })
            &&& other != severity ==> SLACalculatorContract::spec_load_config(s1, other)
                == SLACalculatorContract::spec_load_config(e.storage, other)
        }),
{
    let m = e.storage.configs->Some_0;
    law_map_set_get(m, severity, SLAConfig { threshold_minutes, penalty_per_minute, reward_base }, other);
}

/// A custom severity, once registered, reads back its configuration.
pub proof fn law_set_custom_severity_reads_back(
    e: EnvView,
    severity: Symbol,
    threshold_minutes: u32,
    penalty_per_minute: i128,
    reward_base: i128,
)
    requires
        spec_set_custom_severity(e, severity, threshold_minutes, penalty_per_minute, reward_base).0 is Ok,
    ensures
        SLACalculatorContract::spec_load_config(
            spec_set_custom_severity(e, severity, threshold_minutes, penalty_per_minute, reward_base).1.storage,
            severity,
        ) == Ok::<SLAConfig, SLAError>(SLAConfig { threshold_minutes, penalty_per_minute, reward_base }),
{
    lemma_upsert_get(
        custom_or_empty(e.storage),
        severity,
        SLAConfig { threshold_minutes, penalty_per_minute, reward_base },
        severity,
    );
}

/// While frozen, configuration changes fail with `ConfigFrozen` and
/// change nothing.
pub proof fn law_frozen_blocks_config_changes(
    e: EnvView,
    severity: Symbol,
    threshold_minutes: u32,
    penalty_per_minute: i128,
    reward_base: i128,
)
    requires
        SLACalculatorContract::spec_check_version(e.storage) is Ok,
        SLACalculatorContract::spec_frozen(e.storage),
    ensures
        spec_set_config(e, severity, threshold_minutes, penalty_per_minute, reward_base)
            == (Err::<(), SLAError>(SLAError::ConfigFrozen), e),
        spec_set_custom_severity(e, severity, threshold_minutes, penalty_per_minute, reward_base)
            == (Err::<(), SLAError>(SLAError::ConfigFrozen), e),
        spec_remove_custom_severity(e, severity) == (Err::<(), SLAError>(SLAError::ConfigFrozen), e),
{
}

/// While paused, an SLA calculation fails with `ContractPaused` and
/// changes nothing, while the read-only calculation is unaffected by the
/// pause flag.
pub proof fn law_pause_blocks_calculation(
    e: EnvView,
    caller: Address,
    outage_id: Symbol,
    severity: Symbol,
    mttr_minutes: u32,
)
    requires
        SLACalculatorContract::spec_check_version(e.storage) is Ok,
        SLACalculatorContract::spec_paused(e.storage),
    ensures
        spec_calculate_sla(e, caller, outage_id, severity, mttr_minutes)
            == (Err::<SLAResult, SLAError>(SLAError::ContractPaused), e),
        spec_calculate_sla_view(e, outage_id, severity, mttr_minutes) == spec_calculate_sla_view(
            e.with_storage(StorageView { paused: Some(false), ..e.storage }),
            outage_id,
            severity,
            mttr_minutes,
        ),
{
    law_hash_depends_only_on_canonical_map(e.storage, StorageView { paused: Some(false), ..e.storage });
}

/// A failed SLA calculation leaves storage and events as they were.
pub proof fn law_failed_calculation_changes_nothing(
    e: EnvView,
    caller: Address,
    outage_id: Symbol,
    severity: Symbol,
    mttr_minutes: u32,
)
    requires
        spec_calculate_sla(e, caller, outage_id, severity, mttr_minutes).0 is Err,
    ensures
        spec_calculate_sla(e, caller, outage_id, severity, mttr_minutes).1.storage == e.storage,
        spec_calculate_sla(e, caller, outage_id, severity, mttr_minutes).1.events == e.events,
{
}

/// A successful SLA calculation returns what the read-only calculation
/// returns on the same state, or else the outage's stored entry.
pub proof fn law_calculation_matches_view(
    e: EnvView,
    caller: Address,
    outage_id: Symbol,
    severity: Symbol,
    mttr_minutes: u32,
)
    requires
        spec_calculate_sla(e, caller, outage_id, severity, mttr_minutes).0 is Ok,
    ensures
        ({
            let r = spec_calculate_sla(e, caller, outage_id, severity, mttr_minutes).0->Ok_0;
            let v = spec_calculate_sla_view(e, outage_id, severity, mttr_minutes);
            &&& v is Ok
            &&& (r == v->Ok_0 || Some(r) == latest_by_outage(history_or_empty(e.storage), outage_id))
        }),
{
}

/// The newest entry of a history that ends with `r` is `r` for its outage.
proof fn lemma_latest_of_appended(h: Seq<SLAResult>, r: SLAResult, limit: u32)
    requires
        limit >= 1,
    ensures
        latest_by_outage(history_appended(h, r, limit), r.outage_id) == Some(r),
{
    let t = history_appended(h, r, limit);
    assert(t.len() >= 1);
    assert(t.last() == r);
}

/// Submitting the same calculation again returns the same result.  When
/// the history keeps at least one entry, the repeated submission changes
/// no storage entry (history, statistics and telemetry alike) and emits no
/// event.
pub proof fn law_calculation_idempotent(
    e: EnvView,
    caller: Address,
    outage_id: Symbol,
    severity: Symbol,
    mttr_minutes: u32,
)
    requires
        spec_calculate_sla(e, caller, outage_id, severity, mttr_minutes).0 is Ok,
    ensures
        ({
            let (r1, e1) = spec_calculate_sla(e, caller, outage_id, severity, mttr_minutes);
            let (r2, e2) = spec_calculate_sla(e1, caller, outage_id, severity, mttr_minutes);
            &&& r2 == r1
            &&& retention_or_default(e.storage) >= 1 ==> {
                &&& e2.storage == e1.storage
                &&& e2.events == e1.events
            }
        }),
{
    let (r1, e1) = spec_calculate_sla(e, caller, outage_id, severity, mttr_minutes);
    let s = e.storage;
    let s1 = e1.storage;
    let cfg = SLACalculatorContract::spec_load_config(s, severity)->Ok_0;
    let h = SLACalculatorContract::spec_compute_config_version_hash(s)->Ok_0;
    let result = spec_compute_result(outage_id, mttr_minutes, cfg, h, e.timestamp)->Ok_0;
    assert(s1.configs == s.configs);
    assert(s1.custom_configs == s.custom_configs);
    law_hash_depends_only_on_canonical_map(s, s1);
    assert(SLACalculatorContract::spec_load_config(s1, severity) == SLACalculatorContract::spec_load_config(s, severity));
    assert(e1.timestamp == e.timestamp);
    let hist = history_or_empty(s);
    let prev = latest_by_outage(hist, outage_id);
    if prev is Some && prev->Some_0.config_version_hash == h {
        assert(history_or_empty(s1) == hist);
    } else {
        assert(result.outage_id == outage_id);
        if retention_or_default(s) >= 1 {
            lemma_latest_of_appended(hist, result, retention_or_default(s));
            assert(history_or_empty(s1) == history_appended(hist, result, retention_or_default(s)));
        }
    }
}

/// Setting a key to the value it was just set to changes nothing.
proof fn lemma_set_twice(s: Seq<SLAConfigEntry>, k: Symbol, v: SLAConfig)
    ensures
        entries_set(entries_set(s, k, v), k, v) == entries_set(s, k, v),
    decreases s.len(),
{
    let t = entries_set(s, k, v);
    if s.len() == 0 {
        assert(entries_set(t, k, v) =~= t);
    } else if s[0].severity == k {
        assert(entries_set(t, k, v) =~= t);
    } else if k.spec_lt(s[0].severity) {
        assert(t[0].severity == k);
        assert(entries_set(t, k, v) =~= t);
    } else {
        lemma_set_twice(s.drop_first(), k, v);
        assert(t[0] == s[0]);
        assert(t.drop_first() =~= entries_set(s.drop_first(), k, v));
        assert(entries_set(t, k, v) =~= seq![s[0]] + entries_set(t.drop_first(), k, v));
    }
}

/// Configuration updates are idempotent: repeating a successful update
/// with the same parameters succeeds and leaves the storage as the first
/// update left it.
pub proof fn law_set_config_idempotent(
    e: EnvView,
    severity: Symbol,
    threshold_minutes: u32,
    penalty_per_minute: i128,
    reward_base: i128,
)
    requires
        spec_set_config(e, severity, threshold_minutes, penalty_per_minute, reward_base).0 is Ok,
    ensures
        ({
            let e1 = spec_set_config(e, severity, threshold_minutes, penalty_per_minute, reward_base).1;
            let (r2, e2) = spec_set_config(e1, severity, threshold_minutes, penalty_per_minute, reward_base);
            &&& r2 is Ok
            &&& e2.storage == e1.storage
        }),
{
    lemma_set_twice(
        e.storage.configs->Some_0,
        severity,
        SLAConfig { threshold_minutes, penalty_per_minute, reward_base },
    );
}

/// A configuration change that fails changes nothing: no storage write and
/// no event.
pub proof fn law_failed_config_change_changes_nothing(
    e: EnvView,
    severity: Symbol,
    threshold_minutes: u32,
    penalty_per_minute: i128,
    reward_base: i128,
)
    ensures
        spec_set_config(e, severity, threshold_minutes, penalty_per_minute, reward_base).0 is Err
            ==> spec_set_config(e, severity, threshold_minutes, penalty_per_minute, reward_base).1 == e,
        spec_set_custom_severity(e, severity, threshold_minutes, penalty_per_minute, reward_base).0 is Err
            ==> spec_set_custom_severity(e, severity, threshold_minutes, penalty_per_minute, reward_base).1 == e,
        spec_remove_custom_severity(e, severity).0 is Err ==> spec_remove_custom_severity(e, severity).1 == e,
{
}

/// The default configurations pass validation, and the default map has
/// ascending keys.
pub proof fn law_default_configs_valid()
    ensures
        entries_sorted(default_configs()),
        forall|i: int|
            0 <= i < 4 ==> SLACalculatorContract::spec_validate_config(
                (#[trigger] default_configs()[i]).severity,
                default_configs()[i].config.threshold_minutes,
                default_configs()[i].config.penalty_per_minute,
                default_configs()[i].config.reward_base,
            ) is Ok,
{
    let d = default_configs();
    assert(Symbol::critical().spec_lt(Symbol::high()));
    assert(Symbol::high().spec_lt(Symbol::low()));
    assert(Symbol::low().spec_lt(Symbol::medium()));
    assert(Symbol::critical().spec_lt(Symbol::low()));
    assert(Symbol::critical().spec_lt(Symbol::medium()));
    assert(Symbol::high().spec_lt(Symbol::medium()));
    assert forall|i: int, j: int| 0 <= i < j < d.len() implies
        (#[trigger] d[i]).severity.spec_lt((#[trigger] d[j]).severity) by {
    }
}

/// Initialization happens once: after it succeeds a second one fails with
/// `AlreadyInitialized` and changes nothing.  It leaves a current schema,
/// an unpaused calculator, zero statistics, an empty history and the
/// default configuration of every canonical severity.
pub proof fn law_initialize_once(e: EnvView, admin: Address, operator: Address, admin2: Address, operator2: Address)
    requires
        spec_initialize(e, admin, operator).0 is Ok,
    ensures
        ({
            let e1 = spec_initialize(e, admin, operator).1;
            &&& spec_initialize(e1, admin2, operator2) == (Err::<(), SLAError>(SLAError::AlreadyInitialized), e1)
            &&& SLACalculatorContract::spec_check_version(e1.storage) is Ok
            &&& !SLACalculatorContract::spec_paused(e1.storage)
            &&& e1.storage.stats == Some(zero_stats())
            &&& e1.storage.history == Some(Seq::<SLAResult>::empty())
            &&& e1.storage.admin == Some(admin)
            &&& e1.storage.operator == Some(operator)
            &&& canonical_entries(e1.storage) == Ok::<Seq<SLAConfigEntry>, SLAError>(seq![
                SLAConfigEntry { severity: Symbol::critical(), config: default_critical() },
                SLAConfigEntry { severity: Symbol::high(), config: default_high() },
                SLAConfigEntry { severity: Symbol::medium(), config: default_medium() },
                SLAConfigEntry { severity: Symbol::low(), config: default_low() },
            ])
        }),
{
    let d = default_configs();
    assert(d.drop_first() =~= seq![d[1], d[2], d[3]]);
    assert(d.drop_first().drop_first() =~= seq![d[2], d[3]]);
    assert(d.drop_first().drop_first().drop_first() =~= seq![d[3]]);
    reveal_with_fuel(entries_get, 5);
}

/// Migration is idempotent: once it succeeds, running it again by the
/// same admin succeeds and changes nothing but the recorded
/// authorization.
pub proof fn law_migrate_idempotent(e: EnvView, caller: Address)
    requires
        spec_migrate(e, caller).0 is Ok,
    ensures
        ({
            let e1 = spec_migrate(e, caller).1;
            spec_migrate(e1, caller) == (Ok::<(), SLAError>(()), e1.with_auth(caller))
        }),
{
}

/// Two-step admin transfer: once the admin has proposed `new_admin`, the
/// proposed account's acceptance succeeds and makes it the admin, with no
/// proposal left pending; any other account's acceptance is refused
/// (`Unauthorized`) and changes no storage.
pub proof fn law_admin_transfer(e: EnvView, caller: Address, new_admin: Address, other: Address)
    requires
        spec_propose_admin(e, caller, new_admin).0 is Ok,
    ensures
        ({
            let e1 = spec_propose_admin(e, caller, new_admin).1;
            let (r2, e2) = spec_accept_admin(e1, new_admin);
            &&& r2 is Ok
            &&& e2.storage.admin == Some(new_admin)
            &&& e2.storage.pending_admin is None
            &&& e2.storage.operator == e.storage.operator
            &&& other != new_admin ==> spec_accept_admin(e1, other).0 == Err::<(), SLAError>(SLAError::Unauthorized)
                && spec_accept_admin(e1, other).1.storage == e1.storage
        }),
{
}

/// Two-step operator handoff, as [`law_admin_transfer`] for operators.
pub proof fn law_operator_handoff(e: EnvView, caller: Address, new_operator: Address, other: Address)
    requires
        spec_propose_operator(e, caller, new_operator).0 is Ok,
    ensures
        ({
            let e1 = spec_propose_operator(e, caller, new_operator).1;
            let (r2, e2) = spec_accept_operator(e1, new_operator);
            &&& r2 is Ok
            &&& e2.storage.operator == Some(new_operator)
            &&& e2.storage.pending_operator is None
            &&& e2.storage.admin == e.storage.admin
            &&& other != new_operator ==> spec_accept_operator(e1, other).0
                == Err::<(), SLAError>(SLAError::Unauthorized) && spec_accept_operator(e1, other).1.storage
                == e1.storage
        }),
{
}

/// A cancelled proposal cannot be accepted: after a successful
/// cancellation, acceptance fails with `NoPendingTransfer` for everyone.
pub proof fn law_cancel_blocks_accept(e: EnvView, caller: Address, anyone: Address)
    ensures
        spec_cancel_admin_proposal(e, caller).0 is Ok ==> spec_accept_admin(
            spec_cancel_admin_proposal(e, caller).1,
            anyone,
        ).0 == Err::<(), SLAError>(SLAError::NoPendingTransfer),
        spec_cancel_operator_proposal(e, caller).0 is Ok ==> spec_accept_operator(
            spec_cancel_operator_proposal(e, caller).1,
            anyone,
        ).0 == Err::<(), SLAError>(SLAError::NoPendingTransfer),
{
}

/// Renouncing is final for the admin role: afterwards every operation
/// reserved to the admin is refused for every caller, no pending admin can
/// accept, and initialization is refused with `AlreadyInitialized`,
/// changing nothing.
pub proof fn law_renounce_locks_admin(e: EnvView, caller: Address, anyone: Address, other: Address)
    requires
        spec_renounce_admin(e, caller).0 is Ok,
    ensures
        ({
            let e1 = spec_renounce_admin(e, caller).1;
            &&& SLACalculatorContract::admin_guard(e1, anyone).0 == Err::<(), SLAError>(SLAError::NotInitialized)
            &&& spec_accept_admin(e1, anyone).0 == Err::<(), SLAError>(SLAError::NoPendingTransfer)
            &&& spec_initialize(e1, anyone, other) == (Err::<(), SLAError>(SLAError::AlreadyInitialized), e1)
        }),
{
}

/// Pausing then unpausing by the admin succeeds and leaves the calculator
/// unpaused with no pause metadata; while paused, the pause metadata holds
/// the reason, the time and the admin.
pub proof fn law_pause_unpause(e: EnvView, caller: Address, reason: Seq<u8>)
    requires
        spec_pause(e, caller, reason).0 is Ok,
    ensures
        ({
            let e1 = spec_pause(e, caller, reason).1;
            let (r2, e2) = spec_unpause(e1, caller);
            &&& SLACalculatorContract::spec_paused(e1.storage)
            &&& e1.storage.pause_info == Some(PauseView { reason, paused_at: e.timestamp, paused_by: caller })
            &&& r2 is Ok
            &&& !SLACalculatorContract::spec_paused(e2.storage)
            &&& e2.storage.pause_info is None
        }),
{
}

/// Freezing blocks configuration changes; unfreezing lifts the block.
pub proof fn law_freeze_unfreeze(
    e: EnvView,
    caller: Address,
    severity: Symbol,
    threshold_minutes: u32,
    penalty_per_minute: i128,
    reward_base: i128,
)
    requires
        spec_freeze(e, caller).0 is Ok,
    ensures
        ({
            let e1 = spec_freeze(e, caller).1;
            let (r2, e2) = spec_unfreeze(e1, caller);
            &&& SLACalculatorContract::spec_frozen(e1.storage)
            &&& spec_set_config(e1, severity, threshold_minutes, penalty_per_minute, reward_base).0
                == Err::<(), SLAError>(SLAError::ConfigFrozen)
            &&& r2 is Ok
            &&& !SLACalculatorContract::spec_frozen(e2.storage)
            &&& spec_set_config(e2, severity, threshold_minutes, penalty_per_minute, reward_base).0
                != Err::<(), SLAError>(SLAError::ConfigFrozen)
        }),
{
}

/// Pruning keeps exactly the latest `keep_latest` entries, in order (all
/// of them when there are no more).
pub proof fn law_prune_keeps_latest(e: EnvView, caller: Address, keep_latest: u32)
    requires
        spec_prune_history(e, caller, keep_latest).0 is Ok,
    ensures
        ({
            let h = history_or_empty(e.storage);
            let h1 = history_or_empty(spec_prune_history(e, caller, keep_latest).1.storage);
            &&& h1.len() == if h.len() > keep_latest { keep_latest as nat } else { h.len() }
            &&& h1 == h.subrange(h.len() - h1.len(), h.len() as int)
        }),
{
    let h = history_or_empty(e.storage);
    if h.len() <= keep_latest {
        assert(h.subrange(0, h.len() as int) =~= h);
    }
}

/// The retention limit is a hard bound: every SLA calculation either
/// leaves the history as it was (a failure or a repeated submission) or
/// appends its result and keeps the newest `min(len + 1, limit)` entries,
/// whatever the history held before.
pub proof fn law_history_within_retention(
    e: EnvView,
    caller: Address,
    outage_id: Symbol,
    severity: Symbol,
    mttr_minutes: u32,
)
    ensures
        ({
            let (r, e1) = spec_calculate_sla(e, caller, outage_id, severity, mttr_minutes);
            let h = history_or_empty(e.storage);
            let h1 = history_or_empty(e1.storage);
            let l = retention_or_default(e.storage);
            let n: int = if h.len() + 1 > l { l as int } else { h.len() + 1int };
            &&& retention_or_default(e1.storage) == l
            &&& r is Err ==> h1 == h
            &&& r is Ok ==> h1 == h || (h1.len() == n && h1.len() <= l && h1 == h.push(r->Ok_0).subrange(
                h.len() + 1 - n,
                h.len() + 1int,
            ))
        }),
{
}

/// Replay is deterministic: replaying at the ledger timestamp gives what
/// the read-only calculation gives, paired with the configuration hash it
/// carries.
pub proof fn law_replay_matches_view(e: EnvView, outage_id: Symbol, severity: Symbol, mttr_minutes: u32)
    ensures
        spec_replay(e, outage_id, severity, mttr_minutes, e.timestamp) == match spec_calculate_sla_view(
            e,
            outage_id,
            severity,
            mttr_minutes,
        ) {
            Ok(r) => Ok((r, r.config_version_hash)),
            Err(x) => Err(x),
        },
{
}

/// The reported violation rate of every severity is at most 100, and 0
/// for a severity with no calculation in the current window.
pub proof fn law_violation_rate_bounded(s: StorageView, i: int)
    requires
        0 <= i < 4,
    ensures
        telemetry_entry(s, i).violation_rate <= 100,
        telemetry_entry(s, i).calculations == 0 ==> telemetry_entry(s, i).violation_rate == 0,
{
}

/// Removing a custom severity: an unregistered one is refused with
/// `SeverityNotInSet` and nothing changes; a registered one is removed, so
/// that it no longer has a configuration while every other severity keeps
/// its own, and its keys stay unique.
pub proof fn law_remove_custom_severity(e: EnvView, severity: Symbol, other: Symbol)
    requires
        SLACalculatorContract::spec_check_version(e.storage) is Ok,
        !SLACalculatorContract::spec_frozen(e.storage),
        entries_unique(custom_or_empty(e.storage)),
    ensures
        ({
            let m = custom_or_empty(e.storage);
            let (r, e1) = spec_remove_custom_severity(e, severity);
            let m1 = custom_or_empty(e1.storage);
            &&& entries_get(m, severity) is None ==> (r, e1) == (Err::<(), SLAError>(SLAError::SeverityNotInSet), e)
            &&& entries_get(m, severity) is Some ==> {
                &&& r is Ok
                &&& m1 == entries_remove(m, severity)
                &&& entries_unique(m1)
                &&& entries_get(m1, severity) is None
                &&& other != severity ==> entries_get(m1, other) == entries_get(m, other)
                &&& SLACalculatorContract::spec_canonical_index(severity) is None
                    ==> SLACalculatorContract::spec_load_config(e1.storage, severity)
                    == Err::<SLAConfig, SLAError>(SLAError::ConfigNotFound)
                &&& e1.storage.configs == e.storage.configs
            }
        }),
{
    lemma_remove_get(custom_or_empty(e.storage), severity, other);
}

/// Custom severities keep registration order: registering a new severity
/// appends it last, and removing it again restores the custom map.
pub proof fn law_register_then_remove_restores(
    e: EnvView,
    severity: Symbol,
    threshold_minutes: u32,
    penalty_per_minute: i128,
    reward_base: i128,
)
    requires
        spec_set_custom_severity(e, severity, threshold_minutes, penalty_per_minute, reward_base).0 is Ok,
        entries_get(custom_or_empty(e.storage), severity) is None,
    ensures
        ({
            let m = custom_or_empty(e.storage);
            let e1 = spec_set_custom_severity(e, severity, threshold_minutes, penalty_per_minute, reward_base).1;
            let (r2, e2) = spec_remove_custom_severity(e1, severity);
            &&& custom_or_empty(e1.storage) == m.push(
                SLAConfigEntry { severity, config: SLAConfig { threshold_minutes, penalty_per_minute, reward_base } },
            )
            &&& r2 is Ok
            &&& custom_or_empty(e2.storage) == m
        }),
{
    let m = custom_or_empty(e.storage);
    let c = SLAConfig { threshold_minutes, penalty_per_minute, reward_base };
    lemma_upsert_absent(m, severity, c);
    lemma_upsert_get(m, severity, c, severity);
    lemma_remove_appended(m, severity, c);
}

/// A call that never writes the canonical configuration map.
pub enum MapPreservingCall {
    CalculateSla { caller: Address, outage_id: Symbol, severity: Symbol, mttr_minutes: u32 },
    SetCustomSeverity {
        caller: Address,
        severity: Symbol,
        threshold_minutes: u32,
        penalty_per_minute: i128,
        reward_base: i128,
    },
    RemoveCustomSeverity { caller: Address, severity: Symbol },
    Pause { caller: Address, reason: Seq<u8> },
    Unpause { caller: Address },
    FreezeConfig { caller: Address },
    UnfreezeConfig { caller: Address },
    ProposeAdmin { caller: Address, new_admin: Address },
    AcceptAdmin { caller: Address },
    CancelAdminProposal { caller: Address },
    ProposeOperator { caller: Address, new_operator: Address },
    AcceptOperator { caller: Address },
    CancelOperatorProposal { caller: Address },
    SetOperator { caller: Address, new_operator: Address },
    RenounceAdmin { caller: Address },
    PruneHistory { caller: Address, keep_latest: u32 },
    PruneHistoryByAge { caller: Address, min_age_seconds: u64 },
    SetRetentionLimit { caller: Address, limit: u32 },
}

/// An admin call: the guard, then `op` on the guarded environment.
pub open spec fn guarded(e: EnvView, caller: Address, op: spec_fn(EnvView) -> EnvView) -> EnvView {
    let (g, e1) = SLACalculatorContract::admin_guard(e, caller);
    if g is Err {
        e1
    } else {
        op(e1)
    }
}

/// The environment after one call, succeeding or failing.
pub open spec fn after_call(e: EnvView, c: MapPreservingCall) -> EnvView {
    match c {
        MapPreservingCall::CalculateSla { caller, outage_id, severity, mttr_minutes } => spec_calculate_sla(
            e,
            caller,
            outage_id,
            severity,
            mttr_minutes,
        ).1,
        MapPreservingCall::SetCustomSeverity { caller, severity, threshold_minutes, penalty_per_minute, reward_base } =>
            guarded(
            e,
            caller,
            |x: EnvView| spec_set_custom_severity(x, severity, threshold_minutes, penalty_per_minute, reward_base).1,
        ),
        MapPreservingCall::RemoveCustomSeverity { caller, severity } => guarded(
            e,
            caller,
            |x: EnvView| spec_remove_custom_severity(x, severity).1,
        ),
        MapPreservingCall::Pause { caller, reason } => spec_pause(e, caller, reason).1,
        MapPreservingCall::Unpause { caller } => spec_unpause(e, caller).1,
        MapPreservingCall::FreezeConfig { caller } => spec_freeze(e, caller).1,
        MapPreservingCall::UnfreezeConfig { caller } => spec_unfreeze(e, caller).1,
        MapPreservingCall::ProposeAdmin { caller, new_admin } => spec_propose_admin(e, caller, new_admin).1,
        MapPreservingCall::AcceptAdmin { caller } => spec_accept_admin(e, caller).1,
        MapPreservingCall::CancelAdminProposal { caller } => spec_cancel_admin_proposal(e, caller).1,
        MapPreservingCall::ProposeOperator { caller, new_operator } => spec_propose_operator(e, caller, new_operator).1,
        MapPreservingCall::AcceptOperator { caller } => spec_accept_operator(e, caller).1,
        MapPreservingCall::CancelOperatorProposal { caller } => spec_cancel_operator_proposal(e, caller).1,
        MapPreservingCall::SetOperator { caller, new_operator } => spec_set_operator(e, caller, new_operator).1,
        MapPreservingCall::RenounceAdmin { caller } => spec_renounce_admin(e, caller).1,
        MapPreservingCall::PruneHistory { caller, keep_latest } => spec_prune_history(e, caller, keep_latest).1,
        MapPreservingCall::PruneHistoryByAge { caller, min_age_seconds } => spec_prune_history_by_age(
            e,
            caller,
            min_age_seconds,
        ).1,
        MapPreservingCall::SetRetentionLimit { caller, limit } => spec_set_retention_limit(e, caller, limit).1,
    }
}

/// The environment after a sequence of calls, in order.
pub open spec fn after_calls(e: EnvView, calls: Seq<MapPreservingCall>) -> EnvView
    decreases calls.len(),
{
    if calls.len() == 0 {
        e
    } else {
        after_calls(after_call(e, calls[0]), calls.drop_first())
    }
}

/// The configuration hash is stable: across any sequence of calls other
/// than configuration updates, initialization and migration, the
/// canonical map, the canonical snapshot and the hash stay as they were.
pub proof fn law_hash_stable_across_calls(e: EnvView, calls: Seq<MapPreservingCall>)
    ensures
        after_calls(e, calls).storage.configs == e.storage.configs,
        SLACalculatorContract::spec_compute_config_version_hash(after_calls(e, calls).storage)
            == SLACalculatorContract::spec_compute_config_version_hash(e.storage),
        canonical_entries(after_calls(e, calls).storage) == canonical_entries(e.storage),
    decreases calls.len(),
{
    if calls.len() > 0 {
        let e1 = after_call(e, calls[0]);
        assert(e1.storage.configs == e.storage.configs);
        law_hash_stable_across_calls(e1, calls.drop_first());
    }
    law_hash_depends_only_on_canonical_map(after_calls(e, calls).storage, e.storage);
}

/// Filling storage defaults keeps every present entry, sets each absent
/// entry it covers to its default (not paused, zero statistics and
/// counters, empty history, default canonical map, empty custom map),
/// writes nothing else, and changes nothing when run a second time.
pub proof fn law_storage_defaults(s: StorageView)
    ensures
        ({
            let d = with_defaults(s);
            &&& with_defaults(d) == d
            &&& d.paused == if s.paused is Some { s.paused } else { Some(false) }
            &&& d.stats == if s.stats is Some { s.stats } else { Some(zero_stats()) }
            &&& d.calc_counts == if s.calc_counts is Some { s.calc_counts } else { Some(0u128) }
            &&& d.viol_counts == if s.viol_counts is Some { s.viol_counts } else { Some(0u128) }
            &&& d.last_calc_times == if s.last_calc_times is Some { s.last_calc_times } else { Some(0u128) }
            &&& d.last_viol_times == if s.last_viol_times is Some { s.last_viol_times } else { Some(0u128) }
            &&& d.history == if s.history is Some { s.history } else { Some(Seq::<SLAResult>::empty()) }
            &&& d.configs == if s.configs is Some { s.configs } else { Some(default_configs()) }
            &&& d.custom_configs == if s.custom_configs is Some {
                s.custom_configs
            } else {
                Some(Seq::<SLAConfigEntry>::empty())
            }
            &&& d.admin == s.admin && d.operator == s.operator
            &&& d.pending_admin == s.pending_admin && d.pending_operator == s.pending_operator
            &&& d.pause_info == s.pause_info && d.storage_version == s.storage_version
            &&& d.retention_limit == s.retention_limit && d.config_frozen == s.config_frozen
            &&& d.last_config_update == s.last_config_update
        }),
{
}

} // verus!
