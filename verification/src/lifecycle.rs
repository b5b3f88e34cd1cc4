//! Initialization, storage migration and version reporting.
use vstd::prelude::*;
use crate::symbol::{Address, Symbol};
use crate::symbol_map::{entries_set, SymbolMap};
use crate::ordered_map::OrderedConfigMap;
use crate::env::{event, ContractEnv, EnvView, EventContext, EventData, StorageView};
use crate::calculation::zero_stats;
use crate::{
    SLAConfig, SLAConfigEntry, SLAError, SLAStats, SLACalculatorContract, StorageVersionInfo, VersionInfo,
    RESULT_SCHEMA_VERSION, STORAGE_VERSION,
};

verus! {

/// Default configuration of `critical`: 15 minutes, 100 per minute, 750.
pub open spec fn default_critical() -> SLAConfig {
    SLAConfig { threshold_minutes: 15, penalty_per_minute: 100, reward_base: 750 }
}

/// Default configuration of `high`: 30 minutes, 50 per minute, 750.
pub open spec fn default_high() -> SLAConfig {
    SLAConfig { threshold_minutes: 30, penalty_per_minute: 50, reward_base: 750 }
}

/// Default configuration of `medium`: 60 minutes, 25 per minute, 750.
pub open spec fn default_medium() -> SLAConfig {
    SLAConfig { threshold_minutes: 60, penalty_per_minute: 25, reward_base: 750 }
}

/// Default configuration of `low`: 120 minutes, 10 per minute, 600.
pub open spec fn default_low() -> SLAConfig {
    SLAConfig { threshold_minutes: 120, penalty_per_minute: 10, reward_base: 600 }
}

/// The default canonical map, in ascending key order.
pub open spec fn default_configs() -> Seq<SLAConfigEntry> {
    seq![
        SLAConfigEntry { severity: Symbol::critical(), config: default_critical() },
        SLAConfigEntry { severity: Symbol::high(), config: default_high() },
        SLAConfigEntry { severity: Symbol::low(), config: default_low() },
        SLAConfigEntry { severity: Symbol::medium(), config: default_medium() },
    ]
}

/// `o`, or `Some(d)` when `o` is absent.
pub open spec fn or_default<T>(o: Option<T>, d: T) -> Option<T> {
    match o {
        Some(v) => Some(v),
        None => Some(d),
    }
}

/// Storage with every absent entry that migration fills set to its
/// default: pause flag false, zero statistics and counters, empty history,
/// default canonical map and empty custom map.
pub open spec fn with_defaults(s: StorageView) -> StorageView {
    StorageView {
        paused: or_default(s.paused, false),
        stats: or_default(s.stats, zero_stats()),
        calc_counts: or_default(s.calc_counts, 0),
        viol_counts: or_default(s.viol_counts, 0),
        last_calc_times: or_default(s.last_calc_times, 0),
        last_viol_times: or_default(s.last_viol_times, 0),
        history: or_default(s.history, Seq::empty()),
        configs: or_default(s.configs, default_configs()),
        custom_configs: or_default(s.custom_configs, Seq::empty()),
        ..s
    }
}

/// One-time setup: fails with `AlreadyInitialized`, changing nothing, once
/// the calculator was ever initialized (an admin or a schema version is
/// stored; renouncing the admin role keeps the schema version);
/// otherwise demands the authorization of `admin` then `operator` and
/// stores the roles, the cleared pause flag, zero statistics and
/// counters, an empty history, the default configurations and the
/// current schema version.
pub open spec fn spec_initialize(e: EnvView, admin: Address, operator: Address) -> (Result<(), SLAError>, EnvView) {
    if e.storage.admin is Some || e.storage.storage_version is Some {
        (Err(SLAError::AlreadyInitialized), e)
    } else {
        (
            Ok(()),
            e.with_auth(admin).with_auth(operator).with_storage(StorageView {
                admin: Some(admin),
                operator: Some(operator),
                paused: Some(false),
                stats: Some(zero_stats()),
                calc_counts: Some(0),
                viol_counts: Some(0),
                last_calc_times: Some(0),
                last_viol_times: Some(0),
                history: Some(Seq::empty()),
                configs: Some(default_configs()),
                storage_version: Some(STORAGE_VERSION),
                ..e.storage
            }),
        )
    }
}

/// The stored schema version, 0 when absent.
pub open spec fn stored_version(s: StorageView) -> u32 {
    match s.storage_version {
        Some(v) => v,
        None => 0,
    }
}

/// Admin migrates storage: demands the caller's authorization and admin
/// role; a current version is a no-op, a newer one fails with
/// `VersionMismatch`; version 0 gets the missing entries filled with
/// defaults, is stamped current and `mig_done` reports the step.
pub open spec fn spec_migrate(e: EnvView, caller: Address) -> (Result<(), SLAError>, EnvView) {
    let e1 = e.with_auth(caller);
    match SLACalculatorContract::spec_role_check(e.storage.admin, caller) {
        Err(x) => (Err(x), e1),
        Ok(_) => {
            let stored = stored_version(e.storage);
            if stored == STORAGE_VERSION {
                (Ok(()), e1)
            } else if stored > STORAGE_VERSION {
                (Err(SLAError::VersionMismatch), e1)
            } else {
                (
                    Ok(()),
                    e1.with_storage(StorageView {
                        storage_version: Some(STORAGE_VERSION),
                        ..with_defaults(e.storage)
                    }).emit(event(
                        Symbol::mig_done(),
                        EventContext::Caller(caller),
                        EventData::Migrated { from: stored, to: STORAGE_VERSION },
                    )),
                )
            }
        },
    }
}

fn default_config_map() -> (m: SymbolMap)
    ensures
        m@ == default_configs(),
{
    let mut configs = SymbolMap::new();
    configs.set(Symbol::critical(), SLAConfig { threshold_minutes: 15, penalty_per_minute: 100, reward_base: 750 });
    configs.set(Symbol::high(), SLAConfig { threshold_minutes: 30, penalty_per_minute: 50, reward_base: 750 });
    configs.set(Symbol::medium(), SLAConfig { threshold_minutes: 60, penalty_per_minute: 25, reward_base: 750 });
    configs.set(Symbol::low(), SLAConfig { threshold_minutes: 120, penalty_per_minute: 10, reward_base: 600 });
    proof {
        let e0 = Seq::<SLAConfigEntry>::empty();
        let c = SLAConfigEntry { severity: Symbol::critical(), config: default_critical() };
        let h = SLAConfigEntry { severity: Symbol::high(), config: default_high() };
        let md = SLAConfigEntry { severity: Symbol::medium(), config: default_medium() };
        let l = SLAConfigEntry { severity: Symbol::low(), config: default_low() };
        let s1 = entries_set(e0, Symbol::critical(), default_critical());
        assert(s1 =~= seq![c]);
        let s2 = entries_set(s1, Symbol::high(), default_high());
        assert(entries_set(s1.drop_first(), Symbol::high(), default_high()) =~= seq![h]);
        assert(s2 =~= seq![c, h]);
        let s3 = entries_set(s2, Symbol::medium(), default_medium());
        assert(s2.drop_first() =~= seq![h]);
        assert(s2.drop_first().drop_first() =~= Seq::<SLAConfigEntry>::empty());
        assert(entries_set(s2.drop_first().drop_first(), Symbol::medium(), default_medium()) =~= seq![md]);
        assert(entries_set(s2.drop_first(), Symbol::medium(), default_medium()) =~= seq![h, md]);
        assert(s3 =~= seq![c, h, md]);
        let s4 = entries_set(s3, Symbol::low(), default_low());
        assert(s3.drop_first() =~= seq![h, md]);
        assert(s3.drop_first().drop_first() =~= seq![md]);
        assert(entries_set(s3.drop_first().drop_first(), Symbol::low(), default_low()) =~= seq![l, md]);
        assert(entries_set(s3.drop_first(), Symbol::low(), default_low()) =~= seq![h, l, md]);
        assert(s4 =~= default_configs());
    }
    configs
}

/// Fills every absent entry that migration covers with its default.
fn init_missing_storage_defaults(env: &mut ContractEnv)
    ensures
        final(env)@ == old(env)@.with_storage(with_defaults(old(env)@.storage)),
{
    if env.storage.paused.is_none() {
        env.storage.paused = Some(false);
    }
    if env.storage.stats.is_none() {
        env.storage.stats = Some(
            SLAStats { total_calculations: 0, total_violations: 0, total_rewards: 0, total_penalties: 0 },
        );
    }
    if env.storage.calc_counts.is_none() {
        env.storage.calc_counts = Some(0);
    }
    if env.storage.viol_counts.is_none() {
        env.storage.viol_counts = Some(0);
    }
    if env.storage.last_calc_times.is_none() {
        env.storage.last_calc_times = Some(0);
    }
    if env.storage.last_viol_times.is_none() {
        env.storage.last_viol_times = Some(0);
    }
    if env.storage.history.is_none() {
        env.storage.history = Some(Vec::new());
    }
    if env.storage.configs.is_none() {
        env.storage.configs = Some(default_config_map());
    }
    if env.storage.custom_configs.is_none() {
        env.storage.custom_configs = Some(OrderedConfigMap::new());
    }
}

impl SLACalculatorContract {
    /// One-time setup; see [`spec_initialize`].
    pub fn initialize(env: &mut ContractEnv, admin: Address, operator: Address) -> (r: Result<(), SLAError>)
        ensures
            r == spec_initialize(old(env)@, admin, operator).0,
            final(env)@ == spec_initialize(old(env)@, admin, operator).1,
    {
        if env.storage.admin.is_some() || env.storage.storage_version.is_some() {
            return Err(SLAError::AlreadyInitialized);
        }
        env.require_auth(&admin);
        env.require_auth(&operator);
        env.storage.admin = Some(admin);
        env.storage.operator = Some(operator);
        env.storage.paused = Some(false);
        env.storage.stats = Some(
            SLAStats { total_calculations: 0, total_violations: 0, total_rewards: 0, total_penalties: 0 },
        );
        env.storage.calc_counts = Some(0);
        env.storage.viol_counts = Some(0);
        env.storage.last_calc_times = Some(0);
        env.storage.last_viol_times = Some(0);
        env.storage.history = Some(Vec::new());
        env.storage.configs = Some(default_config_map());
        Self::write_version(env);
        Ok(())
    }

    /// Stamps the current schema version.
    fn write_version(env: &mut ContractEnv)
        ensures
            final(env)@ == old(env)@.with_storage(StorageView {
                storage_version: Some(STORAGE_VERSION),
                ..old(env)@.storage
            }),
    {
        env.storage.storage_version = Some(STORAGE_VERSION);
    }

    /// Admin migrates storage to the current schema version; see
    /// [`spec_migrate`].  Idempotent once current.
    pub fn migrate(env: &mut ContractEnv, caller: Address) -> (r: Result<(), SLAError>)
        ensures
            r == spec_migrate(old(env)@, caller).0,
            final(env)@ == spec_migrate(old(env)@, caller).1,
    {
        env.require_auth(&caller);
        let admin = match env.storage.admin {
            Some(a) => a,
            None => return Err(SLAError::NotInitialized),
        };
        if caller != admin {
            return Err(SLAError::Unauthorized);
        }
        let stored: u32 = match env.storage.storage_version {
            Some(v) => v,
            None => 0,
        };
        if stored == STORAGE_VERSION {
            return Ok(());
        }
        if stored > STORAGE_VERSION {
            return Err(SLAError::VersionMismatch);
        }
        let mut current = stored;
        if current == 0 {
            init_missing_storage_defaults(env);
            env.storage.storage_version = Some(1);
            current = 1;
        }
        if current != STORAGE_VERSION {
            return Err(SLAError::VersionMismatch);
        }
        env.emit(event(
            Symbol::mig_done(),
            EventContext::Caller(caller),
            EventData::Migrated { from: stored, to: current },
        ));
        Ok(())
    }

    /// The stored schema version (`NotInitialized` when absent), without
    /// the version check.
    pub fn get_storage_version(env: &ContractEnv) -> (r: Result<u32, SLAError>)
        ensures
            r == (match env@.storage.storage_version {
                Some(v) => Ok(v),
                None => Err(SLAError::NotInitialized),
            }),
    {
        match env.storage.storage_version {
            Some(v) => Ok(v),
            None => Err(SLAError::NotInitialized),
        }
    }

    /// Stored and expected schema versions, without the version check.
    pub fn get_migration_state(env: &ContractEnv) -> (r: Result<StorageVersionInfo, SLAError>)
        ensures
            r == (match env@.storage.storage_version {
                Some(v) => Ok(StorageVersionInfo {
                    stored_version: v,
                    expected_version: STORAGE_VERSION,
                    needs_migration: v != STORAGE_VERSION,
                }),
                None => Err(SLAError::NotInitialized),
            }),
    {
        let stored_version = match env.storage.storage_version {
            Some(v) => v,
            None => return Err(SLAError::NotInitialized),
        };
        Ok(StorageVersionInfo {
            stored_version,
            expected_version: STORAGE_VERSION,
            needs_migration: stored_version != STORAGE_VERSION,
        })
    }

    /// Version negotiation snapshot, without the version check.
    pub fn get_version_info(env: &ContractEnv) -> (r: Result<VersionInfo, SLAError>)
        ensures
            r == (match env@.storage.storage_version {
                Some(v) => Ok(VersionInfo {
                    storage_version: v,
                    result_schema_version: RESULT_SCHEMA_VERSION,
                    needs_migration: v != STORAGE_VERSION,
                    is_paused: Self::spec_paused(env@.storage),
                    contract_name: Symbol::sla_calc(),
                }),
                None => Err(SLAError::NotInitialized),
            }),
    {
        let stored_version = match env.storage.storage_version {
            Some(v) => v,
            None => return Err(SLAError::NotInitialized),
        };
        let is_paused = match env.storage.paused {
            Some(b) => b,
            None => false,
        };
        Ok(VersionInfo {
            storage_version: stored_version,
            result_schema_version: RESULT_SCHEMA_VERSION,
            needs_migration: stored_version != STORAGE_VERSION,
            is_paused,
            contract_name: Symbol::sla_calc(),
        })
    }
}

} // verus!
