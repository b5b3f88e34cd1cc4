//! Severity configuration: canonical and custom severities, snapshots,
//! and the configuration version hash.
use vstd::prelude::*;
use crate::symbol::{Address, Symbol};
use crate::symbol_map::{entries_get, entries_remove, entries_set, SymbolMap};
use crate::ordered_map::{entries_upsert, OrderedConfigMap};
use crate::env::{event, ContractEnv, EnvView, EventContext, EventData, StorageView};
use crate::config_metadata;
use crate::{
    ConfigUpdateInfo, SLAConfig, SLAConfigEntry, SLAConfigSnapshot, SLAError, SLACalculatorContract,
};

verus! {

/// The `cfg_upd` event of a configuration change.
pub open spec fn config_event(severity: Symbol, threshold_minutes: u32, penalty_per_minute: i128, reward_base: i128) -> crate::env::ContractEvent {
    event(
        Symbol::cfg_upd(),
        EventContext::Name(severity),
        EventData::ConfigUpdated { threshold_minutes, penalty_per_minute, reward_base },
    )
}

/// The stored custom map, empty when absent.
pub open spec fn custom_or_empty(s: StorageView) -> Seq<SLAConfigEntry> {
    match s.custom_configs {
        Some(m) => m,
        None => Seq::empty(),
    }
}

/// Updates a canonical severity's configuration: schema version, freeze
/// flag (`ConfigFrozen`), validation, then the canonical map must exist
/// (`NotInitialized`).  The entry is set, the ledger sequence is stamped
/// as the last configuration update and `cfg_upd` is emitted.
pub open spec fn spec_set_config(
    e: EnvView,
    severity: Symbol,
    threshold_minutes: u32,
    penalty_per_minute: i128,
    reward_base: i128,
) -> (Result<(), SLAError>, EnvView) {
    match SLACalculatorContract::spec_check_version(e.storage) {
        Err(x) => (Err(x), e),
        Ok(_) => if SLACalculatorContract::spec_frozen(e.storage) {
            (Err(SLAError::ConfigFrozen), e)
        } else {
            match SLACalculatorContract::spec_validate_config(severity, threshold_minutes, penalty_per_minute, reward_base) {
                Err(x) => (Err(x), e),
                Ok(_) => match e.storage.configs {
                    None => (Err(SLAError::NotInitialized), e),
                    Some(m) => (
                        Ok(()),
                        e.with_storage(StorageView {
                            configs: Some(entries_set(m, severity, SLAConfig { threshold_minutes, penalty_per_minute, reward_base })),
                            last_config_update: Some(e.sequence),
                            ..e.storage
                        }).emit(config_event(severity, threshold_minutes, penalty_per_minute, reward_base)),
                    ),
                },
            }
        },
    }
}

/// Registers or updates a custom severity: schema version, freeze flag,
/// the severity must not be canonical (`InvalidSeverity`), the general
/// bounds must hold; the entry is set in the custom map (in place when
/// registered, last otherwise, so the map keeps registration order) and
/// `cfg_upd` is emitted.
pub open spec fn spec_set_custom_severity(
    e: EnvView,
    severity: Symbol,
    threshold_minutes: u32,
    penalty_per_minute: i128,
    reward_base: i128,
) -> (Result<(), SLAError>, EnvView) {
    match SLACalculatorContract::spec_check_version(e.storage) {
        Err(x) => (Err(x), e),
        Ok(_) => if SLACalculatorContract::spec_frozen(e.storage) {
            (Err(SLAError::ConfigFrozen), e)
        } else if SLACalculatorContract::spec_canonical_index(severity) is Some {
            (Err(SLAError::InvalidSeverity), e)
        } else {
            match SLACalculatorContract::spec_validate_general_bounds(threshold_minutes, penalty_per_minute, reward_base) {
                Err(x) => (Err(x), e),
                Ok(_) => (
                    Ok(()),
                    e.with_storage(StorageView {
                        custom_configs: Some(entries_upsert(
                            custom_or_empty(e.storage),
                            severity,
                            SLAConfig { threshold_minutes, penalty_per_minute, reward_base },
                        )),
                        ..e.storage
                    }).emit(config_event(severity, threshold_minutes, penalty_per_minute, reward_base)),
                ),
            }
        },
    }
}

/// Removes a custom severity: schema version, freeze flag, then it must be
/// registered (`SeverityNotInSet`); `cfg_upd` is emitted with zero values.
pub open spec fn spec_remove_custom_severity(e: EnvView, severity: Symbol) -> (Result<(), SLAError>, EnvView) {
    match SLACalculatorContract::spec_check_version(e.storage) {
        Err(x) => (Err(x), e),
        Ok(_) => if SLACalculatorContract::spec_frozen(e.storage) {
            (Err(SLAError::ConfigFrozen), e)
        } else if entries_get(custom_or_empty(e.storage), severity) is None {
            (Err(SLAError::SeverityNotInSet), e)
        } else {
            (
                Ok(()),
                e.with_storage(StorageView {
                    custom_configs: Some(entries_remove(custom_or_empty(e.storage), severity)),
                    ..e.storage
                }).emit(config_event(severity, 0, 0, 0)),
            )
        },
    }
}

/// The canonical configurations in canonical order, or the first lookup error.
pub open spec fn canonical_entries(s: StorageView) -> Result<Seq<SLAConfigEntry>, SLAError> {
    match SLACalculatorContract::spec_load_config(s, Symbol::critical()) {
        Err(e) => Err(e),
        Ok(c0) => match SLACalculatorContract::spec_load_config(s, Symbol::high()) {
            Err(e) => Err(e),
            Ok(c1) => match SLACalculatorContract::spec_load_config(s, Symbol::medium()) {
                Err(e) => Err(e),
                Ok(c2) => match SLACalculatorContract::spec_load_config(s, Symbol::low()) {
                    Err(e) => Err(e),
                    Ok(c3) => Ok(seq![
                        SLAConfigEntry { severity: Symbol::critical(), config: c0 },
                        SLAConfigEntry { severity: Symbol::high(), config: c1 },
                        SLAConfigEntry { severity: Symbol::medium(), config: c2 },
                        SLAConfigEntry { severity: Symbol::low(), config: c3 },
                    ]),
                },
            },
        },
    }
}

/// `r` is the snapshot (labelled `v1`) of `entries`, or the same error.
pub open spec fn snapshot_matches(r: Result<SLAConfigSnapshot, SLAError>, entries: Result<Seq<SLAConfigEntry>, SLAError>) -> bool {
    match entries {
        Err(x) => r is Err && r->Err_0 == x,
        Ok(es) => r is Ok && r->Ok_0.version == Symbol::v1() && r->Ok_0.entries@ == es,
    }
}

/// The canonical snapshot, after the version check.
pub open spec fn spec_config_snapshot(s: StorageView) -> Result<Seq<SLAConfigEntry>, SLAError> {
    match SLACalculatorContract::spec_check_version(s) {
        Err(x) => Err(x),
        Ok(_) => canonical_entries(s),
    }
}

/// The custom snapshot (registration order), after the version check.
pub open spec fn spec_custom_snapshot(s: StorageView) -> Result<Seq<SLAConfigEntry>, SLAError> {
    match SLACalculatorContract::spec_check_version(s) {
        Err(x) => Err(x),
        Ok(_) => Ok(custom_or_empty(s)),
    }
}

/// Updates a canonical severity's configuration (no role check).
pub fn set_config(
    env: &mut ContractEnv,
    severity: Symbol,
    threshold_minutes: u32,
    penalty_per_minute: i128,
    reward_base: i128,
) -> (r: Result<(), SLAError>)
    ensures
        r == spec_set_config(old(env)@, severity, threshold_minutes, penalty_per_minute, reward_base).0,
        final(env)@ == spec_set_config(old(env)@, severity, threshold_minutes, penalty_per_minute, reward_base).1,
{
    SLACalculatorContract::check_version(env)?;
    require_not_frozen(env)?;
    SLACalculatorContract::validate_config(&severity, threshold_minutes, penalty_per_minute, reward_base)?;
    let mut configs = match env.storage.configs.take() {
        Some(m) => m,
        None => return Err(SLAError::NotInitialized),
    };
    configs.set(severity, SLAConfig { threshold_minutes, penalty_per_minute, reward_base });
    env.storage.configs = Some(configs);
    config_metadata::record_config_update(env);
    env.emit(
        event(
            Symbol::cfg_upd(),
            EventContext::Name(severity),
            EventData::ConfigUpdated { threshold_minutes, penalty_per_minute, reward_base },
        ),
    );
    Ok(())
}

/// The configuration of a severity.
pub fn get_config(env: &ContractEnv, severity: Symbol) -> (r: Result<SLAConfig, SLAError>)
    ensures
        r == (match SLACalculatorContract::spec_check_version(env@.storage) {
            Err(x) => Err(x),
            Ok(_) => SLACalculatorContract::spec_load_config(env@.storage, severity),
        }),
{
    SLACalculatorContract::check_version(env)?;
    SLACalculatorContract::load_config(env, &severity)
}

/// Snapshot of the four canonical configurations in canonical order
/// (critical, high, medium, low), labelled `v1`.
pub fn get_config_snapshot(env: &ContractEnv) -> (r: Result<SLAConfigSnapshot, SLAError>)
    ensures
        snapshot_matches(r, spec_config_snapshot(env@.storage)),
{
    SLACalculatorContract::check_version(env)?;
    let c0 = SLACalculatorContract::load_config(env, &Symbol::critical())?;
    let c1 = SLACalculatorContract::load_config(env, &Symbol::high())?;
    let c2 = SLACalculatorContract::load_config(env, &Symbol::medium())?;
    let c3 = SLACalculatorContract::load_config(env, &Symbol::low())?;
    let mut entries: Vec<SLAConfigEntry> = Vec::new();
    entries.push(SLAConfigEntry { severity: Symbol::critical(), config: c0 });
    entries.push(SLAConfigEntry { severity: Symbol::high(), config: c1 });
    entries.push(SLAConfigEntry { severity: Symbol::medium(), config: c2 });
    entries.push(SLAConfigEntry { severity: Symbol::low(), config: c3 });
    assert(entries@ =~= canonical_entries(env@.storage)->Ok_0);
    Ok(SLAConfigSnapshot { version: Symbol::v1(), entries })
}

/// The canonical configuration map (`NotInitialized` when absent).
pub fn list_configs(env: &ContractEnv) -> (r: Result<SymbolMap, SLAError>)
    ensures
        match SLACalculatorContract::spec_check_version(env@.storage) {
            Err(x) => r is Err && r->Err_0 == x,
            Ok(_) => match env@.storage.configs {
                None => r is Err && r->Err_0 == SLAError::NotInitialized,
                Some(m) => r is Ok && r->Ok_0@ == m,
            },
        },
{
    SLACalculatorContract::check_version(env)?;
    match &env.storage.configs {
        Some(m) => Ok(m.copy()),
        None => Err(SLAError::NotInitialized),
    }
}

/// The configuration version hash.
pub fn get_config_version_hash(env: &ContractEnv) -> (r: Result<u64, SLAError>)
    ensures
        r == (match SLACalculatorContract::spec_check_version(env@.storage) {
            Err(x) => Err(x),
            Ok(_) => SLACalculatorContract::spec_compute_config_version_hash(env@.storage),
        }),
{
    SLACalculatorContract::check_version(env)?;
    SLACalculatorContract::compute_config_version_hash(env)
}

/// Metadata of the last configuration update, if any.
pub fn get_last_config_update(env: &ContractEnv) -> (r: Result<Option<ConfigUpdateInfo>, SLAError>)
    ensures
        r == (match SLACalculatorContract::spec_check_version(env@.storage) {
            Err(x) => Err(x),
            Ok(_) => Ok(match env@.storage.last_config_update {
                Some(seq) => Some(ConfigUpdateInfo { sequence: seq }),
                None => None,
            }),
        }),
{
    SLACalculatorContract::check_version(env)?;
    match config_metadata::get_last_config_update(env) {
        Some(seq) => Ok(Some(ConfigUpdateInfo { sequence: seq })),
        None => Ok(None),
    }
}

/// Registers or updates a custom severity (no role check).
pub fn set_custom_severity(
    env: &mut ContractEnv,
    severity: Symbol,
    threshold_minutes: u32,
    penalty_per_minute: i128,
    reward_base: i128,
) -> (r: Result<(), SLAError>)
    ensures
        r == spec_set_custom_severity(old(env)@, severity, threshold_minutes, penalty_per_minute, reward_base).0,
        final(env)@ == spec_set_custom_severity(old(env)@, severity, threshold_minutes, penalty_per_minute, reward_base).1,
{
    SLACalculatorContract::check_version(env)?;
    require_not_frozen(env)?;
    if SLACalculatorContract::is_canonical_severity(&severity) {
        return Err(SLAError::InvalidSeverity);
    }
    SLACalculatorContract::validate_general_bounds(threshold_minutes, penalty_per_minute, reward_base)?;
    let mut custom = match env.storage.custom_configs.take() {
        Some(m) => m,
        None => OrderedConfigMap::new(),
    };
    custom.set(severity, SLAConfig { threshold_minutes, penalty_per_minute, reward_base });
    env.storage.custom_configs = Some(custom);
    env.emit(
        event(
            Symbol::cfg_upd(),
            EventContext::Name(severity),
            EventData::ConfigUpdated { threshold_minutes, penalty_per_minute, reward_base },
        ),
    );
    Ok(())
}

/// Removes a custom severity (no role check).
pub fn remove_custom_severity(env: &mut ContractEnv, severity: Symbol) -> (r: Result<(), SLAError>)
    ensures
        r == spec_remove_custom_severity(old(env)@, severity).0,
        final(env)@ == spec_remove_custom_severity(old(env)@, severity).1,
{
    SLACalculatorContract::check_version(env)?;
    require_not_frozen(env)?;
    let registered = match &env.storage.custom_configs {
        Some(m) => m.get(&severity).is_some(),
        None => false,
    };
    if !registered {
        return Err(SLAError::SeverityNotInSet);
    }
    let mut custom = match env.storage.custom_configs.take() {
        Some(m) => m,
        None => OrderedConfigMap::new(),
    };
    custom.remove(&severity);
    env.storage.custom_configs = Some(custom);
    env.emit(
        event(
            Symbol::cfg_upd(),
            EventContext::Name(severity),
            EventData::ConfigUpdated { threshold_minutes: 0, penalty_per_minute: 0, reward_base: 0 },
        ),
    );
    Ok(())
}

/// The configuration of a custom severity (`SeverityNotInSet` if unregistered).
pub fn get_custom_severity(env: &ContractEnv, severity: Symbol) -> (r: Result<SLAConfig, SLAError>)
    ensures
        r == (match SLACalculatorContract::spec_check_version(env@.storage) {
            Err(x) => Err(x),
            Ok(_) => match entries_get(custom_or_empty(env@.storage), severity) {
                Some(c) => Ok(c),
                None => Err(SLAError::SeverityNotInSet),
            },
        }),
{
    SLACalculatorContract::check_version(env)?;
    let found = match &env.storage.custom_configs {
        Some(m) => m.get(&severity),
        None => None,
    };
    match found {
        Some(c) => Ok(c),
        None => Err(SLAError::SeverityNotInSet),
    }
}

/// Snapshot of the custom severities, in registration order, labelled `v1`.
pub fn get_custom_config_snapshot(env: &ContractEnv) -> (r: Result<SLAConfigSnapshot, SLAError>)
    ensures
        snapshot_matches(r, spec_custom_snapshot(env@.storage)),
{
    SLACalculatorContract::check_version(env)?;
    let entries = match &env.storage.custom_configs {
        Some(m) => m.entries(),
        None => Vec::new(),
    };
    Ok(SLAConfigSnapshot { version: Symbol::v1(), entries })
}

/// Fails with `ConfigFrozen` while configuration changes are frozen.
fn require_not_frozen(env: &ContractEnv) -> (r: Result<(), SLAError>)
    ensures
        r == (if SLACalculatorContract::spec_frozen(env@.storage) {
            Err(SLAError::ConfigFrozen)
        } else {
            Ok(())
        }),
{
    SLACalculatorContract::require_not_frozen(env)
}

impl SLACalculatorContract {
    /// Admin updates a canonical severity's configuration; see
    /// [`spec_set_config`].
    pub fn set_config(
        env: &mut ContractEnv,
        caller: Address,
        severity: Symbol,
        threshold_minutes: u32,
        penalty_per_minute: i128,
        reward_base: i128,
    ) -> (r: Result<(), SLAError>)
        ensures
            ({
                let (g, e1) = Self::admin_guard(old(env)@, caller);
                if g is Err {
                    r == g && final(env)@ == e1
                } else {
                    r == spec_set_config(e1, severity, threshold_minutes, penalty_per_minute, reward_base).0
                        && final(env)@ == spec_set_config(e1, severity, threshold_minutes, penalty_per_minute, reward_base).1
                }
            }),
    {
        Self::check_version(env)?;
        Self::require_admin(env, &caller)?;
        set_config(env, severity, threshold_minutes, penalty_per_minute, reward_base)
    }

    /// The configuration of a severity, canonical or custom.
    pub fn get_config(env: &ContractEnv, severity: Symbol) -> (r: Result<SLAConfig, SLAError>)
        ensures
            r == (match Self::spec_check_version(env@.storage) {
                Err(x) => Err(x),
                Ok(_) => Self::spec_load_config(env@.storage, severity),
            }),
    {
        get_config(env, severity)
    }

    /// Admin registers or updates a custom severity; see
    /// [`spec_set_custom_severity`].
    pub fn set_custom_severity(
        env: &mut ContractEnv,
        caller: Address,
        severity: Symbol,
        threshold_minutes: u32,
        penalty_per_minute: i128,
        reward_base: i128,
    ) -> (r: Result<(), SLAError>)
        ensures
            ({
                let (g, e1) = Self::admin_guard(old(env)@, caller);
                if g is Err {
                    r == g && final(env)@ == e1
                } else {
                    r == spec_set_custom_severity(e1, severity, threshold_minutes, penalty_per_minute, reward_base).0
                        && final(env)@ == spec_set_custom_severity(e1, severity, threshold_minutes, penalty_per_minute, reward_base).1
                }
            }),
    {
        Self::check_version(env)?;
        Self::require_admin(env, &caller)?;
        set_custom_severity(env, severity, threshold_minutes, penalty_per_minute, reward_base)
    }

    /// Admin removes a custom severity; see [`spec_remove_custom_severity`].
    pub fn remove_custom_severity(env: &mut ContractEnv, caller: Address, severity: Symbol) -> (r: Result<(), SLAError>)
        ensures
            ({
                let (g, e1) = Self::admin_guard(old(env)@, caller);
                if g is Err {
                    r == g && final(env)@ == e1
                } else {
                    r == spec_remove_custom_severity(e1, severity).0
                        && final(env)@ == spec_remove_custom_severity(e1, severity).1
                }
            }),
    {
        Self::check_version(env)?;
        Self::require_admin(env, &caller)?;
        remove_custom_severity(env, severity)
    }

    /// The configuration of a custom severity.
    pub fn get_custom_severity(env: &ContractEnv, severity: Symbol) -> (r: Result<SLAConfig, SLAError>)
        ensures
            r == (match Self::spec_check_version(env@.storage) {
                Err(x) => Err(x),
                Ok(_) => match entries_get(custom_or_empty(env@.storage), severity) {
                    Some(c) => Ok(c),
                    None => Err(SLAError::SeverityNotInSet),
                },
            }),
    {
        get_custom_severity(env, severity)
    }

    /// Snapshot of the custom severities.
    pub fn get_custom_config_snapshot(env: &ContractEnv) -> (r: Result<SLAConfigSnapshot, SLAError>)
        ensures
            snapshot_matches(r, spec_custom_snapshot(env@.storage)),
    {
        get_custom_config_snapshot(env)
    }

    /// The canonical configuration map.
    pub fn list_configs(env: &ContractEnv) -> (r: Result<SymbolMap, SLAError>)
        ensures
            match Self::spec_check_version(env@.storage) {
                Err(x) => r is Err && r->Err_0 == x,
                Ok(_) => match env@.storage.configs {
                    None => r is Err && r->Err_0 == SLAError::NotInitialized,
                    Some(m) => r is Ok && r->Ok_0@ == m,
                },
            },
    {
        list_configs(env)
    }

    /// Metadata of the last canonical configuration update, if any.
    pub fn get_last_config_update(env: &ContractEnv) -> (r: Result<Option<ConfigUpdateInfo>, SLAError>)
        ensures
            r == (match Self::spec_check_version(env@.storage) {
                Err(x) => Err(x),
                Ok(_) => Ok(match env@.storage.last_config_update {
                    Some(seq) => Some(ConfigUpdateInfo { sequence: seq }),
                    None => None,
                }),
            }),
    {
        get_last_config_update(env)
    }

    /// Snapshot of the canonical configurations in canonical order.
    pub fn get_config_snapshot(env: &ContractEnv) -> (r: Result<SLAConfigSnapshot, SLAError>)
        ensures
            snapshot_matches(r, spec_config_snapshot(env@.storage)),
    {
        get_config_snapshot(env)
    }

    /// The configuration version hash.
    pub fn get_config_version_hash(env: &ContractEnv) -> (r: Result<u64, SLAError>)
        ensures
            r == (match Self::spec_check_version(env@.storage) {
                Err(x) => Err(x),
                Ok(_) => Self::spec_compute_config_version_hash(env@.storage),
            }),
    {
        get_config_version_hash(env)
    }

    /// Number of entries in the canonical configuration map.
    pub fn get_config_count(env: &ContractEnv) -> (r: Result<u32, SLAError>)
        requires
            env@.storage.configs is Some ==> env@.storage.configs->Some_0.len() <= u32::MAX,
        ensures
            r == (match Self::spec_check_version(env@.storage) {
                Err(x) => Err(x),
                Ok(_) => match env@.storage.configs {
                    Some(m) => Ok(m.len() as u32),
                    None => Err(SLAError::NotInitialized),
                },
            }),
    {
        Self::check_version(env)?;
        match &env.storage.configs {
            Some(m) => Ok(m.len()),
            None => Err(SLAError::NotInitialized),
        }
    }
}

} // verus!
