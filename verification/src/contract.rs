//! Shared checks and lookups of the calculator: schema version, roles,
//! pause and freeze state, configuration validation, severity catalogue,
//! configuration lookup and the configuration version hash.
use vstd::prelude::*;
use crate::symbol::{Address, Symbol};
use crate::symbol_map::entries_get;
use crate::env::{ContractEnv, EnvView, StorageView};
use crate::{SLAConfig, SLAError, SLACalculatorContract, STORAGE_VERSION};

verus! {

/// Multiplier of the configuration hash.
pub const HASH_BASE: u64 = 91138233;

/// Modulus of the configuration hash, `2^63 - 25`.
pub const HASH_MODULUS: u64 = 9223372036854775783;

/// Constant mixed into the final configuration hash step.
pub const HASH_FINALIZER: u64 = 0x9e3779b97f4a7c15;

/// One mixing step of the configuration hash.
pub open spec fn hash_step(h: u64, p: u64, x: u64) -> u64 {
    h.wrapping_mul(HASH_BASE).wrapping_add(x).wrapping_mul(p) % HASH_MODULUS
}

/// Mixes the three fields of one configuration into the running
/// `(hash, power)` pair.
pub open spec fn hash_config(hp: (u64, u64), c: SLAConfig) -> (u64, u64) {
    let h1 = hash_step(hp.0, hp.1, c.threshold_minutes as u64);
    let p1 = hp.1.wrapping_mul(HASH_BASE) % HASH_MODULUS;
    let h2 = hash_step(h1, p1, c.penalty_per_minute as u64);
    let p2 = p1.wrapping_mul(HASH_BASE) % HASH_MODULUS;
    let h3 = hash_step(h2, p2, c.reward_base as u64);
    let p3 = p2.wrapping_mul(HASH_BASE) % HASH_MODULUS;
    (h3, p3)
}

/// Hash of the four canonical configurations, in the order critical,
/// high, medium, low.
pub open spec fn config_version_hash(
    critical: SLAConfig,
    high: SLAConfig,
    medium: SLAConfig,
    low: SLAConfig,
) -> u64 {
    let hp = hash_config(hash_config(hash_config(hash_config((1, 1), critical), high), medium), low);
    hp.0.wrapping_mul(HASH_BASE).wrapping_add(HASH_FINALIZER) % HASH_MODULUS
}

impl SLACalculatorContract {
    /// The stored schema version must exist and equal `STORAGE_VERSION`.
    pub open spec fn spec_check_version(s: StorageView) -> Result<(), SLAError> {
        match s.storage_version {
            None => Err(SLAError::NotInitialized),
            Some(v) => if v == STORAGE_VERSION {
                Ok(())
            } else {
                Err(SLAError::VersionMismatch)
            },
        }
    }

    /// The holder of a role must exist and be the caller.
    pub open spec fn spec_role_check(role: Option<Address>, caller: Address) -> Result<(), SLAError> {
        match role {
            None => Err(SLAError::NotInitialized),
            Some(a) => if a == caller {
                Ok(())
            } else {
                Err(SLAError::Unauthorized)
            },
        }
    }

    /// Version check, then the caller's authorization, then the admin
    /// check: the guard of every operation reserved to the admin.
    pub open spec fn admin_guard(e: EnvView, caller: Address) -> (Result<(), SLAError>, EnvView) {
        match Self::spec_check_version(e.storage) {
            Err(x) => (Err(x), e),
            Ok(_) => (Self::spec_role_check(e.storage.admin, caller), e.with_auth(caller)),
        }
    }

    /// Whether the pause flag is set (absent means not paused).
    pub open spec fn spec_paused(s: StorageView) -> bool {
        match s.paused {
            Some(b) => b,
            None => false,
        }
    }

    /// Whether configuration changes are frozen (absent means not frozen).
    pub open spec fn spec_frozen(s: StorageView) -> bool {
        match s.config_frozen {
            Some(b) => b,
            None => false,
        }
    }

    /// Index of a canonical severity: critical 0, high 1, medium 2, low 3.
    pub open spec fn spec_canonical_index(severity: Symbol) -> Option<u32> {
        if severity == Symbol::critical() {
            Some(0)
        } else if severity == Symbol::high() {
            Some(1)
        } else if severity == Symbol::medium() {
            Some(2)
        } else if severity == Symbol::low() {
            Some(3)
        } else {
            None
        }
    }

    /// The canonical severity of a given index.
    pub open spec fn canonical_severity(i: int) -> Symbol {
        if i == 0 {
            Symbol::critical()
        } else if i == 1 {
            Symbol::high()
        } else if i == 2 {
            Symbol::medium()
        } else {
            Symbol::low()
        }
    }

    /// The four canonical severities in canonical order.
    pub open spec fn spec_canonical_severities() -> Seq<Symbol> {
        seq![Symbol::critical(), Symbol::high(), Symbol::medium(), Symbol::low()]
    }

    /// Bounds shared by every severity: threshold in `1..=1440`, penalty in
    /// `1..=10000`, reward in `1..=100000`, checked in that order.
    pub open spec fn spec_validate_general_bounds(
        threshold_minutes: u32,
        penalty_per_minute: i128,
        reward_base: i128,
    ) -> Result<(), SLAError> {
        if threshold_minutes == 0 || threshold_minutes > 1440 {
            Err(SLAError::InvalidThreshold)
        } else if penalty_per_minute <= 0 || penalty_per_minute > 10000 {
            Err(SLAError::InvalidPenalty)
        } else if reward_base <= 0 || reward_base > 100000 {
            Err(SLAError::InvalidReward)
        } else {
            Ok(())
        }
    }

    /// Validation of a canonical severity's configuration: the severity
    /// must be canonical, the general bounds must hold, then the
    /// severity-specific limits: critical threshold at most 60 and penalty
    /// at least 50; high at most 120 and at least 25; medium at most 240
    /// and at least 10; low penalty at most 100; last the cross-parameter
    /// rule: the penalty per minute must be below the reward base
    /// (`InvalidPenalty` otherwise).
    pub open spec fn spec_validate_config(
        severity: Symbol,
        threshold_minutes: u32,
        penalty_per_minute: i128,
        reward_base: i128,
    ) -> Result<(), SLAError> {
        if Self::spec_canonical_index(severity).is_none() {
            Err(SLAError::InvalidSeverity)
        } else if Self::spec_validate_general_bounds(threshold_minutes, penalty_per_minute, reward_base).is_err() {
            Self::spec_validate_general_bounds(threshold_minutes, penalty_per_minute, reward_base)
        } else if severity == Symbol::critical() {
            if threshold_minutes > 60 {
                Err(SLAError::InvalidThreshold)
            } else if penalty_per_minute < 50 {
                Err(SLAError::InvalidPenalty)
            } else {
                Self::spec_cross_check(penalty_per_minute, reward_base)
            }
        } else if severity == Symbol::high() {
            if threshold_minutes > 120 {
                Err(SLAError::InvalidThreshold)
            } else if penalty_per_minute < 25 {
                Err(SLAError::InvalidPenalty)
            } else {
                Self::spec_cross_check(penalty_per_minute, reward_base)
            }
        } else if severity == Symbol::medium() {
            if threshold_minutes > 240 {
                Err(SLAError::InvalidThreshold)
            } else if penalty_per_minute < 10 {
                Err(SLAError::InvalidPenalty)
            } else {
                Self::spec_cross_check(penalty_per_minute, reward_base)
            }
        } else if penalty_per_minute > 100 {
            Err(SLAError::InvalidPenalty)
        } else {
            Self::spec_cross_check(penalty_per_minute, reward_base)
        }
    }

    /// The cross-parameter rule: the penalty per minute is below the reward base.
    pub open spec fn spec_cross_check(penalty_per_minute: i128, reward_base: i128) -> Result<(), SLAError> {
        if penalty_per_minute >= reward_base {
            Err(SLAError::InvalidPenalty)
        } else {
            Ok(())
        }
    }

    /// Configuration lookup: canonical severities in the canonical map
    /// (absent map: not initialized), others in the custom map (absent
    /// map: empty).
    pub open spec fn spec_load_config(s: StorageView, severity: Symbol) -> Result<SLAConfig, SLAError> {
        if Self::spec_canonical_index(severity).is_some() {
            match s.configs {
                None => Err(SLAError::NotInitialized),
                Some(m) => match entries_get(m, severity) {
                    Some(c) => Ok(c),
                    None => Err(SLAError::ConfigNotFound),
                },
            }
        } else {
            let m = match s.custom_configs {
                Some(m) => m,
                None => Seq::empty(),
            };
            match entries_get(m, severity) {
                Some(c) => Ok(c),
                None => Err(SLAError::ConfigNotFound),
            }
        }
    }

    /// The configuration version hash, or the first lookup error among the
    /// canonical severities.
    pub open spec fn spec_compute_config_version_hash(s: StorageView) -> Result<u64, SLAError> {
        match Self::spec_load_config(s, Symbol::critical()) {
            Err(e) => Err(e),
            Ok(c0) => match Self::spec_load_config(s, Symbol::high()) {
                Err(e) => Err(e),
                Ok(c1) => match Self::spec_load_config(s, Symbol::medium()) {
                    Err(e) => Err(e),
                    Ok(c2) => match Self::spec_load_config(s, Symbol::low()) {
                        Err(e) => Err(e),
                        Ok(c3) => Ok(config_version_hash(c0, c1, c2, c3)),
                    },
                },
            },
        }
    }

    /// Checks the stored schema version.
    pub fn check_version(env: &ContractEnv) -> (r: Result<(), SLAError>)
        ensures
            r == Self::spec_check_version(env@.storage),
    {
        match env.storage.storage_version {
            None => Err(SLAError::NotInitialized),
            Some(v) => if v == STORAGE_VERSION {
                Ok(())
            } else {
                Err(SLAError::VersionMismatch)
            },
        }
    }

    /// Demands the caller's authorization, then checks that it is the admin.
    pub fn require_admin(env: &mut ContractEnv, caller: &Address) -> (r: Result<(), SLAError>)
        ensures
            final(env)@ == old(env)@.with_auth(*caller),
            r == Self::spec_role_check(old(env)@.storage.admin, *caller),
    {
        env.require_auth(caller);
        match env.storage.admin {
            None => Err(SLAError::NotInitialized),
            Some(a) => if a == *caller {
                Ok(())
            } else {
                Err(SLAError::Unauthorized)
            },
        }
    }

    /// Demands the caller's authorization, then checks that it is the operator.
    pub fn require_operator(env: &mut ContractEnv, caller: &Address) -> (r: Result<(), SLAError>)
        ensures
            final(env)@ == old(env)@.with_auth(*caller),
            r == Self::spec_role_check(old(env)@.storage.operator, *caller),
    {
        env.require_auth(caller);
        match env.storage.operator {
            None => Err(SLAError::NotInitialized),
            Some(a) => if a == *caller {
                Ok(())
            } else {
                Err(SLAError::Unauthorized)
            },
        }
    }

    /// Fails with `ContractPaused` while paused.
    pub fn require_not_paused(env: &ContractEnv) -> (r: Result<(), SLAError>)
        ensures
            r == (if Self::spec_paused(env@.storage) {
                Err(SLAError::ContractPaused)
            } else {
                Ok(())
            }),
    {
        let paused = match env.storage.paused {
            Some(b) => b,
            None => false,
        };
        if paused {
            return Err(SLAError::ContractPaused);
        }
        Ok(())
    }

    /// Fails with `ConfigFrozen` while configuration changes are frozen.
    pub fn require_not_frozen(env: &ContractEnv) -> (r: Result<(), SLAError>)
        ensures
            r == (if Self::spec_frozen(env@.storage) {
                Err(SLAError::ConfigFrozen)
            } else {
                Ok(())
            }),
    {
        let frozen = match env.storage.config_frozen {
            Some(b) => b,
            None => false,
        };
        if frozen {
            return Err(SLAError::ConfigFrozen);
        }
        Ok(())
    }

    /// Checks the bounds shared by every severity.
    pub fn validate_general_bounds(
        threshold_minutes: u32,
        penalty_per_minute: i128,
        reward_base: i128,
    ) -> (r: Result<(), SLAError>)
        ensures
            r == Self::spec_validate_general_bounds(threshold_minutes, penalty_per_minute, reward_base),
    {
        if threshold_minutes == 0 || threshold_minutes > 1440 {
            return Err(SLAError::InvalidThreshold);
        }
        if penalty_per_minute <= 0 || penalty_per_minute > 10000 {
            return Err(SLAError::InvalidPenalty);
        }
        if reward_base <= 0 || reward_base > 100000 {
            return Err(SLAError::InvalidReward);
        }
        Ok(())
    }

    /// Validates a canonical severity's configuration.
    pub fn validate_config(
        severity: &Symbol,
        threshold_minutes: u32,
        penalty_per_minute: i128,
        reward_base: i128,
    ) -> (r: Result<(), SLAError>)
        ensures
            r == Self::spec_validate_config(*severity, threshold_minutes, penalty_per_minute, reward_base),
    {
        if !Self::is_canonical_severity(severity) {
            return Err(SLAError::InvalidSeverity);
        }
        if threshold_minutes == 0 || threshold_minutes > 1440 {
            return Err(SLAError::InvalidThreshold);
        }
        if penalty_per_minute <= 0 || penalty_per_minute > 10000 {
            return Err(SLAError::InvalidPenalty);
        }
        if reward_base <= 0 || reward_base > 100000 {
            return Err(SLAError::InvalidReward);
        }
        if *severity == Symbol::critical() {
            if threshold_minutes > 60 {
                return Err(SLAError::InvalidThreshold);
            }
            if penalty_per_minute < 50 {
                return Err(SLAError::InvalidPenalty);
            }
        } else if *severity == Symbol::high() {
            if threshold_minutes > 120 {
                return Err(SLAError::InvalidThreshold);
            }
            if penalty_per_minute < 25 {
                return Err(SLAError::InvalidPenalty);
            }
        } else if *severity == Symbol::medium() {
            if threshold_minutes > 240 {
                return Err(SLAError::InvalidThreshold);
            }
            if penalty_per_minute < 10 {
                return Err(SLAError::InvalidPenalty);
            }
        } else if *severity == Symbol::low() {
            if penalty_per_minute > 100 {
                return Err(SLAError::InvalidPenalty);
            }
        } else {
            return Err(SLAError::InvalidSeverity);
        }
        if penalty_per_minute >= reward_base {
            return Err(SLAError::InvalidPenalty);
        }
        Ok(())
    }

    /// The four canonical severities in canonical order.
    pub fn canonical_severities(env: &ContractEnv) -> (r: Vec<Symbol>)
        ensures
            r@ == Self::spec_canonical_severities(),
    {
        let mut severities: Vec<Symbol> = Vec::new();
        severities.push(Symbol::critical());
        severities.push(Symbol::high());
        severities.push(Symbol::medium());
        severities.push(Symbol::low());
        assert(severities@ =~= Self::spec_canonical_severities());
        severities
    }

    /// Index of a canonical severity.
    pub fn canonical_severity_index(severity: &Symbol) -> (r: Option<u32>)
        ensures
            r == Self::spec_canonical_index(*severity),
    {
        if *severity == Symbol::critical() {
            Some(0)
        } else if *severity == Symbol::high() {
            Some(1)
        } else if *severity == Symbol::medium() {
            Some(2)
        } else if *severity == Symbol::low() {
            Some(3)
        } else {
            None
        }
    }

    /// Whether the severity is one of the four canonical ones.
    pub fn is_canonical_severity(severity: &Symbol) -> (r: bool)
        ensures
            r == Self::spec_canonical_index(*severity).is_some(),
    {
        Self::canonical_severity_index(severity).is_some()
    }

    /// Looks up the configuration of a severity.
    pub fn load_config(env: &ContractEnv, severity: &Symbol) -> (r: Result<SLAConfig, SLAError>)
        ensures
            r == Self::spec_load_config(env@.storage, *severity),
    {
        if Self::is_canonical_severity(severity) {
            match &env.storage.configs {
                None => Err(SLAError::NotInitialized),
                Some(m) => match m.get(severity) {
                    Some(c) => Ok(c),
                    None => Err(SLAError::ConfigNotFound),
                },
            }
        } else {
            match &env.storage.custom_configs {
                None => {
                    assert(entries_get(Seq::empty(), *severity) == None::<SLAConfig>);
                    Err(SLAError::ConfigNotFound)
                },
                Some(m) => match m.get(severity) {
                    Some(c) => Ok(c),
                    None => Err(SLAError::ConfigNotFound),
                },
            }
        }
    }

    /// Mixes one configuration into the running hash.
    fn mix_config(h: u64, p: u64, c: &SLAConfig) -> (r: (u64, u64))
        ensures
            r == hash_config((h, p), *c),
    {
        let h1 = h.wrapping_mul(HASH_BASE).wrapping_add(c.threshold_minutes as u64).wrapping_mul(p) % HASH_MODULUS;
        let p1 = p.wrapping_mul(HASH_BASE) % HASH_MODULUS;
        let h2 = h1.wrapping_mul(HASH_BASE).wrapping_add(c.penalty_per_minute as u64).wrapping_mul(p1) % HASH_MODULUS;
        let p2 = p1.wrapping_mul(HASH_BASE) % HASH_MODULUS;
        let h3 = h2.wrapping_mul(HASH_BASE).wrapping_add(c.reward_base as u64).wrapping_mul(p2) % HASH_MODULUS;
        let p3 = p2.wrapping_mul(HASH_BASE) % HASH_MODULUS;
        (h3, p3)
    }

    /// The configuration version hash over the four canonical
    /// configurations: a polynomial rolling hash, stable while the
    /// configuration is unchanged.
    pub fn compute_config_version_hash(env: &ContractEnv) -> (r: Result<u64, SLAError>)
        ensures
            r == Self::spec_compute_config_version_hash(env@.storage),
    {
        let c0 = Self::load_config(env, &Symbol::critical())?;
        let c1 = Self::load_config(env, &Symbol::high())?;
        let c2 = Self::load_config(env, &Symbol::medium())?;
        let c3 = Self::load_config(env, &Symbol::low())?;
        let (h, p) = Self::mix_config(1, 1, &c0);
        let (h, p) = Self::mix_config(h, p, &c1);
        let (h, p) = Self::mix_config(h, p, &c2);
        let (h, p) = Self::mix_config(h, p, &c3);
        Ok(h.wrapping_mul(HASH_BASE).wrapping_add(HASH_FINALIZER) % HASH_MODULUS)
    }
}

} // verus!
