//! Deterministic SLA (service level agreement) calculator.
//!
//! The library holds the calculator's whole decision logic: penalty and
//! reward computation, configuration validation and versioning, role
//! management, pausing, statistics, per-severity telemetry and the bounded
//! calculation history.  Persistent state is modelled by [`env::ContractEnv`],
//! a plain value holding every storage entry the calculator reads or
//! writes, the events it emits, the authorizations it demands and the
//! ledger clock.  Every operation is specified as a transition of that
//! value.
pub mod symbol;
pub mod codec;
pub mod symbol_map;
pub mod ordered_map;
pub mod env;
pub mod contract;
pub mod calculation;
pub mod config;
pub mod config_bundle;
pub mod config_freeze;
pub mod config_metadata;
pub mod audit_state;
pub mod governance;
pub mod history;
pub mod lifecycle;
pub mod schema;
pub mod history_snapshot;
pub mod metadata;
pub mod laws;
pub mod operation_laws;

pub use crate::symbol::{Address, Symbol};
pub use crate::symbol_map::SymbolMap;
pub use crate::ordered_map::OrderedConfigMap;
pub use crate::env::{ContractEnv, InstanceStorage, ContractEvent, EventContext, EventData, PauseInfo};

use vstd::prelude::*;

verus! {

/// Storage schema version this library expects.
pub const STORAGE_VERSION: u32 = 1;

/// Version of the result schema reported by `get_result_schema`.
pub const RESULT_SCHEMA_VERSION: u32 = 1;

/// Hard upper bound on retained history entries.
pub const MAX_HISTORY_SIZE: u32 = 1000;

/// Maximum length, in bytes, of a pause reason.
pub const MAX_REASON_LEN: usize = 256;

/// Errors returned by the calculator.  Each has a stable numeric code,
/// given by [`SLAError::code`].
#[derive(Clone, Copy, Debug, PartialEq, Eq, Structural)]
pub enum SLAError {
    /// The calculator was already initialized.
    AlreadyInitialized,
    /// The calculator has not been initialized.
    NotInitialized,
    /// The caller lacks the required role.
    Unauthorized,
    /// No configuration exists for the severity.
    ConfigNotFound,
    /// The stored schema version differs from the expected one.
    VersionMismatch,
    /// The calculator is paused.
    ContractPaused,
    /// No pending role transfer exists.
    NoPendingTransfer,
    /// Threshold outside the allowed range.
    InvalidThreshold,
    /// Penalty per minute outside the allowed range.
    InvalidPenalty,
    /// Reward base outside the allowed range.
    InvalidReward,
    /// Severity not supported.
    InvalidSeverity,
    /// Retention limit outside `1..=MAX_HISTORY_SIZE`.
    RetentionLimitOutOfRange,
    /// The same outage was submitted again with different inputs.
    DuplicateOutageInput,
    /// The computed penalty is not a valid negative amount.
    InvalidPenaltyAmount,
    /// The computed reward is not a valid positive amount.
    InvalidRewardAmount,
    /// Configuration changes are frozen.
    ConfigFrozen,
    /// An input violates a documented constraint.
    InvalidInput,
    /// The custom severity is not registered.
    SeverityNotInSet,
}

impl SLAError {
    /// The stable numeric code of the error.
    pub open spec fn spec_code(&self) -> u32 {
        match self {
            SLAError::AlreadyInitialized => 1,
            SLAError::NotInitialized => 2,
            SLAError::Unauthorized => 3,
            SLAError::ConfigNotFound => 4,
            SLAError::VersionMismatch => 5,
            SLAError::ContractPaused => 6,
            SLAError::NoPendingTransfer => 7,
            SLAError::InvalidThreshold => 8,
            SLAError::InvalidPenalty => 9,
            SLAError::InvalidReward => 10,
            SLAError::InvalidSeverity => 11,
            SLAError::RetentionLimitOutOfRange => 12,
            SLAError::DuplicateOutageInput => 13,
            SLAError::InvalidPenaltyAmount => 14,
            SLAError::InvalidRewardAmount => 15,
            SLAError::ConfigFrozen => 16,
            SLAError::InvalidInput => 17,
            SLAError::SeverityNotInSet => 18,
        }
    }

    /// The stable numeric code of the error.
    #[verifier::when_used_as_spec(spec_code)]
    pub fn code(&self) -> (c: u32)
        ensures
            c == self.spec_code(),
    {
        match self {
            SLAError::AlreadyInitialized => 1,
            SLAError::NotInitialized => 2,
            SLAError::Unauthorized => 3,
            SLAError::ConfigNotFound => 4,
            SLAError::VersionMismatch => 5,
            SLAError::ContractPaused => 6,
            SLAError::NoPendingTransfer => 7,
            SLAError::InvalidThreshold => 8,
            SLAError::InvalidPenalty => 9,
            SLAError::InvalidReward => 10,
            SLAError::InvalidSeverity => 11,
            SLAError::RetentionLimitOutOfRange => 12,
            SLAError::DuplicateOutageInput => 13,
            SLAError::InvalidPenaltyAmount => 14,
            SLAError::InvalidRewardAmount => 15,
            SLAError::ConfigFrozen => 16,
            SLAError::InvalidInput => 17,
            SLAError::SeverityNotInSet => 18,
        }
    }
}

/// The calculator.  Its operations take the contract environment they act on.
pub struct SLACalculatorContract;

/// Configuration parameters for one severity level.
#[derive(Clone, Copy, Debug, PartialEq, Eq, Structural)]
pub struct SLAConfig {
    /// Repair time, in minutes, beyond which the SLA is violated.
    pub threshold_minutes: u32,
    /// Penalty charged per minute of overtime.
    pub penalty_per_minute: i128,
    /// Base reward for meeting the SLA.
    pub reward_base: i128,
}

/// Result of one SLA calculation.
#[derive(Clone, Copy, Debug, PartialEq, Eq, Structural)]
pub struct SLAResult {
    /// Identifier of the outage.
    pub outage_id: Symbol,
    /// `met` or `viol`.
    pub status: Symbol,
    /// Measured time to repair, in minutes.
    pub mttr_minutes: u32,
    /// Threshold applied for the severity.
    pub threshold_minutes: u32,
    /// Negative for a penalty, positive for a reward.
    pub amount: i128,
    /// `rew` or `pen`.
    pub payment_type: Symbol,
    /// `top`, `excel`, `good` or `poor`.
    pub rating: Symbol,
    /// Hash of the configuration used.
    pub config_version_hash: u64,
    /// Ledger timestamp of the calculation.
    pub recorded_at: u64,
}

/// One severity-to-configuration entry.
#[derive(Clone, Copy, Debug, PartialEq, Eq, Structural)]
pub struct SLAConfigEntry {
    pub severity: Symbol,
    pub config: SLAConfig,
}

/// Ordered snapshot of configuration entries.
pub struct SLAConfigSnapshot {
    /// Schema label, `v1`.
    pub version: Symbol,
    pub entries: Vec<SLAConfigEntry>,
}

/// A deprecated symbol mapping still emitted for compatibility.
#[derive(Clone, Copy, Debug, PartialEq, Eq, Structural)]
pub struct DeprecatedSymbol {
    pub old_symbol: Symbol,
    pub new_symbol: Symbol,
    pub deprecated_at: u32,
    pub removal_version: Option<u32>,
}

/// The result encoding schema.
pub struct SLAResultSchema {
    pub version: Symbol,
    pub schema_version: u32,
    pub status_met: Symbol,
    pub status_violated: Symbol,
    pub payment_reward: Symbol,
    pub payment_penalty: Symbol,
    pub rating_exceptional: Symbol,
    pub rating_excellent: Symbol,
    pub rating_good: Symbol,
    pub rating_poor: Symbol,
    pub includes_config_version_hash: bool,
    pub deprecated_symbols: Vec<DeprecatedSymbol>,
}

/// Static capabilities of the calculator.
pub struct ContractMetadata {
    pub contract_name: Symbol,
    pub storage_version: u32,
    pub result_schema_version: u32,
    pub supported_severities: Vec<Symbol>,
    pub features: Vec<Symbol>,
}

/// Cumulative calculation statistics.
#[derive(Clone, Copy, Debug, PartialEq, Eq, Structural)]
pub struct SLAStats {
    pub total_calculations: u64,
    pub total_violations: u64,
    /// Sum of all rewards paid.
    pub total_rewards: i128,
    /// Sum of all penalties, stored positive.
    pub total_penalties: i128,
}

/// Per-severity weekly violation telemetry.
#[derive(Clone, Copy, Debug, PartialEq, Eq, Structural)]
pub struct SeverityTelemetry {
    pub severity: Symbol,
    pub calculations: u32,
    pub violations: u32,
    /// Violations per hundred calculations, at most 100.
    pub violation_rate: u32,
}

/// Metadata of the most recent configuration update.
#[derive(Clone, Copy, Debug, PartialEq, Eq, Structural)]
pub struct ConfigUpdateInfo {
    /// Ledger sequence of the update.
    pub sequence: u32,
}

/// Stored schema version and migration posture.
#[derive(Clone, Copy, Debug, PartialEq, Eq, Structural)]
pub struct StorageVersionInfo {
    pub stored_version: u32,
    pub expected_version: u32,
    pub needs_migration: bool,
}

/// One entry of the failure code catalogue.
#[derive(Clone, Copy, Debug, PartialEq, Eq, Structural)]
pub struct FailureCode {
    pub code: u32,
    pub label: Symbol,
    pub description: Symbol,
}

/// The failure code catalogue.
pub struct FailureSchema {
    pub version: Symbol,
    pub codes: Vec<FailureCode>,
}

/// Combined version negotiation snapshot.
#[derive(Clone, Copy, Debug, PartialEq, Eq, Structural)]
pub struct VersionInfo {
    pub storage_version: u32,
    pub result_schema_version: u32,
    pub needs_migration: bool,
    pub is_paused: bool,
    pub contract_name: Symbol,
}

} // verus!
