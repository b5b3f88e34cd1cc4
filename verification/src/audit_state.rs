//! The complete audit state in one read.
use vstd::prelude::*;
use crate::symbol::Address;
use crate::env::{ContractEnv, PauseInfo, StorageView};
use crate::calculation::history_or_empty;
use crate::config::canonical_entries;
use crate::schema::is_result_schema;
use crate::symbol::Symbol;
use crate::{SLAConfigSnapshot, SLAError, SLAResultSchema, SLAStats, SLACalculatorContract};

verus! {

/// Everything an auditor reads: roles, pause state, configuration,
/// statistics, history length and result schema.
pub struct AuditState {
    pub admin: Address,
    pub operator: Address,
    pub pending_admin: Option<Address>,
    pub pending_operator: Option<Address>,
    pub paused: bool,
    /// Empty when not paused, one element when paused.
    pub pause_info: Vec<PauseInfo>,
    pub config_snapshot: SLAConfigSnapshot,
    pub stats: SLAStats,
    pub history_len: u32,
    pub result_schema: SLAResultSchema,
}

/// The error of the audit read, if any: schema version, then admin,
/// operator (`NotInitialized` when absent), canonical configuration and
/// statistics (`NotInitialized` when absent).
pub open spec fn audit_error(s: StorageView) -> Option<SLAError> {
    if SLACalculatorContract::spec_check_version(s) is Err {
        Some(SLACalculatorContract::spec_check_version(s)->Err_0)
    } else if s.admin is None || s.operator is None {
        Some(SLAError::NotInitialized)
    } else if canonical_entries(s) is Err {
        Some(canonical_entries(s)->Err_0)
    } else if s.stats is None {
        Some(SLAError::NotInitialized)
    } else {
        None
    }
}

/// `a` is the audit state of storage `s`.
pub open spec fn is_audit_state(a: AuditState, s: StorageView) -> bool {
    &&& a.admin == s.admin->Some_0
    &&& a.operator == s.operator->Some_0
    &&& a.pending_admin == s.pending_admin
    &&& a.pending_operator == s.pending_operator
    &&& a.paused == SLACalculatorContract::spec_paused(s)
    &&& match s.pause_info {
        None => a.pause_info@.len() == 0,
        Some(p) => a.pause_info@.len() == 1 && a.pause_info@[0]@ == p,
    }
    &&& a.config_snapshot.version == Symbol::v1()
    &&& a.config_snapshot.entries@ == canonical_entries(s)->Ok_0
    &&& a.stats == s.stats->Some_0
    &&& a.history_len == history_or_empty(s).len()
    &&& is_result_schema(a.result_schema)
}

impl SLACalculatorContract {
    /// The complete audit state; see [`audit_error`] and [`is_audit_state`].
    pub fn get_full_audit_state(env: &ContractEnv) -> (r: Result<AuditState, SLAError>)
        requires
            history_or_empty(env@.storage).len() <= u32::MAX,
        ensures
            match audit_error(env@.storage) {
                Some(x) => r is Err && r->Err_0 == x,
                None => r is Ok && is_audit_state(r->Ok_0, env@.storage),
            },
    {
        Self::check_version(env)?;
        let admin = Self::get_admin(env)?;
        let operator = Self::get_operator(env)?;
        let pending_admin = Self::get_pending_admin(env)?;
        let pending_operator = Self::get_pending_operator(env)?;
        let paused = Self::is_paused(env)?;
        let pause_info = Self::get_pause_info(env)?;
        let config_snapshot = Self::get_config_snapshot(env)?;
        let stats = Self::get_stats(env)?;
        let result_schema = Self::get_result_schema(env)?;
        let history_len: u32 = match &env.storage.history {
            Some(h) => h.len() as u32,
            None => 0,
        };
        let mut pause_list: Vec<PauseInfo> = Vec::new();
        match pause_info {
            Some(info) => pause_list.push(info),
            None => {},
        }
        Ok(AuditState {
            admin,
            operator,
            pending_admin,
            pending_operator,
            paused,
            pause_info: pause_list,
            config_snapshot,
            stats,
            history_len,
            result_schema,
        })
    }
}

} // verus!
