//! Freezing of configuration changes.
use vstd::prelude::*;
use crate::symbol::{Address, Symbol};
use crate::env::{event, ContractEnv, EnvView, EventContext, EventData, StorageView};
use crate::governance::admin_step;
use crate::{SLAError, SLACalculatorContract};

verus! {

/// Sets the freeze flag.
pub fn freeze_config(env: &mut ContractEnv)
    ensures
        final(env)@ == old(env)@.with_storage(StorageView { config_frozen: Some(true), ..old(env)@.storage }),
{
    env.storage.config_frozen = Some(true);
}

/// Clears the freeze flag.
pub fn unfreeze_config(env: &mut ContractEnv)
    ensures
        final(env)@ == old(env)@.with_storage(StorageView { config_frozen: Some(false), ..old(env)@.storage }),
{
    env.storage.config_frozen = Some(false);
}

/// Whether configuration changes are frozen (absent flag: not frozen).
pub fn is_config_frozen(env: &ContractEnv) -> (r: bool)
    ensures
        r == SLACalculatorContract::spec_frozen(env@.storage),
{
    match env.storage.config_frozen {
        Some(b) => b,
        None => false,
    }
}

/// Admin freezes configuration changes.
pub open spec fn spec_freeze(e: EnvView, caller: Address) -> (Result<(), SLAError>, EnvView) {
    admin_step(e, caller, StorageView { config_frozen: Some(true), ..e.storage }, Symbol::cfg_frz(), EventData::Empty)
}

/// Admin allows configuration changes again.
pub open spec fn spec_unfreeze(e: EnvView, caller: Address) -> (Result<(), SLAError>, EnvView) {
    admin_step(e, caller, StorageView { config_frozen: Some(false), ..e.storage }, Symbol::cfg_unfrz(), EventData::Empty)
}

impl SLACalculatorContract {
    /// Admin freezes configuration changes.  Emits `cfg_frz`.
    pub fn freeze_config(env: &mut ContractEnv, caller: Address) -> (r: Result<(), SLAError>)
        ensures
            r == spec_freeze(old(env)@, caller).0,
            final(env)@ == spec_freeze(old(env)@, caller).1,
    {
        Self::check_version(env)?;
        Self::require_admin(env, &caller)?;
        freeze_config(env);
        env.emit(event(Symbol::cfg_frz(), EventContext::Caller(caller), EventData::Empty));
        Ok(())
    }

    /// Admin allows configuration changes again.  Emits `cfg_unfrz`.
    pub fn unfreeze_config(env: &mut ContractEnv, caller: Address) -> (r: Result<(), SLAError>)
        ensures
            r == spec_unfreeze(old(env)@, caller).0,
            final(env)@ == spec_unfreeze(old(env)@, caller).1,
    {
        Self::check_version(env)?;
        Self::require_admin(env, &caller)?;
        unfreeze_config(env);
        env.emit(event(Symbol::cfg_unfrz(), EventContext::Caller(caller), EventData::Empty));
        Ok(())
    }

    /// Whether configuration changes are frozen.
    pub fn is_config_frozen(env: &ContractEnv) -> (r: Result<bool, SLAError>)
        ensures
            r == (match Self::spec_check_version(env@.storage) {
                Err(x) => Err(x),
                Ok(_) => Ok(Self::spec_frozen(env@.storage)),
            }),
    {
        Self::check_version(env)?;
        Ok(is_config_frozen(env))
    }
}

} // verus!
