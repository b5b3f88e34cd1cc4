//! Pausing: admin-controlled pause flag with pause metadata.
use vstd::prelude::*;
use crate::symbol::{Address, Symbol};
use crate::env::{event, ContractEnv, EnvView, EventContext, EventData, PauseInfo, PauseView, StorageView};
use crate::{SLAError, SLACalculatorContract, MAX_REASON_LEN};

verus! {

/// Admin pauses, giving a reason of at most `MAX_REASON_LEN` bytes
/// (`InvalidInput` otherwise): the pause flag is set and the reason, the
/// ledger timestamp and the caller are kept as pause metadata.
pub open spec fn spec_pause(e: EnvView, caller: Address, reason: Seq<u8>) -> (Result<(), SLAError>, EnvView) {
    let (g, e1) = SLACalculatorContract::admin_guard(e, caller);
    if g is Err {
        (g, e1)
    } else if reason.len() > MAX_REASON_LEN {
        (Err(SLAError::InvalidInput), e1)
    } else {
        (
            Ok(()),
            e1.with_storage(StorageView {
                paused: Some(true),
                pause_info: Some(PauseView { reason, paused_at: e.timestamp, paused_by: caller }),
                ..e.storage
            }).emit(event(Symbol::paused(), EventContext::Caller(caller), EventData::Flag(true))),
        )
    }
}

/// Admin unpauses: the pause flag is cleared and the metadata removed.
pub open spec fn spec_unpause(e: EnvView, caller: Address) -> (Result<(), SLAError>, EnvView) {
    let (g, e1) = SLACalculatorContract::admin_guard(e, caller);
    if g is Err {
        (g, e1)
    } else {
        (
            Ok(()),
            e1.with_storage(StorageView { paused: Some(false), pause_info: None, ..e.storage }).emit(
                event(Symbol::unpause(), EventContext::Caller(caller), EventData::Flag(false)),
            ),
        )
    }
}

/// Admin pauses the calculator.
pub fn pause(env: &mut ContractEnv, caller: &Address, reason: Vec<u8>) -> (r: Result<(), SLAError>)
    ensures
        r == spec_pause(old(env)@, *caller, reason@).0,
        final(env)@ == spec_pause(old(env)@, *caller, reason@).1,
{
    SLACalculatorContract::check_version(env)?;
    SLACalculatorContract::require_admin(env, caller)?;
    if reason.len() > MAX_REASON_LEN {
        return Err(SLAError::InvalidInput);
    }
    let paused_at = env.timestamp;
    env.storage.paused = Some(true);
    env.storage.pause_info = Some(PauseInfo { reason, paused_at, paused_by: *caller });
    env.emit(event(Symbol::paused(), EventContext::Caller(*caller), EventData::Flag(true)));
    Ok(())
}

/// Admin unpauses the calculator.
pub fn unpause(env: &mut ContractEnv, caller: &Address) -> (r: Result<(), SLAError>)
    ensures
        r == spec_unpause(old(env)@, *caller).0,
        final(env)@ == spec_unpause(old(env)@, *caller).1,
{
    SLACalculatorContract::check_version(env)?;
    SLACalculatorContract::require_admin(env, caller)?;
    env.storage.paused = Some(false);
    env.storage.pause_info = None;
    env.emit(event(Symbol::unpause(), EventContext::Caller(*caller), EventData::Flag(false)));
    Ok(())
}

/// Whether the calculator is paused.
pub fn is_paused(env: &ContractEnv) -> (r: Result<bool, SLAError>)
    ensures
        r == (match SLACalculatorContract::spec_check_version(env@.storage) {
            Err(x) => Err(x),
            Ok(_) => Ok(SLACalculatorContract::spec_paused(env@.storage)),
        }),
{
    SLACalculatorContract::check_version(env)?;
    match env.storage.paused {
        Some(b) => Ok(b),
        None => Ok(false),
    }
}

/// The pause metadata, present while paused.
pub open spec fn pause_info_result(e: EnvView, r: Result<Option<PauseInfo>, SLAError>) -> bool {
    match SLACalculatorContract::spec_check_version(e.storage) {
        Err(x) => r == Err::<Option<PauseInfo>, SLAError>(x),
        Ok(_) => r is Ok && match e.storage.pause_info {
            None => r->Ok_0 is None,
            Some(p) => r->Ok_0 is Some && r->Ok_0->Some_0@ == p,
        },
    }
}

/// The pause metadata, if any.
pub fn get_pause_info(env: &ContractEnv) -> (r: Result<Option<PauseInfo>, SLAError>)
    ensures
        pause_info_result(env@, r),
{
    SLACalculatorContract::check_version(env)?;
    match &env.storage.pause_info {
        Some(p) => Ok(Some(p.copy())),
        None => Ok(None),
    }
}

/// Fails with `ContractPaused` while paused.
pub fn require_not_paused(env: &ContractEnv) -> (r: Result<(), SLAError>)
    ensures
        r == (if SLACalculatorContract::spec_paused(env@.storage) {
            Err(SLAError::ContractPaused)
        } else {
            Ok(())
        }),
{
    SLACalculatorContract::require_not_paused(env)
}

impl SLACalculatorContract {
    /// Admin pauses the calculator; `calculate_sla` is blocked until
    /// unpaused.  Emits `paused`.
    pub fn pause(env: &mut ContractEnv, caller: Address, reason: Vec<u8>) -> (r: Result<(), SLAError>)
        ensures
            r == spec_pause(old(env)@, caller, reason@).0,
            final(env)@ == spec_pause(old(env)@, caller, reason@).1,
    {
        pause(env, &caller, reason)
    }

    /// Admin unpauses the calculator.  Emits `unpause`.
    pub fn unpause(env: &mut ContractEnv, caller: Address) -> (r: Result<(), SLAError>)
        ensures
            r == spec_unpause(old(env)@, caller).0,
            final(env)@ == spec_unpause(old(env)@, caller).1,
    {
        unpause(env, &caller)
    }

    /// Whether the calculator is paused.
    pub fn is_paused(env: &ContractEnv) -> (r: Result<bool, SLAError>)
        ensures
            r == (match Self::spec_check_version(env@.storage) {
                Err(x) => Err(x),
                Ok(_) => Ok(Self::spec_paused(env@.storage)),
            }),
    {
        is_paused(env)
    }

    /// The pause metadata, if any.
    pub fn get_pause_info(env: &ContractEnv) -> (r: Result<Option<PauseInfo>, SLAError>)
        ensures
            pause_info_result(env@, r),
    {
        get_pause_info(env)
    }
}

} // verus!
