//! Roles: two-step admin transfer, two-step operator handoff, direct
//! operator replacement and admin renunciation.
use vstd::prelude::*;
use crate::symbol::{Address, Symbol};
use crate::env::{event, ContractEnv, EnvView, EventContext, EventData, StorageView};
use crate::{SLAError, SLACalculatorContract};

verus! {

/// An operation reserved to the admin that, past the guard, replaces the storage by
/// `s` and emits an event named `topic` with the caller as context.
pub open spec fn admin_step(
    e: EnvView,
    caller: Address,
    s: StorageView,
    topic: Symbol,
    data: EventData,
) -> (Result<(), SLAError>, EnvView) {
    let (g, e1) = SLACalculatorContract::admin_guard(e, caller);
    if g is Err {
        (g, e1)
    } else {
        (Ok(()), e1.with_storage(s).emit(event(topic, EventContext::Caller(caller), data)))
    }
}

/// Admin proposes `new_admin`; the proposal replaces any earlier one.
pub open spec fn spec_propose_admin(e: EnvView, caller: Address, new_admin: Address) -> (Result<(), SLAError>, EnvView) {
    admin_step(
        e,
        caller,
        StorageView { pending_admin: Some(new_admin), ..e.storage },
        Symbol::adm_prop(),
        EventData::NewAddress(new_admin),
    )
}

/// Admin proposes `new_operator`; the proposal replaces any earlier one.
pub open spec fn spec_propose_operator(e: EnvView, caller: Address, new_operator: Address) -> (Result<(), SLAError>, EnvView) {
    admin_step(
        e,
        caller,
        StorageView { pending_operator: Some(new_operator), ..e.storage },
        Symbol::op_prop(),
        EventData::NewAddress(new_operator),
    )
}

/// Admin replaces the operator directly.
pub open spec fn spec_set_operator(e: EnvView, caller: Address, new_operator: Address) -> (Result<(), SLAError>, EnvView) {
    admin_step(
        e,
        caller,
        StorageView { operator: Some(new_operator), ..e.storage },
        Symbol::op_set(),
        EventData::NewAddress(new_operator),
    )
}

/// Admin gives up the role for good; any pending admin proposal goes too.
pub open spec fn spec_renounce_admin(e: EnvView, caller: Address) -> (Result<(), SLAError>, EnvView) {
    admin_step(
        e,
        caller,
        StorageView { admin: None, pending_admin: None, ..e.storage },
        Symbol::adm_ren(),
        EventData::Empty,
    )
}

/// Admin withdraws the pending admin proposal (`NoPendingTransfer` if none).
pub open spec fn spec_cancel_admin_proposal(e: EnvView, caller: Address) -> (Result<(), SLAError>, EnvView) {
    let (g, e1) = SLACalculatorContract::admin_guard(e, caller);
    if g is Err {
        (g, e1)
    } else if e.storage.pending_admin is None {
        (Err(SLAError::NoPendingTransfer), e1)
    } else {
        admin_step(e, caller, StorageView { pending_admin: None, ..e.storage }, Symbol::adm_can(), EventData::Empty)
    }
}

/// Admin withdraws the pending operator proposal (`NoPendingTransfer` if none).
pub open spec fn spec_cancel_operator_proposal(e: EnvView, caller: Address) -> (Result<(), SLAError>, EnvView) {
    let (g, e1) = SLACalculatorContract::admin_guard(e, caller);
    if g is Err {
        (g, e1)
    } else if e.storage.pending_operator is None {
        (Err(SLAError::NoPendingTransfer), e1)
    } else {
        admin_step(e, caller, StorageView { pending_operator: None, ..e.storage }, Symbol::op_can(), EventData::Empty)
    }
}

/// The proposed admin accepts: after the version check and its own
/// authorization, it must be the pending admin (`NoPendingTransfer` when
/// none, `Unauthorized` when another); it becomes admin and the proposal
/// is cleared.
pub open spec fn spec_accept_admin(e: EnvView, caller: Address) -> (Result<(), SLAError>, EnvView) {
    match SLACalculatorContract::spec_check_version(e.storage) {
        Err(x) => (Err(x), e),
        Ok(_) => {
            let e1 = e.with_auth(caller);
            match e.storage.pending_admin {
                None => (Err(SLAError::NoPendingTransfer), e1),
                Some(p) => if p != caller {
                    (Err(SLAError::Unauthorized), e1)
                } else {
                    (
                        Ok(()),
                        e1.with_storage(StorageView { admin: Some(caller), pending_admin: None, ..e.storage }).emit(
                            event(Symbol::adm_acc(), EventContext::Caller(caller), EventData::Empty),
                        ),
                    )
                },
            }
        },
    }
}

/// The proposed operator accepts, as [`spec_accept_admin`] does for admins.
pub open spec fn spec_accept_operator(e: EnvView, caller: Address) -> (Result<(), SLAError>, EnvView) {
    match SLACalculatorContract::spec_check_version(e.storage) {
        Err(x) => (Err(x), e),
        Ok(_) => {
            let e1 = e.with_auth(caller);
            match e.storage.pending_operator {
                None => (Err(SLAError::NoPendingTransfer), e1),
                Some(p) => if p != caller {
                    (Err(SLAError::Unauthorized), e1)
                } else {
                    (
                        Ok(()),
                        e1.with_storage(StorageView { operator: Some(caller), pending_operator: None, ..e.storage }).emit(
                            event(Symbol::op_acc(), EventContext::Caller(caller), EventData::Empty),
                        ),
                    )
                },
            }
        },
    }
}

/// Admin proposes a new admin.
pub fn propose_admin(env: &mut ContractEnv, caller: &Address, new_admin: &Address) -> (r: Result<(), SLAError>)
    ensures
        r == spec_propose_admin(old(env)@, *caller, *new_admin).0,
        final(env)@ == spec_propose_admin(old(env)@, *caller, *new_admin).1,
{
    SLACalculatorContract::check_version(env)?;
    SLACalculatorContract::require_admin(env, caller)?;
    env.storage.pending_admin = Some(*new_admin);
    env.emit(event(Symbol::adm_prop(), EventContext::Caller(*caller), EventData::NewAddress(*new_admin)));
    Ok(())
}

/// The proposed admin accepts the transfer.
pub fn accept_admin(env: &mut ContractEnv, caller: &Address) -> (r: Result<(), SLAError>)
    ensures
        r == spec_accept_admin(old(env)@, *caller).0,
        final(env)@ == spec_accept_admin(old(env)@, *caller).1,
{
    SLACalculatorContract::check_version(env)?;
    env.require_auth(caller);
    let pending = match env.storage.pending_admin {
        Some(p) => p,
        None => return Err(SLAError::NoPendingTransfer),
    };
    if *caller != pending {
        return Err(SLAError::Unauthorized);
    }
    env.storage.admin = Some(*caller);
    env.storage.pending_admin = None;
    env.emit(event(Symbol::adm_acc(), EventContext::Caller(*caller), EventData::Empty));
    Ok(())
}

/// Admin withdraws the pending admin proposal.
pub fn cancel_admin_proposal(env: &mut ContractEnv, caller: &Address) -> (r: Result<(), SLAError>)
    ensures
        r == spec_cancel_admin_proposal(old(env)@, *caller).0,
        final(env)@ == spec_cancel_admin_proposal(old(env)@, *caller).1,
{
    SLACalculatorContract::check_version(env)?;
    SLACalculatorContract::require_admin(env, caller)?;
    if env.storage.pending_admin.is_none() {
        return Err(SLAError::NoPendingTransfer);
    }
    env.storage.pending_admin = None;
    env.emit(event(Symbol::adm_can(), EventContext::Caller(*caller), EventData::Empty));
    Ok(())
}

/// The pending admin, if any.
pub fn get_pending_admin(env: &ContractEnv) -> (r: Result<Option<Address>, SLAError>)
    ensures
        r == (match SLACalculatorContract::spec_check_version(env@.storage) {
            Err(x) => Err(x),
            Ok(_) => Ok(env@.storage.pending_admin),
        }),
{
    SLACalculatorContract::check_version(env)?;
    Ok(env.storage.pending_admin)
}

/// Admin proposes a new operator.
pub fn propose_operator(env: &mut ContractEnv, caller: &Address, new_operator: &Address) -> (r: Result<(), SLAError>)
    ensures
        r == spec_propose_operator(old(env)@, *caller, *new_operator).0,
        final(env)@ == spec_propose_operator(old(env)@, *caller, *new_operator).1,
{
    SLACalculatorContract::check_version(env)?;
    SLACalculatorContract::require_admin(env, caller)?;
    env.storage.pending_operator = Some(*new_operator);
    env.emit(event(Symbol::op_prop(), EventContext::Caller(*caller), EventData::NewAddress(*new_operator)));
    Ok(())
}

/// The proposed operator accepts the handoff.
pub fn accept_operator(env: &mut ContractEnv, caller: &Address) -> (r: Result<(), SLAError>)
    ensures
        r == spec_accept_operator(old(env)@, *caller).0,
        final(env)@ == spec_accept_operator(old(env)@, *caller).1,
{
    SLACalculatorContract::check_version(env)?;
    env.require_auth(caller);
    let pending = match env.storage.pending_operator {
        Some(p) => p,
        None => return Err(SLAError::NoPendingTransfer),
    };
    if *caller != pending {
        return Err(SLAError::Unauthorized);
    }
    env.storage.operator = Some(*caller);
    env.storage.pending_operator = None;
    env.emit(event(Symbol::op_acc(), EventContext::Caller(*caller), EventData::Empty));
    Ok(())
}

/// Admin withdraws the pending operator proposal.
pub fn cancel_operator_proposal(env: &mut ContractEnv, caller: &Address) -> (r: Result<(), SLAError>)
    ensures
        r == spec_cancel_operator_proposal(old(env)@, *caller).0,
        final(env)@ == spec_cancel_operator_proposal(old(env)@, *caller).1,
{
    SLACalculatorContract::check_version(env)?;
    SLACalculatorContract::require_admin(env, caller)?;
    if env.storage.pending_operator.is_none() {
        return Err(SLAError::NoPendingTransfer);
    }
    env.storage.pending_operator = None;
    env.emit(event(Symbol::op_can(), EventContext::Caller(*caller), EventData::Empty));
    Ok(())
}

/// The pending operator, if any.
pub fn get_pending_operator(env: &ContractEnv) -> (r: Result<Option<Address>, SLAError>)
    ensures
        r == (match SLACalculatorContract::spec_check_version(env@.storage) {
            Err(x) => Err(x),
            Ok(_) => Ok(env@.storage.pending_operator),
        }),
{
    SLACalculatorContract::check_version(env)?;
    Ok(env.storage.pending_operator)
}

/// Admin renounces the role for good.
pub fn renounce_admin(env: &mut ContractEnv, caller: &Address) -> (r: Result<(), SLAError>)
    ensures
        r == spec_renounce_admin(old(env)@, *caller).0,
        final(env)@ == spec_renounce_admin(old(env)@, *caller).1,
{
    SLACalculatorContract::check_version(env)?;
    SLACalculatorContract::require_admin(env, caller)?;
    env.storage.admin = None;
    env.storage.pending_admin = None;
    env.emit(event(Symbol::adm_ren(), EventContext::Caller(*caller), EventData::Empty));
    Ok(())
}

/// Admin replaces the operator directly.
pub fn set_operator(env: &mut ContractEnv, caller: &Address, new_operator: &Address) -> (r: Result<(), SLAError>)
    ensures
        r == spec_set_operator(old(env)@, *caller, *new_operator).0,
        final(env)@ == spec_set_operator(old(env)@, *caller, *new_operator).1,
{
    SLACalculatorContract::check_version(env)?;
    SLACalculatorContract::require_admin(env, caller)?;
    env.storage.operator = Some(*new_operator);
    env.emit(event(Symbol::op_set(), EventContext::Caller(*caller), EventData::NewAddress(*new_operator)));
    Ok(())
}

impl SLACalculatorContract {
    /// The admin (`NotInitialized` when absent).
    pub fn get_admin(env: &ContractEnv) -> (r: Result<Address, SLAError>)
        ensures
            r == (match Self::spec_check_version(env@.storage) {
                Err(x) => Err(x),
                Ok(_) => match env@.storage.admin {
                    Some(a) => Ok(a),
                    None => Err(SLAError::NotInitialized),
                },
            }),
    {
        Self::check_version(env)?;
        match env.storage.admin {
            Some(a) => Ok(a),
            None => Err(SLAError::NotInitialized),
        }
    }

    /// The operator (`NotInitialized` when absent).
    pub fn get_operator(env: &ContractEnv) -> (r: Result<Address, SLAError>)
        ensures
            r == (match Self::spec_check_version(env@.storage) {
                Err(x) => Err(x),
                Ok(_) => match env@.storage.operator {
                    Some(a) => Ok(a),
                    None => Err(SLAError::NotInitialized),
                },
            }),
    {
        Self::check_version(env)?;
        match env.storage.operator {
            Some(a) => Ok(a),
            None => Err(SLAError::NotInitialized),
        }
    }

    /// Admin replaces the operator directly; emits `op_set`.
    pub fn set_operator(env: &mut ContractEnv, caller: Address, new_operator: Address) -> (r: Result<(), SLAError>)
        ensures
            r == spec_set_operator(old(env)@, caller, new_operator).0,
            final(env)@ == spec_set_operator(old(env)@, caller, new_operator).1,
    {
        set_operator(env, &caller, &new_operator)
    }

    /// Admin proposes a new admin, who must then call `accept_admin`.
    pub fn propose_admin(env: &mut ContractEnv, caller: Address, new_admin: Address) -> (r: Result<(), SLAError>)
        ensures
            r == spec_propose_admin(old(env)@, caller, new_admin).0,
            final(env)@ == spec_propose_admin(old(env)@, caller, new_admin).1,
    {
        propose_admin(env, &caller, &new_admin)
    }

    /// The proposed admin accepts the transfer.
    pub fn accept_admin(env: &mut ContractEnv, caller: Address) -> (r: Result<(), SLAError>)
        ensures
            r == spec_accept_admin(old(env)@, caller).0,
            final(env)@ == spec_accept_admin(old(env)@, caller).1,
    {
        accept_admin(env, &caller)
    }

    /// Admin withdraws the pending admin proposal.
    pub fn cancel_admin_proposal(env: &mut ContractEnv, caller: Address) -> (r: Result<(), SLAError>)
        ensures
            r == spec_cancel_admin_proposal(old(env)@, caller).0,
            final(env)@ == spec_cancel_admin_proposal(old(env)@, caller).1,
    {
        cancel_admin_proposal(env, &caller)
    }

    /// The pending admin, if any.
    pub fn get_pending_admin(env: &ContractEnv) -> (r: Result<Option<Address>, SLAError>)
        ensures
            r == (match Self::spec_check_version(env@.storage) {
                Err(x) => Err(x),
                Ok(_) => Ok(env@.storage.pending_admin),
            }),
    {
        get_pending_admin(env)
    }

    /// Admin proposes a new operator, who must then call `accept_operator`.
    pub fn propose_operator(env: &mut ContractEnv, caller: Address, new_operator: Address) -> (r: Result<(), SLAError>)
        ensures
            r == spec_propose_operator(old(env)@, caller, new_operator).0,
            final(env)@ == spec_propose_operator(old(env)@, caller, new_operator).1,
    {
        propose_operator(env, &caller, &new_operator)
    }

    /// The proposed operator accepts the handoff.
    pub fn accept_operator(env: &mut ContractEnv, caller: Address) -> (r: Result<(), SLAError>)
        ensures
            r == spec_accept_operator(old(env)@, caller).0,
            final(env)@ == spec_accept_operator(old(env)@, caller).1,
    {
        accept_operator(env, &caller)
    }

    /// Admin withdraws the pending operator proposal.
    pub fn cancel_operator_proposal(env: &mut ContractEnv, caller: Address) -> (r: Result<(), SLAError>)
        ensures
            r == spec_cancel_operator_proposal(old(env)@, caller).0,
            final(env)@ == spec_cancel_operator_proposal(old(env)@, caller).1,
    {
        cancel_operator_proposal(env, &caller)
    }

    /// The pending operator, if any.
    pub fn get_pending_operator(env: &ContractEnv) -> (r: Result<Option<Address>, SLAError>)
        ensures
            r == (match Self::spec_check_version(env@.storage) {
                Err(x) => Err(x),
                Ok(_) => Ok(env@.storage.pending_operator),
            }),
    {
        get_pending_operator(env)
    }

    /// Admin renounces the role for good; operations reserved to the admin
    /// are then locked permanently, and the calculator cannot be
    /// initialized again.
    pub fn renounce_admin(env: &mut ContractEnv, caller: Address) -> (r: Result<(), SLAError>)
        ensures
            r == spec_renounce_admin(old(env)@, caller).0,
            final(env)@ == spec_renounce_admin(old(env)@, caller).1,
    {
        renounce_admin(env, &caller)
    }
}

} // verus!
