//! The ledger sequence of the last successful configuration update.
use vstd::prelude::*;
use crate::env::{ContractEnv, StorageView};

verus! {

/// Stamps the current ledger sequence as the last configuration update.
pub fn record_config_update(env: &mut ContractEnv)
    ensures
        final(env)@ == old(env)@.with_storage(StorageView {
            last_config_update: Some(old(env)@.sequence),
            ..old(env)@.storage
        }),
{
    env.storage.last_config_update = Some(env.sequence);
}

/// The ledger sequence of the last configuration update, if any.
pub fn get_last_config_update(env: &ContractEnv) -> (r: Option<u32>)
    ensures
        r == env@.storage.last_config_update,
{
    env.storage.last_config_update
}

} // verus!
