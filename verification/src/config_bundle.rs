//! The configuration snapshot and the result schema, read together.
use vstd::prelude::*;
use crate::env::ContractEnv;
use crate::config::{snapshot_matches, spec_config_snapshot};
use crate::schema::is_result_schema;
use crate::{SLAConfigSnapshot, SLAError, SLAResultSchema, SLACalculatorContract};

verus! {

/// A configuration snapshot together with the result schema.
pub struct ConfigBundle {
    pub snapshot: SLAConfigSnapshot,
    pub schema: SLAResultSchema,
}

/// Reads the configuration entry as a stored snapshot, together with the
/// result schema.  That entry holds the canonical configuration as a map
/// (or nothing), never as a snapshot, so no bundle is read: the result is
/// always `None`.  Use [`SLACalculatorContract::get_config_bundle`] for the
/// snapshot built from the map.
pub fn read_config_bundle(env: &ContractEnv) -> (r: Option<ConfigBundle>)
    ensures
        r is None,
{
    match &env.storage.configs {
        Some(_) => None,
        None => None,
    }
}

impl SLACalculatorContract {
    /// The canonical configuration snapshot and the result schema in one
    /// read; fails as `get_config_snapshot` does.
    pub fn get_config_bundle(env: &ContractEnv) -> (r: Result<Option<ConfigBundle>, SLAError>)
        ensures
            match spec_config_snapshot(env@.storage) {
                Err(x) => r is Err && r->Err_0 == x,
                Ok(es) => r is Ok && r->Ok_0 is Some && snapshot_matches(Ok(r->Ok_0->Some_0.snapshot), Ok(es))
                    && is_result_schema(r->Ok_0->Some_0.schema),
            },
    {
        let snapshot = Self::get_config_snapshot(env)?;
        let schema = Self::get_result_schema(env)?;
        Ok(Some(ConfigBundle { snapshot, schema }))
    }
}

} // verus!
