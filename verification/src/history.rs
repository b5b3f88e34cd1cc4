//! The calculation history: reads, pagination, queries by outage,
//! pruning and the retention limit.
use vstd::prelude::*;
use crate::symbol::{Address, Symbol};
use crate::env::{event, ContractEnv, EnvView, EventContext, EventData, StorageView};
use crate::calculation::{history_or_empty, latest_by_outage, retention_or_default};
use crate::{SLAError, SLAResult, SLACalculatorContract, MAX_HISTORY_SIZE};

verus! {

/// The entries recorded at or after `cutoff`, in order.
pub open spec fn recorded_since(h: Seq<SLAResult>, cutoff: u64) -> Seq<SLAResult>
    decreases h.len(),
{
    if h.len() == 0 {
        h
    } else if h.last().recorded_at >= cutoff {
        recorded_since(h.drop_last(), cutoff).push(h.last())
    } else {
        recorded_since(h.drop_last(), cutoff)
    }
}

/// The entries for `outage_id`, in order.
pub open spec fn entries_for_outage(h: Seq<SLAResult>, outage_id: Symbol) -> Seq<SLAResult>
    decreases h.len(),
{
    if h.len() == 0 {
        h
    } else if h.last().outage_id == outage_id {
        entries_for_outage(h.drop_last(), outage_id).push(h.last())
    } else {
        entries_for_outage(h.drop_last(), outage_id)
    }
}

proof fn lemma_recorded_since_len(h: Seq<SLAResult>, cutoff: u64)
    ensures
        recorded_since(h, cutoff).len() <= h.len(),
    decreases h.len(),
{
    if h.len() > 0 {
        lemma_recorded_since_len(h.drop_last(), cutoff);
    }
}

/// Every stored history fits the host's 32-bit lengths.
pub open spec fn history_fits(s: StorageView) -> bool {
    history_or_empty(s).len() <= u32::MAX
}

/// Admin keeps only the latest `keep_latest` entries; when some are
/// dropped, `pruned` reports how many, and `keep_latest`.
pub open spec fn spec_prune_history(e: EnvView, caller: Address, keep_latest: u32) -> (Result<(), SLAError>, EnvView) {
    let (g, e1) = SLACalculatorContract::admin_guard(e, caller);
    let h = history_or_empty(e.storage);
    if g is Err {
        (g, e1)
    } else if h.len() > keep_latest {
        (
            Ok(()),
            e1.with_storage(StorageView {
                history: Some(h.subrange(h.len() - keep_latest, h.len() as int)),
                ..e.storage
            }).emit(event(
                Symbol::pruned(),
                EventContext::Caller(caller),
                EventData::Counts { removed: (h.len() - keep_latest) as u32, kept: keep_latest },
            )),
        )
    } else {
        (Ok(()), e1)
    }
}

/// Admin drops the entries recorded more than `min_age_seconds` before the
/// ledger timestamp (the cutoff saturates at 0); when some are dropped,
/// `pruned_a` reports how many were removed and kept.
pub open spec fn spec_prune_history_by_age(e: EnvView, caller: Address, min_age_seconds: u64) -> (Result<(), SLAError>, EnvView) {
    let (g, e1) = SLACalculatorContract::admin_guard(e, caller);
    let h = history_or_empty(e.storage);
    let kept = recorded_since(h, e.timestamp.saturating_sub(min_age_seconds));
    if g is Err {
        (g, e1)
    } else if kept.len() < h.len() {
        (
            Ok(()),
            e1.with_storage(StorageView { history: Some(kept), ..e.storage }).emit(event(
                Symbol::pruned_a(),
                EventContext::Caller(caller),
                EventData::Counts { removed: (h.len() - kept.len()) as u32, kept: kept.len() as u32 },
            )),
        )
    } else {
        (Ok(()), e1)
    }
}

/// Admin sets the retention limit, which must be in `1..=MAX_HISTORY_SIZE`.
pub open spec fn spec_set_retention_limit(e: EnvView, caller: Address, limit: u32) -> (Result<(), SLAError>, EnvView) {
    let (g, e1) = SLACalculatorContract::admin_guard(e, caller);
    if g is Err {
        (g, e1)
    } else if limit == 0 || limit > MAX_HISTORY_SIZE {
        (Err(SLAError::RetentionLimitOutOfRange), e1)
    } else {
        (Ok(()), e1.with_storage(StorageView { retention_limit: Some(limit), ..e.storage }))
    }
}

/// The page of `limit` entries starting at `offset`: empty when `offset`
/// is past the end or `limit` is 0, truncated at the end of the history.
pub open spec fn history_page(h: Seq<SLAResult>, offset: u32, limit: u32) -> Seq<SLAResult> {
    if offset >= h.len() || limit == 0 {
        Seq::empty()
    } else if offset + limit > h.len() {
        h.subrange(offset as int, h.len() as int)
    } else {
        h.subrange(offset as int, offset + limit)
    }
}

/// `r` holds `s` after a successful version check.
pub open spec fn versioned_seq(e: EnvView, r: Result<Vec<SLAResult>, SLAError>, s: Seq<SLAResult>) -> bool {
    match SLACalculatorContract::spec_check_version(e.storage) {
        Err(x) => r is Err && r->Err_0 == x,
        Ok(_) => r is Ok && r->Ok_0@ == s,
    }
}

/// The entries `start .. end` of `h`.
pub(crate) fn copy_range(h: &Vec<SLAResult>, start: usize, end: usize) -> (r: Vec<SLAResult>)
    requires
        start <= end <= h@.len(),
    ensures
        r@ == h@.subrange(start as int, end as int),
{
    let mut r: Vec<SLAResult> = Vec::new();
    let mut i = start;
    while i < end
        invariant
            start <= i <= end,
            end <= h@.len(),
            r@ == h@.subrange(start as int, i as int),
        decreases end - i,
    {
        r.push(h[i]);
        i += 1;
        assert(r@ =~= h@.subrange(start as int, i as int));
    }
    r
}

fn stored_history(env: &ContractEnv) -> (r: Vec<SLAResult>)
    ensures
        r@ == history_or_empty(env@.storage),
{
    match &env.storage.history {
        Some(h) => copy_range(h, 0, h.len()),
        None => Vec::new(),
    }
}

impl SLACalculatorContract {
    /// The stored history, oldest first.
    pub fn get_history(env: &ContractEnv) -> (r: Result<Vec<SLAResult>, SLAError>)
        ensures
            versioned_seq(env@, r, history_or_empty(env@.storage)),
    {
        Self::check_version(env)?;
        Ok(stored_history(env))
    }

    /// Admin keeps only the latest `keep_latest` entries.
    pub fn prune_history(env: &mut ContractEnv, caller: Address, keep_latest: u32) -> (r: Result<(), SLAError>)
        requires
            history_fits(old(env)@.storage),
        ensures
            r == spec_prune_history(old(env)@, caller, keep_latest).0,
            final(env)@ == spec_prune_history(old(env)@, caller, keep_latest).1,
    {
        Self::check_version(env)?;
        Self::require_admin(env, &caller)?;
        let history = stored_history(env);
        let len = history.len() as u32;
        if len > keep_latest {
            let remove_count = len - keep_latest;
            let new_history = copy_range(&history, remove_count as usize, len as usize);
            env.storage.history = Some(new_history);
            env.emit(event(
                Symbol::pruned(),
                EventContext::Caller(caller),
                EventData::Counts { removed: remove_count, kept: keep_latest },
            ));
        }
        Ok(())
    }

    /// Admin drops the entries older than `min_age_seconds`.
    pub fn prune_history_by_age(env: &mut ContractEnv, caller: Address, min_age_seconds: u64) -> (r: Result<(), SLAError>)
        requires
            history_fits(old(env)@.storage),
        ensures
            r == spec_prune_history_by_age(old(env)@, caller, min_age_seconds).0,
            final(env)@ == spec_prune_history_by_age(old(env)@, caller, min_age_seconds).1,
    {
        Self::check_version(env)?;
        Self::require_admin(env, &caller)?;
        let cutoff = env.timestamp.saturating_sub(min_age_seconds);
        let history = stored_history(env);
        let mut new_history: Vec<SLAResult> = Vec::new();
        let mut removed: u32 = 0;
        let mut i: usize = 0;
        while i < history.len()
            invariant
                i <= history@.len() <= u32::MAX,
                new_history@ == recorded_since(history@.take(i as int), cutoff),
                removed == i - new_history@.len(),
            decreases history@.len() - i,
        {
            let entry = history[i];
            assert(history@.take(i + 1).drop_last() =~= history@.take(i as int));
            proof {
                lemma_recorded_since_len(history@.take(i as int), cutoff);
            }
            if entry.recorded_at >= cutoff {
                new_history.push(entry);
            } else {
                removed += 1;
            }
            i += 1;
        }
        assert(history@.take(i as int) =~= history@);
        if removed > 0 {
            let kept = new_history.len() as u32;
            env.storage.history = Some(new_history);
            env.emit(event(
                Symbol::pruned_a(),
                EventContext::Caller(caller),
                EventData::Counts { removed, kept },
            ));
        }
        Ok(())
    }

    /// A page of the history, oldest first.
    pub fn get_history_page(env: &ContractEnv, offset: u32, limit: u32) -> (r: Result<Vec<SLAResult>, SLAError>)
        requires
            history_fits(env@.storage),
            offset < history_or_empty(env@.storage).len() && limit != 0 ==> offset + limit <= u32::MAX,
        ensures
            versioned_seq(env@, r, history_page(history_or_empty(env@.storage), offset, limit)),
    {
        Self::check_version(env)?;
        let history = stored_history(env);
        let len = history.len() as u32;
        if offset >= len || limit == 0 {
            return Ok(Vec::new());
        }
        let end = if offset + limit < len {
            offset + limit
        } else {
            len
        };
        Ok(copy_range(&history, offset as usize, end as usize))
    }

    /// The entries for `outage_id`, oldest first.
    pub fn get_history_by_outage(env: &ContractEnv, outage_id: Symbol) -> (r: Result<Vec<SLAResult>, SLAError>)
        ensures
            versioned_seq(env@, r, entries_for_outage(history_or_empty(env@.storage), outage_id)),
    {
        Self::check_version(env)?;
        let history = stored_history(env);
        let mut matches: Vec<SLAResult> = Vec::new();
        let mut i: usize = 0;
        while i < history.len()
            invariant
                i <= history@.len(),
                matches@ == entries_for_outage(history@.take(i as int), outage_id),
            decreases history@.len() - i,
        {
            let entry = history[i];
            assert(history@.take(i + 1).drop_last() =~= history@.take(i as int));
            if entry.outage_id == outage_id {
                matches.push(entry);
            }
            i += 1;
        }
        assert(history@.take(i as int) =~= history@);
        Ok(matches)
    }

    /// The most recent entry for `outage_id`, if any.
    pub fn get_latest_by_outage(env: &ContractEnv, outage_id: Symbol) -> (r: Result<Option<SLAResult>, SLAError>)
        ensures
            r == (match Self::spec_check_version(env@.storage) {
                Err(x) => Err(x),
                Ok(_) => Ok(latest_by_outage(history_or_empty(env@.storage), outage_id)),
            }),
    {
        Self::check_version(env)?;
        let history = stored_history(env);
        Ok(crate::calculation::find_latest(&history, &outage_id))
    }

    /// Admin sets the retention limit, applied from the next calculation on.
    pub fn set_retention_limit(env: &mut ContractEnv, caller: Address, limit: u32) -> (r: Result<(), SLAError>)
        ensures
            r == spec_set_retention_limit(old(env)@, caller, limit).0,
            final(env)@ == spec_set_retention_limit(old(env)@, caller, limit).1,
    {
        Self::check_version(env)?;
        Self::require_admin(env, &caller)?;
        if limit == 0 || limit > MAX_HISTORY_SIZE {
            return Err(SLAError::RetentionLimitOutOfRange);
        }
        env.storage.retention_limit = Some(limit);
        Ok(())
    }

    /// The retention limit, `MAX_HISTORY_SIZE` unless set.
    pub fn get_retention_limit(env: &ContractEnv) -> (r: Result<u32, SLAError>)
        ensures
            r == (match Self::spec_check_version(env@.storage) {
                Err(x) => Err(x),
                Ok(_) => Ok(retention_or_default(env@.storage)),
            }),
    {
        Self::check_version(env)?;
        match env.storage.retention_limit {
            Some(l) => Ok(l),
            None => Ok(MAX_HISTORY_SIZE),
        }
    }
}

} // verus!
