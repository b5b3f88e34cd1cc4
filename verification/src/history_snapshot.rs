//! A normalized summary of a history.
use vstd::prelude::*;
use crate::symbol::Symbol;
use crate::SLAResult;

verus! {

/// Summary of a history: its length, whether it holds a violation and
/// whether it holds a reward.
#[derive(Clone, Copy, Debug, PartialEq, Eq, Structural)]
pub struct NormalizedSnapshot {
    pub count: u32,
    pub has_violations: bool,
    pub has_rewards: bool,
}

/// Summarizes a history.
pub fn normalize_history(history: &Vec<SLAResult>) -> (r: NormalizedSnapshot)
    requires
        history@.len() <= u32::MAX,
    ensures
        r.count == history@.len(),
        r.has_violations == (exists|i: int| 0 <= i < history@.len() && (#[trigger] history@[i]).status == Symbol::viol()),
        r.has_rewards == (exists|i: int| 0 <= i < history@.len() && (#[trigger] history@[i]).payment_type == Symbol::rew()),
{
    let mut has_violations = false;
    let mut has_rewards = false;
    let mut i: usize = 0;
    while i < history.len()
        invariant
            i <= history@.len(),
            has_violations == (exists|j: int| 0 <= j < i && (#[trigger] history@[j]).status == Symbol::viol()),
            has_rewards == (exists|j: int| 0 <= j < i && (#[trigger] history@[j]).payment_type == Symbol::rew()),
        decreases history@.len() - i,
    {
        let entry = history[i];
        if entry.status == Symbol::viol() {
            has_violations = true;
        }
        if entry.payment_type == Symbol::rew() {
            has_rewards = true;
        }
        i += 1;
    }
    NormalizedSnapshot { count: history.len() as u32, has_violations, has_rewards }
}

} // verus!
