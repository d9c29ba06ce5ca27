//! The eventually-consistent lister: a bounded retry loop around listing
//! freshly created group members.  Running out of attempts is a soft failure:
//! the caller keeps the last observation and the workflow proceeds.

use vstd::prelude::*;

verus! {

/// What the lister decides after one membership listing.
#[derive(Clone, Copy, Debug, PartialEq, Eq, Structural)]
pub enum ListVerdict {
    /// The observed count reached the desired count: stop early.
    Converged,
    /// Too few members and attempts remain: sleep the fixed delay and list
    /// again.
    Retry,
    /// The attempt budget is spent: keep the last observation and proceed.
    Exhausted,
}

/// The lister's state: the desired member count, the attempt budget, and the
/// attempts made so far.
pub struct Lister {
    pub desired: usize,
    pub max_attempts: u64,
    pub attempts: u64,
}

impl Lister {
    /// A fresh lister with a positive attempt budget.
    pub fn new(desired: usize, max_attempts: u64) -> (r: Lister)
        requires
            max_attempts >= 1,
        ensures
            r.desired == desired,
            r.max_attempts == max_attempts,
            r.attempts == 0,
    {
        Lister { desired, max_attempts, attempts: 0 }
    }

    /// Decides on one observed member count: convergence exactly when the
    /// observed count has reached the desired count; exhaustion exactly when
    /// it has not and this attempt was the last; otherwise retry.
    pub fn observe(&mut self, observed_count: usize) -> (v: ListVerdict)
        requires
            old(self).attempts < old(self).max_attempts,
        ensures
            final(self).desired == old(self).desired,
            final(self).max_attempts == old(self).max_attempts,
            final(self).attempts == old(self).attempts + 1,
            v == ListVerdict::Converged <==> observed_count >= old(self).desired,
            v == ListVerdict::Exhausted <==> observed_count < old(self).desired && old(
                self,
            ).attempts + 1 == old(self).max_attempts,
            v == ListVerdict::Retry <==> observed_count < old(self).desired && old(self).attempts
                + 1 < old(self).max_attempts,
    {
        self.attempts = self.attempts + 1;
        if observed_count >= self.desired {
            ListVerdict::Converged
        } else if self.attempts == self.max_attempts {
            ListVerdict::Exhausted
        } else {
            ListVerdict::Retry
        }
    }
}

} // verus!
