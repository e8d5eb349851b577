//! The per-activity request budget: a counter of remote fetches,
//! owned by one inbound-activity processing session. Every remote
//! fetch charges it once; a resolution that would exceed the limit
//! fails instead of fetching, so a hostile or cyclic object graph
//! cannot amplify outbound traffic without bound.

use vstd::prelude::*;

verus! {

/// Counts the remote fetches one inbound activity has triggered,
/// against the fixed limit it was created with.
pub struct RequestBudget {
    pub used: u32,
    pub limit: u32,
}

impl RequestBudget {
    /// The count never passes the limit.
    pub open spec fn wf(&self) -> bool {
        self.used <= self.limit
    }

    /// A fresh budget allowing `limit` remote fetches.
    pub fn new(limit: u32) -> (r: Self)
        ensures
            r.limit == limit,
            r.used == 0,
            r.wf(),
    {
        RequestBudget { used: 0, limit }
    }

    /// Charge one fetch. Returns false, changing nothing, where the
    /// budget is already exhausted.
    pub fn try_charge(&mut self) -> (r: bool)
        requires
            old(self).wf(),
        ensures
            final(self).limit == old(self).limit,
            final(self).wf(),
            r ==> old(self).used < old(self).limit && final(self).used == old(self).used + 1,
            !r ==> old(self).used == old(self).limit && *final(self) == *old(self),
    {
        if self.used < self.limit {
            self.used = self.used + 1;
            true
        } else {
            false
        }
    }
}

} // verus!
