//! Learning of normal process behaviour.

use vstd::prelude::*;

verus! {

/// Learns what is normal for a process from its history.
pub struct Learner {
    min_history_days: u64,
}

impl Learner {
    /// The days of history that are needed before anything is learned.
    pub closed spec fn history_days(&self) -> u64 {
        self.min_history_days
    }

    /// A learner that needs `min_history_days` days of history.
    pub fn new(min_history_days: u64) -> (learner: Learner)
        ensures
            learner.history_days() == min_history_days,
    {
        Learner { min_history_days }
    }

    /// The days of history that are needed before anything is learned.
    pub fn min_history_days(&self) -> (days: u64)
        ensures
            days == self.history_days(),
    {
        self.min_history_days
    }
}

} // verus!
