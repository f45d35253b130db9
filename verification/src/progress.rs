//! The counters behind the progress display.

use vstd::prelude::*;

verus! {

/// How many conversions are expected and how many have ended.
#[derive(Debug, Clone, Copy, PartialEq, Eq, Structural)]
pub struct ProgressState {
    pub total: u64,
    pub completed: u64,
}

impl ProgressState {
    /// A fresh state that expects `total` conversions.
    pub fn new(total: u64) -> (r: ProgressState)
        ensures
            r.total == total,
            r.completed == 0,
    {
        ProgressState { total, completed: 0 }
    }

    /// Sets the number of expected conversions; what was counted stays.
    pub fn set_total(&mut self, total: u64)
        ensures
            final(self).total == total,
            final(self).completed == old(self).completed,
    {
        self.total = total;
    }

    /// Counts one ended conversion. The count never decreases, and it stays
    /// within the total where it was below it.
    pub fn increment(&mut self)
        ensures
            final(self).total == old(self).total,
            final(self).completed == if old(self).completed < u64::MAX {
                old(self).completed + 1
            } else {
                old(self).completed as int
            },
            final(self).completed >= old(self).completed,
            old(self).completed < old(self).total ==> final(self).completed <= final(self).total,
    {
        if self.completed < u64::MAX {
            self.completed = self.completed + 1;
        }
    }

    /// Whether every expected conversion has ended.
    pub fn is_finished(&self) -> (r: bool)
        ensures
            r == (self.completed == self.total),
    {
        self.completed == self.total
    }

    /// How many conversions are still awaited.
    pub fn remaining(&self) -> (r: u64)
        ensures
            r == if self.total >= self.completed {
                self.total - self.completed
            } else {
                0
            },
    {
        if self.total >= self.completed {
            self.total - self.completed
        } else {
            0
        }
    }
}

} // verus!
