//! The state that all workers share: one flag that says a match was
//! published. It is only ever set, never cleared, and the worker that sets it
//! is the one whose record is published, so a run publishes exactly one
//! record even when two workers match at the same moment.
use vstd::prelude::*;

use std::sync::atomic::{AtomicBool, Ordering};

use crate::worker::ResultRecord;

verus! {

pub struct SharedState {
    found: AtomicBool,
}

impl SharedState {
    /// A fresh state: nothing found yet.
    pub fn new() -> (r: SharedState) {
        SharedState { found: AtomicBool::new(false) }
    }

    /// Polls the flag. Other workers may set it at any time, so a `false`
    /// may be stale by the time it is read; that costs one extra try.
    pub fn is_found(&self) -> (r: bool) {
        self.found.load(Ordering::Relaxed)
    }

    /// Publishes a record unless one was published before: the flag goes
    /// from unset to set in one atomic step, and only the worker that made
    /// that step gets its record back. Whatever the race, a record that comes
    /// back is the one handed in.
    pub fn publish(&self, record: ResultRecord) -> (r: Option<ResultRecord>)
        ensures
            r matches Some(x) ==> x == record,
    {
        match self.found.compare_exchange(false, true, Ordering::Relaxed, Ordering::Relaxed) {
            Ok(_) => Some(record),
            Err(_) => None,
        }
    }
}

} // verus!
