use vstd::prelude::*;

use std::sync::atomic::{AtomicUsize, Ordering};
use std::sync::Arc;

verus! {

/// The number of jobs of a scope that have been submitted and have not yet
/// finished, shared between the thread that opened the scope and the jobs.
///
/// A job is counted before it becomes visible to any worker (acquire), and is
/// uncounted as the last thing it does (release), so that once the opening
/// thread reads zero every write made by the scope's jobs is visible to it.
pub struct PendingCount {
    count: Arc<AtomicUsize>,
}

impl PendingCount {
    /// A count with no pending jobs.
    pub fn new() -> (r: Self) {
        PendingCount { count: Arc::new(AtomicUsize::new(0)) }
    }

    /// Another handle on the same count.
    pub fn share(&self) -> (r: Self) {
        PendingCount { count: self.count.clone() }
    }

    /// Counts a job that is about to be submitted.
    pub fn job_started(&self) {
        self.count.fetch_add(1, Ordering::Acquire);
    }

    /// Uncounts a job that has finished, normally or not.
    pub fn job_finished(&self) {
        self.count.fetch_sub(1, Ordering::Release);
    }

    /// Whether every counted job has finished, so that the scope may return.
    pub fn is_settled(&self) -> (r: bool) {
        self.count.load(Ordering::SeqCst) == 0
    }
}

} // verus!
