//! The job-queue capability and its in-memory, thread-safe implementation.
use vstd::prelude::*;
use vstd::rwlock::{RwLock, RwLockPredicate};

use crate::job::Job;
use crate::store::{JobStore, QueueError};

verus! {

/// Operations of a job queue shared between threads. Other callers may act
/// between two calls, so each contract speaks of one call alone.
pub trait JobQueue: Sized {
    fn new() -> Self;

    /// Appends `j`; fails only where the store cannot be reached.
    fn enqueue(&self, j: Job) -> (r: Result<(), QueueError>)
        ensures
            r matches Err(e) ==> e == QueueError::Unavailable,
    ;

    /// A copy of the earliest stored job with id `id_job`, if any.
    fn get(&self, id_job: u32) -> (r: Option<Job>)
        ensures
            r matches Some(j) ==> j@.id == id_job && j@.wf(),
    ;

    /// Removes the earliest stored job with id `id_job`; fails with
    /// `NotFound(id_job)` where none is stored.
    fn dequeue(&self, id_job: u32) -> (r: Result<(), QueueError>)
        ensures
            r matches Err(e) ==> e == QueueError::NotFound(id_job) || e == QueueError::Unavailable,
    ;

    /// The number of stored jobs at the moment of the call.
    fn len(&self) -> usize;
}

/// What the lock keeps true of the store it guards.
pub struct WellFormedStore;

impl RwLockPredicate<JobStore> for WellFormedStore {
    open spec fn inv(self, v: JobStore) -> bool {
        v.wf()
    }
}

/// A job queue in memory: one store behind one lock, held for the whole of
/// each operation.
pub struct InMemQueue {
    jobs: RwLock<JobStore, WellFormedStore>,
}

impl InMemQueue {
    #[verifier::type_invariant]
    spec fn lock_keeps_wf(self) -> bool {
        self.jobs.pred() == WellFormedStore
    }
}

impl JobQueue for InMemQueue {
    fn new() -> Self {
        InMemQueue { jobs: RwLock::new(JobStore::new(), Ghost(WellFormedStore)) }
    }

    fn enqueue(&self, j: Job) -> (r: Result<(), QueueError>)
        ensures
            r is Ok,
    {
        proof {
            use_type_invariant(self);
        }
        let (mut store, handle) = self.jobs.acquire_write();
        store.enqueue(j);
        handle.release_write(store);
        Ok(())
    }

    fn get(&self, id_job: u32) -> (r: Option<Job>) {
        proof {
            use_type_invariant(self);
        }
        let (store, handle) = self.jobs.acquire_write();
        let r = store.get(id_job);
        handle.release_write(store);
        r
    }

    fn dequeue(&self, id_job: u32) -> (r: Result<(), QueueError>)
        ensures
            r matches Err(e) ==> e == QueueError::NotFound(id_job),
    {
        proof {
            use_type_invariant(self);
        }
        let (mut store, handle) = self.jobs.acquire_write();
        let r = store.dequeue(id_job);
        handle.release_write(store);
        r
    }

    fn len(&self) -> usize {
        proof {
            use_type_invariant(self);
        }
        let (store, handle) = self.jobs.acquire_write();
        let n = store.len();
        handle.release_write(store);
        n
    }
}

} // verus!
