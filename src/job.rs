//! A unit of work: identity, lifecycle status, payload and liveness.
use vstd::prelude::*;

verus! {

/// The lifecycle states of a job. This layer does not enforce transitions.
#[derive(PartialEq, Eq, Structural, Clone, Copy, Debug)]
pub enum JobStatus {
    PENDING,
    PICKED,
    PROCESSED,
    FAILED,
}

/// What a job holds, as mathematical values. Times are nanoseconds since the
/// Unix epoch.
pub ghost struct JobView {
    pub id: u32,
    pub status: JobStatus,
    pub payload: Seq<u8>,
    pub timestamp: u128,
    pub heartbeat: u128,
}

impl JobView {
    /// A job's heartbeat never stands before its creation time.
    pub open spec fn wf(self) -> bool {
        self.timestamp <= self.heartbeat
    }
}

/// A job. `timestamp` is fixed when the job is made; `heartbeat` starts there
/// and only moves forward.
#[derive(Debug)]
pub struct Job {
    id: u32,
    status: JobStatus,
    payload: Vec<u8>,
    timestamp: u128,
    heartbeat: u128,
}

impl View for Job {
    type V = JobView;

    closed spec fn view(&self) -> JobView {
        JobView {
            id: self.id,
            status: self.status,
            payload: self.payload@,
            timestamp: self.timestamp,
            heartbeat: self.heartbeat,
        }
    }
}

/// The later of two clock readings.
pub open spec fn max_time(a: u128, b: u128) -> u128 {
    if a < b { b } else { a }
}

/// Relies on `SystemTime::elapsed` applied to `UNIX_EPOCH`: the distance of the
/// system clock past the epoch, or `None` where the clock stands before it.
/// Nothing is known of the value: it is the time now.
#[verifier::external_body]
fn elapsed_since_epoch() -> (r: Option<std::time::Duration>) {
    std::time::UNIX_EPOCH.elapsed().ok()
}

/// Relies on `Duration::as_nanos`, which gives the whole number of nanoseconds.
pub assume_specification[ core::time::Duration::as_nanos ](d: &core::time::Duration) -> u128;

/// The system clock, in nanoseconds since the Unix epoch; a clock set before
/// the epoch reads as the epoch itself.
pub fn clock_now() -> u128 {
    match elapsed_since_epoch() {
        Some(d) => d.as_nanos(),
        None => 0,
    }
}

impl Job {
    #[verifier::type_invariant]
    pub open spec fn heartbeat_not_before_timestamp(self) -> bool {
        self@.wf()
    }

    /// A pending job with its own copy of `payload`, made at time `now`.
    pub fn new_at(id: u32, payload: &[u8], now: u128) -> (j: Job)
        ensures
            j@ == (JobView {
                id,
                status: JobStatus::PENDING,
                payload: payload@,
                timestamp: now,
                heartbeat: now,
            }),
            j@.wf(),
    {
        Job {
            id,
            status: JobStatus::PENDING,
            payload: vstd::slice::slice_to_vec(payload),
            timestamp: now,
            heartbeat: now,
        }
    }

    /// A pending job with its own copy of `payload`, made now by the system
    /// clock: its timestamp and heartbeat are that one reading.
    pub fn new(id: u32, payload: &[u8]) -> (j: Job)
        ensures
            j@.id == id,
            j@.status == JobStatus::PENDING,
            j@.payload == payload@,
            j@.timestamp == j@.heartbeat,
            j@.wf(),
    {
        let now = clock_now();
        Job::new_at(id, payload, now)
    }

    /// Records liveness at time `now`. The heartbeat becomes `now`, unless that
    /// would move it backward: then it stays as it was.
    pub fn update_heartbeat_at(&mut self, now: u128)
        ensures
            final(self)@ == (JobView { heartbeat: max_time(old(self)@.heartbeat, now), ..old(self)@ }),
            final(self)@.wf(),
    {
        proof {
            use_type_invariant(&*self);
        }
        if self.heartbeat < now {
            self.heartbeat = now;
        }
    }

    /// Records liveness now, by the system clock. Only the heartbeat changes,
    /// and it does not move backward.
    pub fn update_heartbeat(&mut self)
        ensures
            final(self)@.id == old(self)@.id,
            final(self)@.status == old(self)@.status,
            final(self)@.payload == old(self)@.payload,
            final(self)@.timestamp == old(self)@.timestamp,
            old(self)@.heartbeat <= final(self)@.heartbeat,
            final(self)@.wf(),
    {
        let now = clock_now();
        self.update_heartbeat_at(now);
    }

    pub fn get_id(&self) -> (r: u32)
        ensures
            r == self@.id,
    {
        self.id
    }

    pub fn get_status(&self) -> (r: &JobStatus)
        ensures
            *r == self@.status,
    {
        &self.status
    }

    /// The payload bytes.
    pub fn payload(&self) -> (r: &[u8])
        ensures
            r@ == self@.payload,
    {
        self.payload.as_slice()
    }

    /// Creation time, in nanoseconds since the Unix epoch.
    pub fn timestamp(&self) -> (r: u128)
        ensures
            r == self@.timestamp,
    {
        self.timestamp
    }

    /// Last recorded liveness, in nanoseconds since the Unix epoch.
    pub fn heartbeat(&self) -> (r: u128)
        ensures
            r == self@.heartbeat,
    {
        self.heartbeat
    }
}

impl Clone for Job {
    /// An independent copy of this job.
    fn clone(&self) -> (r: Job)
        ensures
            r@ == self@,
    {
        proof {
            use_type_invariant(self);
        }
        Job {
            id: self.id,
            status: self.status,
            payload: vstd::slice::slice_to_vec(self.payload.as_slice()),
            timestamp: self.timestamp,
            heartbeat: self.heartbeat,
        }
    }
}

} // verus!
