//! An in-process job queue: jobs with an id, a status, a payload and two
//! clock readings, kept in insertion order and looked up or removed by id.
pub mod job;
pub mod store;
pub mod queue;

pub use job::{Job, JobStatus, JobView};
pub use store::{JobStore, QueueError};
pub use queue::{InMemQueue, JobQueue};
