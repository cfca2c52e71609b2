pub mod job;
pub mod laws;
pub mod scheduler;
pub mod worker;

pub use job::Job;
pub use job::JobId;
pub use job::JobQueue;
pub use scheduler::{Scheduler, SchedulerError};
