//! The single sequential worker: it holds at most one job at a time.

use vstd::prelude::*;

use crate::job::job::JobId;

verus! {

#[derive(Debug)]
pub struct Worker {
    job: Option<JobId>,
}

#[derive(Debug)]
pub enum WorkerError {
    AlreadyBusy,
}

impl View for Worker {
    type V = Option<JobId>;

    /// The job the worker holds, if any.
    closed spec fn view(&self) -> Option<JobId> {
        self.job
    }
}

impl Worker {
    pub fn new() -> (worker: Self)
        ensures
            worker@ is None,
    {
        Self { job: None }
    }

    /// Hands `job_id` to an idle worker; a busy worker refuses and keeps its job.
    pub fn assign(&mut self, job_id: JobId) -> (r: Result<(), WorkerError>)
        ensures
            old(self)@ is Some ==> r == Err::<(), WorkerError>(WorkerError::AlreadyBusy)
                && final(self)@ == old(self)@,
            old(self)@ is None ==> r is Ok && final(self)@ == Some(job_id),
    {
        if self.job.is_some() {
            return Err(WorkerError::AlreadyBusy);
        }
        self.job = Some(job_id);
        Ok(())
    }

    pub fn remove(&mut self)
        ensures
            final(self)@ is None,
    {
        self.job = None;
    }

    pub fn current_job(&self) -> (job: Option<JobId>)
        ensures
            job == self@,
    {
        self.job
    }
}

} // verus!
