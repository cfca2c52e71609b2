//! The scheduler: a job store, the queue of runnable jobs and one worker.

use vstd::prelude::*;

use crate::job::job::{
    store_add, store_update, without, Job, JobId, JobQueue, JobStatus, JobStore, JobStoreError,
    JobView,
};
use crate::job::laws::{
    consistent, lemma_add_keeps_consistent, lemma_cancel_keeps_consistent,
    lemma_complete_keeps_consistent, lemma_dispatch_keeps_consistent, lemma_fail_keeps_consistent,
    lemma_initial_consistent, lemma_retry_requeues_once_at_back, lemma_schedule_keeps_consistent,
};
use crate::job::worker::{Worker, WorkerError};

verus! {

/// What a scheduler holds: the jobs by id, the queued ids oldest first, and the
/// job the worker holds.
#[verifier::ext_equal]
pub struct SchedulerView {
    pub jobs: Map<JobId, JobView>,
    pub queue: Seq<JobId>,
    pub worker: Option<JobId>,
}

#[derive(Debug)]
pub enum SchedulerError {
    Job(JobStoreError),
    Worker(WorkerError),
    NotPending { id: JobId },
    NotAssigned { id: JobId },
}

impl From<JobStoreError> for SchedulerError {
    fn from(err: JobStoreError) -> (r: Self)
        ensures
            r == SchedulerError::Job(err),
    {
        SchedulerError::Job(err)
    }
}

impl vstd::std_specs::convert::FromSpecImpl<JobStoreError> for SchedulerError {
    open spec fn obeys_from_spec() -> bool {
        true
    }

    open spec fn from_spec(err: JobStoreError) -> Self {
        SchedulerError::Job(err)
    }
}

impl From<WorkerError> for SchedulerError {
    fn from(err: WorkerError) -> (r: Self)
        ensures
            r == SchedulerError::Worker(err),
    {
        SchedulerError::Worker(err)
    }
}

impl vstd::std_specs::convert::FromSpecImpl<WorkerError> for SchedulerError {
    open spec fn obeys_from_spec() -> bool {
        true
    }

    open spec fn from_spec(err: WorkerError) -> Self {
        SchedulerError::Worker(err)
    }
}

/// The scheduler with no job, an empty queue and an idle worker.
pub open spec fn initial() -> SchedulerView {
    SchedulerView { jobs: Map::empty(), queue: Seq::empty(), worker: None }
}

/// Adding a job: refused when its id is taken.
pub open spec fn add_step(s: SchedulerView, job: JobView) -> (SchedulerView, Result<
    JobId,
    SchedulerError,
>) {
    let (jobs, r) = store_add(s.jobs, job);
    match r {
        Ok(id) => (SchedulerView { jobs, ..s }, Ok(id)),
        Err(e) => (s, Err(SchedulerError::Job(e))),
    }
}

/// Scheduling a job: only a pending job can be scheduled; it becomes scheduled
/// and joins the back of the queue.
pub open spec fn schedule_step(s: SchedulerView, id: JobId) -> (SchedulerView, Result<
    (),
    SchedulerError,
>) {
    if !s.jobs.contains_key(id) {
        (s, Err(SchedulerError::Job(JobStoreError::NotFound { id })))
    } else if s.jobs[id].status != JobStatus::Pending {
        (s, Err(SchedulerError::NotPending { id }))
    } else {
        (
            SchedulerView {
                jobs: s.jobs.insert(id, s.jobs[id].with_status(JobStatus::Scheduled)),
                queue: s.queue.push(id),
                worker: s.worker,
            },
            Ok(()),
        )
    }
}

/// Cancelling a job: where the lifecycle allows it, the job becomes cancelled
/// and leaves the queue.
pub open spec fn cancel_step(s: SchedulerView, id: JobId) -> (SchedulerView, Result<
    (),
    SchedulerError,
>) {
    let (jobs, r) = store_update(s.jobs, id, JobStatus::Cancelled);
    match r {
        Ok(_) => (SchedulerView { jobs, queue: without(s.queue, id), worker: s.worker }, Ok(())),
        Err(e) => (s, Err(SchedulerError::Job(e))),
    }
}

/// Dispatching: a busy worker refuses; with an empty queue nothing happens;
/// otherwise the oldest queued job starts running on the worker and leaves the
/// queue. Where that job cannot start, nothing changes and the store's refusal
/// is returned.
pub open spec fn dispatch_step(s: SchedulerView) -> (SchedulerView, Result<
    Option<JobId>,
    SchedulerError,
>) {
    if s.worker is Some {
        (s, Err(SchedulerError::Worker(WorkerError::AlreadyBusy)))
    } else if s.queue.len() == 0 {
        (s, Ok(None))
    } else {
        let id = s.queue[0];
        let (jobs, r) = store_update(s.jobs, id, JobStatus::Running);
        match r {
            Ok(_) => (
                SchedulerView { jobs, queue: s.queue.drop_first(), worker: Some(id) },
                Ok(Some(id)),
            ),
            Err(e) => (s, Err(SchedulerError::Job(e))),
        }
    }
}

/// Ending the worker's attempt at `id` with status `next`: refused unless the
/// worker holds `id`; where the move is allowed the job takes `next` and the
/// worker is released.
pub open spec fn finish_step(s: SchedulerView, id: JobId, next: JobStatus) -> (
    SchedulerView,
    Result<(), SchedulerError>,
) {
    if s.worker != Some(id) {
        (s, Err(SchedulerError::NotAssigned { id }))
    } else {
        let (jobs, r) = store_update(s.jobs, id, next);
        match r {
            Ok(_) => (SchedulerView { jobs, queue: s.queue, worker: None }, Ok(())),
            Err(e) => (s, Err(SchedulerError::Job(e))),
        }
    }
}

/// Retrying: the attempt ends with the job scheduled again, at the back of the queue.
pub open spec fn retry_step(s: SchedulerView, id: JobId) -> (SchedulerView, Result<
    (),
    SchedulerError,
>) {
    let (t, r) = finish_step(s, id, JobStatus::Scheduled);
    match r {
        Ok(_) => (SchedulerView { queue: t.queue.push(id), ..t }, Ok(())),
        Err(e) => (t, Err(e)),
    }
}

pub open spec fn complete_step(s: SchedulerView, id: JobId) -> (SchedulerView, Result<
    (),
    SchedulerError,
>) {
    finish_step(s, id, JobStatus::Completed)
}

pub open spec fn fail_step(s: SchedulerView, id: JobId) -> (SchedulerView, Result<
    (),
    SchedulerError,
>) {
    finish_step(s, id, JobStatus::Failed)
}

/// Coordinates the store, runnable queue, and a single sequential worker.
#[derive(Debug)]
pub struct Scheduler {
    store: JobStore,
    queue: JobQueue,
    worker: Worker,
}

impl View for Scheduler {
    type V = SchedulerView;

    closed spec fn view(&self) -> SchedulerView {
        SchedulerView { jobs: self.store@, queue: self.queue@, worker: self.worker@ }
    }
}

impl Scheduler {
    pub fn new() -> (scheduler: Self)
        ensures
            scheduler@ == initial(),
            consistent(scheduler@),
    {
        proof {
            lemma_initial_consistent();
        }
        Self { store: JobStore::new(), queue: JobQueue::new(), worker: Worker::new() }
    }

    pub fn add(&mut self, job: Job) -> (r: Result<JobId, SchedulerError>)
        ensures
            (final(self)@, r) == add_step(old(self)@, job@),
            consistent(old(self)@) && job@.status == JobStatus::Pending ==> consistent(final(self)@),
    {
        proof {
            if consistent(old(self)@) && job@.status == JobStatus::Pending {
                lemma_add_keeps_consistent(old(self)@, job@);
            }
        }
        match self.store.add(job) {
            Ok(id) => Ok(id),
            Err(e) => Err(SchedulerError::Job(e)),
        }
    }

    pub fn get(&self, id: &JobId) -> (job: Option<&Job>)
        ensures
            match job {
                Some(j) => self@.jobs.contains_key(*id) && j@ == self@.jobs[*id] && j@.id == *id,
                None => !self@.jobs.contains_key(*id),
            },
    {
        self.store.get(id)
    }

    pub fn current_job(&self) -> (job: Option<JobId>)
        ensures
            job == self@.worker,
    {
        self.worker.current_job()
    }

    pub fn schedule(&mut self, id: JobId) -> (r: Result<(), SchedulerError>)
        ensures
            (final(self)@, r) == schedule_step(old(self)@, id),
            consistent(old(self)@) ==> consistent(final(self)@),
    {
        proof {
            if consistent(old(self)@) {
                lemma_schedule_keeps_consistent(old(self)@, id);
            }
        }
        // Running jobs must use retry so the worker is released as well.
        let job = match self.store.get(&id) {
            Some(job) => job,
            None => return Err(SchedulerError::Job(JobStoreError::NotFound { id })),
        };
        if job.status() != JobStatus::Pending {
            return Err(SchedulerError::NotPending { id });
        }
        match self.store.update_status(&id, JobStatus::Scheduled) {
            Ok(()) => {},
            Err(e) => return Err(SchedulerError::Job(e)),
        }
        self.queue.push(id);
        Ok(())
    }

    pub fn cancel(&mut self, id: JobId) -> (r: Result<(), SchedulerError>)
        ensures
            (final(self)@, r) == cancel_step(old(self)@, id),
            consistent(old(self)@) ==> consistent(final(self)@),
    {
        proof {
            if consistent(old(self)@) {
                lemma_cancel_keeps_consistent(old(self)@, id);
            }
        }
        match self.store.update_status(&id, JobStatus::Cancelled) {
            Ok(()) => {},
            Err(e) => return Err(SchedulerError::Job(e)),
        }
        self.queue.remove(id);
        Ok(())
    }

    pub fn dispatch(&mut self) -> (r: Result<Option<JobId>, SchedulerError>)
        ensures
            (final(self)@, r) == dispatch_step(old(self)@),
            consistent(old(self)@) ==> consistent(final(self)@),
    {
        proof {
            if consistent(old(self)@) {
                lemma_dispatch_keeps_consistent(old(self)@);
            }
        }
        if self.worker.current_job().is_some() {
            return Err(SchedulerError::Worker(WorkerError::AlreadyBusy));
        }
        let id = match self.queue.front() {
            Some(id) => id,
            None => return Ok(None),
        };
        match self.worker.assign(id) {
            Ok(()) => {},
            Err(e) => return Err(SchedulerError::Worker(e)),
        }
        match self.store.update_status(&id, JobStatus::Running) {
            Ok(()) => {},
            Err(error) => {
                self.worker.remove();
                return Err(SchedulerError::Job(error));
            },
        }
        let _ = self.queue.take();
        Ok(Some(id))
    }

    /// Report a retryable result after the execution attempt returns.
    /// This releases the assignment; it does not interrupt executing code.
    pub fn retry(&mut self, id: JobId) -> (r: Result<(), SchedulerError>)
        ensures
            (final(self)@, r) == retry_step(old(self)@, id),
            consistent(old(self)@) ==> consistent(final(self)@),
    {
        proof {
            if consistent(old(self)@) {
                lemma_retry_requeues_once_at_back(old(self)@, id);
            }
        }
        self.finish_attempt(id, JobStatus::Scheduled)?;
        self.queue.push(id);
        Ok(())
    }

    /// Report successful completion after the attempt returns.
    pub fn complete(&mut self, id: JobId) -> (r: Result<(), SchedulerError>)
        ensures
            (final(self)@, r) == complete_step(old(self)@, id),
            consistent(old(self)@) ==> consistent(final(self)@),
    {
        proof {
            if consistent(old(self)@) {
                lemma_complete_keeps_consistent(old(self)@, id);
            }
        }
        self.finish_attempt(id, JobStatus::Completed)
    }

    /// Report terminal failure after the attempt returns.
    pub fn fail(&mut self, id: JobId) -> (r: Result<(), SchedulerError>)
        ensures
            (final(self)@, r) == fail_step(old(self)@, id),
            consistent(old(self)@) ==> consistent(final(self)@),
    {
        proof {
            if consistent(old(self)@) {
                lemma_fail_keeps_consistent(old(self)@, id);
            }
        }
        self.finish_attempt(id, JobStatus::Failed)
    }

    fn finish_attempt(&mut self, id: JobId, next: JobStatus) -> (r: Result<(), SchedulerError>)
        ensures
            (final(self)@, r) == finish_step(old(self)@, id, next),
    {
        let assigned = match self.worker.current_job() {
            Some(current) => current == id,
            None => false,
        };
        if !assigned {
            return Err(SchedulerError::NotAssigned { id });
        }
        match self.store.update_status(&id, next) {
            Ok(()) => {},
            Err(e) => return Err(SchedulerError::Job(e)),
        }
        self.worker.remove();
        Ok(())
    }
}

impl Default for Scheduler {
    fn default() -> (scheduler: Self)
        ensures
            scheduler@ == initial(),
    {
        Self::new()
    }
}

} // verus!
