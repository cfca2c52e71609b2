use jiff::Zoned;
use job_scheduler::job::job::{JobError, JobStatus, JobStoreError};
use job_scheduler::job::worker::WorkerError;
use job_scheduler::job::{Job, JobId, Scheduler, SchedulerError};

fn add(scheduler: &mut Scheduler) -> Result<JobId, SchedulerError> {
    scheduler.add(Job::new(
        "test".into(),
        String::new(),
        String::new(),
        Zoned::now(),
    ))
}

fn status(scheduler: &Scheduler, id: JobId) -> Option<JobStatus> {
    scheduler.get(&id).map(Job::status)
}

#[test]
fn cancelled_jobs_never_dispatch() -> Result<(), SchedulerError> {
    let mut scheduler = Scheduler::new();
    let pending = add(&mut scheduler)?;
    let cancelled = add(&mut scheduler)?;
    let runnable = add(&mut scheduler)?;
    scheduler.schedule(cancelled)?;
    scheduler.schedule(runnable)?;
    scheduler.cancel(pending)?;
    scheduler.cancel(cancelled)?;
    assert_eq!(status(&scheduler, pending), Some(JobStatus::Cancelled));
    assert_eq!(status(&scheduler, cancelled), Some(JobStatus::Cancelled));
    assert_eq!(scheduler.dispatch()?, Some(runnable));
    assert_eq!(status(&scheduler, runnable), Some(JobStatus::Running));
    scheduler.complete(runnable)?;
    assert_eq!(scheduler.dispatch()?, None);
    Ok(())
}

#[test]
fn retry_releases_worker_and_enqueues_once_at_back() -> Result<(), SchedulerError> {
    let mut scheduler = Scheduler::new();
    let first = add(&mut scheduler)?;
    let second = add(&mut scheduler)?;
    scheduler.schedule(first)?;
    scheduler.schedule(second)?;
    assert_eq!(scheduler.dispatch()?, Some(first));
    scheduler.retry(first)?;
    assert_eq!(scheduler.current_job(), None);
    assert_eq!(status(&scheduler, first), Some(JobStatus::Scheduled));
    assert!(scheduler.retry(first).is_err());
    assert!(scheduler.schedule(first).is_err());
    assert_eq!(scheduler.dispatch()?, Some(second));
    scheduler.complete(second)?;
    assert_eq!(scheduler.dispatch()?, Some(first));
    scheduler.fail(first)?;
    assert_eq!(status(&scheduler, first), Some(JobStatus::Failed));
    assert_eq!(scheduler.current_job(), None);
    assert!(scheduler.retry(first).is_err());
    assert_eq!(scheduler.dispatch()?, None);
    Ok(())
}

#[test]
fn rejected_operations_preserve_assignment_and_queue() -> Result<(), SchedulerError> {
    let mut scheduler = Scheduler::new();
    let running = add(&mut scheduler)?;
    let queued = add(&mut scheduler)?;
    scheduler.schedule(running)?;
    scheduler.schedule(queued)?;
    assert_eq!(scheduler.dispatch()?, Some(running));
    assert!(scheduler.dispatch().is_err());
    assert!(scheduler.cancel(running).is_err());
    assert!(scheduler.schedule(running).is_err());
    assert!(scheduler.retry(queued).is_err());
    assert!(scheduler.complete(queued).is_err());
    assert!(scheduler.fail(queued).is_err());
    assert!(scheduler.cancel(JobId::new()).is_err());
    assert!(scheduler.schedule(JobId::new()).is_err());
    assert_eq!(scheduler.current_job(), Some(running));
    assert_eq!(status(&scheduler, running), Some(JobStatus::Running));
    assert_eq!(status(&scheduler, queued), Some(JobStatus::Scheduled));
    scheduler.complete(running)?;
    assert_eq!(status(&scheduler, running), Some(JobStatus::Completed));
    assert_eq!(scheduler.dispatch()?, Some(queued));
    scheduler.complete(queued)?;
    assert_eq!(scheduler.dispatch()?, None);
    Ok(())
}

#[test]
fn dispatch_follows_schedule_order() -> Result<(), SchedulerError> {
    let mut scheduler = Scheduler::default();
    let a = add(&mut scheduler)?;
    let b = add(&mut scheduler)?;
    let c = add(&mut scheduler)?;
    scheduler.schedule(b)?;
    scheduler.schedule(c)?;
    scheduler.schedule(a)?;
    for expected in [b, c, a] {
        assert_eq!(scheduler.dispatch()?, Some(expected));
        assert_eq!(scheduler.current_job(), Some(expected));
        scheduler.complete(expected)?;
        assert_eq!(status(&scheduler, expected), Some(JobStatus::Completed));
    }
    assert_eq!(scheduler.dispatch()?, None);
    Ok(())
}

#[test]
fn unknown_job_is_not_found() {
    let mut scheduler = Scheduler::new();
    let missing = JobId::new();
    assert!(matches!(
        scheduler.schedule(missing),
        Err(SchedulerError::Job(JobStoreError::NotFound { id })) if id == missing
    ));
    assert!(matches!(
        scheduler.cancel(missing),
        Err(SchedulerError::Job(JobStoreError::NotFound { id })) if id == missing
    ));
    assert!(scheduler.get(&missing).is_none());
}

#[test]
fn scheduling_twice_is_not_pending() -> Result<(), SchedulerError> {
    let mut scheduler = Scheduler::new();
    let id = add(&mut scheduler)?;
    scheduler.schedule(id)?;
    assert!(matches!(
        scheduler.schedule(id),
        Err(SchedulerError::NotPending { id: refused }) if refused == id
    ));
    assert_eq!(scheduler.dispatch()?, Some(id));
    Ok(())
}

#[test]
fn busy_worker_refuses_dispatch() -> Result<(), SchedulerError> {
    let mut scheduler = Scheduler::new();
    let first = add(&mut scheduler)?;
    let second = add(&mut scheduler)?;
    scheduler.schedule(first)?;
    scheduler.schedule(second)?;
    assert_eq!(scheduler.dispatch()?, Some(first));
    assert!(matches!(
        scheduler.dispatch(),
        Err(SchedulerError::Worker(WorkerError::AlreadyBusy))
    ));
    assert_eq!(scheduler.current_job(), Some(first));
    assert_eq!(status(&scheduler, second), Some(JobStatus::Scheduled));
    Ok(())
}

#[test]
fn finishing_an_unassigned_job_is_refused() -> Result<(), SchedulerError> {
    let mut scheduler = Scheduler::new();
    let id = add(&mut scheduler)?;
    assert!(matches!(
        scheduler.complete(id),
        Err(SchedulerError::NotAssigned { id: refused }) if refused == id
    ));
    assert!(matches!(
        scheduler.fail(id),
        Err(SchedulerError::NotAssigned { id: refused }) if refused == id
    ));
    assert!(matches!(
        scheduler.retry(id),
        Err(SchedulerError::NotAssigned { id: refused }) if refused == id
    ));
    assert_eq!(status(&scheduler, id), Some(JobStatus::Pending));
    Ok(())
}

#[test]
fn cancelling_a_running_job_names_the_refused_move() -> Result<(), SchedulerError> {
    let mut scheduler = Scheduler::new();
    let id = add(&mut scheduler)?;
    scheduler.schedule(id)?;
    assert_eq!(scheduler.dispatch()?, Some(id));
    assert!(matches!(
        scheduler.cancel(id),
        Err(SchedulerError::Job(JobStoreError::Job(JobError::InvalidStatusTransition {
            from: JobStatus::Running,
            to: JobStatus::Cancelled
        })))
    ));
    assert_eq!(status(&scheduler, id), Some(JobStatus::Running));
    assert_eq!(scheduler.current_job(), Some(id));
    Ok(())
}

#[test]
fn cancelling_twice_is_refused_by_the_lifecycle() -> Result<(), SchedulerError> {
    let mut scheduler = Scheduler::new();
    let id = add(&mut scheduler)?;
    scheduler.cancel(id)?;
    assert!(matches!(
        scheduler.cancel(id),
        Err(SchedulerError::Job(JobStoreError::Job(JobError::InvalidStatusTransition {
            from: JobStatus::Cancelled,
            to: JobStatus::Cancelled
        })))
    ));
    assert!(scheduler.schedule(id).is_err());
    assert_eq!(status(&scheduler, id), Some(JobStatus::Cancelled));
    Ok(())
}

#[test]
fn retried_job_runs_again_after_the_queue() -> Result<(), SchedulerError> {
    let mut scheduler = Scheduler::new();
    let a = add(&mut scheduler)?;
    let b = add(&mut scheduler)?;
    scheduler.schedule(a)?;
    assert_eq!(scheduler.dispatch()?, Some(a));
    scheduler.schedule(b)?;
    scheduler.retry(a)?;
    assert_eq!(scheduler.dispatch()?, Some(b));
    scheduler.retry(b)?;
    assert_eq!(scheduler.dispatch()?, Some(a));
    scheduler.complete(a)?;
    assert_eq!(scheduler.dispatch()?, Some(b));
    scheduler.fail(b)?;
    assert_eq!(status(&scheduler, a), Some(JobStatus::Completed));
    assert_eq!(status(&scheduler, b), Some(JobStatus::Failed));
    assert_eq!(scheduler.dispatch()?, None);
    Ok(())
}

#[test]
fn errors_convert_into_their_wrappers() {
    let id = JobId::new();
    assert!(matches!(
        SchedulerError::from(WorkerError::AlreadyBusy),
        SchedulerError::Worker(WorkerError::AlreadyBusy)
    ));
    assert!(matches!(
        SchedulerError::from(JobStoreError::NotFound { id }),
        SchedulerError::Job(JobStoreError::NotFound { id: inner }) if inner == id
    ));
    assert!(matches!(
        JobStoreError::from(JobError::InvalidStatusTransition {
            from: JobStatus::Failed,
            to: JobStatus::Running
        }),
        JobStoreError::Job(JobError::InvalidStatusTransition {
            from: JobStatus::Failed,
            to: JobStatus::Running
        })
    ));
}

#[test]
fn a_job_is_found_under_its_own_id() -> Result<(), SchedulerError> {
    let mut scheduler = Scheduler::new();
    let id = add(&mut scheduler)?;
    let job = scheduler.get(&id).expect("added job is found");
    assert_eq!(job.id(), id);
    Ok(())
}
