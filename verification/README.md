# job_scheduler

A job scheduler written in Verus: a store of jobs, a FIFO queue of runnable
jobs and a single sequential worker. Each job moves through a fixed lifecycle
(pending, scheduled, running, then completed, failed or cancelled).

- `src/job/job.rs`: job ids, statuses and their lifecycle, jobs, the job store
  and the queue, with their models (`JobView`, maps and sequences).
- `src/job/worker.rs`: the worker that holds at most one job.
- `src/job/scheduler.rs`: the scheduler and, for each operation, a spec
  function that states its effect on the model exactly.
- `src/job/laws.rs`: what holds across operations, proved: consistency of
  queue, worker and statuses is kept by every operation, refused operations
  change nothing, every change follows the lifecycle, terminal jobs stay put.
- `app/main.rs`: a small program that schedules and dispatches one job, with
  error types that carry printable messages.
