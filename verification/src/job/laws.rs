//! What holds of the scheduler across its operations: the lifecycle that every
//! step follows, the consistency that every step keeps, and what a refused or a
//! successful step does to the queue and the worker.

use vstd::prelude::*;

use crate::job::job::{store_add, without, JobId, JobStatus, JobView};
use crate::job::scheduler::{
    add_step, cancel_step, complete_step, dispatch_step, fail_step, finish_step, initial,
    retry_step, schedule_step, SchedulerError, SchedulerView,
};

verus! {

/// The scheduler's consistency: the queue holds each id at most once and holds
/// exactly the scheduled jobs; the worker holds a job exactly when that job is
/// running, so at most one job runs.
pub open spec fn consistent(s: SchedulerView) -> bool {
    &&& s.queue.no_duplicates()
    &&& forall|i: int|
        0 <= i < s.queue.len() ==> s.jobs.contains_key(#[trigger] s.queue[i]) && s.jobs[s.queue[i]].status
            == JobStatus::Scheduled
    &&& forall|k: JobId|
        #[trigger] s.jobs.contains_key(k) && s.jobs[k].status == JobStatus::Scheduled
            ==> s.queue.contains(k)
    &&& forall|k: JobId|
        #[trigger] s.jobs.contains_key(k) && s.jobs[k].status == JobStatus::Running ==> s.worker
            == Some(k)
    &&& (s.worker matches Some(w) ==> s.jobs.contains_key(w) && s.jobs[w].status
        == JobStatus::Running)
}

/// From the jobs `a` to the jobs `b` no job appears or disappears, and each job
/// either stays as it is or takes a new status that the lifecycle allows, with
/// all else unchanged.
pub open spec fn follows_lifecycle(a: Map<JobId, JobView>, b: Map<JobId, JobView>) -> bool {
    &&& a.dom() == b.dom()
    &&& forall|k: JobId|
        #[trigger] a.contains_key(k) ==> b[k] == a[k] || (b[k] == a[k].with_status(b[k].status)
            && a[k].status.allows(b[k].status))
}

/// Removing every occurrence of `id` keeps exactly the other elements, and keeps
/// a sequence free of repetitions.
pub proof fn lemma_without(q: Seq<JobId>, id: JobId)
    ensures
        forall|k: JobId| #[trigger] without(q, id).contains(k) <==> q.contains(k) && k != id,
        q.no_duplicates() ==> without(q, id).no_duplicates(),
    decreases q.len(),
{
    reveal(Seq::filter);
    if q.len() > 0 {
        let r = q.drop_last();
        let x = q.last();
        lemma_without(r, id);
        let w = without(r, id);
        assert(without(q, id) == if x != id {
            w.push(x)
        } else {
            w
        });
        assert forall|k: JobId| #[trigger] without(q, id).contains(k) implies q.contains(k) && k
            != id by {
            if x != id && k == x {
                assert(q[q.len() - 1] == k);
            } else {
                let j = choose|j: int| 0 <= j < without(q, id).len() && without(q, id)[j] == k;
                assert(w[j] == k);
                assert(w.contains(k));
                let i = choose|i: int| 0 <= i < r.len() && r[i] == k;
                assert(q[i] == k);
            }
        }
        assert forall|k: JobId| q.contains(k) && k != id implies #[trigger] without(
            q,
            id,
        ).contains(k) by {
            let i = choose|i: int| 0 <= i < q.len() && q[i] == k;
            if i == q.len() - 1 {
                assert(without(q, id)[without(q, id).len() - 1] == k);
            } else {
                assert(r[i] == k);
                assert(r.contains(k));
                assert(w.contains(k));
                let j = choose|j: int| 0 <= j < w.len() && w[j] == k;
                assert(without(q, id)[j] == k);
            }
        }
        if q.no_duplicates() {
            assert(r.no_duplicates()) by {
                assert forall|i: int, j: int|
                    0 <= i < r.len() && 0 <= j < r.len() && i != j implies r[i] != r[j] by {
                    assert(r[i] == q[i] && r[j] == q[j]);
                }
            }
            if x != id {
                assert(!r.contains(x)) by {
                    if r.contains(x) {
                        let i = choose|i: int| 0 <= i < r.len() && r[i] == x;
                        assert(q[i] == q[q.len() - 1]);
                    }
                }
                assert(!w.contains(x));
                assert forall|i: int, j: int|
                    0 <= i < w.len() + 1 && 0 <= j < w.len() + 1 && i != j implies w.push(x)[i]
                    != w.push(x)[j] by {
                    if i == w.len() {
                        assert(w.contains(w[j]));
                    } else if j == w.len() {
                        assert(w.contains(w[i]));
                    }
                }
            }
        }
    }
}

/// No status moves to itself, nothing moves back to pending, and the terminal
/// statuses (completed, failed, cancelled) have no move out.
pub proof fn lemma_lifecycle_shape(from: JobStatus, to: JobStatus)
    ensures
        !from.allows(from),
        !from.allows(JobStatus::Pending),
        from.is_terminal() ==> !from.allows(to),
{
}

/// The new scheduler is consistent.
pub proof fn lemma_initial_consistent()
    ensures
        consistent(initial()),
{
}

/// Adding a pending job keeps the scheduler consistent.
pub proof fn lemma_add_keeps_consistent(s: SchedulerView, job: JobView)
    requires
        consistent(s),
        job.status == JobStatus::Pending,
    ensures
        consistent(add_step(s, job).0),
{
    let t = add_step(s, job).0;
    if !s.jobs.contains_key(job.id) {
        assert forall|i: int| 0 <= i < t.queue.len() implies t.jobs.contains_key(
            #[trigger] t.queue[i],
        ) && t.jobs[t.queue[i]].status == JobStatus::Scheduled by {
            assert(s.jobs.contains_key(s.queue[i]));
        }
    }
}

/// Queueing a job that was not queued, while it becomes scheduled, keeps the
/// queue free of repetitions and holding exactly the scheduled jobs.
proof fn lemma_enqueue_scheduled(s: SchedulerView, t: SchedulerView, id: JobId)
    requires
        consistent(s),
        s.jobs.contains_key(id),
        !s.queue.contains(id),
        t.queue == s.queue.push(id),
        t.jobs == s.jobs.insert(id, s.jobs[id].with_status(JobStatus::Scheduled)),
    ensures
        t.queue.no_duplicates(),
        forall|i: int|
            0 <= i < t.queue.len() ==> t.jobs.contains_key(#[trigger] t.queue[i])
                && t.jobs[t.queue[i]].status == JobStatus::Scheduled,
        forall|k: JobId|
            #[trigger] t.jobs.contains_key(k) && t.jobs[k].status == JobStatus::Scheduled
                ==> t.queue.contains(k),
{
    assert forall|i: int, j: int|
        0 <= i < t.queue.len() && 0 <= j < t.queue.len() && i != j implies t.queue[i]
        != t.queue[j] by {
        if i == s.queue.len() {
            assert(s.queue.contains(s.queue[j]));
        } else if j == s.queue.len() {
            assert(s.queue.contains(s.queue[i]));
        }
    }
    assert forall|i: int| 0 <= i < t.queue.len() implies t.jobs.contains_key(
        #[trigger] t.queue[i],
    ) && t.jobs[t.queue[i]].status == JobStatus::Scheduled by {
        if i < s.queue.len() {
            assert(s.jobs.contains_key(s.queue[i]));
        }
    }
    assert forall|k: JobId|
        #[trigger] t.jobs.contains_key(k) && t.jobs[k].status
            == JobStatus::Scheduled implies t.queue.contains(k) by {
        if k == id {
            assert(t.queue[s.queue.len() as int] == id);
        } else {
            assert(s.queue.contains(k));
            let i = choose|i: int| 0 <= i < s.queue.len() && s.queue[i] == k;
            assert(t.queue[i] == k);
        }
    }
}

/// Scheduling keeps the scheduler consistent.
pub proof fn lemma_schedule_keeps_consistent(s: SchedulerView, id: JobId)
    requires
        consistent(s),
    ensures
        consistent(schedule_step(s, id).0),
{
    let t = schedule_step(s, id).0;
    if s.jobs.contains_key(id) && s.jobs[id].status == JobStatus::Pending {
        assert(!s.queue.contains(id));
        lemma_enqueue_scheduled(s, t, id);
    }
}

/// Cancelling keeps the scheduler consistent.
pub proof fn lemma_cancel_keeps_consistent(s: SchedulerView, id: JobId)
    requires
        consistent(s),
    ensures
        consistent(cancel_step(s, id).0),
{
    let t = cancel_step(s, id).0;
    lemma_without(s.queue, id);
    if cancel_step(s, id).1 is Ok {
        assert forall|i: int| 0 <= i < t.queue.len() implies t.jobs.contains_key(
            #[trigger] t.queue[i],
        ) && t.jobs[t.queue[i]].status == JobStatus::Scheduled by {
            assert(t.queue.contains(t.queue[i]));
            let j = choose|j: int| 0 <= j < s.queue.len() && s.queue[j] == t.queue[i];
            assert(s.jobs.contains_key(s.queue[j]));
        }
    }
}

/// Dispatching keeps the scheduler consistent.
pub proof fn lemma_dispatch_keeps_consistent(s: SchedulerView)
    requires
        consistent(s),
    ensures
        consistent(dispatch_step(s).0),
{
    let t = dispatch_step(s).0;
    if let Ok(Some(id)) = dispatch_step(s).1 {
        assert(s.queue[0] == id);
        assert forall|i: int| 0 <= i < t.queue.len() implies t.jobs.contains_key(
            #[trigger] t.queue[i],
        ) && t.jobs[t.queue[i]].status == JobStatus::Scheduled by {
            assert(t.queue[i] == s.queue[i + 1]);
            assert(s.jobs.contains_key(s.queue[i + 1]));
        }
        assert forall|k: JobId|
            #[trigger] t.jobs.contains_key(k) && t.jobs[k].status
                == JobStatus::Scheduled implies t.queue.contains(k) by {
            assert(s.queue.contains(k));
            let i = choose|i: int| 0 <= i < s.queue.len() && s.queue[i] == k;
            assert(i != 0);
            assert(t.queue[i - 1] == k);
        }
    }
}

/// Ending an attempt keeps the scheduler consistent when the job does not go
/// back to the queue (completion or failure).
proof fn lemma_finish_keeps_consistent(s: SchedulerView, id: JobId, next: JobStatus)
    requires
        consistent(s),
        next == JobStatus::Completed || next == JobStatus::Failed,
    ensures
        consistent(finish_step(s, id, next).0),
{
    let t = finish_step(s, id, next).0;
    if finish_step(s, id, next).1 is Ok {
        assert(!s.queue.contains(id));
        assert forall|i: int| 0 <= i < t.queue.len() implies t.jobs.contains_key(
            #[trigger] t.queue[i],
        ) && t.jobs[t.queue[i]].status == JobStatus::Scheduled by {
            assert(s.jobs.contains_key(s.queue[i]));
            assert(s.queue.contains(s.queue[i]));
        }
    }
}

/// Completing keeps the scheduler consistent.
pub proof fn lemma_complete_keeps_consistent(s: SchedulerView, id: JobId)
    requires
        consistent(s),
    ensures
        consistent(complete_step(s, id).0),
{
    lemma_finish_keeps_consistent(s, id, JobStatus::Completed);
}

/// Failing keeps the scheduler consistent.
pub proof fn lemma_fail_keeps_consistent(s: SchedulerView, id: JobId)
    requires
        consistent(s),
    ensures
        consistent(fail_step(s, id).0),
{
    lemma_finish_keeps_consistent(s, id, JobStatus::Failed);
}

/// Retrying keeps the scheduler consistent, and a retried job is queued once,
/// at the back, with the worker released.
pub proof fn lemma_retry_requeues_once_at_back(s: SchedulerView, id: JobId)
    requires
        consistent(s),
    ensures
        consistent(retry_step(s, id).0),
        retry_step(s, id).1 is Ok ==> {
            let t = retry_step(s, id).0;
            &&& !s.queue.contains(id)
            &&& t.queue == s.queue.push(id)
            &&& t.worker is None
            &&& t.jobs[id].status == JobStatus::Scheduled
        },
{
    let t = retry_step(s, id).0;
    if retry_step(s, id).1 is Ok {
        assert(!s.queue.contains(id)) by {
            if s.queue.contains(id) {
                let i = choose|i: int| 0 <= i < s.queue.len() && s.queue[i] == id;
                assert(s.jobs.contains_key(s.queue[i]));
            }
        }
        lemma_enqueue_scheduled(s, t, id);
    }
}

/// In a consistent scheduler at most one job runs, it is the worker's, and a
/// running job is not queued.
pub proof fn lemma_one_running_job(s: SchedulerView, a: JobId, b: JobId)
    requires
        consistent(s),
        s.jobs.contains_key(a),
        s.jobs.contains_key(b),
        s.jobs[a].status == JobStatus::Running,
        s.jobs[b].status == JobStatus::Running,
    ensures
        a == b,
        s.worker == Some(a),
        !s.queue.contains(a),
{
    if s.queue.contains(a) {
        let i = choose|i: int| 0 <= i < s.queue.len() && s.queue[i] == a;
        assert(s.jobs.contains_key(s.queue[i]));
    }
}

/// A refused operation changes nothing: not the jobs, not the queue, not the worker.
pub proof fn lemma_refused_steps_change_nothing(s: SchedulerView, id: JobId, job: JobView)
    ensures
        add_step(s, job).1 is Err ==> add_step(s, job).0 == s,
        schedule_step(s, id).1 is Err ==> schedule_step(s, id).0 == s,
        cancel_step(s, id).1 is Err ==> cancel_step(s, id).0 == s,
        dispatch_step(s).1 is Err ==> dispatch_step(s).0 == s,
        retry_step(s, id).1 is Err ==> retry_step(s, id).0 == s,
        complete_step(s, id).1 is Err ==> complete_step(s, id).0 == s,
        fail_step(s, id).1 is Err ==> fail_step(s, id).0 == s,
{
}

/// Every operation but adding keeps the set of jobs and moves job statuses only
/// along the lifecycle; adding files one new job and leaves the others as they are.
pub proof fn lemma_steps_follow_lifecycle(s: SchedulerView, id: JobId, job: JobView)
    ensures
        follows_lifecycle(s.jobs, schedule_step(s, id).0.jobs),
        follows_lifecycle(s.jobs, cancel_step(s, id).0.jobs),
        follows_lifecycle(s.jobs, dispatch_step(s).0.jobs),
        follows_lifecycle(s.jobs, retry_step(s, id).0.jobs),
        follows_lifecycle(s.jobs, complete_step(s, id).0.jobs),
        follows_lifecycle(s.jobs, fail_step(s, id).0.jobs),
        add_step(s, job).0.jobs == s.jobs || (!s.jobs.contains_key(job.id) && add_step(
            s,
            job,
        ).0.jobs == s.jobs.insert(job.id, job)),
{
    assert(schedule_step(s, id).0.jobs.dom() =~= s.jobs.dom());
    assert(cancel_step(s, id).0.jobs.dom() =~= s.jobs.dom());
    assert(dispatch_step(s).0.jobs.dom() =~= s.jobs.dom());
    assert(retry_step(s, id).0.jobs.dom() =~= s.jobs.dom());
    assert(complete_step(s, id).0.jobs.dom() =~= s.jobs.dom());
    assert(fail_step(s, id).0.jobs.dom() =~= s.jobs.dom());
}

/// Dispatch hands out only the oldest queued job, only if it was scheduled and
/// the worker idle; the job is then running on the worker and off the queue.
pub proof fn lemma_dispatch_hands_out_oldest(s: SchedulerView, id: JobId)
    requires
        dispatch_step(s).1 == Ok::<Option<JobId>, SchedulerError>(Some(id)),
    ensures
        s.worker is None,
        s.queue.len() > 0 && s.queue[0] == id,
        s.jobs.contains_key(id) && s.jobs[id].status == JobStatus::Scheduled,
        dispatch_step(s).0.jobs[id].status == JobStatus::Running,
        dispatch_step(s).0.worker == Some(id),
        dispatch_step(s).0.queue == s.queue.drop_first(),
{
}

/// A job in a terminal status (completed, failed or cancelled) is never
/// dispatched, and no operation changes it.
pub proof fn lemma_terminal_jobs_stay(s: SchedulerView, id: JobId, other: JobId)
    requires
        s.jobs.contains_key(id),
        s.jobs[id].status.is_terminal(),
    ensures
        dispatch_step(s).1 != Ok::<Option<JobId>, SchedulerError>(Some(id)),
        schedule_step(s, other).0.jobs[id] == s.jobs[id],
        cancel_step(s, other).0.jobs[id] == s.jobs[id],
        dispatch_step(s).0.jobs[id] == s.jobs[id],
        retry_step(s, other).0.jobs[id] == s.jobs[id],
        complete_step(s, other).0.jobs[id] == s.jobs[id],
        fail_step(s, other).0.jobs[id] == s.jobs[id],
{
}

/// A job added to the store is found there under its id, as it was given; an
/// add is refused exactly when the id is taken.
pub proof fn lemma_added_job_is_found(m: Map<JobId, JobView>, job: JobView)
    ensures
        store_add(m, job).1 is Err <==> m.contains_key(job.id),
        store_add(m, job).1 is Ok ==> store_add(m, job).0.contains_key(job.id) && store_add(
            m,
            job,
        ).0[job.id] == job,
{
}

/// Adding is refused exactly when the job's id is already taken, whatever the
/// worker and the queue hold; an accepted job is filed as given under its id,
/// and the queue and the worker stay as they were.
pub proof fn lemma_add_refused_only_for_taken_id(s: SchedulerView, job: JobView)
    ensures
        add_step(s, job).1 is Err <==> s.jobs.contains_key(job.id),
        !s.jobs.contains_key(job.id) ==> {
            let t = add_step(s, job).0;
            &&& add_step(s, job).1 == Ok::<JobId, SchedulerError>(job.id)
            &&& t.jobs.contains_key(job.id) && t.jobs[job.id] == job
            &&& forall|k: JobId| #[trigger] s.jobs.contains_key(k) ==> t.jobs.contains_key(k)
                && t.jobs[k] == s.jobs[k]
            &&& t.queue == s.queue
            &&& t.worker == s.worker
        },
{
}

/// Scheduling succeeds exactly on a known pending job, whatever the worker
/// holds; the job becomes scheduled and joins the back of the queue.
pub proof fn lemma_schedule_succeeds_on_pending(s: SchedulerView, id: JobId)
    ensures
        schedule_step(s, id).1 is Ok <==> s.jobs.contains_key(id) && s.jobs[id].status
            == JobStatus::Pending,
        schedule_step(s, id).1 is Ok ==> {
            let t = schedule_step(s, id).0;
            &&& t.jobs[id].status == JobStatus::Scheduled
            &&& t.queue == s.queue.push(id)
            &&& t.worker == s.worker
        },
{
}

/// Cancelling succeeds exactly on a known job whose status allows the move to
/// cancelled (a pending or a scheduled one), whatever the worker holds; the job
/// becomes cancelled and no longer appears in the queue, and the worker keeps
/// what it holds.
pub proof fn lemma_cancel_succeeds_when_allowed(s: SchedulerView, id: JobId)
    ensures
        cancel_step(s, id).1 is Ok <==> s.jobs.contains_key(id) && s.jobs[id].status.allows(
            JobStatus::Cancelled,
        ),
        cancel_step(s, id).1 is Ok <==> s.jobs.contains_key(id) && (s.jobs[id].status
            == JobStatus::Pending || s.jobs[id].status == JobStatus::Scheduled),
        cancel_step(s, id).1 is Ok ==> {
            let t = cancel_step(s, id).0;
            &&& t.jobs[id].status == JobStatus::Cancelled
            &&& !t.queue.contains(id)
            &&& forall|k: JobId| k != id ==> (#[trigger] t.queue.contains(k) <==> s.queue.contains(k))
            &&& t.worker == s.worker
        },
{
    lemma_without(s.queue, id);
}

/// With an idle worker and a non-empty queue, dispatching a consistent
/// scheduler hands out the oldest queued job, which then runs on the worker and
/// leaves the queue; with an empty queue nothing is handed out, and a busy
/// worker refuses.
pub proof fn lemma_dispatch_hands_out_front(s: SchedulerView)
    requires
        consistent(s),
    ensures
        s.worker is Some ==> dispatch_step(s).1 is Err && dispatch_step(s).0 == s,
        s.worker is None && s.queue.len() == 0 ==> dispatch_step(s).1 == Ok::<
            Option<JobId>,
            SchedulerError,
        >(None) && dispatch_step(s).0 == s,
        s.worker is None && s.queue.len() > 0 ==> {
            let t = dispatch_step(s).0;
            &&& dispatch_step(s).1 == Ok::<Option<JobId>, SchedulerError>(Some(s.queue[0]))
            &&& t.jobs[s.queue[0]].status == JobStatus::Running
            &&& t.worker == Some(s.queue[0])
            &&& t.queue == s.queue.drop_first()
        },
{
    if s.queue.len() > 0 {
        assert(s.jobs.contains_key(s.queue[0]));
    }
}

/// In a consistent scheduler, ending the worker's attempt at `id` with
/// completion, failure or a retry succeeds exactly when the worker holds `id`,
/// whatever the queue holds; it then releases the worker and gives the job its
/// new status, and a retried job goes to the back of the queue.
pub proof fn lemma_attempt_ends_only_for_assigned_job(s: SchedulerView, id: JobId)
    requires
        consistent(s),
    ensures
        complete_step(s, id).1 is Ok <==> s.worker == Some(id),
        fail_step(s, id).1 is Ok <==> s.worker == Some(id),
        retry_step(s, id).1 is Ok <==> s.worker == Some(id),
        s.worker == Some(id) ==> {
            &&& complete_step(s, id).0.jobs[id].status == JobStatus::Completed
            &&& complete_step(s, id).0.worker is None
            &&& complete_step(s, id).0.queue == s.queue
            &&& fail_step(s, id).0.jobs[id].status == JobStatus::Failed
            &&& fail_step(s, id).0.worker is None
            &&& fail_step(s, id).0.queue == s.queue
            &&& retry_step(s, id).0.jobs[id].status == JobStatus::Scheduled
            &&& retry_step(s, id).0.worker is None
            &&& retry_step(s, id).0.queue == s.queue.push(id)
        },
{
}

} // verus!
