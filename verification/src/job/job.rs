//! Jobs, their lifecycle, the store that owns them and the queue of runnable ids.

use std::collections::HashMap;
use std::collections::VecDeque;

use jiff::Zoned;
use uuid::Uuid;
use vstd::prelude::*;

verus! {

/// `jiff::Zoned`, a zoned datetime. The library only carries such values
/// through; nothing in its logic reads them.
#[verifier::external_type_specification]
#[verifier::external_body]
pub struct ExZoned(jiff::Zoned);

// ---------------------------------------------------------------------------
// Identifiers
// ---------------------------------------------------------------------------

/// The lower-case hexadecimal digit for a value below 16.
pub open spec fn hex_digit(n: u128) -> char {
    seq!['0', '1', '2', '3', '4', '5', '6', '7', '8', '9', 'a', 'b', 'c', 'd', 'e', 'f'][n as int]
}

/// The 32 hexadecimal digits of a 128-bit value, most significant first.
pub open spec fn hex_digits(v: u128) -> Seq<char> {
    Seq::new(32, |k: int| hex_digit((v >> ((124 - 4 * k) as u128)) & 0xfu128))
}

/// The hyphenated text of a UUID given as its big-endian 128-bit value:
/// groups of 8, 4, 4, 4 and 12 lower-case hex digits joined by `-`.
pub open spec fn uuid_text(v: u128) -> Seq<char> {
    let d = hex_digits(v);
    d.subrange(0, 8) + seq!['-'] + d.subrange(8, 12) + seq!['-'] + d.subrange(12, 16) + seq![
        '-',
    ] + d.subrange(16, 20) + seq!['-'] + d.subrange(20, 32)
}

/// `uuid::Uuid::now_v7`, read as its big-endian value with `Uuid::as_u128`.
/// The value comes from the clock and a random source, so only its fixed bits
/// are claimed: the version nibble is 7 and the two variant bits are `0b10`.
/// The crate also orders the ids that one process draws by creation time; that
/// relation between calls is not stated here. The crate panics inside the call
/// if the system clock reads earlier than the Unix epoch, or if the system
/// random source cannot supply bytes.
#[verifier::external_body]
fn uuid_now_v7() -> (v: u128)
    ensures
        (v >> 76u128) & 0xfu128 == 7,
        (v >> 62u128) & 0x3u128 == 2,
{
    Uuid::now_v7().as_u128()
}

/// `uuid::Uuid::from_u128` followed by the `Display` of `Uuid`, which writes the
/// hyphenated lower-case form of the value.
#[verifier::external_body]
fn uuid_to_text(v: u128) -> (s: String)
    ensures
        s@ == uuid_text(v),
{
    Uuid::from_u128(v).to_string()
}

/// The identifier of a job: a version 7 UUID, held as its 128-bit value.
#[derive(Debug, PartialEq, Eq, Hash, Clone, Copy, Structural)]
pub struct JobId {
    id: u128,
}

impl View for JobId {
    type V = u128;

    /// The UUID's big-endian 128-bit value.
    closed spec fn view(&self) -> u128 {
        self.id
    }
}

impl JobId {
    /// A fresh identifier, a version 7 UUID drawn from the clock and a random source.
    /// Panics, as the uuid crate does, if the clock reads earlier than the Unix
    /// epoch or the system random source fails.
    pub fn new() -> (id: Self)
        ensures
            (id@ >> 76u128) & 0xfu128 == 7,
            (id@ >> 62u128) & 0x3u128 == 2,
    {
        JobId { id: uuid_now_v7() }
    }

    /// The hyphenated text of the identifier.
    pub fn to_string(&self) -> (s: String)
        ensures
            s@ == uuid_text(self@),
    {
        uuid_to_text(self.id)
    }
}

// ---------------------------------------------------------------------------
// Status lifecycle
// ---------------------------------------------------------------------------

#[derive(Debug, Copy, Clone, PartialEq, Eq, Structural)]
pub enum JobStatus {
    Pending,
    Scheduled,
    Running,
    Completed,
    Failed,
    Cancelled,
}

impl JobStatus {
    /// The lifecycle: a pending job may be scheduled or cancelled, a scheduled
    /// job may start running or be cancelled, and a running job may go back to
    /// scheduled, complete or fail. No other move is allowed.
    pub open spec fn allows(self, next: JobStatus) -> bool {
        ||| self == JobStatus::Pending && next == JobStatus::Scheduled
        ||| self == JobStatus::Pending && next == JobStatus::Cancelled
        ||| self == JobStatus::Scheduled && next == JobStatus::Running
        ||| self == JobStatus::Scheduled && next == JobStatus::Cancelled
        ||| self == JobStatus::Running && next == JobStatus::Scheduled
        ||| self == JobStatus::Running && next == JobStatus::Completed
        ||| self == JobStatus::Running && next == JobStatus::Failed
    }

    /// A status that no move leaves.
    pub open spec fn is_terminal(self) -> bool {
        self == JobStatus::Completed || self == JobStatus::Failed || self == JobStatus::Cancelled
    }

    pub fn can_transition_to(self, next: Self) -> (allowed: bool)
        ensures
            allowed == self.allows(next),
    {
        match (self, next) {
            (JobStatus::Pending, JobStatus::Scheduled) => true,
            (JobStatus::Pending, JobStatus::Cancelled) => true,
            (JobStatus::Scheduled, JobStatus::Running) => true,
            (JobStatus::Scheduled, JobStatus::Cancelled) => true,
            (JobStatus::Running, JobStatus::Scheduled) => true,
            (JobStatus::Running, JobStatus::Completed) => true,
            (JobStatus::Running, JobStatus::Failed) => true,
            _ => false,
        }
    }
}

#[derive(Debug, PartialEq, Eq, Structural)]
pub enum JobType {
    JobOne,
}

#[derive(Debug)]
pub enum JobError {
    InvalidStatusTransition { from: JobStatus, to: JobStatus },
}

// ---------------------------------------------------------------------------
// Jobs
// ---------------------------------------------------------------------------

/// `jiff::Zoned::now`: the current time in the system time zone. The result
/// rests on the clock, so nothing is claimed of it. The crate panics inside the
/// call if the clock is outside the years -9999 to 9999.
#[verifier::external_body]
fn zoned_now() -> Zoned {
    Zoned::now()
}

#[derive(Debug, PartialEq, Eq)]
pub struct Job {
    id: JobId,
    job_type: JobType,
    name: String,
    description: String,
    parameters: String,
    status: JobStatus,
    created_at: Zoned,
    starts_at: Zoned,
}

/// What a job holds, with its texts as character sequences.
#[verifier::ext_equal]
pub struct JobView {
    pub id: JobId,
    pub job_type: JobType,
    pub name: Seq<char>,
    pub description: Seq<char>,
    pub parameters: Seq<char>,
    pub status: JobStatus,
    pub created_at: Zoned,
    pub starts_at: Zoned,
}

impl JobView {
    /// The same job with another status.
    pub open spec fn with_status(self, status: JobStatus) -> JobView {
        JobView { status, ..self }
    }
}

impl View for Job {
    type V = JobView;

    closed spec fn view(&self) -> JobView {
        JobView {
            id: self.id,
            job_type: self.job_type,
            name: self.name@,
            description: self.description@,
            parameters: self.parameters@,
            status: self.status,
            created_at: self.created_at,
            starts_at: self.starts_at,
        }
    }
}

impl Job {
    /// A pending job of the one job type with the given id, creation time,
    /// texts and start time.
    pub fn from_parts(
        id: JobId,
        created_at: Zoned,
        name: String,
        description: String,
        parameters: String,
        starts_at: Zoned,
    ) -> (job: Self)
        ensures
            job@ == (JobView {
                id,
                job_type: JobType::JobOne,
                name: name@,
                description: description@,
                parameters: parameters@,
                status: JobStatus::Pending,
                created_at,
                starts_at,
            }),
    {
        Job {
            id,
            job_type: JobType::JobOne,
            name,
            description,
            parameters,
            status: JobStatus::Pending,
            created_at,
            starts_at,
        }
    }

    /// A new pending job of the one job type, with a fresh id and the current
    /// time as its creation time: `from_parts` applied to `JobId::new()` and
    /// the time just read. Panics, as uuid and jiff do, if the clock reads
    /// earlier than the Unix epoch or outside the years -9999 to 9999, or if
    /// the system random source fails.
    pub fn new(name: String, description: String, parameters: String, starts_at: Zoned) -> (job:
        Self)
        ensures
            job@.job_type == JobType::JobOne,
            job@.name == name@,
            job@.description == description@,
            job@.parameters == parameters@,
            job@.status == JobStatus::Pending,
            job@.starts_at == starts_at,
            (job@.id@ >> 76u128) & 0xfu128 == 7,
            (job@.id@ >> 62u128) & 0x3u128 == 2,
    {
        let id = JobId::new();
        let created_at = zoned_now();
        Self::from_parts(id, created_at, name, description, parameters, starts_at)
    }

    pub fn check_status(&self) -> (status: &JobStatus)
        ensures
            *status == self@.status,
    {
        &self.status
    }

    pub fn id(&self) -> (id: JobId)
        ensures
            id == self@.id,
    {
        self.id
    }

    pub fn status(&self) -> (status: JobStatus)
        ensures
            status == self@.status,
    {
        self.status
    }

    pub fn job_type(&self) -> (job_type: &JobType)
        ensures
            *job_type == self@.job_type,
    {
        &self.job_type
    }

    pub fn name(&self) -> (name: &str)
        ensures
            name@ == self@.name,
    {
        self.name.as_str()
    }

    pub fn description(&self) -> (description: &str)
        ensures
            description@ == self@.description,
    {
        self.description.as_str()
    }

    pub fn parameters(&self) -> (parameters: &str)
        ensures
            parameters@ == self@.parameters,
    {
        self.parameters.as_str()
    }

    pub fn created_at(&self) -> (created_at: &Zoned)
        ensures
            *created_at == self@.created_at,
    {
        &self.created_at
    }

    pub fn starts_at(&self) -> (starts_at: &Zoned)
        ensures
            *starts_at == self@.starts_at,
    {
        &self.starts_at
    }

    /// The hyphenated text of the job's id.
    pub fn to_string(&self) -> (s: String)
        ensures
            s@ == uuid_text(self@.id@),
    {
        self.id.to_string()
    }

    /// Moves the job to `next` where the lifecycle allows it; otherwise leaves
    /// it as it is and names the refused move.
    pub(crate) fn update_status(&mut self, next: JobStatus) -> (r: Result<(), JobError>)
        ensures
            old(self)@.status.allows(next) ==> r is Ok
                && final(self)@ == old(self)@.with_status(next),
            !old(self)@.status.allows(next) ==> final(self)@ == old(self)@
                && r == Err::<(), JobError>(
                JobError::InvalidStatusTransition { from: old(self)@.status, to: next },
            ),
    {
        if !self.status.can_transition_to(next) {
            return Err(JobError::InvalidStatusTransition { from: self.status, to: next });
        }
        self.status = next;
        Ok(())
    }
}


// ---------------------------------------------------------------------------
// The store
// ---------------------------------------------------------------------------

#[derive(Debug)]
pub enum JobStoreError {
    AlreadyExists { id: JobId },
    NotFound { id: JobId },
    CantAddJob { job: Job },
    Job(JobError),
}

impl From<JobError> for JobStoreError {
    fn from(err: JobError) -> (r: Self)
        ensures
            r == JobStoreError::Job(err),
    {
        JobStoreError::Job(err)
    }
}

impl vstd::std_specs::convert::FromSpecImpl<JobError> for JobStoreError {
    open spec fn obeys_from_spec() -> bool {
        true
    }

    open spec fn from_spec(err: JobError) -> Self {
        JobStoreError::Job(err)
    }
}

/// Adding `job` to the jobs `m`: refused when its id is taken, else the job is
/// filed under its id.
pub open spec fn store_add(m: Map<JobId, JobView>, job: JobView) -> (
    Map<JobId, JobView>,
    Result<JobId, JobStoreError>,
) {
    if m.contains_key(job.id) {
        (m, Err(JobStoreError::AlreadyExists { id: job.id }))
    } else {
        (m.insert(job.id, job), Ok(job.id))
    }
}

/// Moving the job `id` of `m` to `next`: refused when there is no such job or
/// when the lifecycle forbids the move, else only that job's status changes.
pub open spec fn store_update(m: Map<JobId, JobView>, id: JobId, next: JobStatus) -> (
    Map<JobId, JobView>,
    Result<(), JobStoreError>,
) {
    if !m.contains_key(id) {
        (m, Err(JobStoreError::NotFound { id }))
    } else if !m[id].status.allows(next) {
        (
            m,
            Err(
                JobStoreError::Job(
                    JobError::InvalidStatusTransition { from: m[id].status, to: next },
                ),
            ),
        )
    } else {
        (m.insert(id, m[id].with_status(next)), Ok(()))
    }
}

/// The jobs, each filed under its own id.
#[derive(Debug)]
pub struct JobStore {
    jobs: HashMap<u128, Job>,
}

impl View for JobStore {
    type V = Map<JobId, JobView>;

    closed spec fn view(&self) -> Map<JobId, JobView> {
        Map::new(|k: JobId| self.jobs@.contains_key(k.id), |k: JobId| self.jobs@[k.id]@)
    }
}

impl JobStore {
    #[verifier::type_invariant]
    spec fn filed_under_own_id(&self) -> bool {
        forall|k: u128| #[trigger] self.jobs@.contains_key(k) ==> self.jobs@[k].id.id == k
    }

    pub fn new() -> (store: Self)
        ensures
            store@ == Map::<JobId, JobView>::empty(),
    {
        let store = JobStore { jobs: HashMap::new() };
        assert(store@ =~= Map::<JobId, JobView>::empty());
        store
    }

    pub fn add(&mut self, job: Job) -> (r: Result<JobId, JobStoreError>)
        ensures
            (final(self)@, r) == store_add(old(self)@, job@),
    {
        proof {
            use_type_invariant(&*self);
        }
        let id = job.id;
        if self.jobs.contains_key(&id.id) {
            return Err(JobStoreError::AlreadyExists { id });
        }
        let mut jobs = HashMap::new();
        std::mem::swap(&mut jobs, &mut self.jobs);
        jobs.insert(id.id, job);
        self.jobs = jobs;
        assert(self@ =~= old(self)@.insert(id, job@));
        Ok(id)
    }

    pub fn is_empty(&self) -> (empty: bool)
        ensures
            empty <==> self@.dom() == Set::<JobId>::empty(),
    {
        let empty = self.jobs.is_empty();
        proof {
            if !empty {
                let k = choose|k: u128| self.jobs@.contains_key(k);
                assert(self@.dom().contains(JobId { id: k }));
            } else {
                assert(self@.dom() =~= Set::<JobId>::empty());
            }
        }
        empty
    }

    pub fn get(&self, id: &JobId) -> (job: Option<&Job>)
        ensures
            match job {
                Some(j) => self@.contains_key(*id) && j@ == self@[*id] && j@.id == *id,
                None => !self@.contains_key(*id),
            },
    {
        proof {
            use_type_invariant(self);
        }
        self.jobs.get(&id.id)
    }

    pub(crate) fn update_status(&mut self, job_id: &JobId, next: JobStatus) -> (r: Result<
        (),
        JobStoreError,
    >)
        ensures
            (final(self)@, r) == store_update(old(self)@, *job_id, next),
    {
        proof {
            use_type_invariant(&*self);
        }
        let key = job_id.id;
        let mut jobs = HashMap::new();
        std::mem::swap(&mut jobs, &mut self.jobs);
        match jobs.remove(&key) {
            None => {
                self.jobs = jobs;
                assert(self@ =~= old(self)@);
                Err(JobStoreError::NotFound { id: *job_id })
            },
            Some(mut job) => {
                let result = job.update_status(next);
                jobs.insert(key, job);
                self.jobs = jobs;
                match result {
                    Ok(()) => {
                        assert(self@ =~= old(self)@.insert(
                            *job_id,
                            old(self)@[*job_id].with_status(next),
                        ));
                        Ok(())
                    },
                    Err(e) => {
                        assert(self@ =~= old(self)@);
                        Err(JobStoreError::Job(e))
                    },
                }
            },
        }
    }
}

/// Adds `job` to `store`.
pub fn create_job(store: &mut JobStore, job: Job) -> (r: Result<JobId, JobStoreError>)
    ensures
        (final(store)@, r) == store_add(old(store)@, job@),
{
    let job_id = store.add(job)?;
    Ok(job_id)
}

// ---------------------------------------------------------------------------
// The queue
// ---------------------------------------------------------------------------

/// The ids of runnable jobs, oldest first.
#[derive(Debug)]
pub struct JobQueue {
    job: VecDeque<JobId>,
}

impl View for JobQueue {
    type V = Seq<JobId>;

    closed spec fn view(&self) -> Seq<JobId> {
        self.job@
    }
}

/// The sequence `q` without any occurrence of `id`.
pub open spec fn without(q: Seq<JobId>, id: JobId) -> Seq<JobId> {
    q.filter(|x: JobId| x != id)
}

impl JobQueue {
    pub fn new() -> (queue: Self)
        ensures
            queue@ == Seq::<JobId>::empty(),
    {
        JobQueue { job: VecDeque::new() }
    }

    pub(crate) fn push(&mut self, job_id: JobId)
        ensures
            final(self)@ == old(self)@.push(job_id),
    {
        self.job.push_back(job_id);
    }

    pub(crate) fn take(&mut self) -> (first: Option<JobId>)
        ensures
            old(self)@.len() == 0 ==> first is None && final(self)@ == old(self)@,
            old(self)@.len() > 0 ==> first == Some(old(self)@[0])
                && final(self)@ == old(self)@.drop_first(),
    {
        self.job.pop_front()
    }

    /// The oldest queued id, left in place.
    pub(crate) fn front(&self) -> (first: Option<JobId>)
        ensures
            self@.len() == 0 ==> first is None,
            self@.len() > 0 ==> first == Some(self@[0]),
    {
        if self.job.len() == 0 {
            None
        } else {
            Some(self.job[0])
        }
    }

    pub(crate) fn remove(&mut self, id: JobId)
        ensures
            final(self)@ == without(old(self)@, id),
    {
        let mut kept: VecDeque<JobId> = VecDeque::new();
        let n = self.job.len();
        let mut i: usize = 0;
        while i < n
            invariant
                n == self.job@.len(),
                self.job@ == old(self)@,
                i <= n,
                kept@ == without(self.job@.take(i as int), id),
            decreases n - i,
        {
            let x = self.job[i];
            proof {
                let s = self.job@.take(i as int + 1);
                assert(s.drop_last() =~= self.job@.take(i as int));
                assert(s.last() == x);
                reveal(Seq::filter);
                assert(without(s, id) == if x != id {
                    without(self.job@.take(i as int), id).push(x)
                } else {
                    without(self.job@.take(i as int), id)
                });
            }
            if x != id {
                kept.push_back(x);
            }
            i = i + 1;
        }
        assert(self.job@.take(n as int) =~= self.job@);
        self.job = kept;
    }

    pub fn is_empty(&self) -> (empty: bool)
        ensures
            empty == (self@.len() == 0),
    {
        self.job.len() == 0
    }
}

} // verus!
