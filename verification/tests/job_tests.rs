use jiff::Zoned;
use job_scheduler::job::job::{
    create_job, Job, JobId, JobQueue, JobStatus, JobStore, JobType,
};
use job_scheduler::job::worker::{Worker, WorkerError};

const ALL: [JobStatus; 6] = [
    JobStatus::Pending,
    JobStatus::Scheduled,
    JobStatus::Running,
    JobStatus::Completed,
    JobStatus::Failed,
    JobStatus::Cancelled,
];

#[test]
fn valid_transitions_are_allowed() {
    let valid = [
        (JobStatus::Pending, JobStatus::Scheduled),
        (JobStatus::Pending, JobStatus::Cancelled),
        (JobStatus::Scheduled, JobStatus::Running),
        (JobStatus::Scheduled, JobStatus::Cancelled),
        (JobStatus::Running, JobStatus::Completed),
        (JobStatus::Running, JobStatus::Failed),
        (JobStatus::Running, JobStatus::Scheduled),
    ];

    for (from, to) in valid {
        assert!(
            from.can_transition_to(to),
            "{from:?} should be allowed to transition to {to:?}"
        );
    }
}

#[test]
fn invalid_transitions_are_rejected() {
    let invalid = [
        (JobStatus::Running, JobStatus::Cancelled),
        (JobStatus::Pending, JobStatus::Completed),
        (JobStatus::Pending, JobStatus::Failed),
        (JobStatus::Scheduled, JobStatus::Completed),
        (JobStatus::Completed, JobStatus::Running),
        (JobStatus::Failed, JobStatus::Running),
        (JobStatus::Cancelled, JobStatus::Running),
    ];

    for (from, to) in invalid {
        assert!(
            !from.can_transition_to(to),
            "{from:?} should not be allowed to transition to {to:?}"
        );
    }
}

#[test]
fn add_job_to_store() {
    let job: Job = Job::new(
        "test".to_string(),
        "description".to_string(),
        "param".to_string(),
        Zoned::now(),
    );

    let mut storage: JobStore = JobStore::new();

    let job_id = storage.add(job).expect("adding job should succeed");

    assert!(storage.get(&job_id).is_some());
}

#[test]
fn exactly_seven_transitions_exist() {
    let mut count = 0;
    for from in ALL {
        for to in ALL {
            if from.can_transition_to(to) {
                count += 1;
            }
        }
    }
    assert_eq!(count, 7);
}

#[test]
fn terminal_statuses_have_no_way_out_and_nothing_moves_to_itself() {
    for from in ALL {
        assert!(!from.can_transition_to(from));
        assert!(!from.can_transition_to(JobStatus::Pending));
    }
    for from in [JobStatus::Completed, JobStatus::Failed, JobStatus::Cancelled] {
        for to in ALL {
            assert!(!from.can_transition_to(to));
        }
    }
}

#[test]
fn new_job_is_pending_and_keeps_its_fields() {
    let starts_at = Zoned::now();
    let job = Job::new(
        "name".to_string(),
        "what it does".to_string(),
        "--flag".to_string(),
        starts_at.clone(),
    );
    assert_eq!(job.status(), JobStatus::Pending);
    assert_eq!(*job.check_status(), JobStatus::Pending);
    assert_eq!(*job.job_type(), JobType::JobOne);
    assert_eq!(job.name(), "name");
    assert_eq!(job.description(), "what it does");
    assert_eq!(job.parameters(), "--flag");
    assert_eq!(*job.starts_at(), starts_at);
    assert!(job.created_at().timestamp() > jiff::Timestamp::UNIX_EPOCH);
}

#[test]
fn job_ids_are_version_seven_uuids() {
    let id = JobId::new();
    let text = id.to_string();
    assert_eq!(text.len(), 36);
    let parsed = uuid::Uuid::parse_str(&text).expect("the id text is a uuid");
    assert_eq!(parsed.get_version_num(), 7);
    assert_eq!(parsed.get_variant(), uuid::Variant::RFC4122);
    assert_eq!(text, parsed.hyphenated().to_string());
    assert_ne!(JobId::new(), JobId::new());
}

#[test]
fn job_text_is_its_id_text() {
    let job = Job::new(String::new(), String::new(), String::new(), Zoned::now());
    assert_eq!(job.to_string(), job.id().to_string());
}

#[test]
fn store_reads_back_what_was_added() {
    let job = Job::new("a".to_string(), "b".to_string(), "c".to_string(), Zoned::now());
    let expected = job.id();
    let mut store = JobStore::new();
    assert!(store.is_empty());
    let id = create_job(&mut store, job).expect("first add succeeds");
    assert_eq!(id, expected);
    assert!(!store.is_empty());
    let found = store.get(&id).expect("added job is found");
    assert_eq!(found.id(), id);
    assert_eq!(found.name(), "a");
    assert_eq!(found.status(), JobStatus::Pending);
    assert!(store.get(&JobId::new()).is_none());
}

#[test]
fn new_queue_is_empty() {
    assert!(JobQueue::new().is_empty());
}

#[test]
fn worker_holds_one_job_at_a_time() {
    let mut worker = Worker::new();
    assert_eq!(worker.current_job(), None);
    let first = JobId::new();
    let second = JobId::new();
    assert!(worker.assign(first).is_ok());
    assert_eq!(worker.current_job(), Some(first));
    assert!(matches!(worker.assign(second), Err(WorkerError::AlreadyBusy)));
    assert_eq!(worker.current_job(), Some(first));
    worker.remove();
    assert_eq!(worker.current_job(), None);
    assert!(worker.assign(second).is_ok());
    assert_eq!(worker.current_job(), Some(second));
}

#[test]
fn job_from_parts_keeps_the_given_id_and_times() {
    let id = JobId::new();
    let created_at = Zoned::now();
    let starts_at = created_at.clone();
    let job = Job::from_parts(
        id,
        created_at.clone(),
        "n".to_string(),
        "d".to_string(),
        "p".to_string(),
        starts_at.clone(),
    );
    assert_eq!(job.id(), id);
    assert_eq!(*job.created_at(), created_at);
    assert_eq!(*job.starts_at(), starts_at);
    assert_eq!(job.status(), JobStatus::Pending);
    assert_eq!(*job.job_type(), JobType::JobOne);
    assert_eq!(job.name(), "n");
    assert_eq!(job.description(), "d");
    assert_eq!(job.parameters(), "p");
}
