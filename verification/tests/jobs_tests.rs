use print_queue::jobs::{JobQueueState, JobStatus, PrintJob};
use print_queue::models::Timestamp;

fn queue_with(statuses: &[JobStatus]) -> (JobQueueState, Vec<u128>) {
    let mut q = JobQueueState::new();
    let mut ids = Vec::new();
    for (i, s) in statuses.iter().enumerate() {
        let mut job = PrintJob::new(
            format!("img{}.jpg", i),
            format!("/w/img{}.jpg", i),
            Some(7),
            Some("Preset".to_string()),
        );
        job.status = *s;
        ids.push(job.id);
        q.add_job(job);
    }
    (q, ids)
}

#[test]
fn new_job_is_pending_with_fresh_v4_id() {
    let job = PrintJob::new("a.jpg".to_string(), "/w/a.jpg".to_string(), None, None);
    assert_eq!(job.status, JobStatus::Pending);
    assert_eq!(job.filename, "a.jpg");
    assert_eq!(job.file_path, "/w/a.jpg");
    assert!(job.error_message.is_none());
    assert!(job.completed_at.is_none());
    assert_eq!((job.id >> 76) & 0xf, 4);
    assert_eq!((job.id >> 62) & 0x3, 2);
    let other = PrintJob::new("a.jpg".to_string(), "/w/a.jpg".to_string(), None, None);
    assert_ne!(job.id, other.id);
}

#[test]
fn add_job_appends_in_order() {
    let (q, ids) = queue_with(&[JobStatus::Pending, JobStatus::Printing]);
    assert_eq!(q.jobs.len(), 2);
    assert_eq!(q.jobs[0].id, ids[0]);
    assert_eq!(q.jobs[1].id, ids[1]);
}

#[test]
fn update_status_stamps_terminal_states() {
    let (mut q, ids) = queue_with(&[JobStatus::Printing, JobStatus::Pending]);
    let at = Timestamp { seconds: 1_700_000_000, nanos: 5 };
    q.update_status_at(ids[0], JobStatus::Complete, None, at);
    assert_eq!(q.jobs[0].status, JobStatus::Complete);
    assert_eq!(q.jobs[0].completed_at, Some(at));
    q.update_status_at(ids[1], JobStatus::Printing, None, at);
    assert_eq!(q.jobs[1].status, JobStatus::Printing);
    assert!(q.jobs[1].completed_at.is_none());
    q.update_status(ids[1], JobStatus::Error, Some("jam".to_string()));
    assert_eq!(q.jobs[1].status, JobStatus::Error);
    assert_eq!(q.jobs[1].error_message.as_deref(), Some("jam"));
    assert!(q.jobs[1].completed_at.is_some());
}

#[test]
fn update_status_of_unknown_id_changes_nothing() {
    let (mut q, _) = queue_with(&[JobStatus::Pending]);
    q.update_status(12345, JobStatus::Complete, None);
    assert_eq!(q.jobs[0].status, JobStatus::Pending);
}

#[test]
fn cancel_only_affects_pending_jobs() {
    let (mut q, ids) = queue_with(&[JobStatus::Pending, JobStatus::Printing]);
    q.cancel_job(ids[0]);
    q.cancel_job(ids[1]);
    assert_eq!(q.jobs[0].status, JobStatus::Error);
    assert_eq!(q.jobs[0].error_message.as_deref(), Some("Cancelled by user"));
    assert_eq!(q.jobs[1].status, JobStatus::Printing);
    assert!(q.jobs[1].error_message.is_none());
}

#[test]
fn retry_only_affects_failed_jobs() {
    let (mut q, ids) = queue_with(&[JobStatus::Error, JobStatus::Complete]);
    q.jobs[0].error_message = Some("jam".to_string());
    q.jobs[0].completed_at = Some(Timestamp { seconds: 1, nanos: 0 });
    q.retry_job(ids[0]);
    q.retry_job(ids[1]);
    assert_eq!(q.jobs[0].status, JobStatus::Pending);
    assert!(q.jobs[0].error_message.is_none());
    assert!(q.jobs[0].completed_at.is_none());
    assert_eq!(q.jobs[1].status, JobStatus::Complete);
}

#[test]
fn law_cancel_then_retry_restores_pending_job() {
    let (mut q, ids) = queue_with(&[JobStatus::Pending]);
    let before_status = q.jobs[0].status;
    q.cancel_job(ids[0]);
    q.retry_job(ids[0]);
    assert_eq!(q.jobs[0].status, before_status);
    assert!(q.jobs[0].error_message.is_none());
    assert!(q.jobs[0].completed_at.is_none());
}

#[test]
fn reprint_queues_a_new_pending_copy() {
    let (mut q, ids) = queue_with(&[JobStatus::Complete]);
    assert_eq!(q.reprint_job(ids[0]), Ok(()));
    assert_eq!(q.jobs.len(), 2);
    let copy = &q.jobs[1];
    assert_eq!(copy.status, JobStatus::Pending);
    assert_eq!(copy.filename, "img0.jpg");
    assert_eq!(copy.file_path, "/w/img0.jpg");
    assert_eq!(copy.preset_id, Some(7));
    assert_eq!(copy.preset_name.as_deref(), Some("Preset"));
    assert_ne!(copy.id, ids[0]);
}

#[test]
fn reprint_of_unknown_job_is_an_error() {
    let (mut q, _) = queue_with(&[JobStatus::Complete]);
    assert_eq!(q.reprint_job(99), Err("Job not found".to_string()));
    assert_eq!(q.jobs.len(), 1);
}

#[test]
fn job_with_given_id_and_time() {
    let at = Timestamp { seconds: 10, nanos: 20 };
    let job = PrintJob::new_at(77, at, "a.jpg".to_string(), "/w/a.jpg".to_string(), Some(1), None);
    assert_eq!(job.id, 77);
    assert_eq!(job.created_at, at);
    assert_eq!(job.status, JobStatus::Pending);
    assert_eq!(job.preset_id, Some(1));
}
