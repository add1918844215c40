use job_queue::lifecycle::{completion, completion_fits};
use job_queue::statement::status_names;
use job_queue::table::{has_status, passes_filter};
use job_queue::JobStatus;

#[test]
fn completion_without_interval_ends_the_job() {
    assert_eq!(completion(1_000, None), (JobStatus::Completed, 1_000));
    assert_eq!(completion(i64::MAX, None), (JobStatus::Completed, i64::MAX));
}

#[test]
fn completion_with_interval_queues_the_next_run() {
    assert_eq!(completion(1_000, Some(10)), (JobStatus::Queued, 11_000));
    assert_eq!(completion(1_000, Some(0)), (JobStatus::Queued, 1_000));
    assert_eq!(completion(1_000, Some(-1)), (JobStatus::Queued, 0));
    assert_eq!(completion(i64::MAX - 1_000, Some(1)), (JobStatus::Queued, i64::MAX));
}

#[test]
fn completion_fits_knows_the_range_of_timestamps() {
    assert!(completion_fits(i64::MAX, None));
    assert!(completion_fits(i64::MAX - 1_000, Some(1)));
    assert!(!completion_fits(i64::MAX - 999, Some(1)));
    assert!(!completion_fits(0, Some(i64::MAX)));
    assert!(completion_fits(i64::MIN + 1_000, Some(-1)));
    assert!(!completion_fits(i64::MIN + 999, Some(-1)));
    assert!(completion_fits(0, Some(i64::MAX / 1_000)));
}

#[test]
fn status_names_are_the_stored_names() {
    assert_eq!(
        status_names(&[JobStatus::Cancelled, JobStatus::Queued, JobStatus::Cancelled]),
        vec!["cancelled".to_string(), "queued".to_string(), "cancelled".to_string()]
    );
    assert!(status_names(&[]).is_empty());
}

#[test]
fn status_filters() {
    let list = vec![JobStatus::Failed, JobStatus::Completed];
    assert!(has_status(&list, JobStatus::Failed));
    assert!(has_status(&list, JobStatus::Completed));
    assert!(!has_status(&list, JobStatus::Queued));
    assert!(!has_status(&[], JobStatus::Queued));
    assert!(passes_filter(None, JobStatus::Queued));
    assert!(passes_filter(Some(&list), JobStatus::Failed));
    assert!(!passes_filter(Some(&list), JobStatus::Processing));
    assert!(!passes_filter(Some(&vec![]), JobStatus::Processing));
}
