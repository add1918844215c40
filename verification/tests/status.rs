use job_queue::status::JobStatus;

#[test]
fn status_text_is_lowercase_name() {
    assert_eq!(JobStatus::Queued.to_string(), "queued");
    assert_eq!(JobStatus::Processing.to_string(), "processing");
    assert_eq!(JobStatus::Completed.to_string(), "completed");
    assert_eq!(JobStatus::Failed.to_string(), "failed");
    assert_eq!(JobStatus::Cancelled.to_string(), "cancelled");
}

#[test]
fn status_parse_reads_its_own_text() {
    for status in [
        JobStatus::Queued,
        JobStatus::Processing,
        JobStatus::Completed,
        JobStatus::Failed,
        JobStatus::Cancelled,
    ] {
        assert_eq!(JobStatus::parse(status.as_str()).unwrap(), status);
    }
}

#[test]
fn status_parse_rejects_unknown_text() {
    let err = JobStatus::parse("Queued").unwrap_err();
    assert_eq!(err.to_string(), "invalid job status");
    assert!(JobStatus::parse("").is_err());
    assert!(JobStatus::parse("done").is_err());
}
