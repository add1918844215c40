use job_queue::{collect_jobs, to_job, Job, JobRow, JobStatus, Json};

fn row(id: &str, status: &str, tags: Option<Json>) -> JobRow {
    JobRow {
        id: id.to_string(),
        name: "PasswordChangeNotification".to_string(),
        task_data: Json::Object(vec![("user_id".to_string(), Json::Number("1".to_string()))]),
        status: status.to_string(),
        run_at: 1_673_785_800_000_000,
        interval: Some(10),
        created_at: Some(5),
        updated_at: None,
        tags,
    }
}

#[test]
fn to_job_takes_fields_over() {
    let job = to_job(&row("job1", "queued", None)).unwrap();
    assert_eq!(
        job,
        Job {
            id: "job1".to_string(),
            name: "PasswordChangeNotification".to_string(),
            data: Json::Object(vec![("user_id".to_string(), Json::Number("1".to_string()))]),
            status: JobStatus::Queued,
            run_at: 1_673_785_800_000_000,
            interval: Some(10),
            created_at: Some(5),
            updated_at: None,
            tags: None,
        }
    );
}

#[test]
fn to_job_parses_each_status() {
    assert_eq!(to_job(&row("a", "queued", None)).unwrap().status, JobStatus::Queued);
    assert_eq!(to_job(&row("a", "processing", None)).unwrap().status, JobStatus::Processing);
    assert_eq!(to_job(&row("a", "completed", None)).unwrap().status, JobStatus::Completed);
    assert_eq!(to_job(&row("a", "failed", None)).unwrap().status, JobStatus::Failed);
    assert_eq!(to_job(&row("a", "cancelled", None)).unwrap().status, JobStatus::Cancelled);
}

#[test]
fn to_job_rejects_unknown_status() {
    let err = to_job(&row("a", "paused", None)).unwrap_err();
    assert_eq!(err.to_string(), "invalid job status");
}

#[test]
fn to_job_reads_tags_from_array_of_strings() {
    let tags = Json::Array(vec![Json::Text("email".to_string()), Json::Text("sms".to_string())]);
    let job = to_job(&row("a", "queued", Some(tags))).unwrap();
    assert_eq!(job.tags, Some(vec!["email".to_string(), "sms".to_string()]));
}

#[test]
fn to_job_normalizes_tags() {
    assert_eq!(to_job(&row("a", "queued", Some(Json::Array(vec![])))).unwrap().tags, None);
    assert_eq!(to_job(&row("a", "queued", Some(Json::Null))).unwrap().tags, None);
    assert_eq!(
        to_job(&row("a", "queued", Some(Json::Text("email".to_string())))).unwrap().tags,
        None
    );
    let mixed = Json::Array(vec![Json::Text("email".to_string()), Json::Bool(true)]);
    assert_eq!(to_job(&row("a", "queued", Some(mixed))).unwrap().tags, None);
}

#[test]
fn collect_jobs_skips_unreadable_rows() {
    let rows = vec![
        row("a", "queued", None),
        row("b", "bogus", None),
        row("c", "failed", None),
    ];
    let jobs = collect_jobs(&rows);
    assert_eq!(jobs.len(), 2);
    assert_eq!(jobs[0].id, "a");
    assert_eq!(jobs[1].id, "c");
    assert_eq!(jobs[1].status, JobStatus::Failed);
    assert_eq!(collect_jobs(&vec![]).len(), 0);
}

#[test]
fn job_clone_keeps_the_value() {
    let tags = Json::Array(vec![Json::Text("email".to_string())]);
    let job = to_job(&row("a", "queued", Some(tags))).unwrap();
    assert_eq!(job.clone(), job);
}
