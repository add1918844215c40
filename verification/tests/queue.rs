use job_queue::{Error, Job, JobStatus, JobTable, Json};

const T0: i64 = 1_700_000_000_000_000;
const SECOND: i64 = 1_000_000;
const MINUTE: i64 = 60 * SECOND;
const DAY: i64 = 24 * 60 * MINUTE;

fn user_one() -> Json {
    Json::Object(vec![("user_id".to_string(), Json::Number("1".to_string()))])
}

fn count(table: &JobTable, status: JobStatus, now: i64) -> usize {
    table.get_jobs(None, None, now).iter().filter(|j| j.status == status).count()
}

fn get_job(table: &JobTable, id: &str, now: i64) -> Job {
    table
        .get_jobs(None, None, now)
        .into_iter()
        .find(|j| j.id == id)
        .expect("job not found")
}

/// Fourteen rows: five queued, three processing, three completed, two
/// failed and one cancelled.
fn seeded() -> JobTable {
    let mut table = JobTable::new();
    for (n, name) in ["SendInvoice", "UserAccountActivation", "DataBackup"].iter().enumerate() {
        table.enqueue_as(&format!("01JDM0X8EVAM823JZBGKYNBA8{n}"), name, user_one(), T0, None, None, T0);
        assert!(table.dequeue(&[], T0).is_some());
    }
    table.enqueue_as("01JDM0X8EVAM823JZBGKYNBA90", "DataBackup", user_one(), T0, None, None, T0);
    table.cancel_jobs_by_name("DataBackup", T0);
    let rest = [
        ("01JDM0X8EVAM823JZBGKYNBA99", "UserAccountActivation", JobStatus::Queued),
        ("01JDM0X8EVAM823JZBGKYNBA98", "PasswordChangeNotification", JobStatus::Completed),
        ("01JDM0X8EVAM823JZBGKYNBA97", "SendInvoice", JobStatus::Queued),
        ("01JDM0X8EVAM823JZBGKYNBA96", "SendInvoice", JobStatus::Completed),
        ("01JDM0X8EVAM823JZBGKYNBA95", "DataBackup", JobStatus::Completed),
        ("01JDM0X8EVAM823JZBGKYNBA94", "SendInvoice", JobStatus::Failed),
        ("01JDM0X8EVAM823JZBGKYNBA93", "DataBackup", JobStatus::Failed),
        ("01JDM0X8EVAM823JZBGKYNBA92", "PasswordChangeNotification", JobStatus::Queued),
        ("01JDM0X8EVAM823JZBGKYNBA91", "SendInvoice", JobStatus::Queued),
        ("01JDM0X8EVAM823JZBGKYNBA89", "DataBackup", JobStatus::Queued),
    ];
    for (id, name, status) in rest {
        table.enqueue_as(id, name, user_one(), T0, None, None, T0);
        match status {
            JobStatus::Completed => table.complete_job(id, None, T0),
            JobStatus::Failed => table.fail_job(id, &Error::string("seeded failure"), T0),
            _ => {}
        }
    }
    table
}

#[test]
fn seed_has_the_expected_rows() {
    let table = seeded();
    assert_eq!(table.len(), 14);
    assert_eq!(count(&table, JobStatus::Queued, T0), 5);
    assert_eq!(count(&table, JobStatus::Processing, T0), 3);
    assert_eq!(count(&table, JobStatus::Completed, T0), 3);
    assert_eq!(count(&table, JobStatus::Failed, T0), 2);
    assert_eq!(count(&table, JobStatus::Cancelled, T0), 1);
}

#[test]
fn can_enqueue() {
    let mut table = JobTable::new();
    assert_eq!(table.get_jobs(None, None, T0).len(), 0);

    let run_at = 1_673_785_800_000_000;
    let id = table.enqueue("PasswordChangeNotification", user_one(), run_at, None, None, T0);

    let jobs = table.get_jobs(None, None, T0);
    assert_eq!(jobs.len(), 1);
    assert_eq!(
        jobs[0],
        Job {
            id,
            name: "PasswordChangeNotification".to_string(),
            data: user_one(),
            status: JobStatus::Queued,
            run_at,
            interval: None,
            created_at: Some(T0),
            updated_at: Some(T0),
            tags: None,
        }
    );
}

#[test]
fn can_dequeue() {
    let mut table = JobTable::new();
    let run_at = 1_673_785_800_000_000;
    let id = table.enqueue("PasswordChangeNotification", user_one(), run_at, None, None, T0);

    let job_before_dequeue = table.get_jobs(None, None, T0).first().cloned().expect("gets first job");
    assert_eq!(job_before_dequeue.status, JobStatus::Queued);

    let claimed = table.dequeue(&[], T0 + SECOND).expect("claims the job");
    assert_eq!(claimed.id, id);
    assert_eq!(claimed.name, "PasswordChangeNotification");
    assert_eq!(claimed.data, user_one());

    let job_after_dequeue =
        table.get_jobs(None, None, T0 + SECOND).first().cloned().expect("gets first job");
    assert_ne!(job_after_dequeue.updated_at, job_before_dequeue.updated_at);
    assert!(job_after_dequeue.updated_at > job_before_dequeue.updated_at);
    assert_eq!(
        job_after_dequeue,
        Job {
            status: JobStatus::Processing,
            updated_at: Some(T0 + SECOND),
            ..job_before_dequeue
        }
    );
}

#[test]
fn can_complete_job_without_interval() {
    let mut table = seeded();
    let job = get_job(&table, "01JDM0X8EVAM823JZBGKYNBA99", T0);
    assert_eq!(job.status, JobStatus::Queued);

    table.complete_job(&job.id, None, T0 + SECOND);

    let job = get_job(&table, "01JDM0X8EVAM823JZBGKYNBA99", T0 + SECOND);
    assert_eq!(job.status, JobStatus::Completed);
    assert_eq!(job.run_at, T0 + SECOND);
    assert_eq!(job.updated_at, Some(T0 + SECOND));
    assert_eq!(table.len(), 14);
}

#[test]
fn can_complete_job_with_interval() {
    let mut table = seeded();
    let before_complete_job = get_job(&table, "01JDM0X8EVAM823JZBGKYNBA98", T0);
    assert_eq!(before_complete_job.status, JobStatus::Completed);

    table.complete_job(&before_complete_job.id, Some(10), T0 + SECOND);

    let after_complete_job = get_job(&table, "01JDM0X8EVAM823JZBGKYNBA98", T0 + SECOND);
    assert_ne!(after_complete_job.updated_at, before_complete_job.updated_at);
    assert_eq!(
        after_complete_job,
        Job {
            status: JobStatus::Queued,
            run_at: T0 + SECOND + 10_000,
            updated_at: Some(T0 + SECOND),
            ..before_complete_job
        }
    );
}

#[test]
fn can_fail_job() {
    let mut table = seeded();
    let before_fail_job = get_job(&table, "01JDM0X8EVAM823JZBGKYNBA97", T0);

    table.fail_job(&before_fail_job.id, &Error::string("some error"), T0 + SECOND);

    let after_fail_job = get_job(&table, "01JDM0X8EVAM823JZBGKYNBA97", T0 + SECOND);
    assert_ne!(after_fail_job.updated_at, before_fail_job.updated_at);
    assert_eq!(
        after_fail_job,
        Job {
            status: JobStatus::Failed,
            updated_at: Some(T0 + SECOND),
            data: Json::Object(vec![
                ("user_id".to_string(), Json::Number("1".to_string())),
                ("error".to_string(), Json::Text("some error".to_string())),
            ]),
            ..before_fail_job
        }
    );
}

#[test]
fn can_cancel_job_by_name() {
    let mut table = seeded();
    assert_eq!(count(&table, JobStatus::Cancelled, T0), 1);

    table.cancel_jobs_by_name("UserAccountActivation", T0 + SECOND);

    assert_eq!(count(&table, JobStatus::Cancelled, T0 + SECOND), 2);
    let cancelled = get_job(&table, "01JDM0X8EVAM823JZBGKYNBA99", T0 + SECOND);
    assert_eq!(cancelled.status, JobStatus::Cancelled);
    assert_eq!(cancelled.updated_at, Some(T0 + SECOND));
    let in_flight = get_job(&table, "01JDM0X8EVAM823JZBGKYNBA81", T0 + SECOND);
    assert_eq!(in_flight.name, "UserAccountActivation");
    assert_eq!(in_flight.status, JobStatus::Processing);
    assert_eq!(in_flight.updated_at, Some(T0));
}

#[test]
fn can_clear() {
    let mut table = seeded();
    assert_ne!(table.len(), 0);
    table.clear(T0);
    assert_eq!(table.len(), 0);
    assert_eq!(table.get_jobs(None, None, T0).len(), 0);
}

#[test]
fn can_clear_by_status() {
    let mut table = seeded();
    let jobs = table.get_jobs(None, None, T0);
    assert_eq!(jobs.len(), 14);
    assert_eq!(jobs.iter().filter(|j| j.status == JobStatus::Completed).count(), 3);
    assert_eq!(jobs.iter().filter(|j| j.status == JobStatus::Failed).count(), 2);

    table.clear_by_status(vec![JobStatus::Completed, JobStatus::Failed], T0);

    let jobs = table.get_jobs(None, None, T0);
    assert_eq!(jobs.len(), 9);
    assert_eq!(jobs.iter().filter(|j| j.status == JobStatus::Completed).count(), 0);
    assert_eq!(jobs.iter().filter(|j| j.status == JobStatus::Failed).count(), 0);
}

#[test]
fn clear_by_status_keeps_the_order_of_the_rest() {
    let mut table = seeded();
    let kept: Vec<String> = table
        .get_jobs(None, None, T0)
        .into_iter()
        .filter(|j| j.status != JobStatus::Queued)
        .map(|j| j.id)
        .collect();
    table.clear_by_status(vec![JobStatus::Queued], T0);
    let left: Vec<String> = table.get_jobs(None, None, T0).into_iter().map(|j| j.id).collect();
    assert_eq!(left, kept);
    table.clear_by_status(vec![], T0);
    assert_eq!(table.len(), 9);
}

#[test]
fn can_clear_jobs_older_than() {
    let mut table = JobTable::new();
    table.enqueue_as("job1", "Test Job 1", Json::Object(vec![]), T0, None, None, T0);
    table.enqueue_as("job2", "Test Job 2", Json::Object(vec![]), T0, None, None, T0 + 10 * DAY);
    table.enqueue_as("job3", "Test Job 3", Json::Object(vec![]), T0, None, None, T0 + 15 * DAY);
    let now = T0 + 15 * DAY;

    assert_eq!(table.get_jobs(None, None, now).len(), 3);
    table.clear_jobs_older_than(10, None, now);
    let left = table.get_jobs(None, None, now);
    assert_eq!(left.len(), 2);
    assert_eq!(left[0].id, "job2");
    assert_eq!(left[1].id, "job3");
}

#[test]
fn clear_jobs_older_than_is_strict_at_the_boundary() {
    let mut table = JobTable::new();
    table.enqueue_as("job1", "Test Job 1", Json::Null, T0, None, None, T0);
    table.clear_jobs_older_than(10, None, T0 + 10 * DAY);
    assert_eq!(table.len(), 1);
    table.clear_jobs_older_than(10, None, T0 + 10 * DAY + 1);
    assert_eq!(table.len(), 0);
}

/// Rows aged 20, 15, 5 and 0 days at `T0 + 20 * DAY`, completed, failed,
/// completed and cancelled.
fn aged() -> JobTable {
    let mut table = JobTable::new();
    table.enqueue_as("job1", "Test Job 1", Json::Object(vec![]), T0, None, None, T0);
    table.complete_job("job1", None, T0);
    table.enqueue_as("job2", "Test Job 2", Json::Object(vec![]), T0, None, None, T0 + 5 * DAY);
    table.fail_job("job2", &Error::string("failed"), T0 + 5 * DAY);
    table.enqueue_as("job3", "Test Job 3", Json::Object(vec![]), T0, None, None, T0 + 15 * DAY);
    table.complete_job("job3", None, T0 + 15 * DAY);
    table.enqueue_as("job4", "Test Job 4", Json::Object(vec![]), T0, None, None, T0 + 20 * DAY);
    table.cancel_jobs_by_name("Test Job 4", T0 + 20 * DAY);
    table
}

#[test]
fn can_clear_jobs_older_than_with_status() {
    let mut table = aged();
    let now = T0 + 20 * DAY;
    assert_eq!(table.get_jobs(None, None, now).len(), 4);

    table.clear_jobs_older_than(10, Some(&vec![JobStatus::Cancelled, JobStatus::Completed]), now);

    let left = table.get_jobs(None, None, now);
    assert_eq!(left.len(), 3);
    assert!(left.iter().all(|j| j.id != "job1"));
}

#[test]
fn clear_jobs_older_than_with_no_status_listed_deletes_nothing() {
    let mut table = aged();
    table.clear_jobs_older_than(10, Some(&vec![]), T0 + 20 * DAY);
    assert_eq!(table.len(), 4);
}

#[test]
fn can_get_jobs() {
    let table = seeded();
    assert_eq!(table.get_jobs(Some(&vec![JobStatus::Failed]), None, T0).len(), 2);
    assert_eq!(
        table.get_jobs(Some(&vec![JobStatus::Failed, JobStatus::Completed]), None, T0).len(),
        5
    );
    assert_eq!(table.get_jobs(None, None, T0).len(), 14);
    assert_eq!(table.get_jobs(Some(&vec![]), None, T0).len(), 0);
}

#[test]
fn can_get_jobs_with_age() {
    let table = aged();
    let jobs = table.get_jobs(
        Some(&vec![JobStatus::Failed, JobStatus::Completed]),
        Some(11),
        T0 + 20 * DAY,
    );
    assert_eq!(jobs.len(), 2);
    assert_eq!(jobs[0].id, "job1");
    assert_eq!(jobs[1].id, "job2");
}

#[test]
fn get_jobs_reads_empty_tag_list_as_none() {
    let mut table = JobTable::new();
    table.enqueue_as("job1", "n", Json::Null, T0, None, Some(vec![]), T0);
    table.enqueue_as("job2", "n", Json::Null, T0, None, Some(vec!["a".to_string()]), T0);
    let jobs = table.get_jobs(None, None, T0);
    assert_eq!(jobs[0].tags, None);
    assert_eq!(jobs[1].tags, Some(vec!["a".to_string()]));
}

#[test]
fn can_requeue() {
    let mut table = JobTable::new();
    let now = T0 + 20 * MINUTE;
    table.enqueue_as("job1", "Test Job 1", Json::Object(vec![]), T0, None, None, T0);
    assert_eq!(table.dequeue(&[], T0).unwrap().id, "job1");
    table.enqueue_as("job2", "Test Job 2", Json::Object(vec![]), T0, None, None, T0 + 15 * MINUTE);
    assert_eq!(table.dequeue(&[], T0 + 15 * MINUTE).unwrap().id, "job2");
    table.enqueue_as("job3", "Test Job 3", Json::Object(vec![]), T0, None, None, T0 + 15 * MINUTE);
    table.complete_job("job3", None, T0 + 15 * MINUTE);
    table.enqueue_as("job5", "Test Job 5", Json::Object(vec![]), T0, None, None, now);
    assert_eq!(table.dequeue(&[], now).unwrap().id, "job5");
    table.enqueue_as("job4", "Test Job 4", Json::Object(vec![]), T0, None, None, now);

    assert_eq!(table.get_jobs(Some(&vec![JobStatus::Processing]), None, now).len(), 3);
    assert_eq!(table.get_jobs(Some(&vec![JobStatus::Queued]), None, now).len(), 1);

    table.requeue(&10, now);

    assert_eq!(table.get_jobs(Some(&vec![JobStatus::Processing]), None, now).len(), 2);
    assert_eq!(table.get_jobs(Some(&vec![JobStatus::Queued]), None, now).len(), 2);
    let swept = get_job(&table, "job1", now);
    assert_eq!(swept.status, JobStatus::Queued);
    assert_eq!(swept.updated_at, Some(now));
    assert_eq!(get_job(&table, "job3", now).status, JobStatus::Completed);
}

#[test]
fn requeue_takes_rows_exactly_as_old_as_the_age() {
    let mut table = JobTable::new();
    table.enqueue_as("job1", "n", Json::Null, T0, None, None, T0);
    table.dequeue(&[], T0).unwrap();
    table.requeue(&10, T0 + 10 * MINUTE - 1);
    assert_eq!(get_job(&table, "job1", T0).status, JobStatus::Processing);
    table.requeue(&10, T0 + 10 * MINUTE);
    assert_eq!(get_job(&table, "job1", T0).status, JobStatus::Queued);
}

#[test]
fn can_dequeue_with_tags() {
    let mut table = JobTable::new();
    let run_at = T0 - 5 * MINUTE;
    let job_data = user_one();

    let email_id = table.enqueue(
        "EmailNotification",
        job_data.clone(),
        run_at,
        None,
        Some(vec!["email".to_string()]),
        T0,
    );
    let sms_id = table.enqueue(
        "SmsNotification",
        job_data.clone(),
        run_at,
        None,
        Some(vec!["sms".to_string()]),
        T0,
    );
    let multi_id = table.enqueue(
        "PriorityEmail",
        job_data.clone(),
        run_at,
        None,
        Some(vec!["email".to_string(), "priority".to_string()]),
        T0,
    );
    let no_tag_id = table.enqueue("GenericNotification", job_data.clone(), run_at, None, None, T0);

    assert_eq!(table.get_jobs(None, None, T0).len(), 4);

    let job = table.dequeue(&[], T0);
    assert!(job.is_some());
    let job = job.unwrap();
    assert_eq!(job.id, no_tag_id);
    assert!(job.tags.is_none());
    table.complete_job(&job.id, None, T0);

    let job = table.dequeue(&["email".to_string()], T0);
    assert!(job.is_some());
    let job = job.unwrap();
    assert!(job.id == email_id || job.id == multi_id, "Expected either email job or multi-tag job");
    assert!(job.tags.is_some());
    let first_email = job.id.clone();
    table.complete_job(&job.id, None, T0);

    let job = table.dequeue(&["email".to_string()], T0);
    assert!(job.is_some());
    let job = job.unwrap();
    assert!(job.id == email_id || job.id == multi_id, "Expected either email job or multi-tag job");
    assert_ne!(job.id, first_email);
    assert!(job.tags.is_some());
    table.complete_job(&job.id, None, T0);

    let job = table.dequeue(&["sms".to_string()], T0);
    assert!(job.is_some());
    let job = job.unwrap();
    assert_eq!(job.id, sms_id);
    assert!(job.tags.is_some());
    table.complete_job(&job.id, None, T0);

    assert!(table.dequeue(&["email".to_string()], T0).is_none());
    assert!(table.dequeue(&[], T0).is_none());
}

#[test]
fn dequeue_skips_jobs_that_are_not_due() {
    let mut table = JobTable::new();
    table.enqueue_as("later", "n", Json::Null, T0 + SECOND, None, None, T0);
    assert!(table.dequeue(&[], T0).is_none());
    assert_eq!(get_job(&table, "later", T0).status, JobStatus::Queued);
    assert_eq!(table.dequeue(&[], T0 + SECOND).unwrap().id, "later");
}

#[test]
fn dequeue_prefers_the_job_due_earliest() {
    let mut table = JobTable::new();
    table.enqueue_as("b", "n", Json::Null, T0 - SECOND, None, None, T0);
    table.enqueue_as("a", "n", Json::Null, T0 - MINUTE, None, None, T0);
    table.enqueue_as("c", "n", Json::Null, T0 - SECOND, None, None, T0);
    assert_eq!(table.dequeue(&[], T0).unwrap().id, "a");
    assert_eq!(table.dequeue(&[], T0).unwrap().id, "b");
    assert_eq!(table.dequeue(&[], T0).unwrap().id, "c");
    assert!(table.dequeue(&[], T0).is_none());
}

#[test]
fn dequeue_hands_the_job_as_the_claim_read_it() {
    let mut table = JobTable::new();
    table.enqueue_as("a", "n", user_one(), T0, Some(5), Some(vec!["t".to_string()]), T0);
    let job = table.dequeue(&["t".to_string()], T0 + SECOND).unwrap();
    assert_eq!(
        job,
        Job {
            id: "a".to_string(),
            name: "n".to_string(),
            data: user_one(),
            status: JobStatus::Queued,
            run_at: T0,
            interval: Some(5),
            created_at: None,
            updated_at: None,
            tags: Some(vec!["t".to_string()]),
        }
    );
}

#[test]
fn job_with_empty_tag_list_is_claimed_by_nobody() {
    let mut table = JobTable::new();
    table.enqueue_as("a", "n", Json::Null, T0, None, Some(vec![]), T0);
    assert!(table.dequeue(&[], T0).is_none());
    assert!(table.dequeue(&["t".to_string()], T0).is_none());
}

#[test]
fn each_job_is_claimed_exactly_once_by_competing_workers() {
    let mut table = JobTable::new();
    let mut ids = Vec::new();
    for n in 0..20 {
        ids.push(table.enqueue("Job", Json::Null, T0 - n, None, None, T0));
    }
    let mut claimed: Vec<String> = Vec::new();
    for round in 0..30 {
        for _worker in 0..3 {
            if let Some(job) = table.dequeue(&[], T0 + round) {
                claimed.push(job.id);
            }
        }
    }
    assert_eq!(claimed.len(), 20);
    for id in &ids {
        assert_eq!(claimed.iter().filter(|c| *c == id).count(), 1);
    }
    assert_eq!(count(&table, JobStatus::Processing, T0 + 30), 20);
}

#[test]
fn requeue_returns_an_abandoned_claim_to_the_queue() {
    let mut table = JobTable::new();
    let id = table.enqueue("Job", Json::Null, T0, None, None, T0);
    assert_eq!(table.dequeue(&[], T0).unwrap().id, id);
    assert!(table.dequeue(&[], T0 + MINUTE).is_none());
    table.requeue(&30, T0 + 30 * MINUTE);
    assert_eq!(get_job(&table, &id, T0).status, JobStatus::Queued);
    assert_eq!(table.dequeue(&[], T0 + 30 * MINUTE).unwrap().id, id);
}

#[test]
fn periodic_job_is_queued_again_its_interval_later() {
    let mut table = JobTable::new();
    let id = table.enqueue("Tick", Json::Null, T0, Some(2_000), None, T0);
    let job = table.dequeue(&[], T0).unwrap();
    assert_eq!(job.interval, Some(2_000));
    table.complete_job(&job.id, job.interval, T0 + SECOND);
    let row = get_job(&table, &id, T0 + SECOND);
    assert_eq!(row.status, JobStatus::Queued);
    assert_eq!(row.run_at, T0 + SECOND + 2 * SECOND);
    assert!(table.dequeue(&[], T0 + 2 * SECOND).is_none());
    assert_eq!(table.dequeue(&[], T0 + 3 * SECOND).unwrap().id, id);
}

#[test]
fn the_clock_of_the_table_never_runs_backwards() {
    let mut table = JobTable::new();
    table.enqueue_as("a", "n", Json::Null, 0, None, None, T0);
    assert_eq!(table.clock(), T0);
    assert_eq!(table.instant(T0 - DAY), T0);
    assert_eq!(table.instant(T0 + DAY), T0 + DAY);
    table.complete_job("a", None, T0 - DAY);
    let row = get_job(&table, "a", 0);
    assert_eq!(row.created_at, Some(T0));
    assert_eq!(row.updated_at, Some(T0));
    assert_eq!(row.run_at, T0);
    assert_eq!(table.clock(), T0);
}

#[test]
fn operations_on_an_unknown_id_change_nothing() {
    let mut table = seeded();
    let before = table.get_jobs(None, None, T0);
    table.complete_job("missing", None, T0);
    table.fail_job("missing", &Error::string("e"), T0);
    table.cancel_jobs_by_name("missing", T0);
    assert_eq!(table.get_jobs(None, None, T0), before);
}
