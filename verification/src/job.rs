//! The job, the row it is stored in, and how a row becomes a job.

use vstd::prelude::*;

use crate::error::Error;
use crate::json::{Json, JsonValue};
use crate::status::{invalid_status_message, JobStatus};
use crate::tags::{normalize_tags, normalized_tags};
use crate::text::{copy_texts, optional_texts};

verus! {

/// The identifier of a job: 26 characters that sort by the time of creation.
pub type JobId = String;

/// The payload of a job.
pub type JobData = Json;

/// An instant of UTC, in microseconds since the Unix epoch.
pub type Timestamp = i64;

/// A job of the queue. A value of this type is a snapshot of a row.
#[derive(Debug, PartialEq, Eq)]
pub struct Job {
    pub id: JobId,
    pub name: String,
    pub data: JobData,
    pub status: JobStatus,
    pub run_at: Timestamp,
    /// The period of a recurring job, in milliseconds.
    pub interval: Option<i64>,
    pub created_at: Option<Timestamp>,
    pub updated_at: Option<Timestamp>,
    pub tags: Option<Vec<String>>,
}

/// The mathematical value of a [`Job`].
pub struct JobView {
    pub id: Seq<char>,
    pub name: Seq<char>,
    pub data: JsonValue,
    pub status: JobStatus,
    pub run_at: Timestamp,
    pub interval: Option<i64>,
    pub created_at: Option<Timestamp>,
    pub updated_at: Option<Timestamp>,
    pub tags: Option<Seq<Seq<char>>>,
}

impl View for Job {
    type V = JobView;

    open spec fn view(&self) -> JobView {
        JobView {
            id: self.id@,
            name: self.name@,
            data: self.data@,
            status: self.status,
            run_at: self.run_at,
            interval: self.interval,
            created_at: self.created_at,
            updated_at: self.updated_at,
            tags: optional_texts(self.tags),
        }
    }
}

impl Clone for Job {
    fn clone(&self) -> (copy: Job)
        ensures
            copy@ == self@,
    {
        let tags = match &self.tags {
            Some(list) => Some(copy_texts(list.as_slice())),
            None => None,
        };
        Job {
            id: self.id.clone(),
            name: self.name.clone(),
            data: self.data.clone(),
            status: self.status,
            run_at: self.run_at,
            interval: self.interval,
            created_at: self.created_at,
            updated_at: self.updated_at,
            tags,
        }
    }
}

/// A row of the queue's table as a query hands it over, before anything is
/// read into it: the status is still text and the tags are still JSON. The
/// two timestamps and the tags are absent where the query did not select
/// them or the column holds no value.
#[derive(Debug)]
pub struct JobRow {
    pub id: String,
    pub name: String,
    pub task_data: Json,
    pub status: String,
    pub run_at: Timestamp,
    pub interval: Option<i64>,
    pub created_at: Option<Timestamp>,
    pub updated_at: Option<Timestamp>,
    pub tags: Option<Json>,
}

impl JobRow {
    /// The tags that the row gives its job: the strings of a JSON array of
    /// strings that has at least one item, and none for anything else.
    pub open spec fn tags_read(self) -> Option<Seq<Seq<char>>> {
        match self.tags {
            Some(json) => normalized_tags(json@.as_strings()),
            None => None,
        }
    }

    /// The job that the row holds, where its status is one of the five.
    pub open spec fn job(self) -> Option<JobView> {
        match JobStatus::from_text(self.status@) {
            Some(status) => Some(
                JobView {
                    id: self.id@,
                    name: self.name@,
                    data: self.task_data@,
                    status,
                    run_at: self.run_at,
                    interval: self.interval,
                    created_at: self.created_at,
                    updated_at: self.updated_at,
                    tags: self.tags_read(),
                },
            ),
            None => None,
        }
    }
}

/// Reads a row into a job. The fields are taken over by name; the status is
/// parsed, and an unknown status is the one error; the tags are normalised.
pub fn to_job(row: &JobRow) -> (read: Result<Job, Error>)
    ensures
        match read {
            Ok(job) => row.job() == Some(job@),
            Err(e) => row.job().is_none() && e@ == invalid_status_message(),
        },
{
    let tags = match &row.tags {
        Some(json) => normalize_tags(json.as_strings()),
        None => None,
    };
    match JobStatus::parse(row.status.as_str()) {
        Ok(status) => Ok(
            Job {
                id: row.id.clone(),
                name: row.name.clone(),
                data: row.task_data.clone(),
                status,
                run_at: row.run_at,
                interval: row.interval,
                created_at: row.created_at,
                updated_at: row.updated_at,
                tags,
            },
        ),
        Err(e) => Err(e),
    }
}

/// The jobs of the rows that hold one, in the order of the rows.
pub open spec fn jobs_of_rows(rows: Seq<JobRow>) -> Seq<JobView>
    decreases rows.len(),
{
    if rows.len() == 0 {
        Seq::empty()
    } else {
        let before = jobs_of_rows(rows.drop_last());
        match rows.last().job() {
            Some(job) => before.push(job),
            None => before,
        }
    }
}

/// The views of a list of jobs, one for one.
pub open spec fn job_views(jobs: Seq<Job>) -> Seq<JobView> {
    Seq::new(jobs.len(), |i: int| jobs[i]@)
}

/// Reads the rows of a listing into jobs. A row whose status is unknown is
/// skipped.
pub fn collect_jobs(rows: &Vec<JobRow>) -> (jobs: Vec<Job>)
    ensures
        job_views(jobs@) == jobs_of_rows(rows@),
{
    let mut jobs: Vec<Job> = Vec::new();
    let mut i: usize = 0;
    while i < rows.len()
        invariant
            i <= rows.len(),
            job_views(jobs@) == jobs_of_rows(rows@.take(i as int)),
        decreases rows.len() - i,
    {
        proof {
            assert(rows@.take(i + 1).drop_last() =~= rows@.take(i as int));
        }
        match to_job(&rows[i]) {
            Ok(job) => {
                jobs.push(job);
            },
            Err(_) => {
            },
        }
        i += 1;
    }
    assert(rows@.take(i as int) =~= rows@);
    jobs
}

} // verus!
