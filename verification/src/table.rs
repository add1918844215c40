//! The table of the queue and what each operation does to its rows.
//!
//! [`JobTable`] holds the rows in memory and is the reference for the effect
//! of the statements of [`crate::statement`]: each of its operations is
//! named like the statement whose effect it states. Time is an argument: an
//! operation happens at the instant it is given, or at the latest instant
//! that the table has seen where that is later, so that the clock of the
//! table never runs backwards.

use vstd::prelude::*;

use crate::ids::{fresh_id, is_job_id};
use crate::error::Error;
use crate::job::{job_views, Job, JobView, Timestamp};
use crate::json::{Json, JsonValue};
use crate::lifecycle::{completed_run_at, completed_status, completion, completion_in_range};
use crate::status::JobStatus;
use crate::tags::{normalize_tags, normalized_tags, tags_match, worker_takes};
use crate::text::{optional_texts, texts};

verus! {

/// The microseconds of a minute.
pub const MICROS_PER_MINUTE: i64 = 60_000_000;

/// The microseconds of a day.
pub const MICROS_PER_DAY: i64 = 86_400_000_000;

impl JobView {
    /// Whether the job can be the row of a table whose clock shows `clock`:
    /// it has both timestamps, and was created no later than it was last
    /// updated, which is no later than now.
    pub open spec fn is_row(self, clock: Timestamp) -> bool {
        &&& self.created_at is Some
        &&& self.updated_at is Some
        &&& self.created_at->Some_0 <= self.updated_at->Some_0 <= clock
    }

    /// The job as a listing reads it: a tag list without tags reads as none.
    pub open spec fn as_listed(self) -> JobView {
        JobView { tags: normalized_tags(self.tags), ..self }
    }

    /// The job as the claim query reads it: that query selects neither of
    /// the two timestamps.
    pub open spec fn as_claimed(self) -> JobView {
        JobView { created_at: None, updated_at: None, tags: normalized_tags(self.tags), ..self }
    }

    /// Whether a worker with the given tags may claim the job at `at`: it is
    /// queued, due, and its tags match.
    pub open spec fn eligible(self, worker_tags: Seq<Seq<char>>, at: Timestamp) -> bool {
        &&& self.status == JobStatus::Queued
        &&& self.run_at <= at
        &&& tags_match(worker_tags, self.tags)
    }

    /// Whether the job was created more than `age_days` days before `at`.
    pub open spec fn older_than(self, age_days: i64, at: Timestamp) -> bool {
        match self.created_at {
            Some(created) => created < at - age_days * MICROS_PER_DAY,
            None => false,
        }
    }

    /// Whether the job was created at least `age_days` days before `at`.
    pub open spec fn at_least_as_old(self, age_days: i64, at: Timestamp) -> bool {
        match self.created_at {
            Some(created) => created <= at - age_days * MICROS_PER_DAY,
            None => false,
        }
    }

    /// Whether the job is processing and was last updated at least
    /// `age_minutes` minutes before `at`.
    pub open spec fn stalled(self, age_minutes: i64, at: Timestamp) -> bool {
        &&& self.status == JobStatus::Processing
        &&& match self.updated_at {
            Some(updated) => updated <= at - age_minutes * MICROS_PER_MINUTE,
            None => false,
        }
    }
}

/// Whether a status passes an optional filter by status.
pub open spec fn status_passes(filter: Option<Seq<JobStatus>>, status: JobStatus) -> bool {
    match filter {
        Some(list) => list.contains(status),
        None => true,
    }
}

/// Whether the row at `index` is the one that a claim takes: it is eligible,
/// no eligible row is due earlier, and of the eligible rows that are due at
/// the same instant it is the first.
pub open spec fn is_claim(
    rows: Seq<JobView>,
    worker_tags: Seq<Seq<char>>,
    at: Timestamp,
    index: int,
) -> bool {
    &&& 0 <= index < rows.len()
    &&& rows[index].eligible(worker_tags, at)
    &&& forall|j: int|
        0 <= j < rows.len() && (#[trigger] rows[j]).eligible(worker_tags, at) ==> {
            ||| rows[index].run_at < rows[j].run_at
            ||| (rows[index].run_at == rows[j].run_at && index <= j)
        }
}

/// The index of the row that a claim at `at` takes, if it takes one.
pub open spec fn claim_index(
    rows: Seq<JobView>,
    worker_tags: Seq<Seq<char>>,
    at: Timestamp,
) -> Option<
    int,
> {
    if exists|i: int| is_claim(rows, worker_tags, at, i) {
        Some(choose|i: int| is_claim(rows, worker_tags, at, i))
    } else {
        None
    }
}

/// The mathematical value of a [`JobTable`]: its rows in the order in which
/// they were inserted, and the latest instant that it has seen.
pub struct TableView {
    pub rows: Seq<JobView>,
    pub clock: Timestamp,
}

impl TableView {
    /// Every job of the table is a row of it.
    pub open spec fn wf(self) -> bool {
        forall|i: int| 0 <= i < self.rows.len() ==> (#[trigger] self.rows[i]).is_row(self.clock)
    }

    /// The instant at which an operation given `now` happens.
    pub open spec fn instant(self, now: Timestamp) -> Timestamp {
        if now > self.clock {
            now
        } else {
            self.clock
        }
    }

    /// The table with every row that meets `chosen` replaced by `change` of
    /// it, at the instant `at`.
    pub open spec fn update_where(
        self,
        at: Timestamp,
        chosen: spec_fn(JobView) -> bool,
        change: spec_fn(JobView) -> JobView,
    ) -> TableView {
        TableView {
            rows: self.rows.map_values(
                |job: JobView|
                    if chosen(job) {
                        change(job)
                    } else {
                        job
                    },
            ),
            clock: at,
        }
    }

    /// The table without the rows that meet `chosen`, at the instant `at`.
    pub open spec fn delete_where(
        self,
        at: Timestamp,
        chosen: spec_fn(JobView) -> bool,
    ) -> TableView {
        TableView { rows: self.rows.filter(|job: JobView| !chosen(job)), clock: at }
    }

    /// The table after a job was inserted: one more row, the last, queued,
    /// created and updated at the instant of the insert.
    pub open spec fn enqueue_as(
        self,
        id: Seq<char>,
        name: Seq<char>,
        data: JsonValue,
        run_at: Timestamp,
        interval: Option<i64>,
        tags: Option<Seq<Seq<char>>>,
        now: Timestamp,
    ) -> TableView {
        let at = self.instant(now);
        TableView {
            rows: self.rows.push(
                JobView {
                    id,
                    name,
                    data,
                    status: JobStatus::Queued,
                    run_at,
                    interval,
                    created_at: Some(at),
                    updated_at: Some(at),
                    tags,
                },
            ),
            clock: at,
        }
    }

    /// Whether the row at `index` is the one that a claim at `at` takes.
    pub open spec fn is_claim(
        self,
        worker_tags: Seq<Seq<char>>,
        at: Timestamp,
        index: int,
    ) -> bool {
        is_claim(self.rows, worker_tags, at, index)
    }

    /// The index of the row that a claim at `at` takes, if it takes one.
    pub open spec fn claim_index(self, worker_tags: Seq<Seq<char>>, at: Timestamp) -> Option<int> {
        claim_index(self.rows, worker_tags, at)
    }

    /// The job that a claim hands to the worker, as the claim query reads it.
    pub open spec fn dequeued(
        self,
        worker_tags: Seq<Seq<char>>,
        now: Timestamp,
    ) -> Option<JobView> {
        match self.claim_index(worker_tags, self.instant(now)) {
            Some(i) => Some(self.rows[i].as_claimed()),
            None => None,
        }
    }

    /// The table after a claim: the rows with the identifier of the claimed
    /// job are processing, as of the instant of the claim.
    pub open spec fn dequeue(self, worker_tags: Seq<Seq<char>>, now: Timestamp) -> TableView {
        let at = self.instant(now);
        match self.claim_index(worker_tags, at) {
            Some(i) => {
                let id = self.rows[i].id;
                self.update_where(
                    at,
                    |job: JobView| job.id == id,
                    |job: JobView|
                        JobView { status: JobStatus::Processing, updated_at: Some(at), ..job },
                )
            },
            None => TableView { clock: at, ..self },
        }
    }

    /// The table after the job of an identifier completed: it is completed
    /// and was due now, or, where it recurs, it is queued again and due its
    /// interval from now.
    pub open spec fn complete_job(
        self,
        id: Seq<char>,
        interval: Option<i64>,
        now: Timestamp,
    ) -> TableView {
        let at = self.instant(now);
        self.update_where(
            at,
            |job: JobView| job.id == id,
            |job: JobView|
                JobView {
                    status: completed_status(interval),
                    run_at: completed_run_at(at, interval) as i64,
                    updated_at: Some(at),
                    ..job
                },
        )
    }

    /// The table after the job of an identifier failed with a message: it is
    /// failed, and its payload holds the message.
    pub open spec fn fail_job(
        self,
        id: Seq<char>,
        message: Seq<char>,
        now: Timestamp,
    ) -> TableView {
        let at = self.instant(now);
        self.update_where(
            at,
            |job: JobView| job.id == id,
            |job: JobView|
                JobView {
                    status: JobStatus::Failed,
                    updated_at: Some(at),
                    data: job.data.with_error(message),
                    ..job
                },
        )
    }

    /// The table after the queued jobs of a name were cancelled.
    pub open spec fn cancel_jobs_by_name(self, name: Seq<char>, now: Timestamp) -> TableView {
        let at = self.instant(now);
        self.update_where(
            at,
            |job: JobView| job.name == name && job.status == JobStatus::Queued,
            |job: JobView| JobView { status: JobStatus::Cancelled, updated_at: Some(at), ..job },
        )
    }

    /// The table after every job was deleted.
    pub open spec fn clear(self, now: Timestamp) -> TableView {
        TableView { rows: Seq::empty(), clock: self.instant(now) }
    }

    /// The table after the jobs of the given statuses were deleted.
    pub open spec fn clear_by_status(self, status: Seq<JobStatus>, now: Timestamp) -> TableView {
        self.delete_where(self.instant(now), |job: JobView| status.contains(job.status))
    }

    /// The table after the jobs created more than `age_days` days ago were
    /// deleted, of any status or of the given ones.
    pub open spec fn clear_jobs_older_than(
        self,
        age_days: i64,
        status: Option<Seq<JobStatus>>,
        now: Timestamp,
    ) -> TableView {
        let at = self.instant(now);
        self.delete_where(
            at,
            |job: JobView| job.older_than(age_days, at) && status_passes(status, job.status),
        )
    }

    /// The table after the jobs that were processing for at least
    /// `age_minutes` minutes were returned to the queue.
    pub open spec fn requeue(self, age_minutes: i64, now: Timestamp) -> TableView {
        let at = self.instant(now);
        self.update_where(
            at,
            |job: JobView| job.stalled(age_minutes, at),
            |job: JobView| JobView { status: JobStatus::Queued, updated_at: Some(at), ..job },
        )
    }

    /// The jobs that a listing at `now` gives, in the order of the rows.
    pub open spec fn get_jobs(
        self,
        status: Option<Seq<JobStatus>>,
        age_days: Option<i64>,
        now: Timestamp,
    ) -> Seq<JobView> {
        let at = self.instant(now);
        self.rows.filter(
            |job: JobView|
                status_passes(status, job.status) && (match age_days {
                    Some(days) => job.at_least_as_old(days, at),
                    None => true,
                }),
        ).map_values(|job: JobView| job.as_listed())
    }
}

/// Whether a list of statuses holds the given one.
pub fn has_status(list: &[JobStatus], status: JobStatus) -> (found: bool)
    ensures
        found == list@.contains(status),
{
    let mut i: usize = 0;
    while i < list.len()
        invariant
            i <= list.len(),
            forall|k: int| 0 <= k < i ==> list@[k] != status,
        decreases list.len() - i,
    {
        if list[i] == status {
            return true;
        }
        i += 1;
    }
    false
}

/// Whether a status passes an optional filter by status.
pub fn passes_filter(filter: Option<&Vec<JobStatus>>, status: JobStatus) -> (passes: bool)
    ensures
        passes == status_passes(
            match filter {
                Some(list) => Some(list@),
                None => None,
            },
            status,
        ),
{
    match filter {
        Some(list) => has_status(list.as_slice(), status),
        None => true,
    }
}

/// The table of the queue, in memory.
#[derive(Debug)]
pub struct JobTable {
    rows: Vec<Job>,
    clock: Timestamp,
}

impl View for JobTable {
    type V = TableView;

    closed spec fn view(&self) -> TableView {
        TableView { rows: job_views(self.rows@), clock: self.clock }
    }
}

/// Removing one job from a list removes its view from the views.
proof fn lemma_views_remove(jobs: Seq<Job>, i: int)
    requires
        0 <= i < jobs.len(),
    ensures
        job_views(jobs.remove(i)) == job_views(jobs).remove(i),
{
}

/// Adding one job to a list adds its view to the views.
proof fn lemma_views_push(jobs: Seq<Job>, job: Job)
    ensures
        job_views(jobs.push(job)) == job_views(jobs).push(job@),
{
}

impl JobTable {
    /// Every job of the table is a row of it.
    pub open spec fn wf(&self) -> bool {
        self@.wf()
    }

    /// An empty table that has seen no instant yet.
    pub fn new() -> (table: JobTable)
        ensures
            table@.rows.len() == 0,
            table@.clock == i64::MIN,
            table.wf(),
    {
        JobTable { rows: Vec::new(), clock: i64::MIN }
    }

    /// The number of rows.
    pub fn len(&self) -> (n: usize)
        ensures
            n == self@.rows.len(),
    {
        self.rows.len()
    }

    /// The latest instant that the table has seen.
    pub fn clock(&self) -> (clock: Timestamp)
        ensures
            clock == self@.clock,
    {
        self.clock
    }

    /// The instant at which an operation given `now` happens.
    pub fn instant(&self, now: Timestamp) -> (at: Timestamp)
        ensures
            at == self@.instant(now),
    {
        if now > self.clock {
            now
        } else {
            self.clock
        }
    }

    /// Moves the clock to the instant of an operation given `now`.
    fn observe(&mut self, now: Timestamp) -> (at: Timestamp)
        requires
            old(self).wf(),
        ensures
            final(self).wf(),
            at == old(self)@.instant(now),
            final(self)@ == (TableView { clock: at, ..old(self)@ }),
            final(self).rows == old(self).rows,
    {
        if now > self.clock {
            self.clock = now;
        }
        self.clock
    }

    /// Deletes the rows that are marked, where the marks are those of
    /// `chosen`.
    fn delete_marked(&mut self, marks: &Vec<bool>, Ghost(chosen): Ghost<spec_fn(JobView) -> bool>)
        requires
            old(self).wf(),
            marks@.len() == old(self)@.rows.len(),
            forall|k: int| 0 <= k < marks@.len() ==> marks@[k] == chosen(old(self)@.rows[k]),
        ensures
            final(self).wf(),
            final(self)@ == old(self)@.delete_where(old(self)@.clock, chosen),
    {
        let ghost before = self@.rows;
        let ghost keep = |job: JobView| !chosen(job);
        let mut i: usize = 0;
        let mut k: usize = 0;
        while k < marks.len()
            invariant
                i <= k <= marks@.len(),
                marks@.len() == before.len(),
                self.clock == old(self).clock,
                keep == (|job: JobView| !chosen(job)),
                forall|j: int| 0 <= j < marks@.len() ==> marks@[j] == chosen(before[j]),
                before.take(k as int).filter(keep).len() == i,
                job_views(self.rows@) == before.take(k as int).filter(keep) + before.skip(k as int),
            decreases marks.len() - k,
        {
            proof {
                assert(before.take(k + 1) =~= before.take(k as int).push(before[k as int]));
                before.take(k as int).lemma_filter_push(before[k as int], keep);
                assert(job_views(self.rows@).len() == i + (before.len() - k));
            }
            if marks[k] {
                proof {
                    lemma_views_remove(self.rows@, i as int);
                }
                self.rows.remove(i);
            } else {
                i += 1;
            }
            k += 1;
        }
        proof {
            assert(before.take(k as int) =~= before);
            assert forall|j: int| 0 <= j < self@.rows.len() implies (
            #[trigger] self@.rows[j]).is_row(self@.clock) by {
                let job = self@.rows[j];
                before.lemma_filter_contains_rev(keep, job);
            }
        }
    }

    /// Inserts a job under the given identifier: one more row, queued,
    /// created and updated at the instant of the insert.
    pub fn enqueue_as(
        &mut self,
        id: &str,
        name: &str,
        data: Json,
        run_at: Timestamp,
        interval: Option<i64>,
        tags: Option<Vec<String>>,
        now: Timestamp,
    )
        requires
            old(self).wf(),
        ensures
            final(self).wf(),
            final(self)@ == old(self)@.enqueue_as(
                id@,
                name@,
                data@,
                run_at,
                interval,
                optional_texts(tags),
                now,
            ),
    {
        let at = self.observe(now);
        let job = Job {
            id: id.to_owned(),
            name: name.to_owned(),
            data,
            status: JobStatus::Queued,
            run_at,
            interval,
            created_at: Some(at),
            updated_at: Some(at),
            tags,
        };
        proof {
            lemma_views_push(self.rows@, job);
        }
        self.rows.push(job);
    }

    /// Inserts a job under a fresh identifier and returns the identifier.
    pub fn enqueue(
        &mut self,
        name: &str,
        data: Json,
        run_at: Timestamp,
        interval: Option<i64>,
        tags: Option<Vec<String>>,
        now: Timestamp,
    ) -> (id: String)
        requires
            old(self).wf(),
        ensures
            final(self).wf(),
            is_job_id(id@),
            final(self)@ == old(self)@.enqueue_as(
                id@,
                name@,
                data@,
                run_at,
                interval,
                optional_texts(tags),
                now,
            ),
    {
        let id = fresh_id();
        self.enqueue_as(id.as_str(), name, data, run_at, interval, tags, now);
        id
    }

    /// Deletes every job.
    pub fn clear(&mut self, now: Timestamp)
        requires
            old(self).wf(),
        ensures
            final(self).wf(),
            final(self)@ == old(self)@.clear(now),
    {
        let at = self.observe(now);
        self.rows = Vec::new();
        assert(self@.rows =~= Seq::empty());
    }

    /// Deletes every job whose status is one of the given.
    pub fn clear_by_status(&mut self, status: Vec<JobStatus>, now: Timestamp)
        requires
            old(self).wf(),
        ensures
            final(self).wf(),
            final(self)@ == old(self)@.clear_by_status(status@, now),
    {
        let at = self.observe(now);
        let ghost chosen = |job: JobView| status@.contains(job.status);
        let mut marks: Vec<bool> = Vec::new();
        let mut i: usize = 0;
        while i < self.rows.len()
            invariant
                i <= self.rows.len(),
                marks@.len() == i,
                chosen == (|job: JobView| status@.contains(job.status)),
                forall|k: int| 0 <= k < i ==> marks@[k] == chosen(self@.rows[k]),
            decreases self.rows.len() - i,
        {
            marks.push(has_status(status.as_slice(), self.rows[i].status));
            i += 1;
        }
        self.delete_marked(&marks, Ghost(chosen));
    }

    /// Deletes every job created more than `age_days` days ago; where
    /// statuses are given, only those whose status is one of them.
    pub fn clear_jobs_older_than(
        &mut self,
        age_days: i64,
        status: Option<&Vec<JobStatus>>,
        now: Timestamp,
    )
        requires
            old(self).wf(),
        ensures
            final(self).wf(),
            final(self)@ == old(self)@.clear_jobs_older_than(
                age_days,
                match status {
                    Some(list) => Some(list@),
                    None => None,
                },
                now,
            ),
    {
        let at = self.observe(now);
        let ghost filter = match status {
            Some(list) => Some(list@),
            None => None,
        };
        let ghost chosen = |job: JobView|
            job.older_than(age_days, at) && status_passes(filter, job.status);
        let threshold: i128 = at as i128 - age_days as i128 * 86_400_000_000i128;
        let mut marks: Vec<bool> = Vec::new();
        let mut i: usize = 0;
        while i < self.rows.len()
            invariant
                i <= self.rows.len(),
                marks@.len() == i,
                self.wf(),
                self@.clock == at,
                threshold == at - age_days * MICROS_PER_DAY,
                filter == (match status {
                    Some(list) => Some(list@),
                    None => None,
                }),
                chosen == (|job: JobView|
                    job.older_than(age_days, at) && status_passes(filter, job.status)),
                forall|k: int| 0 <= k < i ==> marks@[k] == chosen(self@.rows[k]),
            decreases self.rows.len() - i,
        {
            let old_enough = match self.rows[i].created_at {
                Some(created) => (created as i128) < threshold,
                None => false,
            };
            let marked = old_enough && passes_filter(status, self.rows[i].status);
            marks.push(marked);
            i += 1;
        }
        self.delete_marked(&marks, Ghost(chosen));
    }
}

impl JobTable {
    /// Records that the job of an identifier completed: it becomes
    /// completed and was due now, or, where an interval is given, queued
    /// again and due that many milliseconds from now. Whatever the status of
    /// the job was, it is changed.
    pub fn complete_job(&mut self, id: &str, interval: Option<i64>, now: Timestamp)
        requires
            old(self).wf(),
            completion_in_range(old(self)@.instant(now), interval),
        ensures
            final(self).wf(),
            final(self)@ == old(self)@.complete_job(id@, interval, now),
    {
        let ghost before = self@;
        let at = self.observe(now);
        let (status, run_at) = completion(at, interval);
        let wanted = id.to_owned();
        let ghost chosen = |job: JobView| job.id == id@;
        let ghost change = |job: JobView|
            JobView {
                status: completed_status(interval),
                run_at: completed_run_at(at, interval) as i64,
                updated_at: Some(at),
                ..job
            };
        let mut i: usize = 0;
        while i < self.rows.len()
            invariant
                i <= self.rows.len(),
                self.clock == at,
                at >= before.clock,
                before.wf(),
                wanted@ == id@,
                status == completed_status(interval),
                run_at == completed_run_at(at, interval),
                self.rows@.len() == before.rows.len(),
                forall|k: int|
                    0 <= k < i ==> (#[trigger] self.rows@[k])@ == (if before.rows[k].id == id@ {
                        JobView {
                            status: completed_status(interval),
                            run_at: completed_run_at(at, interval) as i64,
                            updated_at: Some(at),
                            ..before.rows[k]
                        }
                    } else {
                        before.rows[k]
                    }),
                forall|k: int|
                    i <= k < self.rows@.len() ==> (#[trigger] self.rows@[k])@ == before.rows[k],
            decreases self.rows.len() - i,
        {
            if self.rows[i].id == wanted {
                self.rows[i].status = status;
                self.rows[i].run_at = run_at;
                self.rows[i].updated_at = Some(at);
            }
            i += 1;
        }
        proof {
            assert(self@.rows =~= before.update_where(at, chosen, change).rows);
        }
    }

    /// Records that the job of an identifier failed: it becomes failed, and
    /// the object `{"error": message}` is concatenated to its payload.
    pub fn fail_job(&mut self, id: &str, error: &Error, now: Timestamp)
        requires
            old(self).wf(),
        ensures
            final(self).wf(),
            final(self)@ == old(self)@.fail_job(id@, error@, now),
    {
        let ghost before = self@;
        let at = self.observe(now);
        let message = error.to_string();
        let wanted = id.to_owned();
        let ghost chosen = |job: JobView| job.id == id@;
        let ghost change = |job: JobView|
            JobView {
                status: JobStatus::Failed,
                updated_at: Some(at),
                data: job.data.with_error(error@),
                ..job
            };
        let mut i: usize = 0;
        while i < self.rows.len()
            invariant
                i <= self.rows.len(),
                self.clock == at,
                at >= before.clock,
                before.wf(),
                wanted@ == id@,
                message@ == error@,
                self.rows@.len() == before.rows.len(),
                forall|k: int|
                    0 <= k < i ==> (#[trigger] self.rows@[k])@ == (if before.rows[k].id == id@ {
                        JobView {
                            status: JobStatus::Failed,
                            updated_at: Some(at),
                            data: before.rows[k].data.with_error(error@),
                            ..before.rows[k]
                        }
                    } else {
                        before.rows[k]
                    }),
                forall|k: int|
                    i <= k < self.rows@.len() ==> (#[trigger] self.rows@[k])@ == before.rows[k],
            decreases self.rows.len() - i,
        {
            if self.rows[i].id == wanted {
                let data = self.rows[i].data.with_error(message.as_str());
                self.rows[i].status = JobStatus::Failed;
                self.rows[i].updated_at = Some(at);
                self.rows[i].data = data;
            }
            i += 1;
        }
        proof {
            assert(self@.rows =~= before.update_where(at, chosen, change).rows);
        }
    }

    /// Cancels every queued job of a name. Jobs in any other status, those
    /// being processed among them, are not touched.
    pub fn cancel_jobs_by_name(&mut self, name: &str, now: Timestamp)
        requires
            old(self).wf(),
        ensures
            final(self).wf(),
            final(self)@ == old(self)@.cancel_jobs_by_name(name@, now),
    {
        let ghost before = self@;
        let at = self.observe(now);
        let wanted = name.to_owned();
        let ghost chosen = |job: JobView| job.name == name@ && job.status == JobStatus::Queued;
        let ghost change = |job: JobView|
            JobView { status: JobStatus::Cancelled, updated_at: Some(at), ..job };
        let mut i: usize = 0;
        while i < self.rows.len()
            invariant
                i <= self.rows.len(),
                self.clock == at,
                at >= before.clock,
                before.wf(),
                wanted@ == name@,
                self.rows@.len() == before.rows.len(),
                forall|k: int|
                    0 <= k < i ==> (#[trigger] self.rows@[k])@ == (if before.rows[k].name == name@
                        && before.rows[k].status == JobStatus::Queued {
                        JobView {
                            status: JobStatus::Cancelled,
                            updated_at: Some(at),
                            ..before.rows[k]
                        }
                    } else {
                        before.rows[k]
                    }),
                forall|k: int|
                    i <= k < self.rows@.len() ==> (#[trigger] self.rows@[k])@ == before.rows[k],
            decreases self.rows.len() - i,
        {
            if self.rows[i].status == JobStatus::Queued && self.rows[i].name == wanted {
                self.rows[i].status = JobStatus::Cancelled;
                self.rows[i].updated_at = Some(at);
            }
            i += 1;
        }
        proof {
            assert(self@.rows =~= before.update_where(at, chosen, change).rows);
        }
    }

    /// Returns to the queue every job that is processing and was last
    /// updated at least `age_minutes` minutes ago.
    pub fn requeue(&mut self, age_minutes: &i64, now: Timestamp)
        requires
            old(self).wf(),
        ensures
            final(self).wf(),
            final(self)@ == old(self)@.requeue(*age_minutes, now),
    {
        let ghost before = self@;
        let at = self.observe(now);
        let age: i64 = *age_minutes;
        let threshold: i128 = at as i128 - age as i128 * 60_000_000i128;
        let ghost chosen = |job: JobView| job.stalled(age, at);
        let ghost change = |job: JobView|
            JobView { status: JobStatus::Queued, updated_at: Some(at), ..job };
        let mut i: usize = 0;
        while i < self.rows.len()
            invariant
                i <= self.rows.len(),
                self.clock == at,
                at >= before.clock,
                before.wf(),
                threshold == at - age * MICROS_PER_MINUTE,
                self.rows@.len() == before.rows.len(),
                forall|k: int|
                    0 <= k < i ==> (#[trigger] self.rows@[k])@ == (if before.rows[k].stalled(
                        age,
                        at,
                    ) {
                        JobView {
                            status: JobStatus::Queued,
                            updated_at: Some(at),
                            ..before.rows[k]
                        }
                    } else {
                        before.rows[k]
                    }),
                forall|k: int|
                    i <= k < self.rows@.len() ==> (#[trigger] self.rows@[k])@ == before.rows[k],
            decreases self.rows.len() - i,
        {
            let in_time = match self.rows[i].updated_at {
                Some(updated) => updated as i128 <= threshold,
                None => false,
            };
            let stalled = self.rows[i].status == JobStatus::Processing && in_time;
            if stalled {
                self.rows[i].status = JobStatus::Queued;
                self.rows[i].updated_at = Some(at);
            }
            i += 1;
        }
        proof {
            assert(self@.rows =~= before.update_where(at, chosen, change).rows);
        }
    }
}

/// At most one row is the one that a claim takes.
pub proof fn lemma_claim_is_unique(
    table: TableView,
    worker_tags: Seq<Seq<char>>,
    at: Timestamp,
    i: int,
    j: int,
)
    requires
        table.is_claim(worker_tags, at, i),
        table.is_claim(worker_tags, at, j),
    ensures
        i == j,
{
}

/// The row that a claim takes is the one at the claim index, and there is
/// no claim index where no row is eligible.
pub proof fn lemma_claim_index(table: TableView, worker_tags: Seq<Seq<char>>, at: Timestamp)
    ensures
        forall|i: int| #[trigger]
            table.is_claim(worker_tags, at, i) ==> table.claim_index(worker_tags, at) == Some(i),
        (forall|j: int|
            0 <= j < table.rows.len() ==> !(#[trigger] table.rows[j]).eligible(worker_tags, at))
            ==> table.claim_index(worker_tags, at).is_none(),
{
}

impl JobTable {
    /// The index of the row that a claim at `at` takes, if it takes one.
    fn find_claim(&self, worker_tags: &[String], at: Timestamp) -> (found: Option<usize>)
        ensures
            match found {
                Some(i) => self@.claim_index(texts(worker_tags@), at) == Some(i as int) && i
                    < self.rows@.len(),
                None => self@.claim_index(texts(worker_tags@), at).is_none(),
            },
    {
        let ghost tags = texts(worker_tags@);
        let mut best: Option<usize> = None;
        let mut i: usize = 0;
        while i < self.rows.len()
            invariant
                i <= self.rows.len(),
                tags == texts(worker_tags@),
                match best {
                    Some(b) => {
                        &&& b < i
                        &&& self@.rows[b as int].eligible(tags, at)
                        &&& forall|j: int|
                            0 <= j < i && (#[trigger] self@.rows[j]).eligible(tags, at) ==> {
                                ||| self@.rows[b as int].run_at < self@.rows[j].run_at
                                ||| (self@.rows[b as int].run_at == self@.rows[j].run_at && b <= j)
                            }
                    },
                    None => forall|j: int|
                        0 <= j < i ==> !(#[trigger] self@.rows[j]).eligible(tags, at),
                },
            decreases self.rows.len() - i,
        {
            let job = &self.rows[i];
            let eligible = job.status == JobStatus::Queued && job.run_at <= at && worker_takes(
                worker_tags,
                &job.tags,
            );
            if eligible {
                match best {
                    Some(b) => {
                        if job.run_at < self.rows[b].run_at {
                            best = Some(i);
                        }
                    },
                    None => {
                        best = Some(i);
                    },
                }
            }
            i += 1;
        }
        proof {
            match best {
                Some(b) => {
                    assert(self@.is_claim(tags, at, b as int));
                },
                None => {},
            }
        }
        best
    }

    /// Claims a job for a worker with the given tags: of the queued jobs that
    /// are due and match the tags, the one that is due earliest, and of those
    /// due at the same instant the one inserted first. Its row becomes
    /// processing, and the job comes back as the claim read it, still
    /// queued. Where no job is eligible, none comes back and no row changes.
    pub fn dequeue(&mut self, worker_tags: &[String], now: Timestamp) -> (claimed: Option<Job>)
        requires
            old(self).wf(),
        ensures
            final(self).wf(),
            final(self)@ == old(self)@.dequeue(texts(worker_tags@), now),
            match claimed {
                Some(job) => old(self)@.dequeued(texts(worker_tags@), now) == Some(job@),
                None => old(self)@.dequeued(texts(worker_tags@), now).is_none(),
            },
    {
        let ghost before = self@;
        let at = self.observe(now);
        match self.find_claim(worker_tags, at) {
            Some(found) => {
                let mut job = self.rows[found].clone();
                job.created_at = None;
                job.updated_at = None;
                job.tags = normalize_tags(job.tags);
                let wanted = self.rows[found].id.clone();
                let ghost id = wanted@;
                let ghost chosen = |row: JobView| row.id == id;
                let ghost change = |row: JobView|
                    JobView { status: JobStatus::Processing, updated_at: Some(at), ..row };
                let mut i: usize = 0;
                while i < self.rows.len()
                    invariant
                        i <= self.rows.len(),
                        self.clock == at,
                        at >= before.clock,
                        before.wf(),
                        wanted@ == id,
                        self.rows@.len() == before.rows.len(),
                        forall|k: int|
                            0 <= k < i ==> (#[trigger] self.rows@[k])@ == (if before.rows[k].id
                                == id {
                                JobView {
                                    status: JobStatus::Processing,
                                    updated_at: Some(at),
                                    ..before.rows[k]
                                }
                            } else {
                                before.rows[k]
                            }),
                        forall|k: int|
                            i <= k < self.rows@.len() ==> (#[trigger] self.rows@[k])@
                                == before.rows[k],
                    decreases self.rows.len() - i,
                {
                    if self.rows[i].id == wanted {
                        self.rows[i].status = JobStatus::Processing;
                        self.rows[i].updated_at = Some(at);
                    }
                    i += 1;
                }
                proof {
                    assert(self@.rows =~= before.update_where(at, chosen, change).rows);
                }
                Some(job)
            },
            None => None,
        }
    }

    /// Lists the jobs, in the order in which they were inserted: all of
    /// them, or those whose status is one of the given, or those created at
    /// least `age_days` days ago, or both. A tag list without tags reads as
    /// none.
    pub fn get_jobs(
        &self,
        status: Option<&Vec<JobStatus>>,
        age_days: Option<i64>,
        now: Timestamp,
    ) -> (jobs:
        Vec<Job>)
        ensures
            job_views(jobs@) == self@.get_jobs(
                match status {
                    Some(list) => Some(list@),
                    None => None,
                },
                age_days,
                now,
            ),
    {
        let at = self.instant(now);
        let ghost filter = match status {
            Some(list) => Some(list@),
            None => None,
        };
        let ghost wanted = |job: JobView|
            status_passes(filter, job.status) && (match age_days {
                Some(days) => job.at_least_as_old(days, at),
                None => true,
            });
        let ghost read = |job: JobView| job.as_listed();
        let ghost all = self@.rows;
        let mut jobs: Vec<Job> = Vec::new();
        let mut i: usize = 0;
        while i < self.rows.len()
            invariant
                i <= self.rows.len(),
                all == self@.rows,
                at == self@.instant(now),
                filter == (match status {
                    Some(list) => Some(list@),
                    None => None,
                }),
                wanted == (|job: JobView|
                    status_passes(filter, job.status) && (match age_days {
                        Some(days) => job.at_least_as_old(days, at),
                        None => true,
                    })),
                read == (|job: JobView| job.as_listed()),
                job_views(jobs@) == all.take(i as int).filter(wanted).map_values(read),
            decreases self.rows.len() - i,
        {
            let row = &self.rows[i];
            proof {
                assert(all.take(i + 1) =~= all.take(i as int).push(all[i as int]));
                all.take(i as int).lemma_filter_push(all[i as int], wanted);
            }
            let old_enough = match age_days {
                Some(days) => match row.created_at {
                    Some(created) => created as i128 <= at as i128 - days as i128
                        * 86_400_000_000i128,
                    None => false,
                },
                None => true,
            };
            if passes_filter(status, row.status) && old_enough {
                let mut job = row.clone();
                job.tags = normalize_tags(job.tags);
                proof {
                    lemma_views_push(jobs@, job);
                }
                jobs.push(job);
            }
            i += 1;
        }
        assert(all.take(i as int) =~= all);
        jobs
    }
}

} // verus!
