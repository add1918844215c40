//! The statements that the queue sends to the database.
//!
//! A statement is text with numbered placeholders and the values bound to
//! them. The host program executes it; nothing here touches a connection.

use vstd::prelude::*;

use crate::clock::now;
use crate::error::Error;
use crate::ids::{fresh_id, is_job_id};
use crate::job::{to_job, Job, JobRow, Timestamp};
use crate::json::{Json, JsonValue};
use crate::lifecycle::{
    completed_run_at, completed_status, completion, completion_fits, completion_in_range,
};
use crate::status::{invalid_status_message, JobStatus};
use crate::text::{
    decimal, decimal_text, optional_texts, signed_decimal, signed_decimal_text, texts,
};

verus! {

/// The text that creates the table, up to the default of the status.
pub const SCHEMA_HEAD: &'static str =
    "CREATE TABLE IF NOT EXISTS pg_loco_queue (id VARCHAR NOT NULL, name VARCHAR NOT NULL, task_data JSONB NOT NULL, status VARCHAR NOT NULL DEFAULT '";

/// The text that creates the table, from the default of the status on.
pub const SCHEMA_TAIL: &'static str =
    "', run_at TIMESTAMPTZ NOT NULL, interval BIGINT, created_at TIMESTAMPTZ NOT NULL DEFAULT NOW(), updated_at TIMESTAMPTZ NOT NULL DEFAULT NOW(), tags JSONB);";

/// The text that inserts a job.
pub const INSERT_SQL: &'static str =
    "INSERT INTO pg_loco_queue (id, task_data, name, run_at, interval, tags) VALUES ($1, $2, $3, $4, $5, $6)";

/// The claim query up to its filter by tags: the queued rows that are due.
pub const CLAIM_HEAD: &'static str =
    "SELECT id, name, task_data, status, run_at, interval, tags FROM pg_loco_queue WHERE status = $1 AND run_at <= NOW() ";

/// The filter by tags of a worker without tags.
pub const CLAIM_UNTAGGED: &'static str = "AND (tags IS NULL) ";

/// The first part of the filter by tags of a worker with tags.
pub const CLAIM_TAGGED: &'static str = "AND (tags IS NOT NULL) ";

/// What opens the conditions for the tags of a worker.
pub const CLAIM_TAGS_OPEN: &'static str = " AND (";

/// What closes the conditions for the tags of a worker.
pub const CLAIM_TAGS_CLOSE: &'static str = ")";

/// The condition that the tags of a row hold a tag, up to the number of its
/// placeholder.
pub const CLAIM_TAG: &'static str = "(tags)::jsonb ? $";

/// What joins the conditions for two tags.
pub const CLAIM_TAG_JOIN: &'static str = " OR ";

/// The claim query after its filter by tags: the earliest row, one at most,
/// locked, skipping the rows that are locked.
pub const CLAIM_TAIL: &'static str = " ORDER BY run_at LIMIT 1 FOR UPDATE SKIP LOCKED";

/// The text that moves a claimed row to processing.
pub const MARK_PROCESSING_SQL: &'static str =
    "UPDATE pg_loco_queue SET status = $1, updated_at = NOW() WHERE id = $2";

/// The text that records a completion.
pub const COMPLETE_SQL: &'static str =
    "UPDATE pg_loco_queue SET status = $1, updated_at = NOW(), run_at = $2 WHERE id = $3";

/// The text that records a failure.
pub const FAIL_SQL: &'static str =
    "UPDATE pg_loco_queue SET status = $1, updated_at = NOW(), task_data = task_data || $2::jsonb WHERE id = $3";

/// The text that cancels the queued jobs of a name.
pub const CANCEL_SQL: &'static str =
    "UPDATE pg_loco_queue SET status = $1, updated_at = NOW() WHERE name = $2 AND status = $3";

/// The text that deletes every job.
pub const CLEAR_SQL: &'static str = "DELETE FROM pg_loco_queue";

/// The text that deletes the jobs of some statuses.
pub const CLEAR_BY_STATUS_SQL: &'static str = "DELETE FROM pg_loco_queue WHERE status = ANY($1)";

/// The text that deletes the jobs older than a number of days.
pub const PURGE_SQL: &'static str =
    "DELETE FROM pg_loco_queue WHERE created_at < NOW() - INTERVAL '1 day' * $1";

/// The filter by status of the purge by age.
pub const PURGE_BY_STATUS: &'static str = " AND status = ANY($2)";

/// The text that requeues stalled jobs, up to the number of minutes.
pub const REQUEUE_HEAD: &'static str =
    "UPDATE pg_loco_queue SET status = $1, updated_at = NOW() WHERE status = $2 AND updated_at <= NOW() - INTERVAL '";

/// The text that requeues stalled jobs, after the number of minutes.
pub const REQUEUE_TAIL: &'static str = " MINUTE'";

/// The text that confirms that the table can be reached.
pub const PING_SQL: &'static str = "SELECT id from pg_loco_queue LIMIT 1";

/// The text that lists every job.
pub const LIST_SQL: &'static str = "SELECT * FROM pg_loco_queue where true";

/// The filter by status of a listing.
pub const LIST_BY_STATUS: &'static str = " AND status = ANY($1)";

/// The filter by age of a listing, up to the number of days.
pub const LIST_BY_AGE: &'static str = " AND created_at <= NOW() - INTERVAL '1 day' * ";

/// The message of the error of a completion whose next run no timestamp can
/// hold.
pub const OUT_OF_RANGE: &'static str = "timestamp out of range";

/// A value bound to a placeholder.
#[derive(Debug, PartialEq, Eq)]
pub enum SqlValue {
    Text(String),
    BigInt(i64),
    OptionalBigInt(Option<i64>),
    Timestamp(Timestamp),
    Json(Json),
    OptionalJson(Option<Json>),
    TextArray(Vec<String>),
}

/// The mathematical value of a [`SqlValue`].
pub enum SqlValueView {
    Text(Seq<char>),
    BigInt(i64),
    OptionalBigInt(Option<i64>),
    Timestamp(Timestamp),
    Json(JsonValue),
    OptionalJson(Option<JsonValue>),
    TextArray(Seq<Seq<char>>),
}

impl View for SqlValue {
    type V = SqlValueView;

    open spec fn view(&self) -> SqlValueView {
        match self {
            SqlValue::Text(s) => SqlValueView::Text(s@),
            SqlValue::BigInt(n) => SqlValueView::BigInt(*n),
            SqlValue::OptionalBigInt(n) => SqlValueView::OptionalBigInt(*n),
            SqlValue::Timestamp(t) => SqlValueView::Timestamp(*t),
            SqlValue::Json(j) => SqlValueView::Json(j@),
            SqlValue::OptionalJson(j) => SqlValueView::OptionalJson(
                match j {
                    Some(json) => Some(json@),
                    None => None,
                },
            ),
            SqlValue::TextArray(list) => SqlValueView::TextArray(texts(list@)),
        }
    }
}

/// A statement: its text, and the values of `$1`, `$2` and so on, in that
/// order.
#[derive(Debug, PartialEq, Eq)]
pub struct Statement {
    pub sql: String,
    pub params: Vec<SqlValue>,
}

/// The mathematical value of a [`Statement`].
pub struct StatementView {
    pub sql: Seq<char>,
    pub params: Seq<SqlValueView>,
}

/// The views of a list of bound values, one for one.
pub open spec fn values(params: Seq<SqlValue>) -> Seq<SqlValueView> {
    Seq::new(params.len(), |i: int| params[i]@)
}

impl View for Statement {
    type V = StatementView;

    open spec fn view(&self) -> StatementView {
        StatementView { sql: self.sql@, params: values(self.params@) }
    }
}

/// The stored names of a list of statuses, one for one.
pub open spec fn status_texts(statuses: Seq<JobStatus>) -> Seq<Seq<char>> {
    Seq::new(statuses.len(), |i: int| statuses[i].text())
}

/// The stored names of a list of statuses.
pub fn status_names(statuses: &[JobStatus]) -> (names: Vec<String>)
    ensures
        texts(names@) == status_texts(statuses@),
{
    let mut names: Vec<String> = Vec::new();
    let mut i: usize = 0;
    while i < statuses.len()
        invariant
            i <= statuses.len(),
            names@.len() == i,
            forall|k: int| 0 <= k < i ==> (#[trigger] names@[k])@ == statuses@[k].text(),
        decreases statuses.len() - i,
    {
        names.push(statuses[i].to_string());
        i += 1;
    }
    names
}

/// The text that creates the table of the queue where it is not there yet.
pub open spec fn schema_sql() -> Seq<char> {
    SCHEMA_HEAD@ + JobStatus::Queued.text() + SCHEMA_TAIL@
}

/// The statement that creates the table of the queue. It creates the table
/// only where there is none, so that it can be sent any number of times.
pub fn initialize_database() -> (statement: Statement)
    ensures
        statement@ == (StatementView { sql: schema_sql(), params: Seq::empty() }),
{
    let mut sql = SCHEMA_HEAD.to_owned();
    sql.append(JobStatus::Queued.as_str());
    sql.append(SCHEMA_TAIL);
    let statement = Statement { sql, params: Vec::new() };
    assert(statement@.params =~= Seq::empty());
    statement
}

/// The whole milliseconds of a duration as the `interval` column holds them:
/// the low 64 bits of the count, read as a signed number.
pub fn interval_millis(millis: u128) -> (interval: i64)
    ensures
        interval == millis as i64,
        millis <= i64::MAX ==> interval == millis,
{
    #[verifier::truncate]
    (millis as i64)
}

/// The statement that inserts a job under an identifier.
pub open spec fn insert_statement(
    id: Seq<char>,
    name: Seq<char>,
    data: JsonValue,
    run_at: Timestamp,
    interval: Option<i64>,
    tags: Option<Seq<Seq<char>>>,
) -> StatementView {
    StatementView {
        sql: INSERT_SQL@,
        params: seq![
            SqlValueView::Text(id),
            SqlValueView::Json(data),
            SqlValueView::Text(name),
            SqlValueView::Timestamp(run_at),
            SqlValueView::OptionalBigInt(interval),
            SqlValueView::OptionalJson(
                match tags {
                    Some(list) => Some(JsonValue::strings(list)),
                    None => None,
                },
            ),
        ],
    }
}

/// The statement that inserts a job under the given identifier. The status,
/// `created_at` and `updated_at` are left to the defaults of the table: the
/// job is queued, as of now. The tags are stored as a JSON array of strings.
pub fn enqueue_as(
    id: &str,
    name: &str,
    data: Json,
    run_at: Timestamp,
    interval: Option<i64>,
    tags: Option<Vec<String>>,
) -> (statement: Statement)
    ensures
        statement@ == insert_statement(
            id@,
            name@,
            data@,
            run_at,
            interval,
            optional_texts(tags),
        ),
{
    let tags_json = match &tags {
        Some(list) => Some(Json::strings(list.as_slice())),
        None => None,
    };
    let mut params: Vec<SqlValue> = Vec::new();
    params.push(SqlValue::Text(id.to_owned()));
    params.push(SqlValue::Json(data));
    params.push(SqlValue::Text(name.to_owned()));
    params.push(SqlValue::Timestamp(run_at));
    params.push(SqlValue::OptionalBigInt(interval));
    params.push(SqlValue::OptionalJson(tags_json));
    let statement = Statement { sql: INSERT_SQL.to_owned(), params };
    assert(statement@.params =~= insert_statement(
        id@,
        name@,
        data@,
        run_at,
        interval,
        optional_texts(tags),
    ).params);
    statement
}

/// Gives a job a fresh identifier and builds the statement that inserts it.
/// Returns the identifier with the statement.
pub fn enqueue(
    name: &str,
    data: Json,
    run_at: Timestamp,
    interval: Option<i64>,
    tags: Option<Vec<String>>,
) -> (queued: (String, Statement))
    ensures
        is_job_id(queued.0@),
        queued.1@ == insert_statement(
            queued.0@,
            name@,
            data@,
            run_at,
            interval,
            optional_texts(tags),
        ),
{
    let id = fresh_id();
    let statement = enqueue_as(id.as_str(), name, data, run_at, interval, tags);
    (id, statement)
}

/// The condition that the tags of a row hold the tag bound at a position.
pub open spec fn tag_condition(position: nat) -> Seq<char> {
    CLAIM_TAG@ + decimal(position)
}

/// The conditions for the first `count` tags of a worker, joined by `OR`.
/// The first tag is bound at position 2.
pub open spec fn tag_conditions(count: nat) -> Seq<char>
    decreases count,
{
    if count == 0 {
        Seq::empty()
    } else if count == 1 {
        tag_condition(2)
    } else {
        tag_conditions((count - 1) as nat) + CLAIM_TAG_JOIN@ + tag_condition(count + 1)
    }
}

/// The part of the claim query that filters by tags: a worker without tags
/// sees the rows without tags, a worker with tags the rows that hold one of
/// them.
pub open spec fn tag_filter_sql(count: nat) -> Seq<char> {
    if count == 0 {
        CLAIM_UNTAGGED@
    } else {
        CLAIM_TAGGED@ + CLAIM_TAGS_OPEN@ + tag_conditions(count) + CLAIM_TAGS_CLOSE@
    }
}

/// The text of the claim query for a worker with `count` tags.
pub open spec fn dequeue_sql(count: nat) -> Seq<char> {
    CLAIM_HEAD@ + tag_filter_sql(count) + CLAIM_TAIL@
}

/// The values that the claim query binds: the stored name of the queued
/// status, then the tags of the worker.
pub open spec fn dequeue_params(tags: Seq<Seq<char>>) -> Seq<SqlValueView> {
    Seq::new(
        tags.len() + 1,
        |i: int|
            if i == 0 {
                SqlValueView::Text(JobStatus::Queued.text())
            } else {
                SqlValueView::Text(tags[i - 1])
            },
    )
}

/// The query by which a worker claims a job: the queued row that is due,
/// matches the worker's tags and has the earliest `run_at`, at most one,
/// locked for update, skipping the rows that other transactions hold locked.
pub fn dequeue(worker_tags: &[String]) -> (statement: Statement)
    ensures
        statement@ == (StatementView {
            sql: dequeue_sql(worker_tags@.len()),
            params: dequeue_params(texts(worker_tags@)),
        }),
{
    let mut sql = CLAIM_HEAD.to_owned();
    let mut params: Vec<SqlValue> = Vec::new();
    params.push(SqlValue::Text(JobStatus::Queued.to_string()));
    if worker_tags.len() == 0 {
        sql.append(CLAIM_UNTAGGED);
    } else {
        sql.append(CLAIM_TAGGED);
        sql.append(CLAIM_TAGS_OPEN);
        let ghost head = sql@;
        let mut i: usize = 0;
        while i < worker_tags.len()
            invariant
                i <= worker_tags.len(),
                sql@ == head + tag_conditions(i as nat),
                params@.len() == i + 1,
                params@[0]@ == SqlValueView::Text(JobStatus::Queued.text()),
                forall|k: int|
                    1 <= k <= i ==> (#[trigger] params@[k])@ == SqlValueView::Text(
                        worker_tags@[k - 1]@,
                    ),
            decreases worker_tags.len() - i,
        {
            if i > 0 {
                sql.append(CLAIM_TAG_JOIN);
            }
            sql.append(CLAIM_TAG);
            let position: u128 = i as u128 + 2;
            let number = decimal_text(position);
            sql.append(number.as_str());
            params.push(SqlValue::Text(worker_tags[i].clone()));
            proof {
                if i == 0 {
                } else {
                }
            }
            i += 1;
        }
        sql.append(CLAIM_TAGS_CLOSE);
        assert(sql@ =~= CLAIM_HEAD@ + tag_filter_sql(worker_tags@.len()));
    }
    sql.append(CLAIM_TAIL);
    let statement = Statement { sql, params };
    assert(statement@.params =~= dequeue_params(texts(worker_tags@)));
    statement
}

/// The statement that moves the row of a claimed job to processing.
pub open spec fn claim_statement(id: Seq<char>) -> StatementView {
    StatementView {
        sql: MARK_PROCESSING_SQL@,
        params: seq![
            SqlValueView::Text(JobStatus::Processing.text()),
            SqlValueView::Text(id),
        ],
    }
}

/// Decides what follows the claim query, inside its transaction. Where the
/// query found a row, the job is read from it and comes back with the
/// statement that moves the row to processing; the transaction is then
/// committed. Where it found none, nothing is left to do. A row that cannot
/// be read is an error, and its row is left as it is.
pub fn claim_row(row: Option<&JobRow>) -> (claim: Result<Option<(Job, Statement)>, Error>)
    ensures
        match claim {
            Ok(Some((job, update))) => row.is_some() && row.unwrap().job() == Some(job@)
                && update@ == claim_statement(job@.id),
            Ok(None) => row.is_none(),
            Err(e) => row.is_some() && row.unwrap().job().is_none() && e@
                == invalid_status_message(),
        },
{
    match row {
        Some(found) => match to_job(found) {
            Ok(job) => {
                let mut params: Vec<SqlValue> = Vec::new();
                params.push(SqlValue::Text(JobStatus::Processing.to_string()));
                params.push(SqlValue::Text(job.id.clone()));
                let update = Statement { sql: MARK_PROCESSING_SQL.to_owned(), params };
                assert(update@.params =~= claim_statement(job@.id).params);
                Ok(Some((job, update)))
            },
            Err(e) => Err(e),
        },
        None => Ok(None),
    }
}

/// The statement that records the completion of a job at `now`.
pub open spec fn completion_statement(
    now: Timestamp,
    id: Seq<char>,
    interval: Option<i64>,
) -> StatementView {
    StatementView {
        sql: COMPLETE_SQL@,
        params: seq![
            SqlValueView::Text(completed_status(interval).text()),
            SqlValueView::Timestamp(completed_run_at(now, interval) as i64),
            SqlValueView::Text(id),
        ],
    }
}

/// The statement that records the completion of a job at the instant `now`.
pub fn complete_job_at(now: Timestamp, id: &str, interval: Option<i64>) -> (statement: Statement)
    requires
        completion_in_range(now, interval),
    ensures
        statement@ == completion_statement(now, id@, interval),
{
    let (status, run_at) = completion(now, interval);
    let mut params: Vec<SqlValue> = Vec::new();
    params.push(SqlValue::Text(status.to_string()));
    params.push(SqlValue::Timestamp(run_at));
    params.push(SqlValue::Text(id.to_owned()));
    let statement = Statement { sql: COMPLETE_SQL.to_owned(), params };
    assert(statement@.params =~= completion_statement(now, id@, interval).params);
    statement
}

/// The message of the error that a completion gives whose next run no
/// timestamp can hold.
pub open spec fn out_of_range_message() -> Seq<char> {
    OUT_OF_RANGE@
}

/// Reads the clock and builds the statement that records the completion of a
/// job as of then. An interval that carries the next run past the last
/// instant that a timestamp can hold is an error.
pub fn complete_job(id: &str, interval: Option<i64>) -> (built: Result<Statement, Error>)
    ensures
        match built {
            Ok(statement) => exists|at: Timestamp|
                completion_in_range(at, interval) && statement@ == #[trigger] completion_statement(
                    at,
                    id@,
                    interval,
                ),
            Err(e) => interval.is_some() && e@ == out_of_range_message(),
        },
{
    let at = now();
    if completion_fits(at, interval) {
        Ok(complete_job_at(at, id, interval))
    } else {
        Err(Error::string(OUT_OF_RANGE))
    }
}

/// The statement that records the failure of a job with a message.
pub open spec fn failure_statement(id: Seq<char>, message: Seq<char>) -> StatementView {
    StatementView {
        sql: FAIL_SQL@,
        params: seq![
            SqlValueView::Text(JobStatus::Failed.text()),
            SqlValueView::Json(JsonValue::error_object(message)),
            SqlValueView::Text(id),
        ],
    }
}

/// The statement that records the failure of a job: the row becomes failed,
/// and the object `{"error": message}` is concatenated to its payload.
pub fn fail_job(id: &str, error: &Error) -> (statement: Statement)
    ensures
        statement@ == failure_statement(id@, error@),
{
    let message = error.to_string();
    let mut params: Vec<SqlValue> = Vec::new();
    params.push(SqlValue::Text(JobStatus::Failed.to_string()));
    params.push(SqlValue::Json(Json::error_object(message.as_str())));
    params.push(SqlValue::Text(id.to_owned()));
    let statement = Statement { sql: FAIL_SQL.to_owned(), params };
    assert(statement@.params =~= failure_statement(id@, error@).params);
    statement
}

/// The statement that cancels the queued jobs of a name.
pub open spec fn cancel_statement(name: Seq<char>) -> StatementView {
    StatementView {
        sql: CANCEL_SQL@,
        params: seq![
            SqlValueView::Text(JobStatus::Cancelled.text()),
            SqlValueView::Text(name),
            SqlValueView::Text(JobStatus::Queued.text()),
        ],
    }
}

/// The statement that cancels every queued job of a name. Rows in any other
/// status, those being processed among them, are not touched.
pub fn cancel_jobs_by_name(name: &str) -> (statement: Statement)
    ensures
        statement@ == cancel_statement(name@),
{
    let mut params: Vec<SqlValue> = Vec::new();
    params.push(SqlValue::Text(JobStatus::Cancelled.to_string()));
    params.push(SqlValue::Text(name.to_owned()));
    params.push(SqlValue::Text(JobStatus::Queued.to_string()));
    let statement = Statement { sql: CANCEL_SQL.to_owned(), params };
    assert(statement@.params =~= cancel_statement(name@).params);
    statement
}

/// The statement that deletes every job.
pub fn clear() -> (statement: Statement)
    ensures
        statement@ == (StatementView { sql: CLEAR_SQL@, params: Seq::empty() }),
{
    let statement = Statement { sql: CLEAR_SQL.to_owned(), params: Vec::new() };
    assert(statement@.params =~= Seq::empty());
    statement
}

/// The statement that deletes every job whose status is one of the given.
pub fn clear_by_status(status: Vec<JobStatus>) -> (statement: Statement)
    ensures
        statement@ == (StatementView {
            sql: CLEAR_BY_STATUS_SQL@,
            params: seq![SqlValueView::TextArray(status_texts(status@))],
        }),
{
    let mut params: Vec<SqlValue> = Vec::new();
    params.push(SqlValue::TextArray(status_names(status.as_slice())));
    let statement = Statement { sql: CLEAR_BY_STATUS_SQL.to_owned(), params };
    assert(statement@.params =~= seq![SqlValueView::TextArray(status_texts(status@))]);
    statement
}

/// The statement that deletes the jobs created more than a number of days
/// ago, of any status or of the given ones.
pub open spec fn purge_statement(age_days: i64, status: Option<Seq<JobStatus>>) -> StatementView {
    match status {
        Some(list) => StatementView {
            sql: PURGE_SQL@ + PURGE_BY_STATUS@,
            params: seq![
                SqlValueView::BigInt(age_days),
                SqlValueView::TextArray(status_texts(list)),
            ],
        },
        None => StatementView {
            sql: PURGE_SQL@,
            params: seq![SqlValueView::BigInt(age_days)],
        },
    }
}

/// The statement that deletes every job created more than `age_days` days
/// ago; where statuses are given, only those whose status is one of them.
/// The statuses are bound, not written into the text.
pub fn clear_jobs_older_than(age_days: i64, status: Option<&Vec<JobStatus>>) -> (statement:
    Statement)
    ensures
        statement@ == purge_statement(
            age_days,
            match status {
                Some(list) => Some(list@),
                None => None,
            },
        ),
{
    let mut sql = PURGE_SQL.to_owned();
    let mut params: Vec<SqlValue> = Vec::new();
    params.push(SqlValue::BigInt(age_days));
    match status {
        Some(list) => {
            sql.append(PURGE_BY_STATUS);
            params.push(SqlValue::TextArray(status_names(list.as_slice())));
            let statement = Statement { sql, params };
            assert(statement@.params =~= purge_statement(age_days, Some(list@)).params);
            statement
        },
        None => {
            let statement = Statement { sql, params };
            assert(statement@.params =~= purge_statement(age_days, None).params);
            statement
        },
    }
}

/// The text that requeues the jobs that have been processing for a number
/// of minutes.
pub open spec fn requeue_sql(age_minutes: i64) -> Seq<char> {
    REQUEUE_HEAD@ + signed_decimal(age_minutes as int) + REQUEUE_TAIL@
}

/// The statement that returns to the queue every job that is processing and
/// was last updated at least `age_minutes` minutes ago.
pub fn requeue(age_minutes: &i64) -> (statement: Statement)
    ensures
        statement@ == (StatementView {
            sql: requeue_sql(*age_minutes),
            params: seq![
                SqlValueView::Text(JobStatus::Queued.text()),
                SqlValueView::Text(JobStatus::Processing.text()),
            ],
        }),
{
    let mut sql = REQUEUE_HEAD.to_owned();
    let minutes = signed_decimal_text(*age_minutes);
    sql.append(minutes.as_str());
    sql.append(REQUEUE_TAIL);
    let mut params: Vec<SqlValue> = Vec::new();
    params.push(SqlValue::Text(JobStatus::Queued.to_string()));
    params.push(SqlValue::Text(JobStatus::Processing.to_string()));
    let statement = Statement { sql, params };
    assert(statement@.params =~= seq![
        SqlValueView::Text(JobStatus::Queued.text()),
        SqlValueView::Text(JobStatus::Processing.text()),
    ]);
    statement
}

/// The statement that confirms that the table can be reached.
pub fn ping() -> (statement: Statement)
    ensures
        statement@ == (StatementView { sql: PING_SQL@, params: Seq::empty() }),
{
    let statement = Statement { sql: PING_SQL.to_owned(), params: Vec::new() };
    assert(statement@.params =~= Seq::empty());
    statement
}

/// The text that lists jobs, with its two optional filters.
pub open spec fn listing_sql(by_status: bool, age_days: Option<i64>) -> Seq<char> {
    LIST_SQL@ + (if by_status {
        LIST_BY_STATUS@
    } else {
        Seq::empty()
    }) + (match age_days {
        Some(days) => LIST_BY_AGE@ + signed_decimal(
            days as int,
        ),
        None => Seq::empty(),
    })
}

/// The query that lists the jobs: all of them, or those whose status is one
/// of the given, or those created at least `age_days` days ago, or both.
/// The rows that come back are read with [`crate::job::collect_jobs`].
pub fn get_jobs(status: Option<&Vec<JobStatus>>, age_days: Option<i64>) -> (statement: Statement)
    ensures
        statement@.sql == listing_sql(status.is_some(), age_days),
        statement@.params == (match status {
            Some(list) => seq![SqlValueView::TextArray(status_texts(list@))],
            None => Seq::empty(),
        }),
{
    let mut sql = LIST_SQL.to_owned();
    let mut params: Vec<SqlValue> = Vec::new();
    match status {
        Some(list) => {
            sql.append(LIST_BY_STATUS);
            params.push(SqlValue::TextArray(status_names(list.as_slice())));
        },
        None => {},
    }
    match age_days {
        Some(days) => {
            sql.append(LIST_BY_AGE);
            let number = signed_decimal_text(days);
            sql.append(number.as_str());
        },
        None => {
        },
    }
    let statement = Statement { sql, params };
    proof {
        match status {
            Some(list) => {
            },
            None => {
            },
        }
    }
    statement
}

} // verus!
