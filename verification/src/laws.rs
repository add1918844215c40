//! What holds of the queue whatever its rows, its workers and the time.

use vstd::prelude::*;

use crate::job::{JobView, Timestamp};
use crate::registry::RegistryView;
use crate::lifecycle::completion_in_range;
use crate::status::JobStatus;
use crate::table::{is_claim, status_passes, TableView, MICROS_PER_MINUTE};
use crate::tags::tags_match;
use crate::worker::{action_of, next_state, ActionView, StateView, WorkerEvent};

verus! {

/// One request for a claim: the tags of the worker and the instant.
pub struct ClaimRequest {
    pub worker_tags: Seq<Seq<char>>,
    pub now: Timestamp,
}

/// The table after a series of claims, one after the other.
pub open spec fn after_claims(table: TableView, requests: Seq<ClaimRequest>) -> TableView
    decreases requests.len(),
{
    if requests.len() == 0 {
        table
    } else {
        after_claims(table, requests.drop_last()).dequeue(
            requests.last().worker_tags,
            requests.last().now,
        )
    }
}

/// What a series of claims hands out, one after the other.
pub open spec fn claim_results(
    table: TableView,
    requests: Seq<ClaimRequest>,
) -> Seq<Option<JobView>>
    decreases requests.len(),
{
    if requests.len() == 0 {
        Seq::empty()
    } else {
        claim_results(table, requests.drop_last()).push(
            after_claims(table, requests.drop_last()).dequeued(
                requests.last().worker_tags,
                requests.last().now,
            ),
        )
    }
}

/// A claim hands out a job exactly when some row is eligible, and then the
/// job of an eligible row: one that was queued, due and matched the tags of
/// the worker, and than which no eligible row was due earlier.
pub proof fn lemma_claim_takes_earliest_eligible(
    table: TableView,
    worker_tags: Seq<Seq<char>>,
    now: Timestamp,
)
    ensures
        table.dequeued(worker_tags, now) is Some <==> exists|i: int|
            0 <= i < table.rows.len() && (#[trigger] table.rows[i]).eligible(
                worker_tags,
                table.instant(now),
            ),
        table.dequeued(worker_tags, now) is Some ==> {
            let at = table.instant(now);
            let i = table.claim_index(worker_tags, at)->Some_0;
            &&& 0 <= i < table.rows.len()
            &&& table.dequeued(worker_tags, now) == Some(table.rows[i].as_claimed())
            &&& table.rows[i].status == JobStatus::Queued
            &&& table.rows[i].run_at <= at
            &&& tags_match(worker_tags, table.rows[i].tags)
            &&& forall|j: int|
                0 <= j < table.rows.len() && (#[trigger] table.rows[j]).eligible(worker_tags, at)
                    ==> table.rows[i].run_at <= table.rows[j].run_at
        },
{
    let at = table.instant(now);
    if exists|i: int|
        0 <= i < table.rows.len() && (#[trigger] table.rows[i]).eligible(worker_tags, at) {
        lemma_some_row_is_claim(table.rows, worker_tags, at, table.rows.len() as int);
        assert(table.rows.take(table.rows.len() as int) =~= table.rows);
    }
}

/// Among the first `limit` rows, where one is eligible, one is the first of
/// those that are due earliest.
proof fn lemma_some_row_is_claim(
    rows: Seq<JobView>,
    worker_tags: Seq<Seq<char>>,
    at: Timestamp,
    limit: int,
)
    requires
        0 <= limit <= rows.len(),
        exists|i: int| 0 <= i < limit && (#[trigger] rows[i]).eligible(worker_tags, at),
    ensures
        exists|c: int| #[trigger] is_claim(rows.take(limit), worker_tags, at, c),
    decreases limit,
{
    let head = rows.take(limit);
    let shorter = rows.take(limit - 1);
    let last = limit - 1;
    if exists|i: int| 0 <= i < last && (#[trigger] rows[i]).eligible(worker_tags, at) {
        lemma_some_row_is_claim(rows, worker_tags, at, last);
        let c = choose|c: int| #[trigger] is_claim(shorter, worker_tags, at, c);
        if rows[last].eligible(worker_tags, at) && rows[last].run_at < rows[c].run_at {
            assert(is_claim(head, worker_tags, at, last));
        } else {
            assert(is_claim(head, worker_tags, at, c));
        }
    } else {
        assert(is_claim(head, worker_tags, at, last));
    }
}

/// Tag routing at the claim: a worker without tags is handed only jobs
/// without a tag list, and a worker with tags only jobs that carry one of
/// its tags.
pub proof fn lemma_claim_respects_tags(
    table: TableView,
    worker_tags: Seq<Seq<char>>,
    now: Timestamp,
)
    ensures
        table.dequeued(worker_tags, now) is Some ==> {
            let i = table.claim_index(worker_tags, table.instant(now))->Some_0;
            &&& worker_tags.len() == 0 ==> table.rows[i].tags is None
            &&& worker_tags.len() > 0 ==> table.rows[i].tags is Some && exists|t: Seq<char>|
                worker_tags.contains(t) && table.rows[i].tags->Some_0.contains(t)
        },
{
}

/// Preference by due time: of two eligible jobs, the one that is due later is
/// not claimed while the other is there.
pub proof fn lemma_earlier_job_is_preferred(
    table: TableView,
    worker_tags: Seq<Seq<char>>,
    now: Timestamp,
    earlier: int,
    later: int,
)
    requires
        0 <= earlier < table.rows.len(),
        0 <= later < table.rows.len(),
        table.rows[earlier].eligible(worker_tags, table.instant(now)),
        table.rows[later].eligible(worker_tags, table.instant(now)),
        table.rows[earlier].run_at < table.rows[later].run_at,
    ensures
        table.claim_index(worker_tags, table.instant(now)) is Some,
        table.claim_index(worker_tags, table.instant(now)) != Some(later),
{
    lemma_claim_takes_earliest_eligible(table, worker_tags, now);
}

/// A claim changes the rows of the claimed identifier and no others: they
/// become processing, as of the instant of the claim. No row joins or
/// leaves, and where nothing is handed out no row changes.
pub proof fn lemma_claim_marks_processing(
    table: TableView,
    worker_tags: Seq<Seq<char>>,
    now: Timestamp,
)
    ensures
        table.dequeue(worker_tags, now).rows.len() == table.rows.len(),
        table.dequeue(worker_tags, now).clock == table.instant(now),
        table.dequeued(worker_tags, now) is None ==> table.dequeue(worker_tags, now).rows
            == table.rows,
        table.dequeued(worker_tags, now) is Some ==> forall|i: int|
            0 <= i < table.rows.len() ==> (#[trigger] table.dequeue(worker_tags, now).rows[i]) == (
            if table.rows[i].id == table.dequeued(worker_tags, now)->Some_0.id {
                JobView {
                    status: JobStatus::Processing,
                    updated_at: Some(table.instant(now)),
                    ..table.rows[i]
                }
            } else {
                table.rows[i]
            }),
{
}

/// Exactly-once claim: once a job was handed to a worker, no claim hands it
/// out again, whichever worker asks and whenever, until some other
/// operation returns it to the queue.
pub proof fn lemma_claimed_once(
    table: TableView,
    first: ClaimRequest,
    second: ClaimRequest,
)
    requires
        table.dequeued(first.worker_tags, first.now) is Some,
    ensures
        ({
            let job = table.dequeued(first.worker_tags, first.now)->Some_0;
            let after = table.dequeue(first.worker_tags, first.now);
            after.dequeued(second.worker_tags, second.now) matches Some(other) ==> other.id
                != job.id
        }),
{
}

/// Whether no row of the given identifier is queued.
pub open spec fn none_queued(table: TableView, id: Seq<char>) -> bool {
    forall|i: int|
        0 <= i < table.rows.len() && (#[trigger] table.rows[i]).id == id ==> table.rows[i].status
            != JobStatus::Queued
}

/// Exactly-once claim under contention: in any series of claims, by any
/// number of workers with any tags at any instants, no two claims hand out
/// the same job.
pub proof fn lemma_no_job_claimed_twice(
    table: TableView,
    requests: Seq<ClaimRequest>,
    first: int,
    second: int,
)
    requires
        0 <= first < second < requests.len(),
        claim_results(table, requests)[first] is Some,
        claim_results(table, requests)[second] is Some,
    ensures
        claim_results(table, requests)[first]->Some_0.id != claim_results(
            table,
            requests,
        )[second]->Some_0.id,
    decreases requests.len(),
{
    let shorter = requests.drop_last();
    lemma_claim_results_len(table, shorter);
    if second < requests.len() - 1 {
        lemma_no_job_claimed_twice(table, shorter, first, second);
    } else {
        lemma_claimed_stays_claimed(table, shorter, first);
    }
}

/// A series of claims hands out as many results as it has requests.
proof fn lemma_claim_results_len(table: TableView, requests: Seq<ClaimRequest>)
    ensures
        claim_results(table, requests).len() == requests.len(),
    decreases requests.len(),
{
    if requests.len() > 0 {
        lemma_claim_results_len(table, requests.drop_last());
    }
}

/// After a series of claims, no row of a job that one of them handed out is
/// queued.
proof fn lemma_claimed_stays_claimed(table: TableView, requests: Seq<ClaimRequest>, claim: int)
    requires
        0 <= claim < requests.len(),
        claim_results(table, requests)[claim] is Some,
    ensures
        none_queued(
            after_claims(table, requests),
            claim_results(table, requests)[claim]->Some_0.id,
        ),
    decreases requests.len(),
{
    let shorter = requests.drop_last();
    lemma_claim_results_len(table, shorter);
    if claim < requests.len() - 1 {
        lemma_claimed_stays_claimed(table, shorter, claim);
    }
}

/// No lost jobs: where the worker that claimed a job never reports back, a
/// requeue at least `age_minutes` minutes after the claim returns the rows of
/// the job to the queue, and the worker's next claim finds a job again.
pub proof fn lemma_requeue_recovers_claimed(
    table: TableView,
    worker_tags: Seq<Seq<char>>,
    claimed_at: Timestamp,
    age_minutes: i64,
    now: Timestamp,
    later: Timestamp,
)
    requires
        table.dequeued(worker_tags, claimed_at) is Some,
        now - age_minutes * MICROS_PER_MINUTE >= table.instant(claimed_at),
        now >= table.instant(claimed_at),
    ensures
        ({
            let job = table.dequeued(worker_tags, claimed_at)->Some_0;
            let swept = table.dequeue(worker_tags, claimed_at).requeue(age_minutes, now);
            &&& swept.rows.len() == table.rows.len()
            &&& forall|i: int|
                0 <= i < swept.rows.len() && (#[trigger] swept.rows[i]).id == job.id
                    ==> swept.rows[i].status == JobStatus::Queued
            &&& swept.dequeued(worker_tags, later) is Some
        }),
{
    let at = table.instant(claimed_at);
    let claimed = table.dequeue(worker_tags, claimed_at);
    let swept = claimed.requeue(age_minutes, now);
    let c = table.claim_index(worker_tags, at)->Some_0;
    assert(swept.rows[c].eligible(worker_tags, swept.instant(later)));
    lemma_claim_takes_earliest_eligible(swept, worker_tags, later);
}

/// A requeue returns to the queue exactly the jobs that are processing and
/// were last updated at least `age_minutes` minutes ago, and touches no
/// other row.
pub proof fn lemma_requeue_takes_the_stalled(table: TableView, age_minutes: i64, now: Timestamp)
    ensures
        table.requeue(age_minutes, now).rows.len() == table.rows.len(),
        forall|i: int|
            0 <= i < table.rows.len() ==> (#[trigger] table.requeue(age_minutes, now).rows[i]) == (
            if table.rows[i].stalled(age_minutes, table.instant(now)) {
                JobView {
                    status: JobStatus::Queued,
                    updated_at: Some(table.instant(now)),
                    ..table.rows[i]
                }
            } else {
                table.rows[i]
            }),
{
}

/// Periodic recurrence: completing a job that has an interval leaves it
/// queued and due that interval after the completion; completing one
/// without leaves it completed. Either way the job keeps its identifier and
/// every other row stays as it was.
pub proof fn lemma_completion(
    table: TableView,
    id: Seq<char>,
    interval: Option<i64>,
    now: Timestamp,
)
    requires
        completion_in_range(table.instant(now), interval),
    ensures
        table.complete_job(id, interval, now).rows.len() == table.rows.len(),
        forall|i: int|
            0 <= i < table.rows.len() && (#[trigger] table.rows[i]).id == id ==> {
                let done = table.complete_job(id, interval, now).rows[i];
                &&& done.id == id
                &&& done.updated_at == Some(table.instant(now))
                &&& done.created_at == table.rows[i].created_at
                &&& interval matches Some(millis) ==> done.status == JobStatus::Queued
                    && done.run_at == table.instant(now) + millis * 1000
                &&& interval is None ==> done.status == JobStatus::Completed && done.run_at
                    == table.instant(now)
            },
        forall|i: int|
            0 <= i < table.rows.len() && (#[trigger] table.rows[i]).id != id
                ==> table.complete_job(id, interval, now).rows[i] == table.rows[i],
{
}

/// A failure is recorded: the rows of the job are failed and their payload
/// holds the message.
pub proof fn lemma_failure_is_recorded(
    table: TableView,
    id: Seq<char>,
    message: Seq<char>,
    now: Timestamp,
)
    ensures
        table.fail_job(id, message, now).rows.len() == table.rows.len(),
        forall|i: int|
            0 <= i < table.rows.len() && (#[trigger] table.rows[i]).id == id ==> {
                let failed = table.fail_job(id, message, now).rows[i];
                &&& failed.status == JobStatus::Failed
                &&& failed.data == table.rows[i].data.with_error(message)
                &&& failed.data.recorded_error() == Some(message)
                &&& failed.updated_at == Some(table.instant(now))
            },
        forall|i: int|
            0 <= i < table.rows.len() && (#[trigger] table.rows[i]).id != id ==> table.fail_job(
                id,
                message,
                now,
            ).rows[i] == table.rows[i],
{
}

/// Cancelling by name cancels the queued jobs of the name and touches no
/// other row: not a job of another name, and not a job of the name that is
/// processing or has ended.
pub proof fn lemma_cancel_takes_the_queued(table: TableView, name: Seq<char>, now: Timestamp)
    ensures
        table.cancel_jobs_by_name(name, now).rows.len() == table.rows.len(),
        forall|i: int|
            0 <= i < table.rows.len() ==> (#[trigger] table.cancel_jobs_by_name(name, now).rows[i])
                == (if table.rows[i].name == name && table.rows[i].status == JobStatus::Queued {
                JobView {
                    status: JobStatus::Cancelled,
                    updated_at: Some(table.instant(now)),
                    ..table.rows[i]
                }
            } else {
                table.rows[i]
            }),
{
}

/// Whether no two rows of the table have one identifier.
pub open spec fn unique_ids(table: TableView) -> bool {
    forall|i: int, j: int|
        0 <= i < j < table.rows.len() ==> table.rows[i].id != table.rows[j].id
}

/// A job keeps its identity for life: no claim, completion, failure,
/// cancellation or requeue changes the identifier, the name, the interval,
/// the tags or the time of creation of a row, nor the number or the order
/// of the rows.
pub proof fn lemma_identity_is_kept(
    table: TableView,
    worker_tags: Seq<Seq<char>>,
    id: Seq<char>,
    interval: Option<i64>,
    message: Seq<char>,
    name: Seq<char>,
    age_minutes: i64,
    now: Timestamp,
)
    ensures
        same_identities(table, table.dequeue(worker_tags, now)),
        same_identities(table, table.complete_job(id, interval, now)),
        same_identities(table, table.fail_job(id, message, now)),
        same_identities(table, table.cancel_jobs_by_name(name, now)),
        same_identities(table, table.requeue(age_minutes, now)),
{
}

/// Whether two tables hold the same jobs in the same order, whatever became
/// of their status, payload and times.
pub open spec fn same_identities(before: TableView, after: TableView) -> bool {
    &&& after.rows.len() == before.rows.len()
    &&& forall|i: int|
        0 <= i < before.rows.len() ==> {
            &&& (#[trigger] after.rows[i]).id == before.rows[i].id
            &&& after.rows[i].name == before.rows[i].name
            &&& after.rows[i].interval == before.rows[i].interval
            &&& after.rows[i].tags == before.rows[i].tags
            &&& after.rows[i].created_at == before.rows[i].created_at
        }
}

/// Identifiers stay unique: where no two rows have one identifier, none do
/// after a job was inserted under an identifier that no row has, nor after
/// any other operation.
pub proof fn lemma_unique_ids_are_kept(
    table: TableView,
    worker_tags: Seq<Seq<char>>,
    id: Seq<char>,
    interval: Option<i64>,
    message: Seq<char>,
    name: Seq<char>,
    age_minutes: i64,
    age_days: i64,
    status: Seq<JobStatus>,
    filter: Option<Seq<JobStatus>>,
    now: Timestamp,
)
    requires
        unique_ids(table),
    ensures
        (forall|i: int| 0 <= i < table.rows.len() ==> (#[trigger] table.rows[i]).id != id)
            ==> forall|data, run_at: Timestamp, tags|
            unique_ids(#[trigger] table.enqueue_as(id, name, data, run_at, interval, tags, now)),
        unique_ids(table.dequeue(worker_tags, now)),
        unique_ids(table.complete_job(id, interval, now)),
        unique_ids(table.fail_job(id, message, now)),
        unique_ids(table.cancel_jobs_by_name(name, now)),
        unique_ids(table.requeue(age_minutes, now)),
        unique_ids(table.clear(now)),
        unique_ids(table.clear_by_status(status, now)),
        unique_ids(table.clear_jobs_older_than(age_days, filter, now)),
{
    let at = table.instant(now);
    lemma_delete_keeps_unique(
        table.rows,
        |job: JobView| !(|job: JobView| status.contains(job.status))(job),
    );
    lemma_delete_keeps_unique(
        table.rows,
        |job: JobView|
            !(|job: JobView|
                job.older_than(age_days, at) && status_passes(filter, job.status))(
                job,
            ),
    );
}

/// The rows that a filter keeps have unique identifiers where all rows have.
proof fn lemma_delete_keeps_unique(rows: Seq<JobView>, keep: spec_fn(JobView) -> bool)
    requires
        forall|i: int, j: int| 0 <= i < j < rows.len() ==> rows[i].id != rows[j].id,
    ensures
        forall|i: int, j: int|
            0 <= i < j < rows.filter(keep).len() ==> rows.filter(keep)[i].id != rows.filter(
                keep,
            )[j].id,
    decreases rows.len(),
{
    reveal(Seq::filter);
    if rows.len() > 0 {
        let front = rows.drop_last();
        lemma_delete_keeps_unique(front, keep);
        let kept = rows.filter(keep);
        if keep(rows.last()) {
            assert forall|i: int, j: int| 0 <= i < j < kept.len() implies kept[i].id
                != kept[j].id by {
                if j == kept.len() - 1 {
                    front.lemma_filter_contains_rev(keep, kept[i]);
                }
            }
        }
    }
}

/// A job that has ended stays as it ended: where no two rows have one
/// identifier, no claim, cancellation or requeue changes a row that is
/// completed, failed or cancelled.
pub proof fn lemma_ended_jobs_stay(
    table: TableView,
    worker_tags: Seq<Seq<char>>,
    name: Seq<char>,
    age_minutes: i64,
    now: Timestamp,
    row: int,
)
    requires
        unique_ids(table),
        0 <= row < table.rows.len(),
        table.rows[row].status.is_terminal(),
    ensures
        table.dequeue(worker_tags, now).rows[row] == table.rows[row],
        table.cancel_jobs_by_name(name, now).rows[row] == table.rows[row],
        table.requeue(age_minutes, now).rows[row] == table.rows[row],
{
}

/// Every operation leaves a table whose rows were created no later than
/// they were last updated, and the clock of the table never runs backwards.
pub proof fn lemma_operations_keep_rows_valid(table: TableView, now: Timestamp)
    requires
        table.wf(),
    ensures
        table.instant(now) >= table.clock,
        forall|id: Seq<char>, name: Seq<char>, data, run_at: Timestamp, interval: Option<i64>, tags|
            (#[trigger] table.enqueue_as(id, name, data, run_at, interval, tags, now)).wf(),
        forall|worker_tags: Seq<Seq<char>>| (#[trigger] table.dequeue(worker_tags, now)).wf(),
        forall|id: Seq<char>, interval: Option<i64>|
            (#[trigger] table.complete_job(id, interval, now)).wf(),
        forall|id: Seq<char>, message: Seq<char>|
            (#[trigger] table.fail_job(id, message, now)).wf(),
        forall|name: Seq<char>| (#[trigger] table.cancel_jobs_by_name(name, now)).wf(),
        forall|age_minutes: i64| (#[trigger] table.requeue(age_minutes, now)).wf(),
        table.clear(now).wf(),
        forall|status: Seq<JobStatus>| (#[trigger] table.clear_by_status(status, now)).wf(),
        forall|age_days: i64, status: Option<Seq<JobStatus>>|
            (#[trigger] table.clear_jobs_older_than(age_days, status, now)).wf(),
{
    let at = table.instant(now);
    assert forall|status: Seq<JobStatus>| (#[trigger] table.clear_by_status(status, now)).wf() by {
        lemma_delete_keeps_rows_valid(table, at, |job: JobView| status.contains(job.status));
    }
    assert forall|age_days: i64, status: Option<Seq<JobStatus>>|
        (#[trigger] table.clear_jobs_older_than(age_days, status, now)).wf() by {
        lemma_delete_keeps_rows_valid(
            table,
            at,
            |job: JobView|
                job.older_than(age_days, at) && status_passes(status, job.status),
        );
    }
}

/// Deleting rows leaves the rows that stay as they were.
proof fn lemma_delete_keeps_rows_valid(
    table: TableView,
    at: Timestamp,
    chosen: spec_fn(JobView) -> bool,
)
    requires
        table.wf(),
        at >= table.clock,
    ensures
        table.delete_where(at, chosen).wf(),
{
    let after = table.delete_where(at, chosen);
    let keep = |job: JobView| !chosen(job);
    assert forall|i: int| 0 <= i < after.rows.len() implies (#[trigger] after.rows[i]).is_row(
        after.clock,
    ) by {
        let job = after.rows[i];
        table.rows.lemma_filter_contains_rev(keep, job);
    }
}

/// A purge by status leaves exactly the jobs of the other statuses, in their
/// order.
pub proof fn lemma_clear_by_status(table: TableView, status: Seq<JobStatus>, now: Timestamp)
    ensures
        forall|job: JobView|
            table.clear_by_status(status, now).rows.contains(job) <==> (table.rows.contains(job)
                && !status.contains(job.status)),
        table.clear_by_status(status, now).rows.len() <= table.rows.len(),
{
    let keep = |job: JobView| !(|job: JobView| status.contains(job.status))(job);
    assert forall|job: JobView|
        table.clear_by_status(status, now).rows.contains(job) <==> (table.rows.contains(job)
            && !status.contains(job.status)) by {
        if table.rows.filter(keep).contains(job) {
            table.rows.lemma_filter_contains_rev(keep, job);
        }
    }
}

/// A worker that was handed a job does not sleep before it asks for the
/// next: whatever the job's handler returns, and whether or not the outcome
/// could be recorded, the worker is back at the top of its loop.
pub proof fn lemma_worker_drains_without_sleep(
    job: JobView,
    slot: int,
    handled: WorkerEvent,
    recorded: WorkerEvent,
    registry: RegistryView,
)
    requires
        handled is Handled,
        recorded is Recorded,
    ensures
        ({
            let running = StateView::Running { job, slot };
            let recording = next_state(running, handled, registry);
            &&& handled->Handled_0 is Ok ==> recording == StateView::Completing { job }
            &&& handled->Handled_0 is Err ==> recording == (StateView::Failing {
                job,
                message: handled->Handled_0->Err_0@,
            })
            &&& next_state(recording, recorded, registry) == StateView::Ready
        }),
{
}

/// The outcome of a handler decides what is recorded: the completion of the
/// claimed job with its own interval, or its failure with the message of
/// the error.
pub proof fn lemma_worker_records_outcome(job: JobView, message: Seq<char>, poll_interval_sec: u32)
    ensures
        action_of(StateView::Completing { job }, poll_interval_sec) == (ActionView::Complete {
            job_id: job.id,
            interval: job.interval,
        }),
        action_of(StateView::Failing { job, message }, poll_interval_sec) == (ActionView::Fail {
            job_id: job.id,
            message,
        }),
{
}

/// Cancellation wins: a worker that is told of it at the top of its loop or
/// in its sleep stops, and a worker that has stopped stays so.
pub proof fn lemma_worker_stops_on_cancellation(event: WorkerEvent, registry: RegistryView)
    ensures
        next_state(StateView::Ready, WorkerEvent::Cancellation(true), registry)
            == StateView::Stopped,
        next_state(StateView::Sleeping, WorkerEvent::Woken { cancelled: true }, registry)
            == StateView::Stopped,
        next_state(StateView::Stopped, event, registry) == StateView::Stopped,
{
}

/// A worker stops for no reason but cancellation, and only where it may:
/// a step that ends in the stopped state began there, or at the top of the
/// loop or in the sleep with the word of a cancellation. A worker that holds
/// a claimed job does not stop before the outcome is recorded, whatever it
/// is told.
pub proof fn lemma_worker_stops_only_on_cancellation(
    state: StateView,
    event: WorkerEvent,
    registry: RegistryView,
)
    requires
        next_state(state, event, registry) is Stopped,
    ensures
        ({
            ||| state is Stopped
            ||| (state is Ready && event == WorkerEvent::Cancellation(true))
            ||| (state is Sleeping && event == (WorkerEvent::Woken { cancelled: true }))
        }),
{
}

/// A worker sleeps only after a claim that handed it nothing, and a job
/// without a handler is neither completed nor failed: it is reported and
/// left as claimed.
pub proof fn lemma_worker_claim_outcomes(event: WorkerEvent, registry: RegistryView)
    requires
        event is Claimed,
    ensures
        ({
            let next = next_state(StateView::Claiming, event, registry);
            match event->Claimed_0 {
                Ok(Some(job)) => match registry.slot_of(job@.name) {
                    Some(slot) => next == (StateView::Running { job: job@, slot }),
                    None => next == (StateView::Unhandled { job: job@ }) && next_state(
                        next,
                        WorkerEvent::Reported,
                        registry,
                    ) == StateView::Ready,
                },
                _ => next == StateView::Sleeping,
            }
        }),
{
}

/// One turn of a worker against the table. A worker that is not cancelled
/// claims; with the claimed job and a handler for its name it runs the
/// handler; where the handler fails or panics, what the worker asks to have
/// recorded leaves the rows of the job failed with the message in their
/// payload, and where it succeeds, completed, or queued again where the job
/// recurs. Either way the worker is then at the top of its loop, not
/// stopped.
pub proof fn lemma_dispatch_turn(
    table: TableView,
    registry: RegistryView,
    worker_tags: Seq<Seq<char>>,
    claimed: WorkerEvent,
    handled: WorkerEvent,
    recorded: WorkerEvent,
    poll_interval_sec: u32,
    now: Timestamp,
    later: Timestamp,
)
    requires
        claimed matches WorkerEvent::Claimed(Ok(Some(job))) && table.dequeued(worker_tags, now)
            == Some(job@) && registry.slot_of(job@.name) is Some,
        handled is Handled,
        recorded is Recorded,
        handled->Handled_0 is Ok ==> completion_in_range(
            table.dequeue(worker_tags, now).instant(later),
            table.dequeued(worker_tags, now)->Some_0.interval,
        ),
    ensures
        ({
            let job = table.dequeued(worker_tags, now)->Some_0;
            let at_work = table.dequeue(worker_tags, now);
            let claiming = next_state(StateView::Ready, WorkerEvent::Cancellation(false), registry);
            let running = next_state(claiming, claimed, registry);
            let recording = next_state(running, handled, registry);
            let asked = action_of(recording, poll_interval_sec);
            &&& claiming == StateView::Claiming
            &&& running == (StateView::Running { job, slot: registry.slot_of(job.name)->Some_0 })
            &&& action_of(running, poll_interval_sec) == (ActionView::Invoke {
                slot: registry.slot_of(job.name)->Some_0,
                job_id: job.id,
                data: job.data,
            })
            &&& next_state(recording, recorded, registry) == StateView::Ready
            &&& match handled->Handled_0 {
                Ok(()) => {
                    &&& asked == (ActionView::Complete { job_id: job.id, interval: job.interval })
                    &&& forall|i: int|
                        0 <= i < table.rows.len() && (#[trigger] table.rows[i]).id == job.id
                            ==> at_work.complete_job(job.id, job.interval, later).rows[i].status
                            == (if job.interval is Some {
                            JobStatus::Queued
                        } else {
                            JobStatus::Completed
                        })
                },
                Err(e) => {
                    &&& asked == (ActionView::Fail { job_id: job.id, message: e@ })
                    &&& forall|i: int|
                        0 <= i < table.rows.len() && (#[trigger] table.rows[i]).id == job.id ==> {
                            let row = at_work.fail_job(job.id, e@, later).rows[i];
                            row.status == JobStatus::Failed && row.data.recorded_error() == Some(
                                e@,
                            )
                        }
                },
            }
        }),
{
    match handled->Handled_0 {
        Ok(()) => {
        },
        Err(e) => {
        },
    }
}

} // verus!
