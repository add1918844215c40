//! What the completion of a job leaves: a job that has ended, or, where
//! the job recurs, the same job queued for its next run.

use vstd::prelude::*;

use crate::job::Timestamp;
use crate::status::JobStatus;

verus! {

/// The status in which a completion leaves a job: a job that recurs is
/// queued again, any other job is completed.
pub open spec fn completed_status(interval: Option<i64>) -> JobStatus {
    match interval {
        Some(_) => JobStatus::Queued,
        None => JobStatus::Completed,
    }
}

/// The instant at which a job completed at `now` runs next: `now` itself, or,
/// for a job that recurs, its interval of milliseconds later.
pub open spec fn completed_run_at(now: Timestamp, interval: Option<i64>) -> int {
    match interval {
        Some(millis) => now + millis * 1000,
        None => now as int,
    }
}

/// Whether the next run of a job completed at `now` is an instant that a
/// timestamp can hold.
pub open spec fn completion_in_range(now: Timestamp, interval: Option<i64>) -> bool {
    i64::MIN <= completed_run_at(now, interval) <= i64::MAX
}

/// The status and the next run of a job completed at `now`.
pub fn completion(now: Timestamp, interval: Option<i64>) -> (outcome: (JobStatus, Timestamp))
    requires
        completion_in_range(now, interval),
    ensures
        outcome.0 == completed_status(interval),
        outcome.1 == completed_run_at(now, interval),
{
    match interval {
        Some(millis) => {
            let run_at: i128 = now as i128 + millis as i128 * 1000;
            (JobStatus::Queued, run_at as i64)
        },
        None => (JobStatus::Completed, now),
    }
}

/// Whether the next run of a job completed at `now` is an instant that a
/// timestamp can hold.
pub fn completion_fits(now: Timestamp, interval: Option<i64>) -> (fits: bool)
    ensures
        fits == completion_in_range(now, interval),
{
    match interval {
        Some(millis) => {
            let run_at: i128 = now as i128 + millis as i128 * 1000;
            -9223372036854775808i128 <= run_at && run_at <= 9223372036854775807i128
        },
        None => true,
    }
}

} // verus!
