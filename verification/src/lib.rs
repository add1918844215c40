//! A durable background job queue whose authoritative state is one table of a
//! relational database with row-level locking.
//!
//! The crate holds the rules of the queue: the life cycle of a job, the
//! predicate by which a worker claims one, the statements sent to the database,
//! the materialisation of rows, the handler registry and the dispatch loop of a
//! worker, each with a contract that is proved.

pub mod clock;
pub mod config;
pub mod database;
pub mod error;
pub mod ids;
pub mod job;
pub mod json;
pub mod laws;
pub mod lifecycle;
pub mod registry;
pub mod statement;
pub mod status;
pub mod table;
pub mod tags;
pub mod text;
pub mod worker;

pub use crate::config::{create_provider, PostgresQueueConfig};
pub use crate::database::Database;
pub use crate::error::Error;
pub use crate::job::{collect_jobs, to_job, Job, JobData, JobId, JobRow, Timestamp};
pub use crate::json::Json;
pub use crate::registry::{handler_result, HandlerRun, JobRegistry};
pub use crate::statement::{
    cancel_jobs_by_name, claim_row, clear, clear_by_status, clear_jobs_older_than, complete_job,
    complete_job_at, dequeue, enqueue, enqueue_as, fail_job, get_jobs, initialize_database,
    interval_millis, ping, requeue, SqlValue, Statement,
};
pub use crate::status::JobStatus;
pub use crate::table::JobTable;
pub use crate::worker::{RunOpts, Worker, WorkerAction, WorkerEvent, WorkerState};
