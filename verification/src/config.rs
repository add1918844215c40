//! The configuration of the provider.

use vstd::prelude::*;

use crate::registry::JobRegistry;
use crate::worker::RunOpts;

verus! {

/// What the provider is configured with. The queue reads the number of
/// workers and the poll interval; the rest is for the connection pool.
#[derive(Debug)]
pub struct PostgresQueueConfig {
    pub uri: String,
    pub enable_logging: bool,
    pub min_connections: u32,
    pub max_connections: u32,
    /// In milliseconds.
    pub idle_timeout: u64,
    /// In milliseconds.
    pub connect_timeout: u64,
    pub num_workers: u32,
    pub poll_interval_sec: u32,
}

/// What a provider starts with: a registry without handlers that no worker
/// shares yet, and the options of its pool of workers as configured.
pub fn create_provider(qcfg: &PostgresQueueConfig) -> (provider: (JobRegistry, RunOpts))
    ensures
        provider.0.wf(),
        provider.0@.names.len() == 0,
        !provider.0@.shared,
        provider.1.num_workers == qcfg.num_workers,
        provider.1.poll_interval_sec == qcfg.poll_interval_sec,
{
    (
        JobRegistry::new(),
        RunOpts { num_workers: qcfg.num_workers, poll_interval_sec: qcfg.poll_interval_sec },
    )
}

} // verus!
