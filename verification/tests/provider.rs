use job_queue::{create_provider, Database, JobStatus, Json, PostgresQueueConfig};

const T0: i64 = 1_700_000_000_000_000;

fn config() -> PostgresQueueConfig {
    PostgresQueueConfig {
        uri: "postgres://localhost:5432/app".to_string(),
        enable_logging: false,
        min_connections: 1,
        max_connections: 20,
        idle_timeout: 500,
        connect_timeout: 500,
        num_workers: 3,
        poll_interval_sec: 2,
    }
}

#[test]
fn create_provider_takes_the_options_of_the_pool() {
    let (registry, opts) = create_provider(&config());
    assert_eq!(opts.num_workers, 3);
    assert_eq!(opts.poll_interval_sec, 2);
    assert!(registry.handlers().is_empty());
    assert!(!registry.is_shared());
}

#[test]
fn database_has_no_table_before_initialization() {
    let mut database = Database::new();
    assert_eq!(
        database.ping().unwrap_err().to_string(),
        "relation \"pg_loco_queue\" does not exist"
    );
    assert!(database.table().is_none());
}

#[test]
fn initialization_creates_an_empty_table() {
    let mut database = Database::new();
    database.initialize_database();
    assert!(database.ping().is_ok());
    assert_eq!(database.table().unwrap().len(), 0);
}

#[test]
fn initializing_twice_keeps_the_rows() {
    let mut database = Database::new();
    database.initialize_database();
    let id = database.table().unwrap().enqueue("Job", Json::Null, T0, None, None, T0);
    database.initialize_database();
    assert!(database.ping().is_ok());
    let jobs = database.table().unwrap().get_jobs(None, None, T0);
    assert_eq!(jobs.len(), 1);
    assert_eq!(jobs[0].id, id);
    assert_eq!(jobs[0].status, JobStatus::Queued);
    assert_eq!(database.table().unwrap().clock(), T0);
}
