//! The dispatch loop of a worker, as a state machine.
//!
//! A worker alternates between work that only the host program can do (asking
//! for cancellation, claiming a job in the database, running a handler,
//! recording the outcome, sleeping) and decisions. The decisions are here:
//! the state of a worker says what the host does next, and the event that the
//! host reports back decides the next state.

use vstd::prelude::*;

use crate::error::Error;
use crate::job::{Job, JobView};
use crate::json::{Json, JsonValue};
use crate::registry::{JobRegistry, RegistryView};

verus! {

/// The options of a pool of workers.
#[derive(Debug)]
pub struct RunOpts {
    pub num_workers: u32,
    pub poll_interval_sec: u32,
}

/// Where a worker stands in its loop.
#[derive(Debug)]
pub enum WorkerState {
    /// At the top of the loop: cancellation is checked next.
    Ready,
    /// A claim is under way.
    Claiming,
    /// The handler in the given slot runs on the claimed job.
    Running { job: Job, slot: usize },
    /// The claimed job has no handler. It is reported and stays as claimed.
    Unhandled { job: Job },
    /// The handler succeeded; the completion is being recorded.
    Completing { job: Job },
    /// The handler failed; the failure is being recorded.
    Failing { job: Job, message: String },
    /// No job was claimed; the worker waits for the poll interval or for
    /// cancellation.
    Sleeping,
    /// The worker has left its loop.
    Stopped,
}

/// The mathematical value of a [`WorkerState`].
pub enum StateView {
    Ready,
    Claiming,
    Running { job: JobView, slot: int },
    Unhandled { job: JobView },
    Completing { job: JobView },
    Failing { job: JobView, message: Seq<char> },
    Sleeping,
    Stopped,
}

impl View for WorkerState {
    type V = StateView;

    open spec fn view(&self) -> StateView {
        match self {
            WorkerState::Ready => StateView::Ready,
            WorkerState::Claiming => StateView::Claiming,
            WorkerState::Running { job, slot } => StateView::Running {
                job: job@,
                slot: *slot as int,
            },
            WorkerState::Unhandled { job } => StateView::Unhandled { job: job@ },
            WorkerState::Completing { job } => StateView::Completing { job: job@ },
            WorkerState::Failing { job, message } => StateView::Failing {
                job: job@,
                message: message@,
            },
            WorkerState::Sleeping => StateView::Sleeping,
            WorkerState::Stopped => StateView::Stopped,
        }
    }
}

/// What the host does for a worker, and then reports as an event.
#[derive(Debug)]
pub enum WorkerAction {
    /// Ask whether cancellation was signalled.
    CheckCancellation,
    /// Claim a job for the worker's tags.
    Claim,
    /// Run the handler in the slot on the job's payload.
    Invoke { slot: usize, job_id: String, data: Json },
    /// Report that no handler is registered under the name.
    ReportMissingHandler { job_name: String },
    /// Record that the job completed.
    Complete { job_id: String, interval: Option<i64> },
    /// Record that the job failed.
    Fail { job_id: String, message: String },
    /// Wait for the poll interval to pass or for cancellation, whichever
    /// comes first; cancellation wins where both have come.
    Sleep { seconds: u32 },
    /// Leave the loop.
    Stop,
}

/// The mathematical value of a [`WorkerAction`].
pub enum ActionView {
    CheckCancellation,
    Claim,
    Invoke { slot: int, job_id: Seq<char>, data: JsonValue },
    ReportMissingHandler { job_name: Seq<char> },
    Complete { job_id: Seq<char>, interval: Option<i64> },
    Fail { job_id: Seq<char>, message: Seq<char> },
    Sleep { seconds: u32 },
    Stop,
}

impl View for WorkerAction {
    type V = ActionView;

    open spec fn view(&self) -> ActionView {
        match self {
            WorkerAction::CheckCancellation => ActionView::CheckCancellation,
            WorkerAction::Claim => ActionView::Claim,
            WorkerAction::Invoke { slot, job_id, data } => ActionView::Invoke {
                slot: *slot as int,
                job_id: job_id@,
                data: data@,
            },
            WorkerAction::ReportMissingHandler { job_name } => ActionView::ReportMissingHandler {
                job_name: job_name@,
            },
            WorkerAction::Complete { job_id, interval } => ActionView::Complete {
                job_id: job_id@,
                interval: *interval,
            },
            WorkerAction::Fail { job_id, message } => ActionView::Fail {
                job_id: job_id@,
                message: message@,
            },
            WorkerAction::Sleep { seconds } => ActionView::Sleep { seconds: *seconds },
            WorkerAction::Stop => ActionView::Stop,
        }
    }
}

/// What the host reports to a worker.
#[derive(Debug)]
pub enum WorkerEvent {
    /// The answer to [`WorkerAction::CheckCancellation`].
    Cancellation(bool),
    /// The outcome of a claim: a job, no job, or an error of the database.
    Claimed(Result<Option<Job>, Error>),
    /// The result of the handler.
    Handled(Result<(), Error>),
    /// The missing handler was reported.
    Reported,
    /// The completion or failure was recorded, or recording it failed.
    Recorded(Result<(), Error>),
    /// The sleep ended, by cancellation or because the interval passed.
    Woken { cancelled: bool },
}

/// The state that follows a state on an event. An event that the state does
/// not wait for changes nothing.
pub open spec fn next_state(
    state: StateView,
    event: WorkerEvent,
    registry: RegistryView,
) -> StateView {
    match (state, event) {
        (StateView::Ready, WorkerEvent::Cancellation(cancelled)) => if cancelled {
            StateView::Stopped
        } else {
            StateView::Claiming
        },
        (StateView::Claiming, WorkerEvent::Claimed(Ok(Some(job)))) => match registry.slot_of(
            job@.name,
        ) {
            Some(slot) => StateView::Running { job: job@, slot },
            None => StateView::Unhandled { job: job@ },
        },
        (StateView::Claiming, WorkerEvent::Claimed(_)) => StateView::Sleeping,
        (StateView::Running { job, slot }, WorkerEvent::Handled(Ok(()))) => StateView::Completing {
            job,
        },
        (StateView::Running { job, slot }, WorkerEvent::Handled(Err(e))) => StateView::Failing {
            job,
            message: e@,
        },
        (StateView::Unhandled { job }, WorkerEvent::Reported) => StateView::Ready,
        (StateView::Completing { job }, WorkerEvent::Recorded(_)) => StateView::Ready,
        (StateView::Failing { job, message }, WorkerEvent::Recorded(_)) => StateView::Ready,
        (StateView::Sleeping, WorkerEvent::Woken { cancelled }) => if cancelled {
            StateView::Stopped
        } else {
            StateView::Ready
        },
        (unchanged, _) => unchanged,
    }
}

/// What the host does for a worker in a state.
pub open spec fn action_of(state: StateView, poll_interval_sec: u32) -> ActionView {
    match state {
        StateView::Ready => ActionView::CheckCancellation,
        StateView::Claiming => ActionView::Claim,
        StateView::Running { job, slot } => ActionView::Invoke {
            slot,
            job_id: job.id,
            data: job.data,
        },
        StateView::Unhandled { job } => ActionView::ReportMissingHandler { job_name: job.name },
        StateView::Completing { job } => ActionView::Complete {
            job_id: job.id,
            interval: job.interval,
        },
        StateView::Failing { job, message } => ActionView::Fail { job_id: job.id, message },
        StateView::Sleeping => ActionView::Sleep { seconds: poll_interval_sec },
        StateView::Stopped => ActionView::Stop,
    }
}

/// One worker of a pool.
#[derive(Debug)]
pub struct Worker {
    /// The number of the worker in its pool.
    pub index: u32,
    /// The tags for which the worker claims jobs.
    pub tags: Vec<String>,
    /// How long the worker sleeps when it finds no job.
    pub poll_interval_sec: u32,
    pub state: WorkerState,
}

impl Worker {
    /// What the host does next for the worker.
    pub fn action(&self) -> (action: WorkerAction)
        ensures
            action@ == action_of(self.state@, self.poll_interval_sec),
    {
        match &self.state {
            WorkerState::Ready => WorkerAction::CheckCancellation,
            WorkerState::Claiming => WorkerAction::Claim,
            WorkerState::Running { job, slot } => WorkerAction::Invoke {
                slot: *slot,
                job_id: job.id.clone(),
                data: job.data.clone(),
            },
            WorkerState::Unhandled { job } => WorkerAction::ReportMissingHandler {
                job_name: job.name.clone(),
            },
            WorkerState::Completing { job } => WorkerAction::Complete {
                job_id: job.id.clone(),
                interval: job.interval,
            },
            WorkerState::Failing { job, message } => WorkerAction::Fail {
                job_id: job.id.clone(),
                message: message.clone(),
            },
            WorkerState::Sleeping => WorkerAction::Sleep { seconds: self.poll_interval_sec },
            WorkerState::Stopped => WorkerAction::Stop,
        }
    }

    /// Takes an event from the host and moves to the state that follows.
    /// The number, the tags and the poll interval of the worker stay.
    pub fn step(self, event: WorkerEvent, registry: &JobRegistry) -> (next: Worker)
        requires
            registry.wf(),
        ensures
            next.state@ == next_state(self.state@, event, registry@),
            next.index == self.index,
            next.tags == self.tags,
            next.poll_interval_sec == self.poll_interval_sec,
    {
        let Worker { index, tags, poll_interval_sec, state } = self;
        let state = match (state, event) {
            (WorkerState::Ready, WorkerEvent::Cancellation(cancelled)) => if cancelled {
                WorkerState::Stopped
            } else {
                WorkerState::Claiming
            },
            (WorkerState::Claiming, WorkerEvent::Claimed(Ok(Some(job)))) => {
                match registry.handler(job.name.as_str()) {
                    Some(slot) => WorkerState::Running { job, slot },
                    None => WorkerState::Unhandled { job },
                }
            },
            (WorkerState::Claiming, WorkerEvent::Claimed(_)) => WorkerState::Sleeping,
            (WorkerState::Running { job, slot }, WorkerEvent::Handled(Ok(()))) => {
                WorkerState::Completing { job }
            },
            (WorkerState::Running { job, slot }, WorkerEvent::Handled(Err(e))) => {
                WorkerState::Failing { job, message: e.message }
            },
            (WorkerState::Unhandled { job }, WorkerEvent::Reported) => WorkerState::Ready,
            (WorkerState::Completing { job }, WorkerEvent::Recorded(_)) => WorkerState::Ready,
            (WorkerState::Failing { job, message }, WorkerEvent::Recorded(_)) => WorkerState::Ready,
            (WorkerState::Sleeping, WorkerEvent::Woken { cancelled }) => if cancelled {
                WorkerState::Stopped
            } else {
                WorkerState::Ready
            },
            (unchanged, _) => unchanged,
        };
        Worker { index, tags, poll_interval_sec, state }
    }

    /// Whether the worker has left its loop.
    pub fn is_stopped(&self) -> (stopped: bool)
        ensures
            stopped == (self.state@ is Stopped),
    {
        match &self.state {
            WorkerState::Stopped => true,
            _ => false,
        }
    }
}

} // verus!
