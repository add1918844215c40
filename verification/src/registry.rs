//! The handler registry: which job names have a handler, and in which slot.
//!
//! The handlers themselves are closures of the host program. The registry
//! gives each registered name a slot, a position in the host's list of
//! handlers, and decides what a run of a handler amounts to.

use vstd::prelude::*;

use crate::error::Error;
use crate::text::{copy_texts, texts};
use crate::worker::{RunOpts, Worker, WorkerState};

verus! {

/// The message of the error that registering on a shared registry gives.
pub open spec fn cannot_register_message() -> Seq<char> {
    "cannot register worker"@
}

/// The message recorded for a panic whose payload is no text.
pub open spec fn unknown_panic_message() -> Seq<char> {
    "Unknown panic occurred"@
}

/// The mathematical value of a [`JobRegistry`]: the registered names, each at
/// the index of its slot, and whether workers share the registry.
pub struct RegistryView {
    pub names: Seq<Seq<char>>,
    pub shared: bool,
}

impl RegistryView {
    /// No name is registered twice.
    pub open spec fn wf(self) -> bool {
        forall|i: int, j: int|
            0 <= i < j < self.names.len() ==> self.names[i] != self.names[j]
    }

    /// The slot of the handler registered under a name.
    pub open spec fn slot_of(self, name: Seq<char>) -> Option<int> {
        if self.names.contains(name) {
            Some(self.names.index_of(name))
        } else {
            None
        }
    }

    /// The registry after a handler was registered under a name: a name
    /// already there keeps its slot, a new name gets the next one. A shared
    /// registry does not change.
    pub open spec fn registered(self, name: Seq<char>) -> RegistryView {
        if self.shared || self.names.contains(name) {
            self
        } else {
            RegistryView { names: self.names.push(name), shared: self.shared }
        }
    }
}

/// The names with a handler. Read-only once workers run.
pub struct JobRegistry {
    names: Vec<String>,
    shared: bool,
}

impl View for JobRegistry {
    type V = RegistryView;

    closed spec fn view(&self) -> RegistryView {
        RegistryView { names: texts(self.names@), shared: self.shared }
    }
}

impl JobRegistry {
    /// No name is registered twice.
    pub open spec fn wf(&self) -> bool {
        self@.wf()
    }

    /// Creates a registry without handlers.
    #[must_use]
    pub fn new() -> (registry: JobRegistry)
        ensures
            registry@.names.len() == 0,
            !registry@.shared,
            registry.wf(),
    {
        JobRegistry { names: Vec::new(), shared: false }
    }

    /// The slot of the handler registered under a name, if there is one.
    pub fn handler(&self, name: &str) -> (slot: Option<usize>)
        requires
            self.wf(),
        ensures
            match slot {
                Some(s) => self@.slot_of(name@) == Some(s as int) && s < self@.names.len(),
                None => self@.slot_of(name@).is_none(),
            },
    {
        let wanted = name.to_owned();
        let mut i: usize = 0;
        while i < self.names.len()
            invariant
                i <= self.names.len(),
                self.wf(),
                wanted@ == name@,
                forall|k: int| 0 <= k < i ==> self.names@[k]@ != name@,
            decreases self.names.len() - i,
        {
            if self.names[i] == wanted {
                proof {
                    let names = texts(self.names@);
                    assert(names[i as int] == name@);
                }
                return Some(i);
            }
            i += 1;
        }
        None
    }

    /// Registers a handler under a name and gives the slot in which the host
    /// keeps it. A second handler under one name takes the slot of the first.
    /// On a registry that workers share nothing is registered: that is the
    /// one error.
    pub fn register_worker(&mut self, name: String) -> (slot: Result<usize, Error>)
        requires
            old(self).wf(),
        ensures
            final(self).wf(),
            final(self)@ == old(self)@.registered(name@),
            match slot {
                Ok(s) => !old(self)@.shared && final(self)@.slot_of(name@) == Some(s as int),
                Err(e) => old(self)@.shared && e@ == cannot_register_message(),
            },
    {
        if self.shared {
            return Err(Error::string("cannot register worker"));
        }
        match self.handler(name.as_str()) {
            Some(slot) => Ok(slot),
            None => {
                let slot = self.names.len();
                let ghost before = texts(self.names@);
                self.names.push(name);
                proof {
                    let after = texts(self.names@);
                    assert(after =~= before.push(name@));
                    assert(after[slot as int] == name@);
                }
                Ok(slot)
            },
        }
    }

    /// The registered names, each at the index of its slot.
    #[must_use]
    pub fn handlers(&self) -> (names: &Vec<String>)
        ensures
            texts(names@) == self@.names,
    {
        &self.names
    }

    /// Whether workers share the registry.
    pub fn is_shared(&self) -> (shared: bool)
        ensures
            shared == self@.shared,
    {
        self.shared
    }

    /// Sets up the workers of a pool: as many as the options ask for, numbered
    /// from zero, each with the given tags and poll interval, each about to
    /// check for cancellation. From then on the registry is shared, unless no
    /// worker was asked for.
    #[must_use]
    pub fn run(&mut self, opts: &RunOpts, tags: &[String]) -> (workers: Vec<Worker>)
        requires
            old(self).wf(),
        ensures
            final(self).wf(),
            final(self)@.names == old(self)@.names,
            final(self)@.shared == (old(self)@.shared || opts.num_workers > 0),
            workers@.len() == opts.num_workers,
            forall|i: int|
                0 <= i < workers@.len() ==> {
                    &&& (#[trigger] workers@[i]).index == i
                    &&& texts(workers@[i].tags@) == texts(tags@)
                    &&& workers@[i].poll_interval_sec == opts.poll_interval_sec
                    &&& workers@[i].state is Ready
                },
    {
        let mut workers: Vec<Worker> = Vec::new();
        let mut index: u32 = 0;
        while index < opts.num_workers
            invariant
                index <= opts.num_workers,
                self.wf(),
                *self == *old(self),
                workers@.len() == index,
                forall|i: int|
                    0 <= i < workers@.len() ==> {
                        &&& (#[trigger] workers@[i]).index == i
                        &&& texts(workers@[i].tags@) == texts(tags@)
                        &&& workers@[i].poll_interval_sec == opts.poll_interval_sec
                        &&& workers@[i].state is Ready
                    },
            decreases opts.num_workers - index,
        {
            workers.push(
                Worker {
                    index,
                    tags: copy_texts(tags),
                    poll_interval_sec: opts.poll_interval_sec,
                    state: WorkerState::Ready,
                },
            );
            index += 1;
        }
        if opts.num_workers > 0 {
            self.shared = true;
        }
        assert(self@.names == old(self)@.names);
        workers
    }
}

impl Clone for JobRegistry {
    fn clone(&self) -> (copy: JobRegistry)
        ensures
            copy@ == self@,
    {
        JobRegistry { names: copy_texts(self.names.as_slice()), shared: self.shared }
    }
}

impl Default for JobRegistry {
    fn default() -> (registry: JobRegistry)
        ensures
            registry@.names.len() == 0,
            !registry@.shared,
            registry.wf(),
    {
        JobRegistry::new()
    }
}

/// How the run of a handler on a payload ended.
#[derive(Debug)]
pub enum HandlerRun {
    /// The payload could not be read as the handler's arguments; the text
    /// says why.
    BadPayload(String),
    /// The handler ran and returned.
    Returned(Result<(), Error>),
    /// The handler panicked; the text is that of the panic, where it had one.
    Panicked(Option<String>),
}

/// What the run of a handler amounts to, as the message of the failure, or
/// nothing where the job succeeded.
pub open spec fn failure_of(run: HandlerRun) -> Option<Seq<char>> {
    match run {
        HandlerRun::BadPayload(reason) => Some(reason@),
        HandlerRun::Returned(Ok(())) => None,
        HandlerRun::Returned(Err(e)) => Some(e@),
        HandlerRun::Panicked(Some(text)) => Some(text@),
        HandlerRun::Panicked(None) => Some(unknown_panic_message()),
    }
}

/// The result of a handler: success where it returned success, and an error
/// otherwise, with the message of the payload's rejection, of the returned
/// error or of the panic.
pub fn handler_result(run: HandlerRun) -> (result: Result<(), Error>)
    ensures
        match result {
            Ok(()) => failure_of(run).is_none(),
            Err(e) => failure_of(run) == Some(e@),
        },
{
    match run {
        HandlerRun::BadPayload(reason) => Err(Error { message: reason }),
        HandlerRun::Returned(result) => result,
        HandlerRun::Panicked(Some(text)) => Err(Error { message: text }),
        HandlerRun::Panicked(None) => Err(Error::string("Unknown panic occurred")),
    }
}

} // verus!
