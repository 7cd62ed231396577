//! The worker loop as a state machine: app code performs each action (check
//! the stop flag, find and execute a task, park) and reports what happened;
//! the machine decides what comes next. Also the search for a task itself.

use vstd::prelude::*;

use crate::pool::{after_local_pop, PoolState, Search, Source, StealStep};
use crossbeam_deque::{Injector, Worker};

verus! {

/// Where a worker stands in its loop.
#[derive(Clone, Copy, Debug, PartialEq, Eq, Structural)]
pub enum WorkerPhase {
    /// At the top of the loop, about to read the stop flag.
    Top,
    /// Looking for a task to execute.
    Searching,
    /// Waiting on the condition variable, with the idle timeout.
    Parked,
    /// Terminated: it executes nothing more.
    Done,
}

/// What happened when the worker performed its last action.
#[derive(Clone, Copy, Debug, PartialEq, Eq, Structural)]
pub enum WorkerEvent {
    /// The stop flag was read.
    Checked { stop: bool },
    /// A search ended; when `found`, the task was executed.
    Searched { found: bool },
    /// The park ended, by a notification or by the timeout.
    Woke { timed_out: bool },
}

/// What the worker is to do next.
#[derive(Clone, Copy, Debug, PartialEq, Eq, Structural)]
pub enum WorkerAction {
    /// Read the stop flag.
    CheckStop,
    /// Take a task from the local deque, else steal one, and execute it.
    Search,
    /// Park: become idle and wait, at most the idle timeout.
    Park,
    /// Leave the loop and unregister.
    Exit,
}

impl WorkerPhase {
    /// The action a worker in this phase performs.
    pub open spec fn pending_action(self) -> WorkerAction {
        match self {
            WorkerPhase::Top => WorkerAction::CheckStop,
            WorkerPhase::Searching => WorkerAction::Search,
            WorkerPhase::Parked => WorkerAction::Park,
            WorkerPhase::Done => WorkerAction::Exit,
        }
    }

    /// The next phase and action after `event`. A stop flag seen at the top
    /// of the loop, or a park that timed out, ends the worker; a search
    /// that found nothing parks it; an executed task or a notification
    /// brings it back to the top. An event that does not answer the
    /// pending action changes nothing.
    pub open spec fn next(self, event: WorkerEvent) -> (WorkerPhase, WorkerAction) {
        match (self, event) {
            (WorkerPhase::Top, WorkerEvent::Checked { stop }) => if stop {
                (WorkerPhase::Done, WorkerAction::Exit)
            } else {
                (WorkerPhase::Searching, WorkerAction::Search)
            },
            (WorkerPhase::Searching, WorkerEvent::Searched { found }) => if found {
                (WorkerPhase::Top, WorkerAction::CheckStop)
            } else {
                (WorkerPhase::Parked, WorkerAction::Park)
            },
            (WorkerPhase::Parked, WorkerEvent::Woke { timed_out }) => if timed_out {
                (WorkerPhase::Done, WorkerAction::Exit)
            } else {
                (WorkerPhase::Top, WorkerAction::CheckStop)
            },
            _ => (self, self.pending_action()),
        }
    }

    /// The action a worker in this phase performs.
    pub fn action(self) -> (a: WorkerAction)
        ensures
            a == self.pending_action(),
    {
        match self {
            WorkerPhase::Top => WorkerAction::CheckStop,
            WorkerPhase::Searching => WorkerAction::Search,
            WorkerPhase::Parked => WorkerAction::Park,
            WorkerPhase::Done => WorkerAction::Exit,
        }
    }

    /// Takes the worker one step: from this phase, on `event`, to the next
    /// phase and the action to perform there.
    pub fn step(self, event: WorkerEvent) -> (r: (WorkerPhase, WorkerAction))
        ensures
            r == self.next(event),
            r.1 == r.0.pending_action(),
    {
        match (self, event) {
            (WorkerPhase::Top, WorkerEvent::Checked { stop }) => if stop {
                (WorkerPhase::Done, WorkerAction::Exit)
            } else {
                (WorkerPhase::Searching, WorkerAction::Search)
            },
            (WorkerPhase::Searching, WorkerEvent::Searched { found }) => if found {
                (WorkerPhase::Top, WorkerAction::CheckStop)
            } else {
                (WorkerPhase::Parked, WorkerAction::Park)
            },
            (WorkerPhase::Parked, WorkerEvent::Woke { timed_out }) => if timed_out {
                (WorkerPhase::Done, WorkerAction::Exit)
            } else {
                (WorkerPhase::Top, WorkerAction::CheckStop)
            },
            _ => (self, self.action()),
        }
    }
}

/// A worker that reads the stop flag set at the top of its loop ends there,
/// and once ended it is never again asked to search for or execute a task,
/// whatever is reported to it.
pub proof fn lemma_stop_ends_worker(event: WorkerEvent)
    ensures
        WorkerPhase::Top.next(WorkerEvent::Checked { stop: true }) == (
            WorkerPhase::Done,
            WorkerAction::Exit,
        ),
        WorkerPhase::Done.next(event) == (WorkerPhase::Done, WorkerAction::Exit),
{
}

/// A task for the worker that owns `local` and holds `worker_id`: from its
/// own deque first, and only when that is empty from the injector or
/// another worker's deque, as `PoolState::try_steal` does.
pub fn find_task<T, H>(
    local: &Worker<T>,
    injector: &Injector<T>,
    pool: &PoolState<T, H>,
    worker_id: usize,
) -> (r: Search<T>)
    ensures
        r.found matches Some((_, Source::Local)) ==> r.probed@.len() == 0,
        r.found matches Some((_, Source::Global)) ==> r.probed@.len() == 0,
        r.found matches Some((_, Source::Victim(i))) ==> r.probed@.len() > 0
            && r.probed@.last() == i,
        r.probed@.len() <= pool@.ids.len(),
        forall|k: int|
            0 <= k < r.probed@.len() ==> #[trigger] r.probed@[k] < pool@.ids.len()
                && pool@.ids[r.probed@[k] as int] != worker_id,
{
    match after_local_pop(local.pop()) {
        StealStep::Found(task) => Search {
            found: Some((task, Source::Local)),
            probed: Ghost(Seq::empty()),
        },
        _ => pool.try_steal(injector, worker_id),
    }
}

} // verus!
