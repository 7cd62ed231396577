//! What holds of a task across several transitions of its lifecycle.

use vstd::prelude::*;

use super::park::Parker;
use super::state::lemma_flags;
use super::{JoinPoll, Start, TaskView};

verus! {

/// A task held by both the pool and a handle is freed exactly once: of the
/// two releases, in either order, the first leaves it alone and the second
/// frees it.
pub proof fn lemma_freed_exactly_once<I, R, E, W, H>(t: TaskView<I, R, E, W, H>)
    requires
        t.executor_alive(),
        t.handle_alive(),
    ensures
        !t.release_executor().1,
        t.release_executor().0.release_handle().1,
        !t.release_handle().1,
        t.release_handle().0.release_executor().1,
{
    lemma_flags();
}

/// A release frees the task only when, after it, neither the pool nor a
/// handle holds the task; and each release clears its own flag alone.
pub proof fn lemma_freed_only_when_unowned<I, R, E, W, H>(t: TaskView<I, R, E, W, H>)
    ensures
        t.release_executor().1 <==> !t.release_executor().0.executor_alive()
            && !t.release_executor().0.handle_alive(),
        t.release_handle().1 <==> !t.release_handle().0.executor_alive()
            && !t.release_handle().0.handle_alive(),
        !t.release_executor().0.executor_alive(),
        t.release_executor().0.handle_alive() == t.handle_alive(),
        !t.release_handle().0.handle_alive(),
        t.release_handle().0.executor_alive() == t.executor_alive(),
{
    lemma_flags();
}

/// Running, completing, aborting, taking the output and joining leave both
/// ownership flags as they were: only the releases change them.
pub proof fn lemma_ownership_kept<I, R, E, W, H>(
    t: TaskView<I, R, E, W, H>,
    result: Result<R, E>,
    waiter: Parker<W, H>,
)
    ensures
        t.begin_run().0.executor_alive() == t.executor_alive(),
        t.begin_run().0.handle_alive() == t.handle_alive(),
        t.complete(result).0.executor_alive() == t.executor_alive(),
        t.complete(result).0.handle_alive() == t.handle_alive(),
        t.abort().0.executor_alive() == t.executor_alive(),
        t.abort().0.handle_alive() == t.handle_alive(),
        t.take_output().0.executor_alive() == t.executor_alive(),
        t.take_output().0.handle_alive() == t.handle_alive(),
        t.poll_join(waiter).0.executor_alive() == t.executor_alive(),
        t.poll_join(waiter).0.handle_alive() == t.handle_alive(),
{
    lemma_flags();
}

/// A joiner that finds no result on a task that will still run installs
/// its waiter, and that waiter is what completion hands out for waking,
/// once the result is flagged ready.
pub proof fn lemma_no_lost_wake<I, R, E, W, H>(
    t: TaskView<I, R, E, W, H>,
    waiter: Parker<W, H>,
    result: Result<R, E>,
)
    requires
        t.wf(),
        !t.finished(),
        !t.aborted(),
    ensures
        t.poll_join(waiter).1 is Pending,
        t.running() ==> t.poll_join(waiter).0.complete(result).1 == waiter,
        t.running() ==> t.poll_join(waiter).0.complete(result).0.output_ready(),
        !t.running() ==> t.poll_join(waiter).0.begin_run().1 is Run,
        !t.running() ==> t.poll_join(waiter).0.begin_run().0.complete(result).1 == waiter,
        !t.running() ==> t.poll_join(waiter).0.begin_run().0.complete(result).0.output_ready(),
{
    lemma_flags();
}

/// A panic captured as `Err(payload)` finishes the task, and the joiner
/// receives exactly that payload.
pub proof fn lemma_panic_reaches_joiner<I, R, E, W, H>(
    t: TaskView<I, R, E, W, H>,
    payload: E,
    waiter: Parker<W, H>,
)
    requires
        t.wf(),
        t.running(),
    ensures
        t.complete(Err(payload)).0.finished(),
        !t.complete(Err(payload)).0.running(),
        t.complete(Err(payload)).0.poll_join(waiter).1 == JoinPoll::<R, E>::Ready(Err(payload)),
{
    lemma_flags();
}

/// Aborting twice is aborting once: the second abort changes nothing and
/// has nobody to wake.
pub proof fn lemma_abort_idempotent<I, R, E, W, H>(t: TaskView<I, R, E, W, H>)
    ensures
        t.abort().0.abort().0 == t.abort().0,
        t.abort().0.abort().1 is Empty,
{
    lemma_flags();
}

/// A task aborted before it started yields `Aborted` to its joiner, both
/// at once and after a worker has picked it up and skipped it.
pub proof fn lemma_abort_before_start<I, R, E, W, H>(
    t: TaskView<I, R, E, W, H>,
    waiter: Parker<W, H>,
)
    requires
        t.wf(),
        !t.running(),
        !t.finished(),
    ensures
        t.abort().0.poll_join(waiter).1 is Aborted,
        t.abort().0.begin_run().1 is Skip,
        t.abort().0.begin_run().0.poll_join(waiter).1 is Aborted,
{
    lemma_flags();
}

/// The result moves out once: the first take yields it, a second take
/// yields nothing.
pub proof fn lemma_take_output_once<I, R, E, W, H>(t: TaskView<I, R, E, W, H>)
    requires
        t.wf(),
        t.output_ready(),
        !t.output_taken(),
    ensures
        t.take_output().1 is Some,
        t.take_output().1 == t.output,
        t.take_output().0.take_output().1 is None,
{
    lemma_flags();
}

} // verus!
