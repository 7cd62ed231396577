//! The shared state of the pool: the registry of live workers, the ids they
//! hold, their status, and the stop flag; with the decisions taken on it:
//! where a submitted task goes, which id a new worker gets, whom to steal
//! from.

use vstd::prelude::*;

use crossbeam_deque::{Injector, Steal, Stealer};
use std::collections::HashSet;

verus! {

broadcast use vstd::std_specs::hash::group_hash_axioms;

/// Where a registered worker stands in its loop.
#[derive(Clone, Copy, Debug, PartialEq, Eq, Structural)]
pub enum WorkerStatus {
    /// Looking for work or executing it.
    Working,
    /// Parked on the condition variable, waiting for work.
    Idle,
    /// On its way out: it will execute nothing more.
    Leaving,
}

/// A live worker as the registry knows it.
#[verifier::reject_recursive_types(T)]
pub struct WorkerEntry<T, H> {
    pub id: usize,
    pub status: WorkerStatus,
    /// The stealing end of the worker's local deque.
    pub stealer: Stealer<T>,
    /// The handle of the worker's thread.
    pub handle: H,
}

/// What the registry holds, as its contracts see it.
pub struct PoolView {
    /// The ids of the registered workers, in registration order.
    pub ids: Seq<usize>,
    /// Their statuses, in the same order.
    pub statuses: Seq<WorkerStatus>,
    /// The ids in use.
    pub used: Set<usize>,
    pub max_threads: usize,
    pub stopped: bool,
}

/// How many of `s` are `k`.
pub open spec fn count_status(s: Seq<WorkerStatus>, k: WorkerStatus) -> nat
    decreases s.len(),
{
    if s.len() == 0 {
        0
    } else {
        count_status(s.drop_last(), k) + if s.last() == k {
            1nat
        } else {
            0nat
        }
    }
}

/// How many ids below `n` are not in `used`.
pub open spec fn free_below(used: Set<usize>, n: nat) -> nat
    decreases n,
{
    if n == 0 {
        0
    } else {
        free_below(used, (n - 1) as nat) + if used.contains((n - 1) as usize) {
            0nat
        } else {
            1nat
        }
    }
}

proof fn lemma_free_below_monotone(used: Set<usize>, a: nat, b: nat)
    requires
        a <= b,
    ensures
        free_below(used, a) <= free_below(used, b),
    decreases b,
{
    if a < b {
        lemma_free_below_monotone(used, a, (b - 1) as nat);
    }
}

proof fn lemma_free_plus_used(used: Set<usize>, n: nat)
    requires
        used.finite(),
        n <= usize::MAX as nat + 1,
    ensures
        free_below(used, n) + used.filter(|x: usize| (x as nat) < n).len() == n,
    decreases n,
{
    let cur = used.filter(|x: usize| (x as nat) < n);
    used.lemma_len_filter(|x: usize| (x as nat) < n);
    if n == 0 {
        assert(cur =~= Set::<usize>::empty());
    } else {
        let m = (n - 1) as nat;
        lemma_free_plus_used(used, m);
        let prev = used.filter(|x: usize| (x as nat) < m);
        used.lemma_len_filter(|x: usize| (x as nat) < m);
        let e = m as usize;
        if used.contains(e) {
            assert(cur =~= prev.insert(e));
        } else {
            assert(cur =~= prev);
        }
    }
}

/// While a well-formed pool is below its cap, some id below the cap is free.
pub proof fn lemma_free_id_exists(p: PoolView)
    requires
        p.wf(),
        p.ids.len() < p.max_threads,
    ensures
        free_below(p.used, p.max_threads as nat) > 0,
{
    p.ids.unique_seq_to_set();
    vstd::seq_lib::seq_to_set_is_finite(p.ids);
    lemma_free_plus_used(p.used, p.max_threads as nat);
    assert(p.used.filter(|x: usize| (x as nat) < p.max_threads as nat) =~= p.used);
}

/// Relies on `fastrand::usize`: a number drawn from `0..n`, which must not
/// be empty.
#[verifier::external_body]
fn random_below(n: usize) -> (r: usize)
    requires
        n > 0,
    ensures
        r < n,
{
    fastrand::usize(0..n)
}

impl PoolView {
    /// At most `max_threads` workers, each with its own id below
    /// `max_threads`, and exactly their ids in use.
    pub open spec fn wf(self) -> bool {
        &&& self.ids.len() <= self.max_threads
        &&& self.statuses.len() == self.ids.len()
        &&& self.ids.no_duplicates()
        &&& self.used == self.ids.to_set()
        &&& forall|i: int| 0 <= i < self.ids.len() ==> #[trigger] self.ids[i] < self.max_threads
    }

    pub open spec fn idle(self) -> nat {
        count_status(self.statuses, WorkerStatus::Idle)
    }

    pub open spec fn working(self) -> nat {
        count_status(self.statuses, WorkerStatus::Working)
    }

    /// A new worker is started for a task only while none is idle and the
    /// pool is below its cap.
    pub open spec fn should_spawn_thread(self) -> bool {
        self.idle() == 0 && self.ids.len() < self.max_threads
    }

    /// Where a task submitted now goes.
    pub open spec fn route(self, in_worker: bool) -> Placement {
        if self.stopped {
            Placement::Discard
        } else if in_worker {
            Placement::Local
        } else if self.should_spawn_thread() {
            Placement::SpawnWorker
        } else {
            Placement::Inject
        }
    }

    /// Shutdown is requested: the flag is set, and the result says whether
    /// it was clear before.
    pub open spec fn stop(self) -> (Self, bool) {
        (PoolView { stopped: true, ..self }, !self.stopped)
    }

    /// The status `id` moves to on event `from -> to`; other workers keep theirs.
    pub open spec fn move_status(self, id: usize, from: WorkerStatus, to: WorkerStatus) -> Self {
        PoolView {
            statuses: Seq::new(
                self.statuses.len(),
                |i: int|
                    if self.ids[i] == id && self.statuses[i] == from {
                        to
                    } else {
                        self.statuses[i]
                    },
            ),
            ..self
        }
    }
}

/// Where a submitted task goes.
#[derive(Clone, Copy, Debug, PartialEq, Eq, Structural)]
pub enum Placement {
    /// Onto the local deque of the worker that submits it.
    Local,
    /// Onto the global injector, waking one parked worker.
    Inject,
    /// To a new worker thread, as its first task.
    SpawnWorker,
    /// Nowhere: the pool is shut down, and the task is dropped unrun.
    Discard,
}

/// A submitted task, with where it is to go.
pub enum Routed<T> {
    /// Onto the submitting worker's deque.
    Local(T),
    /// Onto the injector, waking one parked worker.
    Inject(T),
    /// To a new worker, as its first task.
    SpawnWorker(T),
    /// Nowhere: the pool is shut down, and the task was dropped unrun.
    Discarded,
}

/// Whether a new worker can start, and with what.
pub enum Slot<T> {
    /// Start a worker under `id`, seeded with `task`.
    Start { id: usize, task: Option<T> },
    /// Every id is taken: the seed, if any, goes to the injector instead.
    Full(Option<T>),
}

/// Which queue a task was found in.
#[derive(Clone, Copy, Debug, PartialEq, Eq, Structural)]
pub enum Source {
    /// The searching worker's own deque.
    Local,
    /// The global injector.
    Global,
    /// The deque of the worker at this index of the registry.
    Victim(usize),
}

/// What a thief does after one steal attempt.
pub enum StealStep<T> {
    /// It won a task and stops.
    Found(T),
    /// It tries another deque.
    Again,
    /// It stops empty-handed.
    GiveUp,
}

/// The outcome of a search for a task, with the registry indices of the
/// deques that were probed, in order.
pub struct Search<T> {
    pub found: Option<(T, Source)>,
    pub probed: Ghost<Seq<usize>>,
}

/// What the owner of a deque does with what its own pop gave: a task is
/// taken at once, and only an empty deque sends it stealing.
pub fn after_local_pop<T>(popped: Option<T>) -> (r: StealStep<T>)
    ensures
        popped matches Some(t) ==> r == StealStep::Found(t),
        popped is None ==> r is Again,
{
    match popped {
        Some(t) => StealStep::Found(t),
        None => StealStep::Again,
    }
}

/// The registry of live workers, shared by the pool's threads under a lock.
#[verifier::reject_recursive_types(T)]
pub struct PoolState<T, H> {
    workers: Vec<WorkerEntry<T, H>>,
    used_ids: HashSet<usize>,
    max_threads: usize,
    stopped: bool,
}

impl<T, H> View for PoolState<T, H> {
    type V = PoolView;

    closed spec fn view(&self) -> PoolView {
        PoolView {
            ids: self.workers@.map_values(|w: WorkerEntry<T, H>| w.id),
            statuses: self.workers@.map_values(|w: WorkerEntry<T, H>| w.status),
            used: self.used_ids@,
            max_threads: self.max_threads,
            stopped: self.stopped,
        }
    }
}

impl<T, H> PoolState<T, H> {
    /// An empty registry for at most `max_threads` workers.
    pub fn new(max_threads: usize) -> (p: Self)
        ensures
            p@.ids == Seq::<usize>::empty(),
            p@.used == Set::<usize>::empty(),
            p@.max_threads == max_threads,
            !p@.stopped,
            p@.wf(),
    {
        let p = PoolState {
            workers: Vec::new(),
            used_ids: HashSet::new(),
            max_threads,
            stopped: false,
        };
        proof {
            assert(p@.ids =~= Seq::<usize>::empty());
            assert(p@.ids.to_set() =~= Set::<usize>::empty());
        }
        p
    }

    /// The number of registered workers.
    pub fn len(&self) -> (n: usize)
        ensures
            n == self@.ids.len(),
    {
        self.workers.len()
    }

    /// The cap on registered workers.
    pub fn max_threads(&self) -> (n: usize)
        ensures
            n == self@.max_threads,
    {
        self.max_threads
    }

    /// Whether shutdown was requested.
    pub fn is_stopped(&self) -> (r: bool)
        ensures
            r == self@.stopped,
    {
        self.stopped
    }

    /// Whether every worker has left the registry.
    pub fn is_drained(&self) -> (r: bool)
        ensures
            r == (self@.ids.len() == 0),
    {
        self.workers.len() == 0
    }

    fn count_status(&self, k: WorkerStatus) -> (n: usize)
        ensures
            n == count_status(self@.statuses, k),
    {
        let mut n: usize = 0;
        let mut i: usize = 0;
        while i < self.workers.len()
            invariant
                i <= self.workers.len(),
                self@.statuses.len() == self.workers.len(),
                n <= i,
                n == count_status(self@.statuses.subrange(0, i as int), k),
            decreases self.workers.len() - i,
        {
            proof {
                assert(self@.statuses.subrange(0, i + 1).drop_last() =~= self@.statuses.subrange(
                    0,
                    i as int,
                ));
            }
            if self.workers[i].status == k {
                n = n + 1;
            }
            i = i + 1;
        }
        proof {
            assert(self@.statuses.subrange(0, i as int) =~= self@.statuses);
        }
        n
    }

    /// How many workers are parked.
    pub fn idle_count(&self) -> (n: usize)
        ensures
            n == self@.idle(),
    {
        self.count_status(WorkerStatus::Idle)
    }

    /// How many workers are looking for work or executing it.
    pub fn working_count(&self) -> (n: usize)
        ensures
            n == self@.working(),
    {
        self.count_status(WorkerStatus::Working)
    }

    /// Whether a task submitted from outside should start a new worker:
    /// only while no worker is idle and the pool is below its cap.
    pub fn should_spawn_thread(&self) -> (r: bool)
        ensures
            r == self@.should_spawn_thread(),
    {
        if self.idle_count() > 0 {
            return false;
        }
        self.workers.len() < self.max_threads
    }

    /// Where a task submitted now goes: nowhere once the pool is shut down;
    /// onto the submitter's own deque when a worker submits; to a new
    /// worker while none is idle and the cap is not reached; else onto the
    /// injector.
    pub fn route(&self, in_worker: bool) -> (r: Placement)
        ensures
            r == self@.route(in_worker),
    {
        if self.stopped {
            Placement::Discard
        } else if in_worker {
            Placement::Local
        } else if self.should_spawn_thread() {
            Placement::SpawnWorker
        } else {
            Placement::Inject
        }
    }

    /// Submits `task` from a worker of this pool when `in_worker`, else
    /// from outside: hands it back with the queue `route` picks for it, or
    /// drops it when the pool is shut down.
    pub fn spawn_task(&self, in_worker: bool, task: T) -> (r: Routed<T>)
        ensures
            r == match self@.route(in_worker) {
                Placement::Local => Routed::Local(task),
                Placement::Inject => Routed::Inject(task),
                Placement::SpawnWorker => Routed::SpawnWorker(task),
                Placement::Discard => Routed::<T>::Discarded,
            },
    {
        match self.route(in_worker) {
            Placement::Local => Routed::Local(task),
            Placement::Inject => Routed::Inject(task),
            Placement::SpawnWorker => Routed::SpawnWorker(task),
            Placement::Discard => Routed::Discarded,
        }
    }

    /// How many ids below `max_threads` are free.
    pub fn free_id_count(&self) -> (n: usize)
        ensures
            n == free_below(self@.used, self@.max_threads as nat),
    {
        let mut n: usize = 0;
        let mut i: usize = 0;
        while i < self.max_threads
            invariant
                i <= self.max_threads,
                n <= i,
                n == free_below(self@.used, i as nat),
            decreases self.max_threads - i,
        {
            if !self.used_ids.contains(&i) {
                n = n + 1;
            }
            i = i + 1;
        }
        n
    }

    /// The free id that has exactly `rank` free ids below it, if any.
    pub fn nth_free_id(&self, rank: usize) -> (id: Option<usize>)
        ensures
            id is None <==> free_below(self@.used, self@.max_threads as nat) <= rank,
            id matches Some(i) ==> i < self@.max_threads && !self@.used.contains(i) && free_below(
                self@.used,
                i as nat,
            ) == rank,
    {
        let mut seen: usize = 0;
        let mut i: usize = 0;
        while i < self.max_threads
            invariant
                i <= self.max_threads,
                seen <= rank,
                seen == free_below(self@.used, i as nat),
            decreases self.max_threads - i,
        {
            if !self.used_ids.contains(&i) {
                if seen == rank {
                    proof {
                        lemma_free_below_monotone(
                            self@.used,
                            (i + 1) as nat,
                            self@.max_threads as nat,
                        );
                    }
                    return Some(i);
                }
                seen = seen + 1;
            }
            i = i + 1;
        }
        None
    }

    /// An id for a new worker, drawn uniformly from the free ids below
    /// `max_threads` (as drawing until a free one comes up would, with a
    /// single draw); `None` when every id is taken.
    pub fn pick_worker_id(&self) -> (id: Option<usize>)
        ensures
            id is None <==> free_below(self@.used, self@.max_threads as nat) == 0,
            id matches Some(i) ==> i < self@.max_threads && !self@.used.contains(i),
            self@.wf() && self@.ids.len() < self@.max_threads ==> id is Some,
    {
        proof {
            if self@.wf() && self@.ids.len() < self@.max_threads {
                lemma_free_id_exists(self@);
            }
        }
        let free = self.free_id_count();
        if free == 0 {
            return None;
        }
        let rank = random_below(free);
        self.nth_free_id(rank)
    }

    /// Whether a worker seeded with `task` can start now: under a free id
    /// drawn by `pick_worker_id`, or not at all when every id is taken, in
    /// which case the seed is handed back for the injector.
    pub fn claim_worker_slot(&self, task: Option<T>) -> (r: Slot<T>)
        ensures
            r is Full <==> free_below(self@.used, self@.max_threads as nat) == 0,
            r matches Slot::Full(t) ==> t == task,
            r matches Slot::Start { id, task: t } ==> id < self@.max_threads
                && !self@.used.contains(id) && t == task,
            self@.wf() && self@.ids.len() < self@.max_threads ==> r is Start,
    {
        match self.pick_worker_id() {
            Some(id) => Slot::Start { id, task },
            None => Slot::Full(task),
        }
    }

    /// Registers a worker under `id`, as working. Refused, with nothing
    /// changed, when the pool is at its cap or `id` is out of range or taken.
    pub fn register(&mut self, id: usize, stealer: Stealer<T>, handle: H) -> (r: bool)
        requires
            old(self)@.wf(),
        ensures
            r == (id < old(self)@.max_threads && !old(self)@.used.contains(id)
                && old(self)@.ids.len() < old(self)@.max_threads),
            r ==> final(self)@ == (PoolView {
                ids: old(self)@.ids.push(id),
                statuses: old(self)@.statuses.push(WorkerStatus::Working),
                used: old(self)@.used.insert(id),
                ..old(self)@
            }),
            !r ==> final(self)@ == old(self)@,
            final(self)@.wf(),
    {
        if id >= self.max_threads || self.used_ids.contains(&id) || self.workers.len()
            >= self.max_threads {
            return false;
        }
        let ghost old_ids = self@.ids;
        self.workers.push(WorkerEntry { id, status: WorkerStatus::Working, stealer, handle });
        self.used_ids.insert(id);
        proof {
            assert(self@.ids =~= old_ids.push(id));
            assert(self@.statuses =~= old(self)@.statuses.push(WorkerStatus::Working));
            old_ids.lemma_push_to_set_commute(id);
            assert(forall|i: int| 0 <= i < old_ids.len() ==> old_ids[i] != id) by {
                assert forall|i: int| 0 <= i < old_ids.len() implies old_ids[i] != id by {
                    assert(old_ids.to_set().contains(old_ids[i]));
                }
            }
            assert(self@.ids.no_duplicates());
        }
        true
    }

    /// Takes the worker registered under `id` out of the registry and frees
    /// its id. Returns whether there was one.
    pub fn remove_worker(&mut self, id: usize) -> (r: bool)
        requires
            old(self)@.wf(),
        ensures
            r == old(self)@.ids.contains(id),
            r ==> exists|k: int|
                0 <= k < old(self)@.ids.len() && old(self)@.ids[k] == id && final(self)@ == (
                PoolView {
                    ids: old(self)@.ids.remove(k),
                    statuses: old(self)@.statuses.remove(k),
                    used: old(self)@.used.remove(id),
                    ..old(self)@
                }),
            !r ==> final(self)@ == old(self)@,
            final(self)@.wf(),
    {
        let ghost old_ids = self@.ids;
        let mut k: usize = 0;
        while k < self.workers.len()
            invariant
                k <= self.workers.len(),
                self@ == old(self)@,
                old_ids == old(self)@.ids,
                self@.wf(),
                forall|j: int| 0 <= j < k ==> old_ids[j] != id,
            decreases self.workers.len() - k,
        {
            if self.workers[k].id == id {
                proof {
                    assert(old_ids[k as int] == id);
                    assert(old_ids.no_duplicates());
                }
                let _gone = self.workers.remove(k);
                self.used_ids.remove(&id);
                proof {
                    assert(self@.ids =~= old_ids.remove(k as int));
                    assert(self@.statuses =~= old(self)@.statuses.remove(k as int));
                    assert(old_ids.remove(k as int).to_set() =~= old_ids.to_set().remove(id)) by {
                        assert forall|x: usize| #[trigger]
                            old_ids.remove(k as int).to_set().contains(x) implies old_ids.to_set().remove(id).contains(x) by {
                            let j = choose|j: int| 0 <= j < old_ids.remove(k as int).len() && old_ids.remove(k as int)[j] == x;
                            if j < k {
                                assert(old_ids[j] == x);
                                assert(old_ids[j] != old_ids[k as int]);
                            } else {
                                assert(old_ids[j + 1] == x);
                                assert(old_ids[j + 1] != old_ids[k as int]);
                            }
                        }
                        assert forall|x: usize| #[trigger]
                            old_ids.to_set().remove(id).contains(x) implies old_ids.remove(k as int).to_set().contains(x) by {
                            let j = choose|j: int| 0 <= j < old_ids.len() && old_ids[j] == x;
                            if j < k {
                                assert(old_ids.remove(k as int)[j] == x);
                            } else {
                                assert(j != k);
                                assert(old_ids.remove(k as int)[j - 1] == x);
                            }
                        }
                    }
                }
                return true;
            }
            k = k + 1;
        }
        proof {
            assert(!old_ids.contains(id));
        }
        false
    }

    fn move_status(&mut self, id: usize, from: WorkerStatus, to: WorkerStatus)
        requires
            old(self)@.wf(),
        ensures
            final(self)@ == old(self)@.move_status(id, from, to),
            final(self)@.wf(),
    {
        let ghost target = old(self)@.move_status(id, from, to);
        let mut i: usize = 0;
        while i < self.workers.len()
            invariant
                i <= self.workers.len(),
                self@.ids == old(self)@.ids,
                self@.used == old(self)@.used,
                self@.max_threads == old(self)@.max_threads,
                self@.stopped == old(self)@.stopped,
                self@.statuses.len() == old(self)@.statuses.len(),
                target == old(self)@.move_status(id, from, to),
                forall|j: int| 0 <= j < i ==> self@.statuses[j] == target.statuses[j],
                forall|j: int|
                    i <= j < self@.statuses.len() ==> self@.statuses[j] == old(self)@.statuses[j],
            decreases self.workers.len() - i,
        {
            if self.workers[i].id == id && self.workers[i].status == from {
                self.workers[i].status = to;
            }
            i = i + 1;
        }
        proof {
            assert(self@.statuses =~= target.statuses);
        }
    }

    /// Worker `id` parks: working becomes idle.
    pub fn park_worker(&mut self, id: usize)
        requires
            old(self)@.wf(),
        ensures
            final(self)@ == old(self)@.move_status(id, WorkerStatus::Working, WorkerStatus::Idle),
            final(self)@.wf(),
    {
        self.move_status(id, WorkerStatus::Working, WorkerStatus::Idle)
    }

    /// Worker `id` wakes from parking: idle becomes working, or leaving
    /// when the wait timed out.
    pub fn unpark_worker(&mut self, id: usize, timed_out: bool)
        requires
            old(self)@.wf(),
        ensures
            final(self)@ == old(self)@.move_status(
                id,
                WorkerStatus::Idle,
                if timed_out {
                    WorkerStatus::Leaving
                } else {
                    WorkerStatus::Working
                },
            ),
            final(self)@.wf(),
    {
        if timed_out {
            self.move_status(id, WorkerStatus::Idle, WorkerStatus::Leaving)
        } else {
            self.move_status(id, WorkerStatus::Idle, WorkerStatus::Working)
        }
    }

    /// Worker `id` saw the stop flag: working becomes leaving.
    pub fn retire_worker(&mut self, id: usize)
        requires
            old(self)@.wf(),
        ensures
            final(self)@ == old(self)@.move_status(
                id,
                WorkerStatus::Working,
                WorkerStatus::Leaving,
            ),
            final(self)@.wf(),
    {
        self.move_status(id, WorkerStatus::Working, WorkerStatus::Leaving)
    }

    /// Sets the stop flag. Returns whether it was clear before: only the
    /// first request has an effect.
    pub fn request_stop(&mut self) -> (first: bool)
        ensures
            (final(self)@, first) == old(self)@.stop(),
    {
        let first = !self.stopped;
        self.stopped = true;
        first
    }

    /// The worker a thief with id `self_id` tries, given a draw: the one at
    /// index `draw`, unless that is the thief itself or out of range.
    pub fn steal_target(&self, self_id: usize, draw: usize) -> (r: Option<usize>)
        ensures
            r == if draw < self@.ids.len() && self@.ids[draw as int] != self_id {
                Some(draw)
            } else {
                None::<usize>
            },
    {
        if draw < self.workers.len() && self.workers[draw].id != self_id {
            Some(draw)
        } else {
            None
        }
    }

    /// What a thief does with the injector's answer: a task won there is
    /// taken at once, before any deque is probed; otherwise it goes on to
    /// the workers' deques, if there are any.
    pub fn after_injector(&self, outcome: Steal<T>) -> (r: StealStep<T>)
        ensures
            outcome matches Steal::Success(t) ==> r == StealStep::Found(t),
            !(outcome is Success) && self@.ids.len() > 0 ==> r is Again,
            !(outcome is Success) && self@.ids.len() == 0 ==> r is GiveUp,
    {
        match outcome {
            Steal::Success(t) => StealStep::Found(t),
            _ => if self.workers.len() > 0 {
                StealStep::Again
            } else {
                StealStep::GiveUp
            },
        }
    }

    /// What a thief does after draw number `tries` (from 0) of its random
    /// draws among the workers: a task won is taken; an empty deque or a
    /// lost race is a miss, and after a miss it draws again only while
    /// fewer draws than there are workers have been made.
    pub fn after_probe(&self, outcome: Steal<T>, tries: usize) -> (r: StealStep<T>)
        ensures
            outcome matches Steal::Success(t) ==> r == StealStep::Found(t),
            !(outcome is Success) && tries + 1 < self@.ids.len() ==> r is Again,
            !(outcome is Success) && tries + 1 >= self@.ids.len() ==> r is GiveUp,
    {
        match outcome {
            Steal::Success(t) => StealStep::Found(t),
            _ => if tries < self.workers.len() && tries + 1 < self.workers.len() {
                StealStep::Again
            } else {
                StealStep::GiveUp
            },
        }
    }

    /// A task for worker `worker_id`: the injector is asked first; then up
    /// to as many random draws as there are workers, each probing the drawn
    /// worker's deque unless it is the thief's own. What the queues hold is
    /// up to other threads; which deques were probed is stated.
    pub fn try_steal(&self, injector: &Injector<T>, worker_id: usize) -> (r: Search<T>)
        ensures
            r.probed@.len() <= self@.ids.len(),
            forall|k: int|
                0 <= k < r.probed@.len() ==> #[trigger] r.probed@[k] < self@.ids.len()
                    && self@.ids[r.probed@[k] as int] != worker_id,
            r.found matches Some((_, src)) ==> src != Source::Local,
            r.found matches Some((_, Source::Global)) ==> r.probed@.len() == 0,
            r.found matches Some((_, Source::Victim(i))) ==> r.probed@.len() > 0
                && r.probed@.last() == i,
    {
        let ghost mut probed = Seq::<usize>::empty();
        match self.after_injector(injector.steal()) {
            StealStep::Found(task) => {
                return Search { found: Some((task, Source::Global)), probed: Ghost(probed) };
            },
            StealStep::GiveUp => {
                return Search { found: None, probed: Ghost(probed) };
            },
            StealStep::Again => {},
        }
        let len = self.workers.len();
        let mut tries: usize = 0;
        loop
            invariant
                len == self@.ids.len(),
                tries < len,
                probed.len() <= tries,
                forall|k: int|
                    0 <= k < probed.len() ==> #[trigger] probed[k] < len && self@.ids[probed[k] as int]
                        != worker_id,
            decreases len - tries,
        {
            let draw = random_below(len);
            let (step, victim) = match self.steal_target(worker_id, draw) {
                Some(i) => {
                    proof {
                        probed = probed.push(i);
                    }
                    (self.after_probe(self.workers[i].stealer.steal(), tries), i)
                },
                None => (self.after_probe(Steal::Empty, tries), len),
            };
            match step {
                StealStep::Found(task) => {
                    return Search {
                        found: Some((task, Source::Victim(victim))),
                        probed: Ghost(probed),
                    };
                },
                StealStep::GiveUp => {
                    return Search { found: None, probed: Ghost(probed) };
                },
                StealStep::Again => {
                    tries = tries + 1;
                },
            }
        }
    }
}

/// A well-formed registry holds at most `max_threads` workers, and exactly
/// as many ids in use as workers; every transition of `PoolState` keeps it
/// well-formed.
pub proof fn lemma_registry_bounds(p: PoolView)
    requires
        p.wf(),
    ensures
        p.ids.len() <= p.max_threads,
        p.used.len() == p.ids.len(),
{
    p.ids.unique_seq_to_set();
}

/// Every registered worker is idle, working, or on its way out: the three
/// counts add up to the number of registered workers.
pub proof fn lemma_status_partition(s: Seq<WorkerStatus>)
    ensures
        count_status(s, WorkerStatus::Idle) + count_status(s, WorkerStatus::Working)
            + count_status(s, WorkerStatus::Leaving) == s.len(),
    decreases s.len(),
{
    if s.len() > 0 {
        lemma_status_partition(s.drop_last());
    }
}

proof fn lemma_count_update(s: Seq<WorkerStatus>, k: int, v: WorkerStatus, x: WorkerStatus)
    requires
        0 <= k < s.len(),
    ensures
        count_status(s.update(k, v), x) as int == count_status(s, x) as int - (if s[k] == x {
            1int
        } else {
            0int
        }) + (if v == x {
            1int
        } else {
            0int
        }),
    decreases s.len(),
{
    let u = s.update(k, v);
    if k == s.len() - 1 {
        assert(u.drop_last() =~= s.drop_last());
    } else {
        assert(u.drop_last() =~= s.drop_last().update(k, v));
        lemma_count_update(s.drop_last(), k, v, x);
    }
}

proof fn lemma_move_one(p: PoolView, id: usize, k: int, from: WorkerStatus, to: WorkerStatus)
    requires
        p.wf(),
        0 <= k < p.ids.len(),
        p.ids[k] == id,
        p.statuses[k] == from,
    ensures
        p.move_status(id, from, to).statuses == p.statuses.update(k, to),
        p.move_status(id, from, to).ids == p.ids,
        p.move_status(id, from, to).wf(),
{
    assert(p.move_status(id, from, to).statuses =~= p.statuses.update(k, to));
}

/// A working worker that parks becomes one more idle and one less working
/// worker; when it wakes, the idle count is back to what it was, and the
/// working count too unless the wait timed out, in which case the worker
/// is one less working, on its way out.
pub proof fn lemma_park_round_trip(p: PoolView, id: usize, k: int, timed_out: bool)
    requires
        p.wf(),
        0 <= k < p.ids.len(),
        p.ids[k] == id,
        p.statuses[k] == WorkerStatus::Working,
    ensures
        ({
            let parked = p.move_status(id, WorkerStatus::Working, WorkerStatus::Idle);
            let woken = parked.move_status(
                id,
                WorkerStatus::Idle,
                if timed_out {
                    WorkerStatus::Leaving
                } else {
                    WorkerStatus::Working
                },
            );
            &&& parked.idle() == p.idle() + 1
            &&& parked.working() + 1 == p.working()
            &&& woken.idle() == p.idle()
            &&& woken.working() + (if timed_out {
                1int
            } else {
                0int
            }) == p.working()
            &&& woken.ids == p.ids
        }),
{
    let to = if timed_out {
        WorkerStatus::Leaving
    } else {
        WorkerStatus::Working
    };
    lemma_move_one(p, id, k, WorkerStatus::Working, WorkerStatus::Idle);
    let parked = p.move_status(id, WorkerStatus::Working, WorkerStatus::Idle);
    lemma_move_one(parked, id, k, WorkerStatus::Idle, to);
    lemma_count_update(p.statuses, k, WorkerStatus::Idle, WorkerStatus::Idle);
    lemma_count_update(p.statuses, k, WorkerStatus::Idle, WorkerStatus::Working);
    lemma_count_update(parked.statuses, k, to, WorkerStatus::Idle);
    lemma_count_update(parked.statuses, k, to, WorkerStatus::Working);
}

/// Stopping is idempotent: a second request changes nothing and reports
/// that it was not the first, and once stopped the pool runs no submitted
/// task, from a worker or from outside.
pub proof fn lemma_stop_idempotent(p: PoolView, in_worker: bool)
    ensures
        p.stop().0.stop() == (p.stop().0, false),
        p.stop().0.route(in_worker) == Placement::Discard,
{
}

} // verus!
