use crossbeam_deque::{Injector, Worker};
use planetary::pool::{after_local_pop, Slot, Source, StealStep};
use planetary::{
    find_task, Placement, PoolState, Routed, WorkerAction, WorkerEvent, WorkerPhase,
    WorkerStatus,
};

type Registry = PoolState<u32, ()>;

/// The task found for worker `id`, with where it came from.
fn search(local: &Worker<u32>, injector: &Injector<u32>, pool: &Registry, id: usize) -> Option<(u32, Source)> {
    find_task(local, injector, pool, id).found
}

fn add_worker(pool: &mut Registry) -> (usize, Worker<u32>) {
    let id = pool.pick_worker_id().expect("below the cap, an id is free");
    let local = Worker::new_fifo();
    assert!(pool.register(id, local.stealer(), ()));
    (id, local)
}

#[test]
fn create_shutdown() {
    let mut pool = Registry::new(2);
    assert_eq!(pool.len(), 0);
    assert!(pool.request_stop());
    assert!(pool.is_drained());
}

#[test]
fn prelaunched_workers_drain_on_shutdown() {
    let mut pool = Registry::new(2);
    let (a, _qa) = add_worker(&mut pool);
    let (b, _qb) = add_worker(&mut pool);
    assert_ne!(a, b);
    assert_eq!(pool.len(), 2);
    pool.park_worker(a);
    pool.park_worker(b);
    assert_eq!(pool.idle_count(), 2);
    assert_eq!(pool.working_count(), 0);

    assert!(pool.request_stop());
    for id in [a, b] {
        let (phase, action) = WorkerPhase::Parked.step(WorkerEvent::Woke { timed_out: false });
        assert_eq!(action, WorkerAction::CheckStop);
        pool.unpark_worker(id, false);
        let (phase, action) = phase.step(WorkerEvent::Checked { stop: pool.is_stopped() });
        assert_eq!((phase, action), (WorkerPhase::Done, WorkerAction::Exit));
        pool.retire_worker(id);
        assert!(pool.remove_worker(id));
    }
    assert!(pool.is_drained());
}

#[test]
fn two_tasks_start_two_workers() {
    let injector: Injector<u32> = Injector::new();
    let mut pool = Registry::new(2);
    assert!(matches!(pool.spawn_task(false, 5), Routed::SpawnWorker(5)));
    add_worker(&mut pool);
    assert!(matches!(pool.spawn_task(false, 2), Routed::SpawnWorker(2)));
    add_worker(&mut pool);
    assert_eq!(pool.working_count(), 2);
    assert!(injector.is_empty());
}

#[test]
fn second_task_waits_in_the_injector() {
    let injector = Injector::new();
    let mut pool = Registry::new(1);
    assert!(matches!(pool.spawn_task(false, 5), Routed::SpawnWorker(5)));
    let (id, local) = add_worker(&mut pool);
    assert_eq!(pool.route(false), Placement::Inject);
    match pool.spawn_task(false, 8) {
        Routed::Inject(task) => injector.push(task),
        _ => panic!("at the cap, a task goes to the injector"),
    }
    // the worker finished its first task: its deque is empty, the injector is not
    assert_eq!(search(&local, &injector, &pool, id), Some((8, Source::Global)));
    assert_eq!(search(&local, &injector, &pool, id), None);
}

#[test]
fn nested_submit_goes_to_the_local_deque() {
    let injector = Injector::new();
    let mut pool = Registry::new(1);
    let (id, local) = add_worker(&mut pool);
    assert_eq!(pool.route(true), Placement::Local);
    match pool.spawn_task(true, 12) {
        Routed::Local(task) => local.push(task),
        _ => panic!("a worker's own submission goes to its deque"),
    }
    injector.push(13);
    // the local deque is tried before the injector
    assert_eq!(search(&local, &injector, &pool, id), Some((12, Source::Local)));
    assert_eq!(search(&local, &injector, &pool, id), Some((13, Source::Global)));
}

#[test]
fn idle_worker_steals_from_a_busy_one() {
    let injector = Injector::new();
    let mut pool = Registry::new(2);
    let (busy, busy_local) = add_worker(&mut pool);
    let (idle, idle_local) = add_worker(&mut pool);
    match pool.spawn_task(true, 10) {
        Routed::Local(task) => busy_local.push(task),
        _ => panic!("a worker's own submission goes to its deque"),
    }
    let mut stolen = None;
    for _ in 0..64 {
        stolen = search(&idle_local, &injector, &pool, idle);
        if stolen.is_some() {
            break;
        }
    }
    // the busy worker registered first, at index 0
    assert_eq!(stolen, Some((10, Source::Victim(0))));
    assert!(busy_local.pop().is_none());
    assert_ne!(busy, idle);
}

#[test]
fn thief_never_picks_itself() {
    let mut pool = Registry::new(2);
    let (a, _qa) = add_worker(&mut pool);
    let (_b, _qb) = add_worker(&mut pool);
    // index 0 holds `a`, index 1 the other worker
    assert_eq!(pool.steal_target(a, 0), None);
    assert_eq!(pool.steal_target(a, 1), Some(1));
    assert_eq!(pool.steal_target(a, 2), None);
}

#[test]
fn idle_timeout_empties_the_registry() {
    let injector: Injector<u32> = Injector::new();
    let mut pool = Registry::new(2);
    let (id, local) = add_worker(&mut pool);
    let (phase, action) = WorkerPhase::Top.step(WorkerEvent::Checked { stop: false });
    assert_eq!(action, WorkerAction::Search);
    let found = search(&local, &injector, &pool, id).is_some();
    let (phase, action) = phase.step(WorkerEvent::Searched { found });
    assert_eq!(action, WorkerAction::Park);
    pool.park_worker(id);
    assert_eq!(pool.idle_count(), 1);
    let (phase, action) = phase.step(WorkerEvent::Woke { timed_out: true });
    assert_eq!((phase, action), (WorkerPhase::Done, WorkerAction::Exit));
    pool.unpark_worker(id, true);
    assert_eq!(pool.idle_count(), 0);
    assert_eq!(pool.working_count(), 0);
    assert!(pool.remove_worker(id));
    assert!(pool.is_drained());
    assert!(!pool.is_stopped());
}

#[test]
fn pool_accepts_work_after_a_task_panicked() {
    let mut pool = Registry::new(1);
    add_worker(&mut pool);
    assert!(matches!(pool.spawn_task(false, 1), Routed::Inject(1)));
    assert_ne!(pool.route(false), Placement::Discard);
}

#[test]
fn submissions_after_shutdown_are_dropped() {
    let mut pool = Registry::new(2);
    assert!(pool.request_stop());
    assert!(!pool.request_stop());
    assert!(matches!(pool.spawn_task(false, 3), Routed::Discarded));
    assert!(matches!(pool.spawn_task(true, 4), Routed::Discarded));
    assert_eq!(pool.route(true), Placement::Discard);
}

#[test]
fn spawn_decision_follows_idle_and_cap() {
    let mut pool = Registry::new(2);
    assert!(pool.should_spawn_thread());
    let (a, _qa) = add_worker(&mut pool);
    assert!(pool.should_spawn_thread());
    pool.park_worker(a);
    assert!(!pool.should_spawn_thread());
    assert_eq!(pool.route(false), Placement::Inject);
    pool.unpark_worker(a, false);
    add_worker(&mut pool);
    assert!(!pool.should_spawn_thread());
}

#[test]
fn registry_stays_within_its_cap() {
    let mut pool = Registry::new(3);
    let mut queues = Vec::new();
    for _ in 0..3 {
        queues.push(add_worker(&mut pool));
    }
    assert_eq!(pool.len(), 3);
    assert_eq!(pool.pick_worker_id(), None);
    assert_eq!(pool.free_id_count(), 0);
    let spare = Worker::new_fifo();
    assert!(!pool.register(0, spare.stealer(), ()));
    let mut ids: Vec<usize> = queues.iter().map(|q| q.0).collect();
    ids.sort();
    assert_eq!(ids, vec![0, 1, 2]);
}

#[test]
fn worker_id_is_the_only_free_one() {
    let mut pool = Registry::new(3);
    let q0 = Worker::new_fifo();
    let q1 = Worker::new_fifo();
    assert!(pool.register(0, q0.stealer(), ()));
    assert!(pool.register(2, q1.stealer(), ()));
    assert!(!pool.register(2, q1.stealer(), ()));
    assert!(!pool.register(3, q1.stealer(), ()));
    assert_eq!(pool.free_id_count(), 1);
    assert_eq!(pool.nth_free_id(0), Some(1));
    assert_eq!(pool.nth_free_id(1), None);
    for _ in 0..16 {
        assert_eq!(pool.pick_worker_id(), Some(1));
    }
}

#[test]
fn removing_a_worker_frees_its_id() {
    let mut pool = Registry::new(2);
    let (a, _qa) = add_worker(&mut pool);
    let (b, _qb) = add_worker(&mut pool);
    assert!(pool.remove_worker(a));
    assert!(!pool.remove_worker(a));
    assert_eq!(pool.len(), 1);
    assert_eq!(pool.pick_worker_id(), Some(a));
    assert_eq!(pool.nth_free_id(0), Some(a));
    assert_ne!(a, b);
}

#[test]
fn worker_statuses_move_with_events() {
    let mut pool = Registry::new(1);
    let (id, _q) = add_worker(&mut pool);
    assert_eq!(pool.working_count(), 1);
    pool.unpark_worker(id, false);
    assert_eq!(pool.working_count(), 1);
    pool.park_worker(id);
    assert_eq!((pool.idle_count(), pool.working_count()), (1, 0));
    pool.unpark_worker(id, false);
    assert_eq!((pool.idle_count(), pool.working_count()), (0, 1));
    pool.retire_worker(id);
    assert_eq!((pool.idle_count(), pool.working_count()), (0, 0));
    // the retiring worker is still registered, counted neither idle nor working
    assert_eq!(pool.len(), 1);
    let _ = WorkerStatus::Leaving;
}

#[test]
fn statuses_partition_the_registry() {
    let mut pool = Registry::new(3);
    let (a, _qa) = add_worker(&mut pool);
    let (b, _qb) = add_worker(&mut pool);
    let (_c, _qc) = add_worker(&mut pool);
    pool.park_worker(a);
    pool.retire_worker(b);
    assert_eq!(pool.idle_count(), 1);
    assert_eq!(pool.working_count(), 1);
    // one worker is leaving: idle + working + leaving == registered
    assert_eq!(pool.idle_count() + pool.working_count() + 1, pool.len());
}

#[test]
fn stopped_worker_executes_nothing_more() {
    let (phase, action) = WorkerPhase::Top.step(WorkerEvent::Checked { stop: true });
    assert_eq!((phase, action), (WorkerPhase::Done, WorkerAction::Exit));
    for event in [
        WorkerEvent::Checked { stop: false },
        WorkerEvent::Searched { found: true },
        WorkerEvent::Woke { timed_out: false },
    ] {
        assert_eq!(phase.step(event), (WorkerPhase::Done, WorkerAction::Exit));
    }
    assert_eq!(
        WorkerPhase::Searching.step(WorkerEvent::Woke { timed_out: true }),
        (WorkerPhase::Searching, WorkerAction::Search)
    );
}

#[test]
fn injector_is_asked_before_any_deque() {
    let injector = Injector::new();
    let mut pool = Registry::new(2);
    let (a, a_local) = add_worker(&mut pool);
    let (b, _b_local) = add_worker(&mut pool);
    a_local.push(1);
    injector.push(2);
    let r = pool.try_steal(&injector, b);
    assert_eq!(r.found, Some((2, Source::Global)));
    assert_eq!(a_local.pop(), Some(1));
    assert_ne!(a, b);
}

#[test]
fn thief_alone_gives_up() {
    let injector: Injector<u32> = Injector::new();
    let mut pool = Registry::new(2);
    let (a, a_local) = add_worker(&mut pool);
    a_local.push(1);
    // its own deque is never probed by the steal
    assert_eq!(pool.try_steal(&injector, a).found, None);
    assert_eq!(a_local.pop(), Some(1));
}

#[test]
fn steal_decisions() {
    let mut pool = Registry::new(3);
    assert!(matches!(pool.after_injector(crossbeam_deque::Steal::Success(4)), StealStep::Found(4)));
    assert!(matches!(pool.after_injector(crossbeam_deque::Steal::Empty), StealStep::GiveUp));
    add_worker(&mut pool);
    add_worker(&mut pool);
    assert!(matches!(pool.after_injector(crossbeam_deque::Steal::Retry), StealStep::Again));
    assert!(matches!(pool.after_probe(crossbeam_deque::Steal::Success(5), 1), StealStep::Found(5)));
    assert!(matches!(pool.after_probe(crossbeam_deque::Steal::Empty, 0), StealStep::Again));
    assert!(matches!(pool.after_probe(crossbeam_deque::Steal::Retry, 1), StealStep::GiveUp));
    assert!(matches!(after_local_pop(Some(6)), StealStep::Found(6)));
    assert!(matches!(after_local_pop::<u32>(None), StealStep::Again));
}

#[test]
fn full_pool_hands_the_seed_back() {
    let mut pool = Registry::new(1);
    match pool.claim_worker_slot(Some(7)) {
        Slot::Start { id, task } => {
            assert_eq!((id, task), (0, Some(7)));
        }
        Slot::Full(_) => panic!("an id is free"),
    }
    add_worker(&mut pool);
    assert!(matches!(pool.claim_worker_slot(Some(7)), Slot::Full(Some(7))));
    assert!(matches!(pool.claim_worker_slot(None), Slot::Full(None)));
}
