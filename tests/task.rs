use planetary::{JoinPoll, Parker, Start, State, Task};

type Record<I, R> = Task<I, R, String, u32, u32>;

#[test]
fn runnable() {
    println!("Runnable ran")
}

fn say_ran() {
    println!("Runnable ran")
}

#[test]
pub fn create_drop_task() {
    let _task = Record::<fn(), ()>::new(say_ran as fn());
}

#[test]
pub fn create_drop_erased() {
    let mut task = Record::<fn(), ()>::new(say_ran as fn());
    task.attach_executor();
    // the pool drops its reference without running the task
    assert!(task.release_executor());
}

#[test]
pub fn create_run_erased() {
    let mut task = Record::<fn(), ()>::new(say_ran as fn());
    task.attach_executor();
    match task.begin_run() {
        Start::Run(f) => {
            f();
            let woken = task.complete(Ok(()));
            assert!(matches!(woken, Parker::Empty));
        }
        Start::Skip(_) => panic!("a task that was not aborted must run"),
    }
    assert!(task.release_executor());
}

#[test]
pub fn create_take_output() {
    let mut task = Record::new(|| {
        say_ran();
        "foo"
    });
    task.attach_executor();
    // this is technically not a handle, but put this flag to avoid
    // deallocating the task when running
    task.attach_handle();
    match task.begin_run() {
        Start::Run(f) => {
            task.complete(Ok(f()));
        }
        Start::Skip(_) => panic!("a task that was not aborted must run"),
    }
    assert!(!task.release_executor());

    let output = task.take_output();
    assert!(output.is_some());
    assert_eq!(output.unwrap().unwrap(), "foo");

    let state = task.state_snapshot();
    assert!(!state.get(State::RUNNING));
    assert!(state.get(State::FINISHED));
    assert!(state.get(State::OUTPUT_READY));
    assert!(state.get(State::OUTPUT_TAKEN));
    assert!(!state.get(State::EXECUTOR_ALIVE));

    assert!(task.release_handle());
}

#[test]
fn state_word_sets_and_clears_flags() {
    let mut s = State::new();
    assert_eq!(s.load_all(), 0);
    s.set(State::RUNNING, true);
    s.set(State::HANDLE_ALIVE, true);
    assert_eq!(s.load_all(), 0b0010_0001);
    assert!(s.get(State::RUNNING));
    assert!(!s.get(State::FINISHED));
    s.set(State::RUNNING, false);
    assert_eq!(s.load_all(), 0b0010_0000);
    s.set(State::OUTPUT_TAKEN, true);
    assert_eq!(s.load_all(), 0b0000_0010_0010_0000);
}

#[test]
fn freed_exactly_once_in_either_order() {
    let mut a = Record::<u8, u8>::new(1);
    a.attach_executor();
    a.attach_handle();
    assert!(!a.release_executor());
    assert!(a.release_handle());

    let mut b = Record::<u8, u8>::new(1);
    b.attach_executor();
    b.attach_handle();
    assert!(!b.release_handle());
    assert!(b.release_executor());
}

#[test]
fn completion_wakes_the_installed_waiter_after_output_is_ready() {
    let mut t = Record::<u8, u8>::new(4);
    t.attach_executor();
    t.attach_handle();
    let f = match t.begin_run() {
        Start::Run(f) => f,
        Start::Skip(_) => panic!("not aborted"),
    };
    assert!(matches!(t.poll_join(Parker::Thread(7)), JoinPoll::Pending));
    let woken = t.complete(Ok(f * 2));
    assert!(matches!(woken, Parker::Thread(7)));
    assert!(t.state_snapshot().get(State::OUTPUT_READY));
    match t.poll_join(Parker::Waker(1)) {
        JoinPoll::Ready(Ok(v)) => assert_eq!(v, 8),
        _ => panic!("the result is ready"),
    }
}

#[test]
fn panic_payload_reaches_the_joiner() {
    let mut t = Record::<u8, u8>::new(4);
    t.attach_handle();
    assert!(matches!(t.begin_run(), Start::Run(4)));
    t.complete(Err("boom".to_string()));
    assert!(t.state_snapshot().get(State::FINISHED));
    assert!(!t.state_snapshot().get(State::RUNNING));
    match t.poll_join(Parker::Empty) {
        JoinPoll::Ready(Err(payload)) => assert_eq!(payload, "boom"),
        _ => panic!("the payload is the result"),
    }
}

#[test]
fn abort_twice_is_abort_once() {
    let mut t = Record::<u8, u8>::new(4);
    t.attach_handle();
    assert!(matches!(t.poll_join(Parker::Waker(3)), JoinPoll::Pending));
    assert!(matches!(t.abort(), Parker::Waker(3)));
    let once = t.state_snapshot();
    assert!(matches!(t.abort(), Parker::Empty));
    assert_eq!(t.state_snapshot(), once);
    assert!(matches!(t.poll_join(Parker::Empty), JoinPoll::Aborted));
}

#[test]
fn aborted_task_is_skipped_and_joins_as_aborted() {
    let mut t = Record::<u8, u8>::new(4);
    t.attach_executor();
    t.attach_handle();
    t.abort();
    assert!(matches!(t.begin_run(), Start::Skip(Parker::Empty)));
    let s = t.state_snapshot();
    assert!(s.get(State::FINISHED));
    assert!(!s.get(State::OUTPUT_READY));
    assert!(matches!(t.poll_join(Parker::Empty), JoinPoll::Aborted));
}

#[test]
fn abort_during_run_keeps_the_result() {
    let mut t = Record::<u8, u8>::new(4);
    t.attach_handle();
    assert!(matches!(t.begin_run(), Start::Run(4)));
    t.abort();
    assert!(matches!(t.poll_join(Parker::Empty), JoinPoll::Pending));
    t.complete(Ok(9));
    assert!(matches!(t.poll_join(Parker::Empty), JoinPoll::Ready(Ok(9))));
}

#[test]
fn output_is_taken_once() {
    let mut t = Record::<u8, u8>::new(4);
    assert!(t.take_output().is_none());
    t.begin_run();
    t.complete(Ok(5));
    assert_eq!(t.take_output(), Some(Ok(5)));
    assert_eq!(t.take_output(), None);
}
