use planetary::{HookFn, Hooks, PlanetaryBuilder};
use std::sync::atomic::{AtomicUsize, Ordering};
use std::sync::Arc;
use std::time::Duration;

struct Counter(Arc<AtomicUsize>);

impl HookFn<()> for Counter {
    fn call(&self) {
        self.0.fetch_add(1, Ordering::SeqCst);
    }
}

struct Named;

impl HookFn<String> for Named {
    fn call(&self) -> String {
        "Worker-0".to_string()
    }
}

#[test]
fn builder_defaults() {
    let b = PlanetaryBuilder::new();
    assert!(b.threads() >= 1);
    assert_eq!(b.threads(), num_cpus::get());
    assert_eq!(b.stack(), None);
    assert_eq!(b.idle_timeout(), Duration::from_secs(15));
    assert!(!b.launches_on_build());
}

#[test]
fn builder_setters_chain() {
    let mut b = PlanetaryBuilder::new();
    b.max_threads(2)
        .stack_size(1 << 20)
        .timeout(Duration::from_millis(50))
        .launch_on_build(true);
    assert_eq!(b.threads(), 2);
    assert_eq!(b.stack(), Some(1 << 20));
    assert_eq!(b.idle_timeout(), Duration::from_millis(50));
    assert!(b.launches_on_build());

    let taken = b.take();
    assert_eq!(b.idle_timeout(), Duration::from_secs(15));
    assert_eq!(taken.threads(), 2);
    assert!(taken.launches_on_build());
    assert_eq!(b.stack(), None);
    assert!(!b.launches_on_build());
}

#[test]
fn default_thread_name_is_unnamed() {
    assert_eq!(Hooks::new().call_name_fn(), "Unnamed");
    let mut b = PlanetaryBuilder::new();
    b.max_threads(3);
    assert_eq!(b.into_hooks().call_name_fn(), "Unnamed");
}

#[test]
fn hooks_run_what_was_set() {
    let count = Arc::new(AtomicUsize::new(0));
    let mut hooks = Hooks::new();
    hooks.call_on_start_fn();
    assert_eq!(count.load(Ordering::SeqCst), 0);
    hooks
        .set_on_start_fn(Counter(count.clone()))
        .set_on_stop_fn(Counter(count.clone()))
        .set_on_park_fn(Counter(count.clone()))
        .set_on_unpark_fn(Counter(count.clone()))
        .set_before_work_fn(Counter(count.clone()))
        .set_after_work_fn(Counter(count.clone()))
        .set_name_fn(Named);
    hooks.call_on_start_fn();
    hooks.call_on_stop_fn();
    hooks.call_on_park_fn();
    hooks.call_on_unpark_fn();
    hooks.call_before_work_fn();
    hooks.call_after_work_fn();
    assert_eq!(count.load(Ordering::SeqCst), 6);
    assert_eq!(hooks.call_name_fn(), "Worker-0");

    let mut b = PlanetaryBuilder::new();
    b.with_hooks(hooks);
    assert_eq!(b.into_hooks().call_name_fn(), "Worker-0");
}
