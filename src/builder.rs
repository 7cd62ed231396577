//! The configuration of a pool, gathered before it is built.

use vstd::prelude::*;

use crate::hooks::{Hooks, HooksView};
use core::time::Duration;

verus! {

/// Relies on `num_cpus::get`: the number of CPUs available, which its
/// documentation says is always at least 1.
pub assume_specification[ num_cpus::get ]() -> (n: usize)
    ensures
        n >= 1,
;

/// The span of `secs` whole seconds.
pub uninterp spec fn duration_from_secs(secs: u64) -> Duration;

/// Relies on `Duration::from_secs`: a span of whole seconds, which depends
/// on `secs` alone.
pub assume_specification[ Duration::from_secs ](secs: u64) -> (d: Duration)
    ensures
        d == duration_from_secs(secs),
;

/// How long, in seconds, a worker waits for work by default before it ends.
pub const DEFAULT_TIMEOUT_SECS: u64 = 15;

/// The settings a builder holds, as its contracts see them.
pub struct BuilderView {
    pub hooks: HooksView,
    pub max_threads: usize,
    pub stack_size: Option<usize>,
    pub timeout: Duration,
    pub launch_on_build: bool,
}

/// Builder for a pool.
pub struct PlanetaryBuilder {
    /// Hooks to be run by the pool.
    hooks: Hooks,
    /// The most worker threads that may run at once.
    max_threads: usize,
    /// Stack size for the worker threads.
    stack_size: Option<usize>,
    /// How long a worker waits for work before it ends.
    timeout: Duration,
    /// Whether all the workers start when the pool is built.
    launch_on_build: bool,
}

impl View for PlanetaryBuilder {
    type V = BuilderView;

    closed spec fn view(&self) -> BuilderView {
        BuilderView {
            hooks: self.hooks@,
            max_threads: self.max_threads,
            stack_size: self.stack_size,
            timeout: self.timeout,
            launch_on_build: self.launch_on_build,
        }
    }
}

impl PlanetaryBuilder {
    /// The defaults: as many threads as CPUs, the system's stack size,
    /// a 15 second idle timeout, workers started on demand, no hooks.
    pub fn new() -> (b: Self)
        ensures
            b@.max_threads >= 1,
            b@.stack_size is None,
            b@.timeout == duration_from_secs(DEFAULT_TIMEOUT_SECS),
            !b@.launch_on_build,
            b@.hooks == HooksView::defaults(),
    {
        PlanetaryBuilder {
            hooks: Hooks::new(),
            max_threads: num_cpus::get(),
            stack_size: None,
            timeout: Duration::from_secs(DEFAULT_TIMEOUT_SECS),
            launch_on_build: false,
        }
    }

    /// Sets the maximum number of threads.
    pub fn max_threads(&mut self, threads: usize) -> (r: &mut Self)
        ensures
            r@ == (BuilderView { max_threads: threads, ..old(self)@ }),
            final(self)@ == final(r)@,
    {
        self.max_threads = threads;
        self
    }

    /// Sets the stack size of the worker threads.
    pub fn stack_size(&mut self, size: usize) -> (r: &mut Self)
        ensures
            r@ == (BuilderView { stack_size: Some(size), ..old(self)@ }),
            final(self)@ == final(r)@,
    {
        self.stack_size = Some(size);
        self
    }

    /// Sets how long a worker without work waits before it ends.
    pub fn timeout(&mut self, timeout: Duration) -> (r: &mut Self)
        ensures
            r@ == (BuilderView { timeout, ..old(self)@ }),
            final(self)@ == final(r)@,
    {
        self.timeout = timeout;
        self
    }

    /// Sets whether all the workers start when the pool is built.
    pub fn launch_on_build(&mut self, launch: bool) -> (r: &mut Self)
        ensures
            r@ == (BuilderView { launch_on_build: launch, ..old(self)@ }),
            final(self)@ == final(r)@,
    {
        self.launch_on_build = launch;
        self
    }

    /// Sets the hooks to be run by the pool.
    pub fn with_hooks(&mut self, hooks: Hooks) -> (r: &mut Self)
        ensures
            r@ == (BuilderView { hooks: hooks@, ..old(self)@ }),
            final(self)@ == final(r)@,
    {
        self.hooks = hooks;
        self
    }

    /// The maximum number of threads.
    pub fn threads(&self) -> (n: usize)
        ensures
            n == self@.max_threads,
    {
        self.max_threads
    }

    /// The stack size of the worker threads, if set.
    pub fn stack(&self) -> (s: Option<usize>)
        ensures
            s == self@.stack_size,
    {
        self.stack_size
    }

    /// The idle timeout of the workers.
    pub fn idle_timeout(&self) -> (t: Duration)
        ensures
            t == self@.timeout,
    {
        self.timeout
    }

    /// Whether all the workers start when the pool is built.
    pub fn launches_on_build(&self) -> (l: bool)
        ensures
            l == self@.launch_on_build,
    {
        self.launch_on_build
    }

    /// The hooks, given up by the builder.
    pub fn into_hooks(self) -> (h: Hooks)
        ensures
            h@ == self@.hooks,
    {
        self.hooks
    }

    /// Moves the settings out, leaving the defaults in their place.
    pub fn take(&mut self) -> (b: Self)
        ensures
            b@ == old(self)@,
            final(self)@.max_threads >= 1,
            final(self)@.stack_size is None,
            final(self)@.timeout == duration_from_secs(DEFAULT_TIMEOUT_SECS),
            !final(self)@.launch_on_build,
            final(self)@.hooks == HooksView::defaults(),
    {
        let mut b = PlanetaryBuilder::new();
        std::mem::swap(self, &mut b);
        b
    }
}

} // verus!
