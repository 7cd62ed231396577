//! The six lifecycle hooks of the pool and the hook that names its threads.

use vstd::prelude::*;

verus! {

/// A callback the pool runs at a point of a worker's life. It may run on
/// any worker thread, so it must be shareable between threads.
pub trait HookFn<T>: Send + Sync + 'static {
    fn call(&self) -> T;
}

/// Which optional hooks are installed, as the contracts see them.
pub struct HooksView {
    pub custom_name: bool,
    pub on_start: bool,
    pub on_stop: bool,
    pub on_park: bool,
    pub on_unpark: bool,
    pub before_work: bool,
    pub after_work: bool,
}

impl HooksView {
    /// No optional hook, and the default thread name.
    pub open spec fn defaults() -> HooksView {
        HooksView {
            custom_name: false,
            on_start: false,
            on_stop: false,
            on_park: false,
            on_unpark: false,
            before_work: false,
            after_work: false,
        }
    }
}

/// The hooks called on pool events.
pub struct Hooks {
    /// Called when a thread is created; names the thread. Without it,
    /// threads are called `Unnamed`.
    name_fn: Option<Box<dyn HookFn<String>>>,
    /// Called when a worker starts, before its first task.
    on_start_fn: Option<Box<dyn HookFn<()>>>,
    /// Called when a worker stops, after its last task.
    on_stop_fn: Option<Box<dyn HookFn<()>>>,
    /// Called when a worker parks.
    on_park_fn: Option<Box<dyn HookFn<()>>>,
    /// Called when a worker wakes from parking.
    on_unpark_fn: Option<Box<dyn HookFn<()>>>,
    /// Called before a worker executes a task.
    before_work_fn: Option<Box<dyn HookFn<()>>>,
    /// Called after a worker executes a task.
    after_work_fn: Option<Box<dyn HookFn<()>>>,
}

impl View for Hooks {
    type V = HooksView;

    closed spec fn view(&self) -> HooksView {
        HooksView {
            custom_name: self.name_fn is Some,
            on_start: self.on_start_fn is Some,
            on_stop: self.on_stop_fn is Some,
            on_park: self.on_park_fn is Some,
            on_unpark: self.on_unpark_fn is Some,
            before_work: self.before_work_fn is Some,
            after_work: self.after_work_fn is Some,
        }
    }
}

impl Hooks {
    /// No optional hook, and threads named `Unnamed`.
    pub fn new() -> (h: Self)
        ensures
            h@ == HooksView::defaults(),
    {
        Hooks {
            name_fn: None,
            on_start_fn: None,
            on_stop_fn: None,
            on_park_fn: None,
            on_unpark_fn: None,
            before_work_fn: None,
            after_work_fn: None,
        }
    }

    /// Sets the hook that names new threads.
    pub fn set_name_fn(&mut self, name_fn: impl HookFn<String>) -> (r: &mut Self)
        ensures
            r@ == (HooksView { custom_name: true, ..old(self)@ }),
            final(self)@ == final(r)@,
    {
        self.name_fn = Some(Box::new(name_fn));
        self
    }

    /// Sets the hook run when a worker starts.
    pub fn set_on_start_fn(&mut self, on_start_fn: impl HookFn<()>) -> (r: &mut Self)
        ensures
            r@ == (HooksView { on_start: true, ..old(self)@ }),
            final(self)@ == final(r)@,
    {
        self.on_start_fn = Some(Box::new(on_start_fn));
        self
    }

    /// Sets the hook run when a worker stops.
    pub fn set_on_stop_fn(&mut self, on_stop_fn: impl HookFn<()>) -> (r: &mut Self)
        ensures
            r@ == (HooksView { on_stop: true, ..old(self)@ }),
            final(self)@ == final(r)@,
    {
        self.on_stop_fn = Some(Box::new(on_stop_fn));
        self
    }

    /// Sets the hook run when a worker parks.
    pub fn set_on_park_fn(&mut self, on_park_fn: impl HookFn<()>) -> (r: &mut Self)
        ensures
            r@ == (HooksView { on_park: true, ..old(self)@ }),
            final(self)@ == final(r)@,
    {
        self.on_park_fn = Some(Box::new(on_park_fn));
        self
    }

    /// Sets the hook run when a worker wakes from parking.
    pub fn set_on_unpark_fn(&mut self, on_unpark_fn: impl HookFn<()>) -> (r: &mut Self)
        ensures
            r@ == (HooksView { on_unpark: true, ..old(self)@ }),
            final(self)@ == final(r)@,
    {
        self.on_unpark_fn = Some(Box::new(on_unpark_fn));
        self
    }

    /// Sets the hook run before a worker executes a task.
    pub fn set_before_work_fn(&mut self, before_work_fn: impl HookFn<()>) -> (r: &mut Self)
        ensures
            r@ == (HooksView { before_work: true, ..old(self)@ }),
            final(self)@ == final(r)@,
    {
        self.before_work_fn = Some(Box::new(before_work_fn));
        self
    }

    /// Sets the hook run after a worker executes a task.
    pub fn set_after_work_fn(&mut self, after_work_fn: impl HookFn<()>) -> (r: &mut Self)
        ensures
            r@ == (HooksView { after_work: true, ..old(self)@ }),
            final(self)@ == final(r)@,
    {
        self.after_work_fn = Some(Box::new(after_work_fn));
        self
    }

    /// A name for a new thread: from the name hook if one is set, else
    /// `Unnamed`.
    pub fn call_name_fn(&self) -> (name: String)
        ensures
            !self@.custom_name ==> name@ == "Unnamed"@,
    {
        match &self.name_fn {
            Some(f) => f.call(),
            None => "Unnamed".to_owned(),
        }
    }

    /// Runs the start hook, if one is set.
    pub fn call_on_start_fn(&self) {
        if let Some(f) = &self.on_start_fn {
            f.call();
        }
    }

    /// Runs the stop hook, if one is set.
    pub fn call_on_stop_fn(&self) {
        if let Some(f) = &self.on_stop_fn {
            f.call();
        }
    }

    /// Runs the park hook, if one is set.
    pub fn call_on_park_fn(&self) {
        if let Some(f) = &self.on_park_fn {
            f.call();
        }
    }

    /// Runs the unpark hook, if one is set.
    pub fn call_on_unpark_fn(&self) {
        if let Some(f) = &self.on_unpark_fn {
            f.call();
        }
    }

    /// Runs the before-work hook, if one is set.
    pub fn call_before_work_fn(&self) {
        if let Some(f) = &self.before_work_fn {
            f.call();
        }
    }

    /// Runs the after-work hook, if one is set.
    pub fn call_after_work_fn(&self) {
        if let Some(f) = &self.after_work_fn {
            f.call();
        }
    }
}

} // verus!
