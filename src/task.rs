//! The task record: its state word, its input and output slots, its parker,
//! and the transitions of its lifecycle.

pub mod lifecycle;
pub mod park;
pub mod state;

pub use park::Parker;
pub use state::State;

use vstd::prelude::*;

use state::flag_on;

verus! {

/// What a task record holds, as its contracts see it.
pub struct TaskView<I, R, E, W, H> {
    pub state: u16,
    pub input: Option<I>,
    pub output: Option<Result<R, E>>,
    pub parker: Parker<W, H>,
}

/// How a worker's attempt to run a task turned out.
pub enum Start<I, W, H> {
    /// The computation, moved out of the input slot, to be run now.
    Run(I),
    /// The task was aborted before it started; the party to wake.
    Skip(Parker<W, H>),
}

/// What a joiner finds when it looks at a task.
pub enum JoinPoll<R, E> {
    /// The result, moved out of the output slot.
    Ready(Result<R, E>),
    /// The task was aborted before it started: no result will come.
    Aborted,
    /// No result yet: the joiner's waiter is installed in the parker.
    Pending,
}

impl<I, R, E, W, H> TaskView<I, R, E, W, H> {
    pub open spec fn running(self) -> bool {
        flag_on(self.state, State::RUNNING)
    }

    pub open spec fn finished(self) -> bool {
        flag_on(self.state, State::FINISHED)
    }

    pub open spec fn aborted(self) -> bool {
        flag_on(self.state, State::ABORTED)
    }

    pub open spec fn executor_alive(self) -> bool {
        flag_on(self.state, State::EXECUTOR_ALIVE)
    }

    pub open spec fn handle_alive(self) -> bool {
        flag_on(self.state, State::HANDLE_ALIVE)
    }

    pub open spec fn output_ready(self) -> bool {
        flag_on(self.state, State::OUTPUT_READY)
    }

    pub open spec fn output_taken(self) -> bool {
        flag_on(self.state, State::OUTPUT_TAKEN)
    }

    /// No bit outside the seven flags is set, and the slots agree with
    /// the flags: the input is there until execution
    /// starts, the output from completion until it is taken, never both.
    pub open spec fn wf(self) -> bool {
        &&& state::only_flags(self.state)
        &&& self.output_taken() ==> self.output_ready()
        &&& self.output_ready() ==> self.finished()
        &&& self.finished() ==> !self.running()
        &&& (self.input is Some <==> !self.running() && !self.finished())
        &&& (self.output is Some <==> self.output_ready() && !self.output_taken())
    }

    /// Neither the pool nor a handle refers to the task: it is to be freed.
    pub open spec fn unowned(self) -> bool {
        !self.executor_alive() && !self.handle_alive()
    }

    pub open spec fn with_state(self, state: u16) -> Self {
        TaskView { state, ..self }
    }

    pub open spec fn attach_executor(self) -> Self {
        self.with_state(self.state | State::EXECUTOR_ALIVE)
    }

    pub open spec fn attach_handle(self) -> Self {
        self.with_state(self.state | State::HANDLE_ALIVE)
    }

    /// A worker picks the task up: an aborted task is finished without
    /// running and its parker is emptied for waking; otherwise the input
    /// moves out and the task is running.
    pub open spec fn begin_run(self) -> (Self, Start<I, W, H>) {
        if self.aborted() {
            (
                TaskView {
                    state: self.state | State::FINISHED,
                    input: None,
                    parker: Parker::Empty,
                    ..self
                },
                Start::Skip(self.parker),
            )
        } else {
            (
                TaskView { state: self.state | State::RUNNING, input: None, ..self },
                Start::Run(self.input->0),
            )
        }
    }

    /// The computation returned, or panicked into `Err`: the result is
    /// stored and flagged ready, then the parker is emptied for waking.
    pub open spec fn complete(self, result: Result<R, E>) -> (Self, Parker<W, H>) {
        (
            TaskView {
                state: ((self.state & !State::RUNNING) | State::FINISHED) | State::OUTPUT_READY,
                output: Some(result),
                parker: Parker::Empty,
                ..self
            },
            self.parker,
        )
    }

    /// Cancellation is flagged and the parker emptied for waking.
    pub open spec fn abort(self) -> (Self, Parker<W, H>) {
        (
            TaskView { state: self.state | State::ABORTED, parker: Parker::Empty, ..self },
            self.parker,
        )
    }

    /// The result moves out once: only while it is ready and not yet taken.
    pub open spec fn take_output(self) -> (Self, Option<Result<R, E>>) {
        if self.output_ready() && !self.output_taken() {
            (
                TaskView { state: self.state | State::OUTPUT_TAKEN, output: None, ..self },
                self.output,
            )
        } else {
            (self, None)
        }
    }

    /// A joiner's look at the task, under the same lock as the producer:
    /// take the result if it is there, report an abort that kept the task
    /// from starting, or else install `waiter`.
    pub open spec fn poll_join(self, waiter: Parker<W, H>) -> (Self, JoinPoll<R, E>) {
        if self.output_ready() && !self.output_taken() {
            (self.take_output().0, JoinPoll::Ready(self.output->0))
        } else if self.aborted() && !self.running() && !self.output_ready() {
            (self, JoinPoll::Aborted)
        } else {
            (TaskView { parker: waiter, ..self }, JoinPoll::Pending)
        }
    }

    /// The pool lets go of the task; the result says whether it is to be freed.
    pub open spec fn release_executor(self) -> (Self, bool) {
        let next = self.with_state(self.state & !State::EXECUTOR_ALIVE);
        (next, next.unowned())
    }

    /// The join handle lets go of the task; the result says whether it is to
    /// be freed.
    pub open spec fn release_handle(self) -> (Self, bool) {
        let next = self.with_state(self.state & !State::HANDLE_ALIVE);
        (next, next.unowned())
    }
}

/// One submitted computation: its lifecycle flags, the slot that holds the
/// input until execution starts, the slot that holds the output from
/// completion until it is taken, and the party waiting for it.
pub struct Task<I, R, E, W, H> {
    state: State,
    input: Option<I>,
    output: Option<Result<R, E>>,
    parker: Parker<W, H>,
}

impl<I, R, E, W, H> View for Task<I, R, E, W, H> {
    type V = TaskView<I, R, E, W, H>;

    closed spec fn view(&self) -> TaskView<I, R, E, W, H> {
        TaskView {
            state: self.state@,
            input: self.input,
            output: self.output,
            parker: self.parker,
        }
    }
}

impl<I, R, E, W, H> Task<I, R, E, W, H> {
    /// A fresh task holding `input`, with no flag set and nobody waiting.
    pub fn new(input: I) -> (t: Self)
        ensures
            t@ == (TaskView::<I, R, E, W, H> {
                state: 0,
                input: Some(input),
                output: None,
                parker: Parker::Empty,
            }),
            t@.wf(),
    {
        proof {
            state::lemma_flags();
        }
        Task { state: State::new(), input: Some(input), output: None, parker: Parker::Empty }
    }

    /// A copy of the lifecycle flags as they stand.
    pub fn state_snapshot(&self) -> (s: State)
        ensures
            s@ == self@.state,
            self@.wf() ==> state::only_flags(s@),
    {
        self.state
    }

    /// Records that the pool holds a reference to the task.
    pub fn attach_executor(&mut self)
        requires
            old(self)@.wf(),
        ensures
            final(self)@ == old(self)@.attach_executor(),
            final(self)@.wf(),
    {
        proof {
            state::lemma_flags();
        }
        self.state.set(State::EXECUTOR_ALIVE, true);
    }

    /// Records that a join handle to the task exists.
    pub fn attach_handle(&mut self)
        requires
            old(self)@.wf(),
        ensures
            final(self)@ == old(self)@.attach_handle(),
            final(self)@.wf(),
    {
        proof {
            state::lemma_flags();
        }
        self.state.set(State::HANDLE_ALIVE, true);
    }

    /// A worker picks the task up. Unless it was aborted, the computation
    /// moves out of the input slot and the task is running; an aborted task
    /// is finished without running, and the party waiting on it is handed
    /// back for waking.
    pub fn begin_run(&mut self) -> (r: Start<I, W, H>)
        requires
            old(self)@.wf(),
            !old(self)@.running(),
            !old(self)@.finished(),
        ensures
            (final(self)@, r) == old(self)@.begin_run(),
            final(self)@.wf(),
    {
        proof {
            state::lemma_flags();
        }
        if self.state.get(State::ABORTED) {
            self.state.set(State::FINISHED, true);
            self.input = None;
            Start::Skip(self.parker.take())
        } else {
            self.state.set(State::RUNNING, true);
            let mut input = None;
            std::mem::swap(&mut self.input, &mut input);
            match input {
                Some(f) => Start::Run(f),
                None => {
                    proof {
                        assert(false);
                    }
                    Start::Skip(Parker::Empty)
                },
            }
        }
    }

    /// Stores the result of a run that `begin_run` started, flags it ready
    /// and hands back the party waiting on the task, which is then to be
    /// woken: the flag is set before anyone is woken.
    pub fn complete(&mut self, result: Result<R, E>) -> (woken: Parker<W, H>)
        requires
            old(self)@.wf(),
            old(self)@.running(),
        ensures
            (final(self)@, woken) == old(self)@.complete(result),
            final(self)@.wf(),
            final(self)@.output_ready(),
            final(self)@.finished(),
    {
        proof {
            state::lemma_flags();
        }
        self.output = Some(result);
        self.state.set(State::RUNNING, false);
        self.state.set(State::FINISHED, true);
        self.state.set(State::OUTPUT_READY, true);
        self.parker.take()
    }

    /// Flags the task as aborted and hands back the party waiting on it,
    /// which is then to be woken. A run already under way goes on.
    pub fn abort(&mut self) -> (woken: Parker<W, H>)
        requires
            old(self)@.wf(),
        ensures
            (final(self)@, woken) == old(self)@.abort(),
            final(self)@.wf(),
    {
        proof {
            state::lemma_flags();
        }
        self.state.set(State::ABORTED, true);
        self.parker.take()
    }

    /// Moves the result out, if it is ready and was not taken before.
    pub fn take_output(&mut self) -> (r: Option<Result<R, E>>)
        requires
            old(self)@.wf(),
        ensures
            (final(self)@, r) == old(self)@.take_output(),
            final(self)@.wf(),
    {
        proof {
            state::lemma_flags();
        }
        if !self.state.get(State::OUTPUT_READY) || self.state.get(State::OUTPUT_TAKEN) {
            return None;
        }
        self.state.set(State::OUTPUT_TAKEN, true);
        let mut out = None;
        std::mem::swap(&mut self.output, &mut out);
        out
    }

    /// A joiner's look at the task: the result if it is there, `Aborted` if
    /// an abort kept the task from starting, else `Pending` with `waiter`
    /// installed. Made under the lock that `complete` takes, the check and
    /// the install leave no wake-up to lose.
    pub fn poll_join(&mut self, waiter: Parker<W, H>) -> (r: JoinPoll<R, E>)
        requires
            old(self)@.wf(),
        ensures
            (final(self)@, r) == old(self)@.poll_join(waiter),
            final(self)@.wf(),
    {
        proof {
            state::lemma_flags();
        }
        match self.take_output() {
            Some(out) => JoinPoll::Ready(out),
            None => {
                if self.state.get(State::ABORTED) && !self.state.get(State::RUNNING)
                    && !self.state.get(State::OUTPUT_READY) {
                    JoinPoll::Aborted
                } else {
                    self.parker = waiter;
                    JoinPoll::Pending
                }
            },
        }
    }

    /// Whether neither the pool nor a handle refers to the task any more.
    pub fn try_drop(&self) -> (r: bool)
        ensures
            r == self@.unowned(),
    {
        !self.state.get(State::EXECUTOR_ALIVE) && !self.state.get(State::HANDLE_ALIVE)
    }

    /// The pool lets go of the task. Returns whether that was the last
    /// reference, in which case the caller frees the task.
    pub fn release_executor(&mut self) -> (freed: bool)
        requires
            old(self)@.wf(),
        ensures
            (final(self)@, freed) == old(self)@.release_executor(),
            final(self)@.wf(),
    {
        proof {
            state::lemma_flags();
        }
        self.state.set(State::EXECUTOR_ALIVE, false);
        self.try_drop()
    }

    /// The join handle lets go of the task. Returns whether that was the
    /// last reference, in which case the caller frees the task.
    pub fn release_handle(&mut self) -> (freed: bool)
        requires
            old(self)@.wf(),
        ensures
            (final(self)@, freed) == old(self)@.release_handle(),
            final(self)@.wf(),
    {
        proof {
            state::lemma_flags();
        }
        self.state.set(State::HANDLE_ALIVE, false);
        self.try_drop()
    }
}

} // verus!
