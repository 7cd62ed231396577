use vstd::prelude::*;

verus! {

/// The rendezvous slot of a task: empty, or the party to wake when the task
/// finishes or is aborted. `W` is an asynchronous waker, `H` a handle to a
/// blocked thread.
pub enum Parker<W, H> {
    Waker(W),
    Thread(H),
    Empty,
}

impl<W, H> Parker<W, H> {
    /// An empty slot.
    pub fn new() -> (p: Self)
        ensures
            p is Empty,
    {
        Parker::Empty
    }

    /// Installs an asynchronous waker, replacing what was there.
    pub fn set_waker(&mut self, waker: W)
        ensures
            *final(self) == Parker::<W, H>::Waker(waker),
    {
        *self = Parker::Waker(waker);
    }

    /// Installs a blocked thread, replacing what was there.
    pub fn set_thread(&mut self, thread: H)
        ensures
            *final(self) == Parker::<W, H>::Thread(thread),
    {
        *self = Parker::Thread(thread);
    }

    /// Moves the content out, leaving the slot empty.
    pub fn take(&mut self) -> (p: Self)
        ensures
            p == *old(self),
            *final(self) is Empty,
    {
        let mut p = Parker::Empty;
        std::mem::swap(self, &mut p);
        p
    }
}

} // verus!
