use vstd::prelude::*;
use crate::message::Message;

verus! {

/// Where a worker's loop stands.
#[derive(PartialEq, Eq, Structural, Clone, Copy, Debug)]
pub enum WorkerState {
    Running,
    Terminating,
    Terminated,
}

/// The decisions of one worker's loop, run on that worker's own thread.
///
/// The thread takes one message at a time from the channel and hands it to
/// `handle`, which says whether there is a job to run or the loop must end.
pub struct WorkerLoop {
    pub id: usize,
    pub state: WorkerState,
}

impl WorkerLoop {
    /// A loop that is ready for its first message.
    pub fn new(id: usize) -> (w: Self)
        ensures
            w.id == id,
            w.state == WorkerState::Running,
    {
        WorkerLoop { id, state: WorkerState::Running }
    }

    /// Whether the loop still takes messages.
    pub fn is_running(&self) -> (r: bool)
        ensures
            r == (self.state == WorkerState::Running),
    {
        self.state == WorkerState::Running
    }

    /// Acts on one message: a job is handed back to be run to completion,
    /// and the loop goes on; a stop request ends the loop.
    pub fn handle<J>(&mut self, m: Message<J>) -> (r: Option<J>)
        requires
            old(self).state == WorkerState::Running,
        ensures
            final(self).id == old(self).id,
            match m {
                Message::Work(j) => r == Some(j) && final(self).state == WorkerState::Running,
                Message::Stop => r is None && final(self).state == WorkerState::Terminating,
            },
    {
        match m {
            Message::Work(j) => Some(j),
            Message::Stop => {
                self.state = WorkerState::Terminating;
                None
            },
        }
    }

    /// Records that the loop has been left and the thread is about to exit.
    pub fn finish(&mut self)
        requires
            old(self).state == WorkerState::Terminating,
        ensures
            final(self).id == old(self).id,
            final(self).state == WorkerState::Terminated,
    {
        self.state = WorkerState::Terminated;
    }
}

/// A worker as the pool holds it: its identity and the slot for its thread's
/// handle, which starts filled and is emptied exactly once, at shutdown.
pub struct Worker<H> {
    id: usize,
    thread: Option<H>,
}

impl<H> Worker<H> {
    pub closed spec fn spec_id(&self) -> usize {
        self.id
    }

    /// The handle still in the slot, if any.
    pub closed spec fn handle(&self) -> Option<H> {
        self.thread
    }

    /// A worker with the given identity, holding its thread's handle.
    pub fn new(id: usize, thread: H) -> (w: Self)
        ensures
            w.spec_id() == id,
            w.handle() == Some(thread),
    {
        Worker { id, thread: Some(thread) }
    }

    pub fn id(&self) -> (r: usize)
        ensures
            r == self.spec_id(),
    {
        self.id
    }

    /// Whether the handle has already been taken.
    pub fn is_joined(&self) -> (r: bool)
        ensures
            r == (self.handle() is None),
    {
        self.thread.is_none()
    }

    /// Takes the handle out of the slot, so that it is joined once: the first
    /// call hands it back, every later one gives `None`.
    pub fn take_thread(&mut self) -> (r: Option<H>)
        ensures
            r == old(self).handle(),
            final(self).handle() is None,
            final(self).spec_id() == old(self).spec_id(),
    {
        self.thread.take()
    }
}

/// Joining is safe to ask for twice: once `take_thread` has emptied the slot,
/// a second call hands back nothing, so no handle is joined a second time,
/// and leaves the worker as it was.
pub proof fn lemma_take_thread_twice<H>(
    w0: Worker<H>,
    w1: Worker<H>,
    first: Option<H>,
    w2: Worker<H>,
    second: Option<H>,
)
    requires
        first == w0.handle(),
        w1.handle() is None,
        w1.spec_id() == w0.spec_id(),
        second == w1.handle(),
        w2.handle() is None,
        w2.spec_id() == w1.spec_id(),
    ensures
        second is None,
        w2.handle() == w1.handle(),
        w2.spec_id() == w0.spec_id(),
        w0.handle() is Some ==> first is Some,
{
}

} // verus!
