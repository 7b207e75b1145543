use vstd::prelude::*;

verus! {

/// Why a pool could not be built.
#[derive(PartialEq, Eq, Structural, Clone, Copy, Debug)]
pub enum PoolError {
    /// A pool needs at least one worker.
    ZeroSize,
}

/// The identities of the workers of a pool of `size` workers, `0..size`, or
/// an error when `size` is zero (then no worker may be started).
pub fn worker_ids(size: usize) -> (r: Result<Vec<usize>, PoolError>)
    ensures
        match r {
            Ok(ids) => size > 0 && ids@ == Seq::new(size as nat, |i: int| i as usize),
            Err(e) => size == 0 && e == PoolError::ZeroSize,
        },
{
    if size == 0 {
        return Err(PoolError::ZeroSize);
    }
    let mut ids: Vec<usize> = Vec::with_capacity(size);
    let mut i: usize = 0;
    while i < size
        invariant
            i <= size,
            ids@ == Seq::new(i as nat, |k: int| k as usize),
        decreases size - i,
    {
        ids.push(i);
        i = i + 1;
        proof {
            assert(ids@ =~= Seq::new(i as nat, |k: int| k as usize));
        }
    }
    Ok(ids)
}

/// One action of the shutdown protocol.
#[derive(PartialEq, Eq, Structural, Clone, Copy, Debug)]
pub enum ShutdownStep {
    /// Put one stop message on the channel.
    SendStop,
    /// Wait until the worker with this identity has exited.
    Join(usize),
    /// Every worker has been told to stop and joined.
    Done,
}

/// Where a shutdown stands: the pool's size, how many stop messages have
/// been handed out, and how many joins.
pub ghost struct ShutdownView {
    pub size: nat,
    pub stops_sent: nat,
    pub joined: nat,
}

impl ShutdownView {
    /// No join is asked for before every stop message has been sent.
    pub open spec fn wf(self) -> bool {
        &&& self.stops_sent <= self.size
        &&& self.joined <= self.size
        &&& self.joined > 0 ==> self.stops_sent == self.size
    }

    /// The action that comes next.
    pub open spec fn step(self) -> ShutdownStep {
        if self.stops_sent < self.size {
            ShutdownStep::SendStop
        } else if self.joined < self.size {
            ShutdownStep::Join(self.joined as usize)
        } else {
            ShutdownStep::Done
        }
    }

    /// Where the shutdown stands once the next action has been handed out.
    pub open spec fn advance(self) -> ShutdownView {
        if self.stops_sent < self.size {
            ShutdownView { stops_sent: self.stops_sent + 1, ..self }
        } else if self.joined < self.size {
            ShutdownView { joined: self.joined + 1, ..self }
        } else {
            self
        }
    }

    /// The actions handed out by `k` further steps.
    pub open spec fn trace(self, k: nat) -> Seq<ShutdownStep>
        decreases k,
    {
        if k == 0 {
            Seq::empty()
        } else {
            seq![self.step()] + self.advance().trace((k - 1) as nat)
        }
    }

    /// Where the shutdown stands after `k` further steps.
    pub open spec fn after(self, k: nat) -> ShutdownView
        decreases k,
    {
        if k == 0 {
            self
        } else {
            self.advance().after((k - 1) as nat)
        }
    }
}

/// The shutdown protocol of a pool: first one stop message per worker, then
/// a join of each worker in the order of their identities.
pub struct Shutdown {
    size: usize,
    stops_sent: usize,
    joined: usize,
}

impl View for Shutdown {
    type V = ShutdownView;

    closed spec fn view(&self) -> ShutdownView {
        ShutdownView {
            size: self.size as nat,
            stops_sent: self.stops_sent as nat,
            joined: self.joined as nat,
        }
    }
}

impl Shutdown {
    /// The protocol for a pool of `size` workers, before any action.
    pub fn new(size: usize) -> (s: Self)
        ensures
            s@ == (ShutdownView { size: size as nat, stops_sent: 0, joined: 0 }),
    {
        Shutdown { size, stops_sent: 0, joined: 0 }
    }

    /// Hands out the next action and records it as done.
    pub fn next_step(&mut self) -> (r: ShutdownStep)
        requires
            old(self)@.wf(),
        ensures
            r == old(self)@.step(),
            final(self)@ == old(self)@.advance(),
            final(self)@.wf(),
    {
        if self.stops_sent < self.size {
            self.stops_sent = self.stops_sent + 1;
            ShutdownStep::SendStop
        } else if self.joined < self.size {
            let id = self.joined;
            self.joined = self.joined + 1;
            ShutdownStep::Join(id)
        } else {
            ShutdownStep::Done
        }
    }

    /// Whether every action has been handed out.
    pub fn is_done(&self) -> (r: bool)
        requires
            self@.wf(),
        ensures
            r == (self@.step() == ShutdownStep::Done),
    {
        self.stops_sent == self.size && self.joined == self.size
    }
}

/// The actions of a whole shutdown of `n` workers: `n` stop messages, then
/// the joins of workers `0..n` in that order.
pub open spec fn schedule(n: nat) -> Seq<ShutdownStep> {
    Seq::new(2 * n, |i: int| if i < n { ShutdownStep::SendStop } else { ShutdownStep::Join((i - n) as usize) })
}

proof fn lemma_trace_rest(s: ShutdownView)
    requires
        s.wf(),
    ensures
        s.trace(((s.size - s.stops_sent) + (s.size - s.joined)) as nat) =~= Seq::new(
            ((s.size - s.stops_sent) + (s.size - s.joined)) as nat,
            |i: int|
                if i < s.size - s.stops_sent {
                    ShutdownStep::SendStop
                } else {
                    ShutdownStep::Join((s.joined + i - (s.size - s.stops_sent)) as usize)
                },
        ),
        s.after(((s.size - s.stops_sent) + (s.size - s.joined)) as nat).step() == ShutdownStep::Done,
    decreases (s.size - s.stops_sent) + (s.size - s.joined),
{
    let k = ((s.size - s.stops_sent) + (s.size - s.joined)) as nat;
    if k > 0 {
        let t = s.advance();
        lemma_trace_rest(t);
        let rest = t.trace((k - 1) as nat);
        assert(s.trace(k) == seq![s.step()] + rest);
    }
}

/// For every pool size `n > 0`, a shutdown run from its start hands out
/// exactly `2 * n` actions: `n` stop messages and then one join of each worker,
/// `0` to `n - 1`, each exactly once; after them it reports that it is done.
pub proof fn lemma_shutdown_joins_every_worker(n: nat)
    requires
        n > 0,
    ensures
        (ShutdownView { size: n, stops_sent: 0, joined: 0 }).trace(2 * n) == schedule(n),
        (ShutdownView { size: n, stops_sent: 0, joined: 0 }).after(2 * n).step() == ShutdownStep::Done,
{
    let s = ShutdownView { size: n, stops_sent: 0, joined: 0 };
    lemma_trace_rest(s);
    assert(s.trace(2 * n) =~= schedule(n));
}

} // verus!
