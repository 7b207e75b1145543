use vstd::prelude::*;
use std::collections::VecDeque;
use crate::message::Message;

verus! {

/// The dispatch channel: an unbounded first-in first-out queue of messages.
///
/// Besides the messages still waiting, it records (as ghost state) every
/// message ever sent and every message handed out, so that its invariant can
/// say that each message is delivered at most once and in the order of sending.
pub struct DispatchQueue<J> {
    items: VecDeque<Message<J>>,
    sent: Ghost<Seq<Message<J>>>,
    delivered: Ghost<Seq<Message<J>>>,
}

impl<J> DispatchQueue<J> {
    /// The messages waiting, head first.
    pub closed spec fn pending(&self) -> Seq<Message<J>> {
        self.items@
    }

    /// Every message sent so far, in the order of sending.
    pub closed spec fn sent(&self) -> Seq<Message<J>> {
        self.sent@
    }

    /// Every message handed out so far, in the order of delivery.
    pub closed spec fn delivered(&self) -> Seq<Message<J>> {
        self.delivered@
    }

    /// What was handed out, followed by what still waits, is exactly what was
    /// sent: no message is lost, duplicated or reordered.
    pub closed spec fn wf(&self) -> bool {
        self.delivered@ + self.items@ == self.sent@
    }

    /// An empty channel on which nothing has been sent.
    pub fn new() -> (q: Self)
        ensures
            q.wf(),
            q.pending() == Seq::<Message<J>>::empty(),
            q.sent() == Seq::<Message<J>>::empty(),
            q.delivered() == Seq::<Message<J>>::empty(),
    {
        let q = DispatchQueue {
            items: VecDeque::new(),
            sent: Ghost(Seq::empty()),
            delivered: Ghost(Seq::empty()),
        };
        proof {
            assert(q.delivered@ + q.items@ =~= q.sent@);
        }
        q
    }

    /// Appends a message at the tail. Never blocks and never fails.
    pub fn send(&mut self, m: Message<J>)
        requires
            old(self).wf(),
        ensures
            final(self).wf(),
            final(self).pending() == old(self).pending().push(m),
            final(self).sent() == old(self).sent().push(m),
            final(self).delivered() == old(self).delivered(),
    {
        proof {
            assert(self.delivered@ + self.items@.push(m) =~= (self.delivered@ + self.items@).push(m));
        }
        self.items.push_back(m);
        self.sent = Ghost(self.sent@.push(m));
    }

    /// Removes and returns the message at the head, or `None` when nothing
    /// waits (the caller then waits for a send and tries again).
    pub fn receive(&mut self) -> (r: Option<Message<J>>)
        requires
            old(self).wf(),
        ensures
            final(self).wf(),
            final(self).sent() == old(self).sent(),
            match r {
                Some(m) => {
                    &&& old(self).pending().len() > 0
                    &&& m == old(self).pending()[0]
                    &&& final(self).pending() == old(self).pending().drop_first()
                    &&& final(self).delivered() == old(self).delivered().push(m)
                },
                None => {
                    &&& old(self).pending().len() == 0
                    &&& final(self).pending() == old(self).pending()
                    &&& final(self).delivered() == old(self).delivered()
                },
            },
    {
        let r = self.items.pop_front();
        match r {
            Some(m) => {
                proof {
                    let old_items = old(self).items@;
                    assert(old_items =~= seq![m] + old_items.drop_first());
                    assert(self.delivered@.push(m) + self.items@ =~= self.delivered@ + old_items);
                }
                self.delivered = Ghost(self.delivered@.push(m));
                Some(m)
            },
            None => None,
        }
    }

    /// How many messages are waiting.
    pub fn len(&self) -> (n: usize)
        ensures
            n == self.pending().len(),
    {
        self.items.len()
    }

    /// Whether no message is waiting.
    pub fn is_empty(&self) -> (r: bool)
        ensures
            r == (self.pending().len() == 0),
    {
        self.items.len() == 0
    }
}

/// How many stop messages a sequence holds.
pub open spec fn stop_count<J>(s: Seq<Message<J>>) -> nat
    decreases s.len(),
{
    if s.len() == 0 {
        0
    } else {
        stop_count(s.drop_last()) + if s.last() is Stop {
            1nat
        } else {
            0nat
        }
    }
}

/// `n` stop messages.
pub open spec fn stops<J>(n: nat) -> Seq<Message<J>> {
    Seq::new(n, |i: int| Message::Stop)
}

proof fn lemma_stop_count_prefix<J>(jobs: Seq<Message<J>>, n: nat, len: nat)
    requires
        forall|i: int| 0 <= i < jobs.len() ==> (#[trigger] jobs[i]) is Work,
        len <= jobs.len() + n,
    ensures
        stop_count((jobs + stops::<J>(n)).take(len as int)) == if len <= jobs.len() {
            0
        } else {
            (len - jobs.len()) as nat
        },
    decreases len,
{
    let all = jobs + stops::<J>(n);
    if len > 0 {
        lemma_stop_count_prefix(jobs, n, (len - 1) as nat);
        assert(all.take(len as int).drop_last() =~= all.take(len - 1));
        assert(all.take(len as int).last() == all[len - 1]);
    }
}

/// Messages are handed out in the order in which they were sent: what has
/// been delivered is always a prefix of what was sent. A single worker, which
/// runs each job before it takes the next message, therefore runs the jobs in
/// the order of their submission.
pub proof fn lemma_delivery_in_send_order<J>(q: DispatchQueue<J>)
    requires
        q.wf(),
    ensures
        q.delivered().len() <= q.sent().len(),
        q.delivered() == q.sent().take(q.delivered().len() as int),
{
    assert(q.delivered() =~= q.sent().take(q.delivered().len() as int));
}

/// When a pool's channel has carried `jobs` and then one stop message for
/// each of its `n` workers, and all `n` stop messages have been delivered,
/// then every job has been delivered exactly once, in order, and nothing is
/// left waiting.
pub proof fn lemma_every_job_delivered_once<J>(q: DispatchQueue<J>, jobs: Seq<Message<J>>, n: nat)
    requires
        q.wf(),
        n > 0,
        forall|i: int| 0 <= i < jobs.len() ==> (#[trigger] jobs[i]) is Work,
        q.sent() == jobs + stops::<J>(n),
        stop_count(q.delivered()) == n,
    ensures
        q.delivered() == q.sent(),
        q.delivered().take(jobs.len() as int) == jobs,
        q.pending().len() == 0,
{
    lemma_delivery_in_send_order(q);
    let len = q.delivered().len();
    lemma_stop_count_prefix(jobs, n, len);
    assert(len == jobs.len() + n);
    assert(q.delivered() =~= q.sent());
    assert(q.delivered().take(jobs.len() as int) =~= jobs);
    assert(q.pending().len() == 0);
}

} // verus!
