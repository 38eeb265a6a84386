use vstd::prelude::*;

verus! {

/// One step on a handoff queue: `Some(b)` sends `b`, `None` drains.
pub type HandoffStep<S> = Option<Vec<S>>;

/// The blocks sent by a run of steps, in the order they were sent.
pub open spec fn sent<S>(steps: Seq<HandoffStep<S>>) -> Seq<Vec<S>>
    decreases steps.len(),
{
    if steps.len() == 0 {
        Seq::empty()
    } else {
        let before = sent(steps.drop_last());
        match steps.last() {
            Some(b) => before.push(b),
            None => before,
        }
    }
}

/// Runs steps on an open queue holding `queued`: the blocks handed out by all
/// the drains, one drain after the other, and what is queued at the end.
pub open spec fn run_steps<S>(queued: Seq<Vec<S>>, steps: Seq<HandoffStep<S>>) -> (Seq<Vec<S>>, Seq<Vec<S>>)
    decreases steps.len(),
{
    if steps.len() == 0 {
        (Seq::empty(), queued)
    } else {
        let (drained, left) = run_steps(queued, steps.drop_last());
        match steps.last() {
            Some(b) => (drained, left.push(b)),
            None => (drained + left, Seq::empty()),
        }
    }
}

/// Ordered handoff of completed blocks from the producer to the consumer.
///
/// The producer sends blocks one at a time; the consumer takes everything
/// queued at once. Blocks come out in the order they went in. Once the
/// consumer has gone away, sends fail and are counted instead of queued.
pub struct Handoff<S> {
    queue: Vec<Vec<S>>,
    open: bool,
    failed: u64,
}

impl<S> View for Handoff<S> {
    type V = Seq<Vec<S>>;

    /// The queued blocks, oldest first.
    closed spec fn view(&self) -> Seq<Vec<S>> {
        self.queue@
    }
}

impl<S> Handoff<S> {
    /// Whether the consumer side is still there.
    pub closed spec fn is_open(&self) -> bool {
        self.open
    }

    /// The number of sends that failed because the consumer had gone.
    pub closed spec fn failed_sends(&self) -> nat {
        self.failed as nat
    }

    /// An empty, open queue.
    pub fn new() -> (r: Self)
        ensures
            r@ == Seq::<Vec<S>>::empty(),
            r.is_open(),
            r.failed_sends() == 0,
    {
        Handoff { queue: Vec::new(), open: true, failed: 0 }
    }

    /// Queues `block` behind the blocks already queued, and returns `true`;
    /// once the consumer has gone, counts the failure (saturating) and
    /// returns `false`.
    pub fn send(&mut self, block: Vec<S>) -> (r: bool)
        ensures
            r == old(self).is_open(),
            final(self).is_open() == old(self).is_open(),
            r ==> final(self)@ == old(self)@.push(block),
            r ==> final(self).failed_sends() == old(self).failed_sends(),
            !r ==> final(self)@ == old(self)@,
            !r ==> final(self).failed_sends() == if old(self).failed_sends() < u64::MAX {
                old(self).failed_sends() + 1
            } else {
                old(self).failed_sends()
            },
    {
        if self.open {
            self.queue.push(block);
            true
        } else {
            self.failed = self.failed.saturating_add(1);
            false
        }
    }

    /// Hands out every queued block, oldest first, and leaves the queue empty.
    pub fn try_drain(&mut self) -> (r: Vec<Vec<S>>)
        ensures
            r@ == old(self)@,
            final(self)@ == Seq::<Vec<S>>::empty(),
            final(self).is_open() == old(self).is_open(),
            final(self).failed_sends() == old(self).failed_sends(),
    {
        let mut taken: Vec<Vec<S>> = Vec::new();
        std::mem::swap(&mut taken, &mut self.queue);
        taken
    }

    /// The number of blocks queued.
    pub fn len(&self) -> (r: usize)
        ensures
            r == self@.len(),
    {
        self.queue.len()
    }

    /// The number of sends that failed because the consumer had gone.
    pub fn failed_count(&self) -> (r: u64)
        ensures
            r == self.failed_sends(),
    {
        self.failed
    }

    /// The consumer goes away: queued blocks are dropped and later sends fail.
    pub fn close(&mut self)
        ensures
            !final(self).is_open(),
            final(self)@ == Seq::<Vec<S>>::empty(),
            final(self).failed_sends() == old(self).failed_sends(),
    {
        self.open = false;
        self.queue = Vec::new();
    }
}

/// Blocks come out of an open queue in the order they went in, whatever the
/// interleaving of sends and drains: everything drained, followed by what is
/// still queued, is what was queued at first followed by every block sent.
pub proof fn lemma_handoff_keeps_order<S>(queued: Seq<Vec<S>>, steps: Seq<HandoffStep<S>>)
    ensures
        run_steps(queued, steps).0 + run_steps(queued, steps).1 == queued + sent(steps),
    decreases steps.len(),
{
    if steps.len() > 0 {
        lemma_handoff_keeps_order(queued, steps.drop_last());
        let (d, l) = run_steps(queued, steps.drop_last());
        match steps.last() {
            Some(b) => {
                assert(d + l.push(b) =~= (d + l).push(b));
            },
            None => {
                assert(d + l + Seq::<Vec<S>>::empty() =~= d + l);
            },
        }
    }
}

} // verus!
