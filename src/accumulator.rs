use vstd::prelude::*;

verus! {

/// The mono samples of interleaved data: the sample at every position that is
/// a multiple of `channels`, that is channel 0 of each frame, in order.
pub open spec fn downmix<S>(data: Seq<S>, channels: nat) -> Seq<S>
    decreases data.len(),
{
    if data.len() == 0 {
        Seq::empty()
    } else {
        let before = downmix(data.drop_last(), channels);
        if (data.len() - 1) % (channels as int) == 0 {
            before.push(data.last())
        } else {
            before
        }
    }
}

/// The samples of a sequence of blocks, one block after the other.
pub open spec fn flatten<S>(blocks: Seq<Vec<S>>) -> Seq<S>
    decreases blocks.len(),
{
    if blocks.len() == 0 {
        Seq::empty()
    } else {
        flatten(blocks.drop_last()) + blocks.last()@
    }
}

/// Every block holds exactly `n` samples.
pub open spec fn all_of_len<S>(blocks: Seq<Vec<S>>, n: nat) -> bool {
    forall|j: int| 0 <= j < blocks.len() ==> (#[trigger] blocks[j])@.len() == n
}

/// What one feed owes: the emitted blocks followed by the retained samples
/// are the previously retained samples followed by the new mono samples;
/// every block is full and fewer than `n` samples stay behind.
pub open spec fn feed_result<S>(
    leftover: Seq<S>,
    mono: Seq<S>,
    n: nat,
    blocks: Seq<Vec<S>>,
    rest: Seq<S>,
) -> bool {
    &&& flatten(blocks) + rest == leftover + mono
    &&& all_of_len(blocks, n)
    &&& rest.len() < n
}

proof fn lemma_flatten_push<S>(blocks: Seq<Vec<S>>, b: Vec<S>)
    ensures
        flatten(blocks.push(b)) == flatten(blocks) + b@,
{
    assert(blocks.push(b).drop_last() =~= blocks);
}

proof fn lemma_downmix_step<S>(data: Seq<S>, channels: nat, i: int)
    requires
        0 <= i < data.len(),
    ensures
        downmix(data.take(i + 1), channels) == if i % (channels as int) == 0 {
            downmix(data.take(i), channels).push(data[i])
        } else {
            downmix(data.take(i), channels)
        },
{
    assert(data.take(i + 1).drop_last() =~= data.take(i));
}

/// Turns interleaved native callback data into fixed-size mono blocks.
///
/// Samples that do not fill a block are retained across calls until the
/// next feed completes the block, or until `reset` discards them.
pub struct Accumulator<S> {
    buffer: Vec<S>,
    block_size: usize,
}

impl<S: Copy> Accumulator<S> {
    /// The samples retained since the last emitted block.
    pub closed spec fn pending(&self) -> Seq<S> {
        self.buffer@
    }

    /// The number of samples in each emitted block.
    pub closed spec fn spec_block_size(&self) -> nat {
        self.block_size as nat
    }

    /// Blocks are non-empty and the retained samples never fill one.
    pub closed spec fn wf(&self) -> bool {
        self.block_size > 0 && self.buffer@.len() < self.block_size
    }

    /// An accumulator for blocks of `block_size` samples, with its buffer
    /// allocated up front.
    pub fn new(block_size: usize) -> (r: Self)
        requires
            block_size > 0,
        ensures
            r.wf(),
            r.spec_block_size() == block_size,
            r.pending() == Seq::<S>::empty(),
    {
        Accumulator { buffer: Vec::with_capacity(block_size), block_size }
    }

    pub fn block_size(&self) -> (r: usize)
        ensures
            r == self.spec_block_size(),
    {
        self.block_size
    }

    /// The number of samples retained towards the next block.
    pub fn pending_len(&self) -> (r: usize)
        ensures
            r == self.pending().len(),
    {
        self.buffer.len()
    }

    /// Discards the retained samples.
    pub fn reset(&mut self)
        requires
            old(self).wf(),
        ensures
            final(self).wf(),
            final(self).spec_block_size() == old(self).spec_block_size(),
            final(self).pending() == Seq::<S>::empty(),
    {
        self.buffer.clear();
    }

    /// Feeds one native callback's interleaved data with `channels` samples
    /// per frame, and returns the blocks that it completed, oldest first.
    pub fn feed(&mut self, data: &[S], channels: usize) -> (blocks: Vec<Vec<S>>)
        requires
            old(self).wf(),
            channels > 0,
        ensures
            final(self).wf(),
            final(self).spec_block_size() == old(self).spec_block_size(),
            feed_result(
                old(self).pending(),
                downmix(data@, channels as nat),
                old(self).spec_block_size(),
                blocks@,
                final(self).pending(),
            ),
    {
        let mut blocks: Vec<Vec<S>> = Vec::new();
        let ghost start = self.buffer@;
        let n = data.len();
        let mut i: usize = 0;
        while i < n
            invariant
                n == data@.len(),
                0 <= i <= n,
                channels > 0,
                self.wf(),
                self.block_size == old(self).block_size,
                feed_result(
                    start,
                    downmix(data@.take(i as int), channels as nat),
                    self.block_size as nat,
                    blocks@,
                    self.buffer@,
                ),
            decreases n - i,
        {
            proof {
                lemma_downmix_step(data@, channels as nat, i as int);
            }
            let ghost mono = downmix(data@.take(i as int), channels as nat);
            if i % channels == 0 {
                let ghost before = self.buffer@;
                let x = data[i];
                self.buffer.push(x);
                assert(x == data@[i as int]);
                assert(self.buffer@ == before.push(x));
                assert(flatten(blocks@) + before == start + mono);
                assert(flatten(blocks@) + self.buffer@ =~= (flatten(blocks@) + before).push(x));
                if self.buffer.len() == self.block_size {
                    let mut full: Vec<S> = Vec::with_capacity(self.block_size);
                    std::mem::swap(&mut full, &mut self.buffer);
                    proof {
                        lemma_flatten_push(blocks@, full);
                    }
                    let ghost prev = blocks@;
                    blocks.push(full);
                    assert(blocks@.last() == full);
                    assert(flatten(blocks@) + self.buffer@ =~= flatten(prev) + full@);
                    assert forall|j: int| 0 <= j < blocks@.len() implies (#[trigger] blocks@[j])@.len()
                        == self.block_size as nat by {
                        if j < prev.len() {
                            assert(blocks@[j] == prev[j]);
                        }
                    }
                }
            }
            i = i + 1;
        }
        assert(data@.take(n as int) =~= data@);
        blocks
    }
}

proof fn lemma_flatten_append<S>(a: Seq<Vec<S>>, b: Seq<Vec<S>>)
    ensures
        flatten(a + b) == flatten(a) + flatten(b),
    decreases b.len(),
{
    if b.len() == 0 {
        assert(a + b =~= a);
        assert(flatten(a) + flatten(b) =~= flatten(a));
    } else {
        lemma_flatten_append(a, b.drop_last());
        assert((a + b).drop_last() =~= a + b.drop_last());
        assert(flatten(a) + (flatten(b.drop_last()) + b.last()@) =~= (flatten(a) + flatten(
            b.drop_last(),
        )) + b.last()@);
    }
}

/// Blocks do not depend on how the input was split between callbacks: two
/// feeds in a row emit, together, full blocks whose samples followed by
/// what is retained are the first leftover followed by both inputs, as one
/// feed of both inputs would.
pub proof fn lemma_feeds_compose<S>(
    leftover: Seq<S>,
    first: Seq<S>,
    second: Seq<S>,
    n: nat,
    blocks1: Seq<Vec<S>>,
    rest1: Seq<S>,
    blocks2: Seq<Vec<S>>,
    rest2: Seq<S>,
)
    requires
        feed_result(leftover, first, n, blocks1, rest1),
        feed_result(rest1, second, n, blocks2, rest2),
    ensures
        feed_result(leftover, first + second, n, blocks1 + blocks2, rest2),
{
    lemma_flatten_append(blocks1, blocks2);
    assert(flatten(blocks1 + blocks2) + rest2 =~= flatten(blocks1) + (flatten(blocks2) + rest2));
    assert(leftover + (first + second) =~= (leftover + first) + second);
    assert(flatten(blocks1) + (rest1 + second) =~= (flatten(blocks1) + rest1) + second);
    assert forall|j: int| 0 <= j < (blocks1 + blocks2).len() implies (#[trigger] (blocks1
        + blocks2)[j])@.len() == n by {
        if j < blocks1.len() {
            assert((blocks1 + blocks2)[j] == blocks1[j]);
        } else {
            assert((blocks1 + blocks2)[j] == blocks2[j - blocks1.len()]);
        }
    }
}

} // verus!
