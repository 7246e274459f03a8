//! The block handed from the producer to the audio callback.
//!
//! One block of samples and a ready flag travel together. The producer
//! publishes only into a slot that is not ready; the consumer takes a block
//! only from a slot that is. Whoever shares a `SharedBlock` between threads
//! puts it behind one lock and calls `publish` and `consume_into` under it:
//! each does one flag test and at most one copy of the block, and neither
//! allocates.

use vstd::prelude::*;

verus! {

/// The consumer needed a block and none was ready.
#[derive(Clone, Copy, Debug, PartialEq, Eq)]
pub struct MissedDeadline;

/// One block of samples and the flag that says whether it is fresh.
#[derive(Debug)]
pub struct SharedBlock<T> {
    ready: bool,
    samples: Vec<T>,
}

/// The mathematical content of a `SharedBlock`.
pub struct SharedBlockView<T> {
    pub ready: bool,
    pub samples: Seq<T>,
}

impl<T> SharedBlockView<T> {
    /// The slot after the producer offers `block`: taken if the slot was
    /// not ready, dropped if the previous block is still unconsumed.
    pub open spec fn published(self, block: Seq<T>) -> SharedBlockView<T> {
        if self.ready {
            self
        } else {
            SharedBlockView { ready: true, samples: block }
        }
    }

    /// The slot after the consumer has come by: never ready, samples kept.
    pub open spec fn consumed(self) -> SharedBlockView<T> {
        SharedBlockView { ready: false, samples: self.samples }
    }

    /// What the consumer is told.
    pub open spec fn consume_result(self) -> Result<(), MissedDeadline> {
        if self.ready {
            Ok(())
        } else {
            Err(MissedDeadline)
        }
    }

    /// The destination after the consumer has come by: the leading samples
    /// of a ready block, or the destination's earlier content.
    pub open spec fn delivered(self, destination: Seq<T>) -> Seq<T> {
        if self.ready {
            self.samples.take(destination.len() as int)
        } else {
            destination
        }
    }
}

impl<T> View for SharedBlock<T> {
    type V = SharedBlockView<T>;

    closed spec fn view(&self) -> SharedBlockView<T> {
        SharedBlockView { ready: self.ready, samples: self.samples@ }
    }
}

impl<T: Copy> SharedBlock<T> {
    /// A slot of `len` samples, each equal to `fill`, not ready.
    pub fn new(len: usize, fill: T) -> (shared: Self)
        ensures
            !shared@.ready,
            shared@.samples == Seq::new(len as nat, |i: int| fill),
    {
        let mut samples: Vec<T> = Vec::new();
        let mut i: usize = 0;
        while i < len
            invariant
                i <= len,
                samples@ == Seq::new(i as nat, |j: int| fill),
            decreases len - i,
        {
            samples.push(fill);
            i = i + 1;
        }
        SharedBlock { ready: false, samples }
    }

    /// The number of samples in a block.
    pub fn len(&self) -> (len: usize)
        ensures
            len == self@.samples.len(),
    {
        self.samples.len()
    }

    /// Whether the slot holds a block that has not been consumed.
    pub fn is_ready(&self) -> (ready: bool)
        ensures
            ready == self@.ready,
    {
        self.ready
    }

    /// Offers `block` to the consumer. A slot that is not ready takes a copy
    /// of it and becomes ready. A slot that is still ready is left alone and
    /// the block is not taken: the producer waits for the consumer.
    pub fn publish(&mut self, block: &[T]) -> (published: bool)
        requires
            block@.len() == old(self)@.samples.len(),
        ensures
            published == !old(self)@.ready,
            final(self)@ == old(self)@.published(block@),
    {
        if self.ready {
            return false;
        }
        let n: usize = block.len();
        let mut i: usize = 0;
        while i < n
            invariant
                i <= n,
                n == block@.len(),
                self.samples@.len() == n,
                self.ready == old(self).ready,
                forall|j: int| 0 <= j < i ==> self.samples@[j] == block@[j],
            decreases n - i,
        {
            self.samples[i] = block[i];
            i = i + 1;
        }
        self.ready = true;
        assert(self.samples@ =~= block@);
        true
    }

    /// Hands the block to the consumer. From a ready slot the destination
    /// receives the block sample for sample and the slot stops being ready.
    /// From a slot that is not ready nothing is copied: the destination
    /// keeps what it held and the miss is reported.
    pub fn consume_into(&mut self, destination: &mut [T]) -> (result: Result<(), MissedDeadline>)
        requires
            old(destination)@.len() <= old(self)@.samples.len(),
        ensures
            result == old(self)@.consume_result(),
            final(self)@ == old(self)@.consumed(),
            final(destination)@ == old(self)@.delivered(old(destination)@),
    {
        if !self.ready {
            return Err(MissedDeadline);
        }
        let n: usize = destination.len();
        let mut i: usize = 0;
        while i < n
            invariant
                i <= n,
                n == destination@.len(),
                n <= self.samples@.len(),
                *self == *old(self),
                forall|j: int| 0 <= j < i ==> destination@[j] == self.samples@[j],
            decreases n - i,
        {
            destination[i] = self.samples[i];
            i = i + 1;
        }
        self.ready = false;
        assert(destination@ =~= old(self)@.samples.take(n as int));
        Ok(())
    }
}

/// A consumer that comes twice with no publish in between is told of a
/// miss the second time, and the second visit changes neither the
/// destination nor the slot.
pub proof fn lemma_second_consume_misses<T>(shared: SharedBlockView<T>, destination: Seq<T>)
    ensures
        shared.consumed().consume_result() == Err::<(), MissedDeadline>(MissedDeadline),
        shared.consumed().delivered(shared.delivered(destination)) == shared.delivered(
            destination,
        ),
        shared.consumed().consumed() == shared.consumed(),
{
}

/// A block published into a free slot is what the next consumer receives.
pub proof fn lemma_publish_then_consume<T>(
    shared: SharedBlockView<T>,
    block: Seq<T>,
    destination: Seq<T>,
)
    requires
        !shared.ready,
        destination.len() <= block.len(),
    ensures
        shared.published(block).consume_result() == Ok::<(), MissedDeadline>(()),
        shared.published(block).delivered(destination) == block.take(destination.len() as int),
        shared.published(block).delivered(destination).len() == destination.len(),
        !shared.published(block).consumed().ready,
{
}

/// A block offered while the previous one is unconsumed is dropped.
pub proof fn lemma_publish_waits<T>(shared: SharedBlockView<T>, first: Seq<T>, second: Seq<T>)
    ensures
        shared.published(first).published(second) == shared.published(first),
{
}

} // verus!
