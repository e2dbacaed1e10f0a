//! The forwarding pipeline: a bounded FIFO queue of items on their way
//! to the downstream transmitter.
//!
//! Decoders, the sensor sampler and the error reporter enqueue; exactly
//! one consumer dequeues.  The queue holds at most ten items; a full
//! queue hands the item back to the producer, which suspends and
//! retries, so nothing is ever dropped.

use vstd::prelude::*;

use crate::buffer::BUFFER_CAPACITY;
use crate::ids::STANDARD_ID_MAX;

verus! {

/// How many items the pipeline holds before producers are pushed back.
pub const PIPELINE_CAPACITY: usize = 10;

/// One forwarded item: the standard CAN identifier it goes out on, and
/// the payload of the one frame that carries it.
pub struct ForwardItem {
    /// Raw standard identifier of the outbound frame.
    pub dest: u16,
    /// Frame payload, at most one 64-byte frame.
    pub payload: Vec<u8>,
}

impl ForwardItem {
    /// The destination is a standard identifier and the payload fits
    /// one outbound frame.
    pub open spec fn valid(&self) -> bool {
        self.dest <= STANDARD_ID_MAX && self.payload@.len() <= BUFFER_CAPACITY
    }
}

/// The bounded multi-producer, single-consumer queue between ingestion
/// and the downstream transmitter.
pub struct ForwardingQueue {
    items: Vec<ForwardItem>,
}

impl ForwardingQueue {
    /// The queued items, front first.
    pub closed spec fn contents(&self) -> Seq<ForwardItem> {
        self.items@
    }

    /// An empty pipeline.
    pub fn new() -> (r: ForwardingQueue)
        ensures
            r.contents() == Seq::<ForwardItem>::empty(),
    {
        let r = ForwardingQueue { items: Vec::new() };
        proof {
            assert(r.contents() =~= Seq::<ForwardItem>::empty());
        }
        r
    }

    /// How many items are queued.
    pub fn len(&self) -> (r: usize)
        ensures
            r == self.contents().len(),
    {
        self.items.len()
    }

    /// Appends an item at the back, or hands it back unchanged when the
    /// queue is at capacity: backpressure, never a silent drop.
    pub fn try_enqueue(&mut self, item: ForwardItem) -> (r: Result<(), ForwardItem>)
        ensures
            old(self).contents().len() < PIPELINE_CAPACITY ==> (r is Ok && final(self).contents()
                == old(self).contents().push(item)),
            old(self).contents().len() >= PIPELINE_CAPACITY ==> (r matches Err(back) && back
                == item && final(self).contents() == old(self).contents()),
    {
        if self.items.len() < PIPELINE_CAPACITY {
            self.items.push(item);
            Ok(())
        } else {
            Err(item)
        }
    }

    /// Takes the item at the front, oldest first, or `None` when the
    /// queue is empty.
    pub fn try_dequeue(&mut self) -> (r: Option<ForwardItem>)
        ensures
            old(self).contents().len() == 0 ==> (r is None && final(self).contents() == old(
                self,
            ).contents()),
            old(self).contents().len() > 0 ==> (r matches Some(item) && item == old(
                self,
            ).contents()[0] && final(self).contents() == old(self).contents().skip(1)),
    {
        if self.items.len() > 0 {
            let item = self.items.remove(0);
            proof {
                assert(self.items@ =~= old(self).contents().skip(1));
            }
            Some(item)
        } else {
            None
        }
    }
}

/// The items a queue with contents `s` hands out when drained one by
/// one: the front item, then whatever draining the rest hands out.
pub open spec fn drained(s: Seq<ForwardItem>) -> Seq<ForwardItem>
    decreases s.len(),
{
    if s.len() == 0 {
        Seq::empty()
    } else {
        seq![s[0]] + drained(s.skip(1))
    }
}

/// Law: draining hands the items out in exactly the order they were
/// enqueued, regardless of which producer enqueued each one.
pub proof fn lemma_fifo_order(s: Seq<ForwardItem>)
    ensures
        drained(s) == s,
    decreases s.len(),
{
    if s.len() == 0 {
        assert(drained(s) =~= s);
    } else {
        lemma_fifo_order(s.skip(1));
        assert(drained(s) =~= s);
    }
}

} // verus!
