use vstd::prelude::*;
use crate::messages::EchoRequest;

verus! {

/// The bounded FIFO that couples the outbound producer to the transport:
/// exactly one producer fills it and one consumer (the transport, which
/// serializes requests onto the wire) drains it. A full queue suspends the
/// producer — backpressure.
pub struct OutboundQueue {
    items: Vec<EchoRequest>,
    cap: usize,
}

impl OutboundQueue {
    /// The queued messages, oldest first.
    pub closed spec fn contents(self) -> Seq<Seq<char>> {
        self.items@.map_values(|r: EchoRequest| r.message@)
    }

    /// The fixed capacity the queue was created with.
    pub closed spec fn capacity(self) -> nat {
        self.cap as nat
    }

    /// Well-formedness: the capacity is at least one and is never exceeded.
    pub closed spec fn wf(self) -> bool {
        1 <= self.cap && self.items@.len() <= self.cap
    }

    /// What well-formedness guarantees to callers: the queue never holds
    /// more than its capacity, which is at least one.
    pub proof fn lemma_wf_bounds(self)
        requires
            self.wf(),
        ensures
            self.contents().len() <= self.capacity(),
            1 <= self.capacity(),
    {
    }

    /// An empty queue of capacity `cap`.
    pub fn new(cap: usize) -> (q: OutboundQueue)
        requires
            1 <= cap,
        ensures
            q.wf(),
            q.capacity() == cap as nat,
            q.contents() == Seq::<Seq<char>>::empty(),
    {
        let q = OutboundQueue { items: Vec::new(), cap };
        proof {
            assert(q.contents() =~= Seq::<Seq<char>>::empty());
        }
        q
    }

    /// How many messages are queued.
    pub fn len(&self) -> (n: usize)
        ensures
            n == self.contents().len(),
    {
        self.items.len()
    }

    /// Whether the queue is at capacity.
    pub fn is_full(&self) -> (r: bool)
        ensures
            r == (self.contents().len() == self.capacity()),
    {
        self.items.len() == self.cap
    }

    /// Whether the queue is empty.
    pub fn is_empty(&self) -> (r: bool)
        ensures
            r == (self.contents().len() == 0),
    {
        self.items.len() == 0
    }

    /// Offers one message. At capacity the message is handed back
    /// unchanged and the queue is untouched: the producer must wait until
    /// the consumer drains (backpressure). Otherwise the message joins the
    /// back of the queue.
    pub fn try_push(&mut self, r: EchoRequest) -> (res: Result<(), EchoRequest>)
        requires
            old(self).wf(),
        ensures
            final(self).wf(),
            final(self).capacity() == old(self).capacity(),
            old(self).contents().len() == old(self).capacity() ==> {
                &&& res matches Err(back)
                &&& back.message@ == r.message@
                &&& *final(self) == *old(self)
            },
            old(self).contents().len() < old(self).capacity() ==> {
                &&& res is Ok
                &&& final(self).contents() == old(self).contents().push(r.message@)
            },
    {
        if self.items.len() == self.cap {
            Err(r)
        } else {
            let ghost before = self.contents();
            let ghost msg = r.message@;
            self.items.push(r);
            proof {
                assert(self.contents() =~= before.push(msg));
            }
            Ok(())
        }
    }

    /// Removes the oldest message: the consumer drains in FIFO order, so
    /// wire order equals enqueue order.
    pub fn pop(&mut self) -> (res: Option<EchoRequest>)
        requires
            old(self).wf(),
        ensures
            final(self).wf(),
            final(self).capacity() == old(self).capacity(),
            old(self).contents().len() == 0 ==> {
                &&& res is None
                &&& *final(self) == *old(self)
            },
            old(self).contents().len() > 0 ==> {
                &&& res matches Some(m)
                &&& m.message@ == old(self).contents()[0]
                &&& final(self).contents() == old(self).contents().drop_first()
            },
    {
        if self.items.len() == 0 {
            None
        } else {
            let ghost before = self.contents();
            let m = self.items.remove(0);
            proof {
                assert(self.contents() =~= before.drop_first());
            }
            Some(m)
        }
    }
}

} // verus!
