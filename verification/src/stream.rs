use vstd::prelude::*;
use crate::decimal::{dec_rep, u64_to_dec};
use crate::error::ClientError;
use crate::messages::{EchoRequest, EchoResponse};
use crate::queue::OutboundQueue;

verus! {

/// The fixed text prefix of each streamed request.
pub open spec fn request_prefix() -> Seq<char> {
    "echo request "@
}

/// The message of the `i`-th streamed request: the prefix followed by the
/// decimal sequence marker.
pub open spec fn request_text(i: nat) -> Seq<char> {
    request_prefix() + dec_rep(i)
}

/// The messages of requests `0 .. n`, in generation order.
pub open spec fn request_seq(n: nat) -> Seq<Seq<char>> {
    Seq::new(n, |i: int| request_text(i as nat))
}

/// Builds the `i`-th request, carrying its sequence marker.
pub fn make_request(i: u64) -> (r: EchoRequest)
    ensures
        r.message@ == request_text(i as nat),
{
    let mut s = String::from_str("echo request ");
    let d = u64_to_dec(i);
    s.append(d.as_str());
    EchoRequest { message: s }
}

/// The outbound half's generator state: requests `0 .. total` leave in
/// strict generation order, then the sending side closes.
pub struct Producer {
    pub next: u64,
    pub total: u64,
    pub closed: bool,
}

impl Producer {
    /// Well-formedness: generation never passes `total`, and the sending
    /// side closes only once everything was generated.
    pub open spec fn wf(self) -> bool {
        self.next <= self.total && (self.closed ==> self.next == self.total)
    }

    /// A fresh producer for `total` requests.
    pub fn new(total: u64) -> (p: Producer)
        ensures
            p.wf(),
            p.next == 0,
            p.total == total,
            !p.closed,
    {
        Producer { next: 0, total, closed: false }
    }

    /// The next request in generation order, or `None` once all were
    /// generated — at which point the sending side is closed, signaling
    /// end-of-stream to the remote peer.
    pub fn take_next(&mut self) -> (r: Option<EchoRequest>)
        requires
            old(self).wf(),
        ensures
            final(self).wf(),
            final(self).total == old(self).total,
            old(self).closed ==> r is None && *final(self) == *old(self),
            !old(self).closed && old(self).next < old(self).total ==> {
                &&& r matches Some(m)
                &&& m.message@ == request_text(old(self).next as nat)
                &&& final(self).next == old(self).next + 1
                &&& !final(self).closed
            },
            !old(self).closed && old(self).next == old(self).total ==> {
                &&& r is None
                &&& final(self).closed
                &&& final(self).next == old(self).next
            },
    {
        if self.closed {
            None
        } else if self.next < self.total {
            let m = make_request(self.next);
            self.next = self.next + 1;
            Some(m)
        } else {
            self.closed = true;
            None
        }
    }
}

/// What one producer turn did.
#[derive(Clone, Copy, PartialEq, Eq, Structural, Debug)]
pub enum ProduceStep {
    /// The next request joined the queue.
    Enqueued,
    /// All requests were generated; the sending side closed.
    Closed,
    /// The queue is at capacity: the producer suspends (backpressure).
    Blocked,
    /// The stream already failed or the sending side is closed.
    Idle,
}

/// Drives one bidirectional stream to completion: the outbound producer
/// and the inbound consumer run concurrently, coupled only through the
/// bounded queue and a shared outcome; the overall result is the joint
/// fate of both halves, and the first error either half reports decides it.
pub struct Orchestrator {
    pub queue: OutboundQueue,
    pub producer: Producer,
    pub received: Vec<EchoResponse>,
    pub inbound_done: bool,
    pub failure: Option<ClientError>,
    pub wired: Ghost<Seq<Seq<char>>>,
}

impl Orchestrator {
    /// The responses observed so far, in arrival order.
    pub open spec fn received_msgs(self) -> Seq<Seq<char>> {
        self.received@.map_values(|r: EchoResponse| r.message@)
    }

    /// Well-formedness: both halves are sound, and everything generated so
    /// far is either already on the wire or still queued — in order.
    pub open spec fn wf(self) -> bool {
        &&& self.queue.wf()
        &&& self.producer.wf()
        &&& self.wired@ + self.queue.contents() == request_seq(self.producer.next as nat)
    }

    /// The joint outcome: the first recorded error, if any; success only
    /// once the sending side closed, the queue drained, and the inbound
    /// half saw end-of-stream; undecided otherwise.
    pub open spec fn outcome_spec(self) -> Option<Result<(), ClientError>> {
        match self.failure {
            Some(e) => Some(Err(e)),
            None => if self.producer.closed && self.queue.contents().len() == 0
                && self.inbound_done {
                Some(Ok(()))
            } else {
                None
            },
        }
    }

    /// A fresh orchestrator: queue capacity `capacity`, `total` requests
    /// to stream.
    pub fn new(capacity: usize, total: u64) -> (o: Orchestrator)
        requires
            1 <= capacity,
        ensures
            o.wf(),
            o.producer.next == 0,
            o.producer.total == total,
            !o.producer.closed,
            o.queue.capacity() == capacity as nat,
            o.queue.contents() == Seq::<Seq<char>>::empty(),
            o.received_msgs() == Seq::<Seq<char>>::empty(),
            !o.inbound_done,
            o.failure is None,
            o.wired@ == Seq::<Seq<char>>::empty(),
    {
        let o = Orchestrator {
            queue: OutboundQueue::new(capacity),
            producer: Producer::new(total),
            received: Vec::new(),
            inbound_done: false,
            failure: None,
            wired: Ghost(Seq::empty()),
        };
        proof {
            assert(o.wired@ + o.queue.contents() =~= request_seq(0));
            assert(o.received_msgs() =~= Seq::<Seq<char>>::empty());
        }
        o
    }

    /// One turn of the outbound half: the next request joins the queue in
    /// generation order; a full queue suspends the producer without
    /// advancing it (backpressure); after the last request the sending
    /// side closes; a failed or closed stream leaves everything untouched.
    pub fn poll_producer(&mut self) -> (step: ProduceStep)
        requires
            old(self).wf(),
        ensures
            final(self).wf(),
            final(self).producer.total == old(self).producer.total,
            final(self).queue.capacity() == old(self).queue.capacity(),
            final(self).received == old(self).received,
            final(self).inbound_done == old(self).inbound_done,
            final(self).failure == old(self).failure,
            final(self).wired == old(self).wired,
            old(self).failure is Some || old(self).producer.closed ==> {
                &&& step == ProduceStep::Idle
                &&& *final(self) == *old(self)
            },
            old(self).failure is None && !old(self).producer.closed && old(self).producer.next
                < old(self).producer.total && old(self).queue.contents().len() == old(
                self,
            ).queue.capacity() ==> {
                &&& step == ProduceStep::Blocked
                &&& *final(self) == *old(self)
            },
            old(self).failure is None && !old(self).producer.closed && old(self).producer.next
                < old(self).producer.total && old(self).queue.contents().len() < old(
                self,
            ).queue.capacity() ==> {
                &&& step == ProduceStep::Enqueued
                &&& final(self).producer.next == old(self).producer.next + 1
                &&& !final(self).producer.closed
                &&& final(self).queue.contents() == old(self).queue.contents().push(
                    request_text(old(self).producer.next as nat),
                )
            },
            old(self).failure is None && !old(self).producer.closed && old(self).producer.next
                == old(self).producer.total ==> {
                &&& step == ProduceStep::Closed
                &&& final(self).producer.closed
                &&& final(self).producer.next == old(self).producer.next
                &&& final(self).queue.contents() == old(self).queue.contents()
            },
    {
        if self.failure.is_some() || self.producer.closed {
            return ProduceStep::Idle;
        }
        if self.producer.next < self.producer.total {
            if self.queue.is_full() {
                return ProduceStep::Blocked;
            }
            proof {
                self.queue.lemma_wf_bounds();
            }
            let ghost before_wired = self.wired@;
            let ghost before_queue = self.queue.contents();
            let ghost i = self.producer.next as nat;
            let m = make_request(self.producer.next);
            self.producer.next = self.producer.next + 1;
            let _ = self.queue.try_push(m);
            proof {
                assert(request_seq(i + 1) =~= request_seq(i).push(request_text(i)));
                assert(before_wired + before_queue.push(request_text(i)) =~= (before_wired
                    + before_queue).push(request_text(i)));
            }
            ProduceStep::Enqueued
        } else {
            self.producer.closed = true;
            ProduceStep::Closed
        }
    }

    /// The transport drained the front of the queue onto the wire: wire
    /// order is queue order.
    pub fn transport_drain(&mut self) -> (m: Option<EchoRequest>)
        requires
            old(self).wf(),
        ensures
            final(self).wf(),
            final(self).producer == old(self).producer,
            final(self).queue.capacity() == old(self).queue.capacity(),
            final(self).received == old(self).received,
            final(self).inbound_done == old(self).inbound_done,
            final(self).failure == old(self).failure,
            old(self).queue.contents().len() == 0 ==> {
                &&& m is None
                &&& *final(self) == *old(self)
            },
            old(self).queue.contents().len() > 0 ==> {
                &&& m matches Some(r)
                &&& r.message@ == old(self).queue.contents()[0]
                &&& final(self).wired@ == old(self).wired@.push(old(self).queue.contents()[0])
                &&& final(self).queue.contents() == old(self).queue.contents().drop_first()
            },
    {
        let ghost before_wired = self.wired@;
        let ghost before_queue = self.queue.contents();
        let m = self.queue.pop();
        match &m {
            None => m,
            Some(r) => {
                self.wired = Ghost(self.wired@.push(r.message@));
                proof {
                    assert(before_wired.push(before_queue[0]) + before_queue.drop_first()
                        =~= before_wired + before_queue);
                }
                m
            },
        }
    }

    /// The inbound half observed one response: it is recorded in arrival
    /// order while the stream is still live.
    pub fn on_response(&mut self, r: EchoResponse)
        requires
            old(self).wf(),
        ensures
            final(self).wf(),
            final(self).queue == old(self).queue,
            final(self).producer == old(self).producer,
            final(self).inbound_done == old(self).inbound_done,
            final(self).failure == old(self).failure,
            final(self).wired == old(self).wired,
            old(self).failure is None && !old(self).inbound_done ==> final(self).received_msgs()
                == old(self).received_msgs().push(r.message@),
            old(self).failure is Some || old(self).inbound_done ==> *final(self) == *old(self),
    {
        if self.failure.is_none() && !self.inbound_done {
            let ghost before = self.received_msgs();
            let ghost msg = r.message@;
            self.received.push(r);
            proof {
                assert(self.received_msgs() =~= before.push(msg));
            }
        }
    }

    /// The inbound half observed a clean end-of-stream.
    pub fn on_inbound_closed(&mut self)
        requires
            old(self).wf(),
        ensures
            final(self).wf(),
            final(self).inbound_done,
            final(self).queue == old(self).queue,
            final(self).producer == old(self).producer,
            final(self).received == old(self).received,
            final(self).failure == old(self).failure,
            final(self).wired == old(self).wired,
    {
        self.inbound_done = true;
    }

    /// The inbound half failed with a remote status: recorded as
    /// `RecvError` unless an error already stands — the first error wins.
    pub fn on_inbound_error(&mut self, status: String)
        requires
            old(self).wf(),
        ensures
            final(self).wf(),
            final(self).queue == old(self).queue,
            final(self).producer == old(self).producer,
            final(self).received == old(self).received,
            final(self).inbound_done == old(self).inbound_done,
            final(self).wired == old(self).wired,
            old(self).failure is None ==> final(self).failure == Some(
                ClientError::RecvError(status),
            ),
            old(self).failure is Some ==> final(self).failure == old(self).failure,
    {
        if self.failure.is_none() {
            self.failure = Some(ClientError::RecvError(status));
        }
    }

    /// The outbound half failed: the queue's consumer was torn down.
    /// Recorded as `SendError` unless an error already stands.
    pub fn on_send_failed(&mut self, detail: String)
        requires
            old(self).wf(),
        ensures
            final(self).wf(),
            final(self).queue == old(self).queue,
            final(self).producer == old(self).producer,
            final(self).received == old(self).received,
            final(self).inbound_done == old(self).inbound_done,
            final(self).wired == old(self).wired,
            old(self).failure is None ==> final(self).failure == Some(
                ClientError::SendError(detail),
            ),
            old(self).failure is Some ==> final(self).failure == old(self).failure,
    {
        if self.failure.is_none() {
            self.failure = Some(ClientError::SendError(detail));
        }
    }

    /// The joint result, once decided: the first error either half
    /// reported — reported at once, without waiting on the other half —
    /// and success only when both halves completed.
    pub fn outcome(self) -> (r: Option<Result<(), ClientError>>)
        ensures
            r == self.outcome_spec(),
    {
        let empty = self.queue.is_empty();
        match self.failure {
            Some(e) => Some(Err(e)),
            None => if self.producer.closed && empty && self.inbound_done {
                Some(Ok(()))
            } else {
                None
            },
        }
    }
}

/// Outbound order is preserved end to end: in every reachable state the
/// wire carries a prefix of the generated request sequence, and once the
/// sending side has closed and the queue has drained, the wire carries
/// exactly the messages tagged `0 .. total`, in that order.
pub proof fn lemma_wire_order(o: Orchestrator)
    requires
        o.wf(),
    ensures
        o.wired@ == request_seq(o.producer.next as nat).take(o.wired@.len() as int),
        o.producer.closed && o.queue.contents().len() == 0 ==> o.wired@ == request_seq(
            o.producer.total as nat,
        ),
{
    o.queue.lemma_wf_bounds();
    assert(o.wired@ =~= request_seq(o.producer.next as nat).take(o.wired@.len() as int));
    if o.producer.closed && o.queue.contents().len() == 0 {
        assert(o.wired@ =~= request_seq(o.producer.total as nat));
    }
}

/// Joint failure wins immediately: once either half has recorded an error,
/// the outcome is that error — even while the outbound half still has
/// requests to send.
pub proof fn lemma_first_error_decides(o: Orchestrator)
    requires
        o.failure matches Some(e),
    ensures
        o.outcome_spec() == Some(Err::<(), ClientError>(o.failure->0)),
{
}

} // verus!
