//! The request dispatcher: one inbox of submitted requests, one worker
//! that serialises them through the transport, one outbox of outcomes.
//!
//! The surrounding application realises the two queues as channel pairs
//! and the worker as a background thread; this model is the verified
//! statement of what that plumbing does. Ghost histories record every
//! request ever submitted, every outcome ever produced and every
//! outcome ever drained, and the well-formedness invariant pins the
//! queues to those histories, so that first-in-first-out delivery is a
//! property of the type rather than a hope about the threads.

use vstd::prelude::*;

use crate::session::{chat_res_view, OutboundRequest, RequestView};

verus! {

broadcast use vstd::seq_lib::group_seq_properties;

/// The dispatcher's state: the queued requests, the produced but
/// undrained outcomes, and the ghost record of everything that ever
/// passed through.
pub struct Dispatcher {
    /// Requests submitted and not yet taken by the worker.
    inbox: Vec<OutboundRequest>,
    /// Outcomes produced by the worker and not yet drained.
    outbox: Vec<Result<String, String>>,
    /// Every request ever submitted, in submission order.
    submitted: Ghost<Seq<RequestView>>,
    /// Every outcome ever produced, in production order; the outcome at
    /// position `i` was produced for the request at position `i` of
    /// `submitted`.
    produced: Ghost<Seq<Result<Seq<char>, Seq<char>>>>,
    /// Every outcome ever drained by the frame loop, in drain order.
    drained: Ghost<Seq<Result<Seq<char>, Seq<char>>>>,
}

/// The views of a queue of requests.
pub open spec fn reqs_view(v: Seq<OutboundRequest>) -> Seq<RequestView> {
    v.map_values(|q: OutboundRequest| q@)
}

/// The views of a queue of outcomes.
pub open spec fn results_view(v: Seq<Result<String, String>>) -> Seq<
    Result<Seq<char>, Seq<char>>,
> {
    v.map_values(|r: Result<String, String>| chat_res_view(r))
}

impl Dispatcher {
    /// Every request ever submitted, in submission order.
    pub closed spec fn submitted(&self) -> Seq<RequestView> {
        self.submitted@
    }

    /// Every outcome ever produced, in production order. The outcome at
    /// position `i` was produced for `self.submitted()[i]`: the worker
    /// only ever takes the oldest queued request.
    pub closed spec fn produced(&self) -> Seq<Result<Seq<char>, Seq<char>>> {
        self.produced@
    }

    /// Every outcome ever drained, in drain order.
    pub closed spec fn drained(&self) -> Seq<Result<Seq<char>, Seq<char>>> {
        self.drained@
    }

    /// How many submitted requests still wait for the worker.
    pub closed spec fn queued(&self) -> Seq<RequestView> {
        reqs_view(self.inbox@)
    }

    /// The produced outcomes still waiting to be drained.
    pub closed spec fn ready(&self) -> Seq<Result<Seq<char>, Seq<char>>> {
        results_view(self.outbox@)
    }

    /// Requests with no outcome drained yet: submitted and not yet paid
    /// off, whether still queued, at the worker, or waiting in the
    /// outbox.
    pub open spec fn outstanding(&self) -> int {
        self.submitted().len() - self.drained().len()
    }

    /// The queues agree with the histories: what was drained is a
    /// prefix of what was produced, the outbox holds the rest, what was
    /// produced answers a prefix of what was submitted, and the inbox
    /// holds the rest in submission order.
    pub closed spec fn wf(&self) -> bool {
        &&& self.drained@ + self.ready() == self.produced@
        &&& self.produced@.len() + self.inbox@.len() == self.submitted@.len()
        &&& self.queued() == self.submitted@.skip(self.produced@.len() as int)
    }

    /// A fresh dispatcher: empty queues, empty histories.
    pub fn new() -> (d: Dispatcher)
        ensures
            d.wf(),
            d.submitted() == Seq::<RequestView>::empty(),
            d.produced() == Seq::<Result<Seq<char>, Seq<char>>>::empty(),
            d.drained() == Seq::<Result<Seq<char>, Seq<char>>>::empty(),
    {
        let d = Dispatcher {
            inbox: Vec::new(),
            outbox: Vec::new(),
            submitted: Ghost(Seq::empty()),
            produced: Ghost(Seq::empty()),
            drained: Ghost(Seq::empty()),
        };
        proof {
            assert(d.drained@ + d.ready() =~= d.produced@);
            assert(d.queued() =~= d.submitted@.skip(0));
        }
        d
    }

    /// Queues one request. Never blocks, performs no admission control:
    /// the busy flag is the caller's cooperative contract, not the
    /// dispatcher's.
    pub fn submit(&mut self, req: OutboundRequest)
        requires
            old(self).wf(),
        ensures
            final(self).wf(),
            final(self).submitted() == old(self).submitted().push(req@),
            final(self).produced() == old(self).produced(),
            final(self).drained() == old(self).drained(),
    {
        proof {
            self.submitted@ = self.submitted@.push(req@);
        }
        self.inbox.push(req);
        proof {
            assert(reqs_view(self.inbox@) =~= self.submitted@.skip(self.produced@.len() as int));
        }
    }

    /// One cycle of the worker: it takes the oldest queued request —
    /// the only one it ever takes — and delivers the transport's
    /// outcome for it onto the outbox. Returns that request.
    pub fn worker_step(&mut self, outcome: Result<String, String>) -> (req: OutboundRequest)
        requires
            old(self).wf(),
            old(self).queued().len() > 0,
        ensures
            final(self).wf(),
            req@ == old(self).submitted()[old(self).produced().len() as int],
            final(self).submitted() == old(self).submitted(),
            final(self).produced() == old(self).produced().push(chat_res_view(outcome)),
            final(self).drained() == old(self).drained(),
    {
        let req = self.inbox.remove(0);
        proof {
            self.produced@ = self.produced@.push(chat_res_view(outcome));
        }
        self.outbox.push(outcome);
        proof {
            assert(self.drained@ + self.ready() =~= self.produced@);
            assert(reqs_view(self.inbox@) =~= self.submitted@.skip(self.produced@.len() as int));
        }
        req
    }

    /// Non-blocking drain of one outcome, called once per frame:
    /// nothing when the outbox is empty, else the oldest undrained
    /// outcome.
    pub fn poll(&mut self) -> (r: Option<Result<String, String>>)
        requires
            old(self).wf(),
        ensures
            final(self).wf(),
            final(self).submitted() == old(self).submitted(),
            final(self).produced() == old(self).produced(),
            old(self).ready().len() == 0 ==> r is None && final(self).drained() == old(
                self,
            ).drained(),
            old(self).ready().len() > 0 ==> (r matches Some(outcome) && chat_res_view(outcome)
                == old(self).produced()[old(self).drained().len() as int] && final(self).drained()
                == old(self).drained().push(chat_res_view(outcome))),
    {
        if self.outbox.len() == 0 {
            return None;
        }
        let outcome = self.outbox.remove(0);
        proof {
            assert(self.drained@ + results_view(old(self).outbox@) =~= self.produced@);
            assert(results_view(old(self).outbox@)[0] == chat_res_view(outcome));
            assert(self.produced@[self.drained@.len() as int] == chat_res_view(outcome));
            self.drained@ = self.drained@.push(chat_res_view(outcome));
            assert(self.drained@ + self.ready() =~= self.produced@);
        }
        Some(outcome)
    }

    /// How many requests wait in the inbox.
    pub fn queued_len(&self) -> (n: usize)
        ensures
            n == self.queued().len(),
    {
        self.inbox.len()
    }

    /// How many outcomes wait in the outbox.
    pub fn ready_len(&self) -> (n: usize)
        ensures
            n == self.ready().len(),
    {
        self.outbox.len()
    }
}

/// Numeric consequences of well-formedness, for callers that reason
/// over the counts alone: nothing is drained before it is produced,
/// nothing is produced before it is submitted, and the queues hold
/// exactly the differences.
pub proof fn lemma_wf_bounds(d: Dispatcher)
    requires
        d.wf(),
    ensures
        d.drained().len() <= d.produced().len() <= d.submitted().len(),
        d.queued().len() == d.submitted().len() - d.produced().len(),
        d.ready().len() == d.produced().len() - d.drained().len(),
{
}

/// First-in-first-out delivery: outcomes are drained in production
/// order, production answers submissions in submission order — so for
/// every `k`, the `k`-th outcome ever drained is the outcome produced
/// for the `k`-th request ever submitted, and what still waits in the
/// inbox is exactly the undispatched tail of the submissions.
pub proof fn lemma_fifo_delivery(d: Dispatcher)
    requires
        d.wf(),
    ensures
        d.drained() == d.produced().take(d.drained().len() as int),
        forall|k: int|
            0 <= k < d.drained().len() ==> #[trigger] d.drained()[k] == d.produced()[k],
        d.queued() == d.submitted().skip(d.produced().len() as int),
{
    assert(d.drained() =~= d.produced().take(d.drained().len() as int));
}

} // verus!
