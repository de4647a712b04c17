use std::collections::VecDeque;
use vstd::prelude::*;
use crate::event::{Event, EventView};

verus! {

/// An event together with the source that produced it.
pub struct Envelope {
    pub source: u32,
    pub event: Event,
}

/// An envelope as a plain value.
pub struct EnvelopeView {
    pub source: u32,
    pub event: EventView,
}

impl View for Envelope {
    type V = EnvelopeView;

    open spec fn view(&self) -> EnvelopeView {
        EnvelopeView { source: self.source, event: self.event@ }
    }
}

/// The views of a sequence of envelopes.
pub open spec fn envelopes_view(s: Seq<Envelope>) -> Seq<EnvelopeView> {
    Seq::new(s.len(), |i: int| s[i]@)
}

/// The envelopes of `s` that `source` produced, in their order in `s`.
pub open spec fn from_source(s: Seq<EnvelopeView>, source: u32) -> Seq<EnvelopeView> {
    s.filter(|e: EnvelopeView| e.source == source)
}

/// Mathematical model of the multiplexer: the envelopes accepted and not
/// yet delivered, oldest first, and whether it was closed.
pub struct MuxView {
    pub pending: Seq<EnvelopeView>,
    pub closed: bool,
}

impl MuxView {
    /// Open, with nothing pending.
    pub open spec fn empty() -> MuxView {
        MuxView { pending: Seq::empty(), closed: false }
    }

    /// Whether a send is accepted: until the multiplexer is closed.
    pub open spec fn accepts(self) -> bool {
        !self.closed
    }

    /// After a send: the envelope waits behind all that were accepted
    /// before it; a closed multiplexer takes nothing.
    pub open spec fn send(self, envelope: EnvelopeView) -> MuxView {
        if self.closed {
            self
        } else {
            MuxView { pending: self.pending.push(envelope), closed: self.closed }
        }
    }

    /// What a receive delivers: the oldest pending envelope, if any.
    pub open spec fn front(self) -> Option<EnvelopeView> {
        if self.pending.len() > 0 {
            Some(self.pending[0])
        } else {
            None
        }
    }

    /// After a receive: the oldest pending envelope is gone.
    pub open spec fn receive(self) -> MuxView {
        if self.pending.len() > 0 {
            MuxView {
                pending: self.pending.subrange(1, self.pending.len() as int),
                closed: self.closed,
            }
        } else {
            self
        }
    }

    /// After closing: what is pending can still be received, and nothing
    /// more is accepted.
    pub open spec fn close(self) -> MuxView {
        MuxView { pending: self.pending, closed: true }
    }

    /// After `n` receives.
    pub open spec fn receive_n(self, n: nat) -> MuxView
        decreases n,
    {
        if n == 0 {
            self
        } else {
            self.receive_n((n - 1) as nat).receive()
        }
    }
}

/// One use of the multiplexer.
pub enum MuxOp {
    Send(EnvelopeView),
    Receive,
    Close,
}

/// A multiplexer with the record of what it accepted and what it delivered
/// since it was made, each in order.
pub struct MuxHistory {
    pub mux: MuxView,
    pub accepted: Seq<EnvelopeView>,
    pub delivered: Seq<EnvelopeView>,
}

impl MuxHistory {
    /// A new multiplexer and empty records.
    pub open spec fn start() -> MuxHistory {
        MuxHistory { mux: MuxView::empty(), accepted: Seq::empty(), delivered: Seq::empty() }
    }

    /// The history after one more use.
    pub open spec fn step(self, op: MuxOp) -> MuxHistory {
        match op {
            MuxOp::Send(envelope) => MuxHistory {
                mux: self.mux.send(envelope),
                accepted: if self.mux.accepts() {
                    self.accepted.push(envelope)
                } else {
                    self.accepted
                },
                delivered: self.delivered,
            },
            MuxOp::Receive => MuxHistory {
                mux: self.mux.receive(),
                accepted: self.accepted,
                delivered: match self.mux.front() {
                    Some(envelope) => self.delivered.push(envelope),
                    None => self.delivered,
                },
            },
            MuxOp::Close => MuxHistory {
                mux: self.mux.close(),
                accepted: self.accepted,
                delivered: self.delivered,
            },
        }
    }

    /// The history after the uses of `ops`, in order.
    pub open spec fn run(ops: Seq<MuxOp>) -> MuxHistory
        decreases ops.len(),
    {
        if ops.len() == 0 {
            MuxHistory::start()
        } else {
            MuxHistory::run(ops.drop_last()).step(ops.last())
        }
    }
}

/// However sends, receives and a close interleave: the envelopes accepted
/// so far are exactly those delivered so far followed by those still
/// pending, in the order of their acceptance. So each accepted envelope is
/// delivered once, none is delivered that was not accepted, none is merged
/// with another, and once nothing is pending all were delivered.
pub proof fn lemma_delivered_once_in_order(ops: Seq<MuxOp>)
    ensures
        MuxHistory::run(ops).accepted == MuxHistory::run(ops).delivered + MuxHistory::run(
            ops,
        ).mux.pending,
        MuxHistory::run(ops).mux.pending.len() == 0 ==> MuxHistory::run(ops).delivered
            == MuxHistory::run(ops).accepted,
    decreases ops.len(),
{
    if ops.len() > 0 {
        lemma_delivered_once_in_order(ops.drop_last());
    }
}

/// The events of one source are never reordered: what was accepted from it
/// is what was delivered from it followed by what is pending from it, in
/// the order in which the source sent them.
pub proof fn lemma_fifo_per_source(ops: Seq<MuxOp>, source: u32)
    ensures
        from_source(MuxHistory::run(ops).accepted, source) == from_source(
            MuxHistory::run(ops).delivered,
            source,
        ) + from_source(MuxHistory::run(ops).mux.pending, source),
        from_source(MuxHistory::run(ops).delivered, source).is_prefix_of(
            from_source(MuxHistory::run(ops).accepted, source),
        ),
{
    let h = MuxHistory::run(ops);
    lemma_delivered_once_in_order(ops);
    Seq::filter_distributes_over_add(
        h.delivered,
        h.mux.pending,
        |e: EnvelopeView| e.source == source,
    );
}

/// No source is starved: the envelope at position `k` of the queue is what
/// the receive after `k` others delivers, whoever sent the envelopes before
/// it.
pub proof fn lemma_delivered_after_those_before(m: MuxView, k: nat)
    requires
        k < m.pending.len(),
    ensures
        m.receive_n(k).front() == Some(m.pending[k as int]),
        m.receive_n(k).pending == m.pending.subrange(k as int, m.pending.len() as int),
    decreases k,
{
    if k > 0 {
        lemma_delivered_after_those_before(m, (k - 1) as nat);
    }
}

/// What the receiver finds when it asks for the next event.
pub enum Next {
    /// The oldest pending envelope, now taken.
    Event(Envelope),
    /// Nothing is pending, but more may come: wait for a send.
    Wait,
    /// Nothing is pending and nothing will come: the multiplexer is closed.
    Done,
}

/// The one queue through which every event source reaches the render loop.
/// Sources send, the loop receives, and what comes out is what went in, in
/// the same order.
pub struct Multiplexer {
    queue: VecDeque<Envelope>,
    closed: bool,
}

impl View for Multiplexer {
    type V = MuxView;

    closed spec fn view(&self) -> MuxView {
        MuxView { pending: envelopes_view(self.queue@), closed: self.closed }
    }
}

impl Multiplexer {
    /// An open multiplexer with nothing pending.
    pub fn new() -> (r: Multiplexer)
        ensures
            r@ == MuxView::empty(),
    {
        let r = Multiplexer { queue: VecDeque::new(), closed: false };
        assert(r@.pending =~= Seq::empty());
        r
    }

    /// Hands in an event of `source`. It is accepted unless the multiplexer
    /// was closed; a refusal tells the source to stop producing.
    pub fn send(&mut self, source: u32, event: Event) -> (accepted: bool)
        ensures
            accepted == old(self)@.accepts(),
            final(self)@ == old(self)@.send(EnvelopeView { source, event: event@ }),
    {
        if self.closed {
            false
        } else {
            self.queue.push_back(Envelope { source, event });
            assert(envelopes_view(self.queue@) =~= envelopes_view(old(self).queue@).push(
                EnvelopeView { source, event: event@ },
            ));
            true
        }
    }

    /// Takes the oldest pending envelope, if there is one.
    pub fn receive(&mut self) -> (r: Option<Envelope>)
        ensures
            final(self)@ == old(self)@.receive(),
            match r {
                Some(envelope) => old(self)@.front() == Some(envelope@),
                None => old(self)@.front() is None,
            },
    {
        let r = self.queue.pop_front();
        proof {
            if r is Some {
                assert(envelopes_view(self.queue@) =~= envelopes_view(old(self).queue@).subrange(
                    1,
                    old(self).queue@.len() as int,
                ));
            }
        }
        r
    }

    /// Takes the oldest pending envelope, or says why there is none: the
    /// receiver is to wait while the multiplexer is open, and to stop once
    /// it is closed and drained.
    pub fn poll(&mut self) -> (r: Next)
        ensures
            final(self)@ == old(self)@.receive(),
            match r {
                Next::Event(envelope) => old(self)@.front() == Some(envelope@),
                Next::Wait => old(self)@.front() is None && !old(self)@.closed,
                Next::Done => old(self)@.front() is None && old(self)@.closed,
            },
    {
        match self.receive() {
            Some(envelope) => Next::Event(envelope),
            None => if self.closed {
                Next::Done
            } else {
                Next::Wait
            },
        }
    }

    /// Stops accepting events. What is pending stays receivable.
    pub fn close(&mut self)
        ensures
            final(self)@ == old(self)@.close(),
    {
        self.closed = true;
    }

    /// Whether the multiplexer was closed.
    pub fn is_closed(&self) -> (r: bool)
        ensures
            r == self@.closed,
    {
        self.closed
    }

    /// How many envelopes are pending.
    pub fn len(&self) -> (r: usize)
        ensures
            r == self@.pending.len(),
    {
        self.queue.len()
    }

    /// Whether nothing is pending.
    pub fn is_empty(&self) -> (r: bool)
        ensures
            r == (self@.pending.len() == 0),
    {
        self.queue.len() == 0
    }
}

} // verus!
