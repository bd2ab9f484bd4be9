//! The bidirectional relay model.
//!
//! A relay joins two duplex byte-streams, leg A and leg B, and copies
//! bytes in both directions until completion. Each direction is an
//! independent forward-only copy: it delivers chunks from its source to
//! its destination until the source reaches end of stream, at which
//! point the destination's write half is closed so the peer sees an
//! orderly end of data. The relay as a whole completes only when *both*
//! directions have closed (wait-for-both): a direction that reaches end
//! of stream first never cuts off the bytes still flowing the other way.

use vstd::prelude::*;

verus! {

/// One directional copy: the bytes delivered to its destination so far,
/// and whether its source has reached end of stream and the close was
/// propagated to the destination's write half.
pub struct DirectionState {
    pub delivered: Vec<u8>,
    pub closed: bool,
}

/// The two directional copies of one relay between leg A and leg B.
pub struct RelayState {
    pub a_to_b: DirectionState,
    pub b_to_a: DirectionState,
}

/// Wait-for-both completion: the relay is finished exactly when both
/// directions have closed, never earlier.
pub open spec fn relay_complete(r: RelayState) -> bool {
    r.a_to_b.closed && r.b_to_a.closed
}

/// All the bytes of a source, in order: the concatenation of its chunks.
pub open spec fn spec_source_bytes(chunks: Seq<Vec<u8>>) -> Seq<u8>
    decreases chunks.len(),
{
    if chunks.len() == 0 {
        Seq::empty()
    } else {
        spec_source_bytes(chunks.drop_last()) + chunks.last()@
    }
}

/// Extending a source by one chunk appends exactly that chunk's bytes.
pub proof fn lemma_source_bytes_take_succ(chunks: Seq<Vec<u8>>, i: int)
    requires
        0 <= i < chunks.len(),
    ensures
        spec_source_bytes(chunks.take(i + 1)) == spec_source_bytes(chunks.take(i)) + chunks[i]@,
{
    assert(chunks.take(i + 1).drop_last() =~= chunks.take(i));
    assert(chunks.take(i + 1).last() == chunks[i]);
}

impl RelayState {
    /// A relay that has just been set up: nothing delivered, both
    /// directions still open.
    pub fn new() -> (r: Self)
        ensures
            r.a_to_b.delivered@ =~= Seq::<u8>::empty(),
            r.b_to_a.delivered@ =~= Seq::<u8>::empty(),
            !r.a_to_b.closed,
            !r.b_to_a.closed,
    {
        RelayState {
            a_to_b: DirectionState { delivered: Vec::new(), closed: false },
            b_to_a: DirectionState { delivered: Vec::new(), closed: false },
        }
    }

    /// Deliver one chunk read from leg A to leg B. The opposite
    /// direction is untouched, whether it is still open or already
    /// closed: that is what lets a half-closed relay keep draining.
    pub fn deliver_a_to_b(&mut self, chunk: &Vec<u8>)
        requires
            !old(self).a_to_b.closed,
        ensures
            final(self).a_to_b.delivered@ == old(self).a_to_b.delivered@ + chunk@,
            !final(self).a_to_b.closed,
            final(self).b_to_a == old(self).b_to_a,
    {
        let mut k: usize = 0;
        while k < chunk.len()
            invariant
                k <= chunk@.len(),
                self.a_to_b.delivered@ == old(self).a_to_b.delivered@ + chunk@.take(k as int),
                self.a_to_b.closed == old(self).a_to_b.closed,
                self.b_to_a == old(self).b_to_a,
            decreases chunk@.len() - k,
        {
            self.a_to_b.delivered.push(chunk[k]);
            k = k + 1;
            proof {
                assert(self.a_to_b.delivered@ =~= old(self).a_to_b.delivered@ + chunk@.take(
                    k as int,
                ));
            }
        }
        proof {
            assert(chunk@.take(chunk@.len() as int) =~= chunk@);
        }
    }

    /// Deliver one chunk read from leg B to leg A.
    pub fn deliver_b_to_a(&mut self, chunk: &Vec<u8>)
        requires
            !old(self).b_to_a.closed,
        ensures
            final(self).b_to_a.delivered@ == old(self).b_to_a.delivered@ + chunk@,
            !final(self).b_to_a.closed,
            final(self).a_to_b == old(self).a_to_b,
    {
        let mut k: usize = 0;
        while k < chunk.len()
            invariant
                k <= chunk@.len(),
                self.b_to_a.delivered@ == old(self).b_to_a.delivered@ + chunk@.take(k as int),
                self.b_to_a.closed == old(self).b_to_a.closed,
                self.a_to_b == old(self).a_to_b,
            decreases chunk@.len() - k,
        {
            self.b_to_a.delivered.push(chunk[k]);
            k = k + 1;
            proof {
                assert(self.b_to_a.delivered@ =~= old(self).b_to_a.delivered@ + chunk@.take(
                    k as int,
                ));
            }
        }
        proof {
            assert(chunk@.take(chunk@.len() as int) =~= chunk@);
        }
    }

    /// Leg A's source reached end of stream: close leg B's write half so
    /// the peer observes an orderly end of data, not an abrupt reset.
    pub fn close_a_to_b(&mut self)
        ensures
            final(self).a_to_b.closed,
            final(self).a_to_b.delivered == old(self).a_to_b.delivered,
            final(self).b_to_a == old(self).b_to_a,
    {
        self.a_to_b.closed = true;
    }

    /// Leg B's source reached end of stream: close leg A's write half.
    pub fn close_b_to_a(&mut self)
        ensures
            final(self).b_to_a.closed,
            final(self).b_to_a.delivered == old(self).b_to_a.delivered,
            final(self).a_to_b == old(self).a_to_b,
    {
        self.b_to_a.closed = true;
    }

    /// Whether the relay may release both legs: only once both
    /// directions are closed.
    pub fn is_complete(&self) -> (r: bool)
        ensures
            r == relay_complete(*self),
    {
        self.a_to_b.closed && self.b_to_a.closed
    }
}

/// Half-close propagation: while one direction has closed but the other
/// has not, the relay is not complete, so the still-open direction keeps
/// its legs and may go on delivering until its own end of stream.
pub proof fn lemma_half_close_not_complete(r: RelayState)
    requires
        r.a_to_b.closed != r.b_to_a.closed,
    ensures
        !relay_complete(r),
{
}

/// Run one relay to completion over the chunks each source yields before
/// its end of stream. Every byte of each source is delivered to the
/// other leg, in order, whatever the two sources' relative pacing: a
/// source that ends early (even one that sends nothing) never truncates
/// the opposite direction.
pub fn run_relay(a_chunks: &Vec<Vec<u8>>, b_chunks: &Vec<Vec<u8>>) -> (r: RelayState)
    ensures
        r.a_to_b.delivered@ == spec_source_bytes(a_chunks@),
        r.b_to_a.delivered@ == spec_source_bytes(b_chunks@),
        relay_complete(r),
{
    let mut relay = RelayState::new();
    let mut i: usize = 0;
    let mut j: usize = 0;
    while i < a_chunks.len() || j < b_chunks.len()
        invariant
            i <= a_chunks@.len(),
            j <= b_chunks@.len(),
            relay.a_to_b.delivered@ == spec_source_bytes(a_chunks@.take(i as int)),
            relay.b_to_a.delivered@ == spec_source_bytes(b_chunks@.take(j as int)),
            !relay.a_to_b.closed,
            !relay.b_to_a.closed,
        decreases a_chunks@.len() - i + b_chunks@.len() - j,
    {
        if i < a_chunks.len() {
            relay.deliver_a_to_b(&a_chunks[i]);
            proof {
                lemma_source_bytes_take_succ(a_chunks@, i as int);
            }
            i = i + 1;
        }
        if j < b_chunks.len() {
            relay.deliver_b_to_a(&b_chunks[j]);
            proof {
                lemma_source_bytes_take_succ(b_chunks@, j as int);
            }
            j = j + 1;
        }
    }
    proof {
        assert(a_chunks@.take(a_chunks@.len() as int) =~= a_chunks@);
        assert(b_chunks@.take(b_chunks@.len() as int) =~= b_chunks@);
    }
    relay.close_a_to_b();
    relay.close_b_to_a();
    relay
}

} // verus!
