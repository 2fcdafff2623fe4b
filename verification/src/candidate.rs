//! Network candidates and the FIFO queue that buffers them until the
//! session they target has a remote description.

use vstd::prelude::*;

verus! {

/// A connectivity hint discovered by the engine. The hint itself is an
/// opaque blob; `discovery_seq` records the order it was discovered in,
/// for diagnostics only.
pub struct Candidate {
    pub hint: Vec<u8>,
    pub discovery_seq: u64,
}

/// FIFO buffer for candidates that arrive before their target session has
/// a remote description. Owned exclusively by one session; drained exactly
/// once, when that session's remote description is set.
pub struct CandidateQueue {
    items: Vec<Candidate>,
}

impl View for CandidateQueue {
    type V = Seq<Candidate>;

    closed spec fn view(&self) -> Seq<Candidate> {
        self.items@
    }
}

impl CandidateQueue {
    /// Creates an empty queue.
    pub fn new() -> (q: Self)
        ensures
            q@ == Seq::<Candidate>::empty(),
    {
        let q = CandidateQueue { items: Vec::new() };
        proof {
            assert(q@ =~= Seq::<Candidate>::empty());
        }
        q
    }

    /// Number of buffered candidates.
    pub fn len(&self) -> (n: usize)
        ensures
            n == self@.len(),
    {
        self.items.len()
    }

    /// Appends a candidate; always succeeds.
    pub fn enqueue(&mut self, c: Candidate)
        ensures
            final(self)@ == old(self)@.push(c),
    {
        self.items.push(c);
    }

    /// Removes and returns all buffered candidates in arrival order,
    /// leaving the queue empty. On an empty queue this returns an empty
    /// sequence and changes nothing.
    pub fn drain(&mut self) -> (r: Vec<Candidate>)
        ensures
            r@ == old(self)@,
            final(self)@ == Seq::<Candidate>::empty(),
    {
        let r = self.items.split_off(0);
        proof {
            assert(r@ =~= old(self)@);
            assert(self@ =~= Seq::<Candidate>::empty());
        }
        r
    }
}

} // verus!
