use vstd::prelude::*;
use crate::buffer::GlBuffer;

verus! {

/// Two GL buffers used in turn: a pass reads `in_data` and writes
/// `out_data`, then the two trade places.
#[derive(Clone, Copy, Debug, PartialEq, Eq, Structural)]
pub struct PingPong {
    pub in_data: GlBuffer,
    pub out_data: GlBuffer,
}

/// The pair after one exchange.
pub open spec fn swapped(p: PingPong) -> PingPong {
    PingPong { in_data: p.out_data, out_data: p.in_data }
}

impl PingPong {
    pub fn new(in_data: GlBuffer, out_data: GlBuffer) -> (p: PingPong)
        ensures
            p.in_data == in_data,
            p.out_data == out_data,
    {
        PingPong { in_data, out_data }
    }

    /// Exchanges the two buffers, as `std::mem::swap(&mut out_data, &mut in_data)`.
    pub fn swap(&mut self)
        ensures
            *final(self) == swapped(*old(self)),
    {
        let t = self.in_data;
        self.in_data = self.out_data;
        self.out_data = t;
    }
}

/// Exchanging twice gives back the pair one started with.
pub proof fn lemma_swap_twice(p: PingPong)
    ensures
        swapped(swapped(p)) == p,
{
}

} // verus!
