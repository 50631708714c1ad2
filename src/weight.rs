//! The cost that a consensus hook charges for its decision.

use vstd::prelude::*;

verus! {

/// A two-dimensional resource weight: computation time and proof size.
#[derive(Clone, Copy, Debug, PartialEq, Eq, Structural)]
pub struct Weight {
    /// Computation time, in picoseconds.
    pub ref_time: u64,
    /// Size of the storage proof, in bytes.
    pub proof_size: u64,
}

impl Weight {
    /// The weight of doing nothing.
    pub open spec fn spec_zero() -> Weight {
        Weight { ref_time: 0, proof_size: 0 }
    }

    /// The weight of doing nothing.
    pub fn zero() -> (r: Weight)
        ensures
            r == Self::spec_zero(),
    {
        Weight { ref_time: 0, proof_size: 0 }
    }

    /// A weight with the given components.
    pub fn from_parts(ref_time: u64, proof_size: u64) -> (r: Weight)
        ensures
            r.ref_time == ref_time,
            r.proof_size == proof_size,
    {
        Weight { ref_time, proof_size }
    }

    /// Whether both components are zero.
    pub fn is_zero(&self) -> (r: bool)
        ensures
            r <==> *self == Self::spec_zero(),
    {
        self.ref_time == 0 && self.proof_size == 0
    }
}

} // verus!
