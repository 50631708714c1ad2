//! Consensus hooks: policies that decide, from the relay-chain state, how
//! many blocks the unincluded segment may hold.

use vstd::prelude::*;
use crate::capacity::UnincludedSegmentCapacity;
use crate::state_proof::RelayChainStateProof;
use crate::weight::Weight;

verus! {

/// The consensus hook for dealing with the unincluded segment.
///
/// A hook is a pure function of the state proof: the same proof always yields
/// the same weight and capacity.
pub trait ConsensusHook {
    /// What the hook yields for the given proof.
    spec fn spec_on_state_proof(state_proof: RelayChainStateProof) -> (Weight, UnincludedSegmentCapacity);

    /// Returns the weight consumed and the maximum capacity of the unincluded
    /// segment for the block being authored.
    fn on_state_proof(state_proof: &RelayChainStateProof) -> (r: (Weight, UnincludedSegmentCapacity))
        ensures
            r == Self::spec_on_state_proof(*state_proof),
    ;
}

/// A hook for the migration to asynchronous backing: it behaves as though the
/// parent is included, whatever the state proof holds.
pub struct ExpectParentIncluded;

impl ConsensusHook for ExpectParentIncluded {
    open spec fn spec_on_state_proof(state_proof: RelayChainStateProof) -> (Weight, UnincludedSegmentCapacity) {
        (Weight::spec_zero(), UnincludedSegmentCapacity::spec_expect_parent_included())
    }

    fn on_state_proof(state_proof: &RelayChainStateProof) -> (r: (Weight, UnincludedSegmentCapacity))
        ensures
            r.0 == Weight::spec_zero(),
            r.1.spec_is_expecting_included_parent(),
            r.1.spec_get() == 1,
    {
        (Weight::zero(), UnincludedSegmentCapacity::expect_parent_included())
    }
}

/// A hook for a fixed unincluded segment length `N`. Since a capacity of zero
/// is illegal, `N = 0` is raised to one.
pub struct FixedCapacityUnincludedSegment<const N: u32>;

impl<const N: u32> ConsensusHook for FixedCapacityUnincludedSegment<N> {
    open spec fn spec_on_state_proof(state_proof: RelayChainStateProof) -> (Weight, UnincludedSegmentCapacity) {
        (Weight::spec_zero(), UnincludedSegmentCapacity::spec_new(if N >= 1 { N } else { 1 }).unwrap())
    }

    fn on_state_proof(state_proof: &RelayChainStateProof) -> (r: (Weight, UnincludedSegmentCapacity))
        ensures
            r.0 == Weight::spec_zero(),
            r.1.spec_get() == if N >= 1 {
                N
            } else {
                1
            },
            !r.1.spec_is_expecting_included_parent(),
    {
        let n: u32 = if N >= 1 { N } else { 1 };
        let capacity = UnincludedSegmentCapacity::new(n).unwrap();
        (Weight::zero(), capacity)
    }
}

/// A fixed-capacity hook that requires the parent block to be included before
/// the next one is authored.
pub type RequireParentIncluded = FixedCapacityUnincludedSegment<1>;

} // verus!
