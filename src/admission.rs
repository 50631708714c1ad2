//! The check, made before each block is authored, of the unincluded segment's
//! length against the capacity a consensus hook returned.

use vstd::prelude::*;
use crate::capacity::UnincludedSegmentCapacity;
use crate::consensus_hook::{ConsensusHook, ExpectParentIncluded, FixedCapacityUnincludedSegment};
use crate::state_proof::RelayChainStateProof;
use crate::weight::Weight;

verus! {

/// The segment length that the decision uses: zero when the capacity treats
/// the parent as included, else the real length.
pub open spec fn effective_len(capacity: UnincludedSegmentCapacity, unincluded_len: nat) -> nat {
    if capacity.spec_is_expecting_included_parent() {
        0
    } else {
        unincluded_len
    }
}

/// Whether a new block may be authored on top of a segment of
/// `unincluded_len` blocks.
pub open spec fn spec_admits(capacity: UnincludedSegmentCapacity, unincluded_len: nat) -> bool {
    effective_len(capacity, unincluded_len) < capacity.spec_get()
}

/// Decides whether a new block may be authored while `unincluded_len` blocks
/// wait for inclusion. A capacity that treats the parent as included admits
/// the block whatever the length; any other admits it only below the capacity.
pub fn can_author(capacity: &UnincludedSegmentCapacity, unincluded_len: usize) -> (r: bool)
    ensures
        r == spec_admits(*capacity, unincluded_len as nat),
{
    let len: usize = if capacity.is_expecting_included_parent() {
        0
    } else {
        unincluded_len
    };
    (len as u64) < (capacity.get() as u64)
}

/// The fixed-capacity hook ignores the proof: it charges nothing and yields
/// an explicit capacity of `max(N, 1)`.
pub proof fn lemma_fixed_capacity_hook<const N: u32>(p: RelayChainStateProof, q: RelayChainStateProof)
    ensures
        FixedCapacityUnincludedSegment::<N>::spec_on_state_proof(p)
            == FixedCapacityUnincludedSegment::<N>::spec_on_state_proof(q),
        FixedCapacityUnincludedSegment::<N>::spec_on_state_proof(p).0 == Weight::spec_zero(),
        FixedCapacityUnincludedSegment::<N>::spec_on_state_proof(p).1.spec_get() == if N >= 1 {
            N
        } else {
            1
        },
        !FixedCapacityUnincludedSegment::<N>::spec_on_state_proof(p).1.spec_is_expecting_included_parent(),
{
    crate::capacity::lemma_value_round_trip(if N >= 1 { N } else { 1 });
}

/// The parent-included hook ignores the proof: it charges nothing and yields
/// the capacity that treats the parent as included.
pub proof fn lemma_expect_parent_included_hook(p: RelayChainStateProof, q: RelayChainStateProof)
    ensures
        ExpectParentIncluded::spec_on_state_proof(p) == ExpectParentIncluded::spec_on_state_proof(q),
        ExpectParentIncluded::spec_on_state_proof(p).0 == Weight::spec_zero(),
        ExpectParentIncluded::spec_on_state_proof(p).1.spec_is_expecting_included_parent(),
        ExpectParentIncluded::spec_on_state_proof(p).1.spec_get() == 1,
{
    crate::capacity::lemma_expect_parent_included_shape(1);
}

/// Under the fixed-capacity hook a block is admitted exactly when the segment
/// is shorter than `max(N, 1)`.
pub proof fn lemma_fixed_capacity_admission<const N: u32>(p: RelayChainStateProof, unincluded_len: nat)
    ensures
        spec_admits(FixedCapacityUnincludedSegment::<N>::spec_on_state_proof(p).1, unincluded_len)
            <==> unincluded_len < if N >= 1 {
            N as nat
        } else {
            1
        },
{
    lemma_fixed_capacity_hook::<N>(p, p);
}

/// Under the parent-included hook a block is admitted whatever the length of
/// the segment.
pub proof fn lemma_expect_parent_included_admission(p: RelayChainStateProof, unincluded_len: nat)
    ensures
        spec_admits(ExpectParentIncluded::spec_on_state_proof(p).1, unincluded_len),
{
    lemma_expect_parent_included_hook(p, p);
}

} // verus!
