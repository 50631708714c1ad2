//! The capacity of the unincluded segment.

use vstd::prelude::*;

verus! {

/// The two shapes a capacity can take.
#[derive(Clone, Copy, Debug, PartialEq, Eq, Structural)]
pub(crate) enum UnincludedSegmentCapacityInner {
    /// Treat the parent as included; numerically a capacity of one block.
    ExpectParentIncluded,
    /// An explicit bound, never zero.
    Value(u32),
}

/// The possible capacity of the unincluded segment.
///
/// A capacity is never zero: the only public way to build one from a number
/// rejects zero, and the type invariant rules it out.
#[derive(Clone, Copy, Debug, PartialEq, Eq, Structural)]
pub struct UnincludedSegmentCapacity(UnincludedSegmentCapacityInner);

impl UnincludedSegmentCapacity {
    #[verifier::type_invariant]
    spec fn nonzero(self) -> bool {
        match self.0 {
            UnincludedSegmentCapacityInner::ExpectParentIncluded => true,
            UnincludedSegmentCapacityInner::Value(v) => v > 0,
        }
    }

    /// The number of blocks the unincluded segment may hold.
    pub closed spec fn spec_get(self) -> u32 {
        match self.0 {
            UnincludedSegmentCapacityInner::ExpectParentIncluded => 1,
            UnincludedSegmentCapacityInner::Value(v) => v,
        }
    }

    /// Whether the parent is to be treated as included.
    pub closed spec fn spec_is_expecting_included_parent(self) -> bool {
        self.0 is ExpectParentIncluded
    }

    /// The capacity built from `n`: `None` for zero, else exactly `n` blocks.
    pub closed spec fn spec_new(n: u32) -> Option<Self> {
        if n == 0 {
            None
        } else {
            Some(UnincludedSegmentCapacity(UnincludedSegmentCapacityInner::Value(n)))
        }
    }

    /// The capacity that treats the parent block as included.
    pub closed spec fn spec_expect_parent_included() -> Self {
        UnincludedSegmentCapacity(UnincludedSegmentCapacityInner::ExpectParentIncluded)
    }

    /// A capacity of exactly `n` blocks, or `None` when `n` is zero.
    pub fn new(n: u32) -> (r: Option<Self>)
        ensures
            r == Self::spec_new(n),
            r is Some <==> n != 0,
            r matches Some(c) ==> (c.spec_get() == n && !c.spec_is_expecting_included_parent()),
    {
        if n == 0 {
            None
        } else {
            Some(UnincludedSegmentCapacity(UnincludedSegmentCapacityInner::Value(n)))
        }
    }

    /// The capacity that treats the parent block as included.
    pub fn expect_parent_included() -> (r: Self)
        ensures
            r == Self::spec_expect_parent_included(),
            r.spec_get() == 1,
            r.spec_is_expecting_included_parent(),
    {
        UnincludedSegmentCapacity(UnincludedSegmentCapacityInner::ExpectParentIncluded)
    }

    /// The number of blocks the unincluded segment may hold; at least one.
    pub fn get(&self) -> (r: u32)
        ensures
            r == self.spec_get(),
            r >= 1,
    {
        proof {
            use_type_invariant(self);
        }
        match self.0 {
            UnincludedSegmentCapacityInner::ExpectParentIncluded => 1,
            UnincludedSegmentCapacityInner::Value(v) => v,
        }
    }

    /// Whether the parent block is to be treated as included, whatever the
    /// relay chain reports.
    pub fn is_expecting_included_parent(&self) -> (r: bool)
        ensures
            r == self.spec_is_expecting_included_parent(),
    {
        match self.0 {
            UnincludedSegmentCapacityInner::ExpectParentIncluded => true,
            UnincludedSegmentCapacityInner::Value(_) => false,
        }
    }
}

/// A capacity built from a positive `n` reads back as `n` and does not treat
/// the parent as included; building from zero gives nothing.
pub proof fn lemma_value_round_trip(n: u32)
    ensures
        n == 0 ==> UnincludedSegmentCapacity::spec_new(n) is None,
        n != 0 ==> (UnincludedSegmentCapacity::spec_new(n) matches Some(c) && c.spec_get() == n
            && !c.spec_is_expecting_included_parent()),
{
}

/// The capacity that treats the parent as included reads back as one block
/// with the flag set; an explicit capacity never sets the flag, even when it
/// is one block.
pub proof fn lemma_expect_parent_included_shape(n: u32)
    ensures
        UnincludedSegmentCapacity::spec_expect_parent_included().spec_get() == 1,
        UnincludedSegmentCapacity::spec_expect_parent_included().spec_is_expecting_included_parent(),
        UnincludedSegmentCapacity::spec_new(n) matches Some(c) ==> !c.spec_is_expecting_included_parent(),
        UnincludedSegmentCapacity::spec_new(1) matches Some(c) ==> (c.spec_get()
            == UnincludedSegmentCapacity::spec_expect_parent_included().spec_get() && c
            != UnincludedSegmentCapacity::spec_expect_parent_included()),
{
}

} // verus!
