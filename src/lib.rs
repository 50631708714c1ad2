//! Admission control for the unincluded segment of a parachain: the capacity
//! value type, the consensus-hook policies that produce it, and the check that
//! decides whether another block may be authored.

pub mod admission;
pub mod capacity;
pub mod consensus_hook;
pub mod hostcall;
pub mod state_proof;
pub mod weight;

pub use admission::can_author;
pub use capacity::UnincludedSegmentCapacity;
pub use consensus_hook::{
    ConsensusHook, ExpectParentIncluded, FixedCapacityUnincludedSegment, RequireParentIncluded,
};
pub use hostcall::{Error, HostcallResult};
pub use state_proof::RelayChainStateProof;
pub use weight::Weight;
