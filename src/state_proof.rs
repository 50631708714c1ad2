//! The verified view of relay-chain state that a consensus hook reads.

use vstd::prelude::*;

verus! {

/// Facts about the relay chain, already checked against a relay-chain state
/// root before they reach a consensus hook.
#[derive(Debug)]
pub struct RelayChainStateProof {
    /// The head of this parachain that the relay chain records as included,
    /// when the proof carries it.
    pub included_para_head: Option<Vec<u8>>,
}

impl RelayChainStateProof {
    /// A proof that carries the given included head, if any.
    pub fn new(included_para_head: Option<Vec<u8>>) -> (r: RelayChainStateProof)
        ensures
            r.included_para_head == included_para_head,
    {
        RelayChainStateProof { included_para_head }
    }
}

} // verus!
