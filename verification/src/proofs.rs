//! Commitment proofs, carried from the chain that made them to the chain that
//! checks them.
use crate::height::Height;
use vstd::prelude::*;

verus! {

/// A proof that a client on one chain stores a consensus state of another.
#[derive(Clone, Debug, PartialEq, Eq)]
pub struct ConsensusProof {
    pub proof: Vec<u8>,
    pub height: Height,
}

/// The proofs that accompany a handshake message.
#[derive(Clone, Debug, PartialEq, Eq)]
pub struct Proofs {
    /// Proof of the object the message is about, here a channel end.
    pub object_proof: Vec<u8>,
    pub client_proof: Option<Vec<u8>>,
    pub consensus_proof: Option<ConsensusProof>,
    pub other_proof: Option<Vec<u8>>,
    /// Height of the commitment root against which the proofs verify.
    pub height: Height,
}

} // verus!
