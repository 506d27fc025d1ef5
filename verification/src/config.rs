//! What the operator configures.
use crate::identifier::PortId;
use vstd::prelude::*;

verus! {

/// The two ports between which packets are to be relayed.
#[derive(Clone, Debug, PartialEq, Eq)]
pub struct RelayPath {
    pub a_port: PortId,
    pub b_port: PortId,
}

} // verus!
