//! Events that a chain reports for a submitted transaction.
use crate::height::Height;
use crate::identifier::ChannelId;
use vstd::prelude::*;

verus! {

/// What a channel handshake event says about the channel end it concerns:
/// the height at which the chain reported it, and the identifier of the end.
#[derive(Clone, Debug, PartialEq, Eq)]
pub struct Attributes {
    pub height: Height,
    pub channel_id: ChannelId,
}

/// An event reported by a chain.
#[derive(Clone, Debug, PartialEq, Eq)]
pub enum IBCEvent {
    OpenInitChannel(Attributes),
    OpenTryChannel(Attributes),
    OpenAckChannel(Attributes),
    OpenConfirmChannel(Attributes),
    /// The chain refused the transaction, with its message.
    ChainError(String),
    /// Any event that does not concern the opening of a channel.
    Other,
}

} // verus!
