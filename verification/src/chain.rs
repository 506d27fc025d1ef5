//! The capabilities through which the handshake reaches a chain: access to
//! the chain itself, and the updater of the light clients that it hosts.
use crate::error::Error;
use crate::event::IBCEvent;
use crate::height::Height;
use crate::ics04::ChannelEnd;
use crate::identifier::{ChainId, ChannelId, ClientId, ConnectionId, PortId};
use crate::msgs::ChainMsg;
use crate::proofs::Proofs;
use vstd::prelude::*;

verus! {

/// The account that signs the transactions sent to a chain.
#[derive(Clone, Copy, Debug, PartialEq, Eq)]
pub struct Signer {
    pub account: [u8; 20],
}

/// What the handshake reads of a connection end: the client it runs on.
#[derive(Clone, Debug, PartialEq, Eq)]
pub struct ConnectionEnd {
    pub client_id: ClientId,
}

impl ConnectionEnd {
    pub fn client_id(&self) -> (r: &ClientId)
        ensures
            *r == self.client_id,
    {
        &self.client_id
    }
}

/// Access to one chain. Every method may block and may fail; nothing is
/// assumed of what an implementation answers.
pub trait ChainHandle {
    fn id(&self) -> ChainId;

    fn get_signer(&self) -> Result<Signer, Error>;

    /// The version that the module bound to `port_id` speaks.
    fn module_version(&self, port_id: &PortId) -> Result<String, Error>;

    fn query_latest_height(&self) -> Result<Height, Error>;

    /// The channel end at `height`; the zero height asks for the latest.
    fn query_channel(&self, port_id: &PortId, channel_id: &ChannelId, height: Height) -> Result<
        ChannelEnd,
        Error,
    >;

    /// The connection end at `height`; the zero height asks for the latest.
    fn query_connection(&self, connection_id: &ConnectionId, height: Height) -> Result<
        ConnectionEnd,
        Error,
    >;

    /// Proofs that this chain holds the given channel end at `height`.
    fn build_channel_proofs(
        &self,
        port_id: &PortId,
        channel_id: &ChannelId,
        height: Height,
    ) -> Result<Proofs, Error>;

    /// Submits the messages as one transaction and returns the events that
    /// the chain reports, in order.
    fn send_msgs(&self, msgs: Vec<ChainMsg>) -> Result<Vec<IBCEvent>, Error>;
}

/// The light-client update subsystem, as the chain that hosts the client
/// offers it. Nothing is assumed of what an implementation answers.
pub trait ClientUpdater: ChainHandle {
    /// The messages that bring the light client `client_id`, hosted on this
    /// chain and tracking `src_chain`, to at least `target_height` of
    /// `src_chain`, in the order in which they are to be submitted.
    fn build_update_client<S: ChainHandle>(
        &self,
        src_chain: &S,
        client_id: &ClientId,
        target_height: Height,
    ) -> Result<Vec<prost_types::Any>, Error>;
}

} // verus!
