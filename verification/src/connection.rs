//! An established connection between two chains, on which channels are opened.
use crate::chain::ChainHandle;
use crate::identifier::{ChainId, ClientId, ConnectionId};
use vstd::prelude::*;

verus! {

/// One side of a connection: the chain, its connection end and the client
/// that the end runs on.
#[derive(Clone, Debug, PartialEq, Eq)]
pub struct ConnectionSideConfig {
    pub chain_id: ChainId,
    pub connection_id: ConnectionId,
    pub client_id: ClientId,
}

impl ConnectionSideConfig {
    pub fn new(chain_id: ChainId, connection_id: ConnectionId, client_id: ClientId) -> (r: Self)
        ensures
            r == (ConnectionSideConfig { chain_id, connection_id, client_id }),
    {
        ConnectionSideConfig { chain_id, connection_id, client_id }
    }

    pub fn chain_id(&self) -> (r: &ChainId)
        ensures
            *r == self.chain_id,
    {
        &self.chain_id
    }

    pub fn connection_id(&self) -> (r: &ConnectionId)
        ensures
            *r == self.connection_id,
    {
        &self.connection_id
    }

    pub fn client_id(&self) -> (r: &ClientId)
        ensures
            *r == self.client_id,
    {
        &self.client_id
    }
}

/// Both sides of a connection.
#[derive(Clone, Debug, PartialEq, Eq)]
pub struct ConnectionConfig {
    pub a_config: ConnectionSideConfig,
    pub b_config: ConnectionSideConfig,
}

impl ConnectionConfig {
    pub fn new(a_config: ConnectionSideConfig, b_config: ConnectionSideConfig) -> (r: Self)
        ensures
            r == (ConnectionConfig { a_config, b_config }),
    {
        ConnectionConfig { a_config, b_config }
    }

    pub fn a_end(&self) -> (r: &ConnectionSideConfig)
        ensures
            *r == self.a_config,
    {
        &self.a_config
    }

    pub fn b_end(&self) -> (r: &ConnectionSideConfig)
        ensures
            *r == self.b_config,
    {
        &self.b_config
    }
}

/// A connection together with the handles of the two chains it joins.
pub struct Connection<A: ChainHandle, B: ChainHandle> {
    pub config: ConnectionConfig,
    pub a_chain: A,
    pub b_chain: B,
}

impl<A: ChainHandle, B: ChainHandle> Connection<A, B> {
    pub fn new(config: ConnectionConfig, a_chain: A, b_chain: B) -> (r: Self)
        ensures
            r == (Connection { config, a_chain, b_chain }),
    {
        Connection { config, a_chain, b_chain }
    }

    /// The handle of the chain on side A.
    pub fn chain_a(&self) -> (r: &A)
        ensures
            *r == self.a_chain,
    {
        &self.a_chain
    }

    /// The handle of the chain on side B.
    pub fn chain_b(&self) -> (r: &B)
        ensures
            *r == self.b_chain,
    {
        &self.b_chain
    }
}

} // verus!
