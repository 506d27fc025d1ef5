//! Channel ends as a chain reports them.
use crate::identifier::{ChannelId, ConnectionId, PortId};
use vstd::prelude::*;

verus! {

/// The packet-delivery discipline of a channel.
#[derive(Clone, Copy, Debug, PartialEq, Eq, Structural)]
pub enum Order {
    Unordered,
    Ordered,
}

impl Default for Order {
    fn default() -> (r: Order)
        ensures
            r == Order::Unordered,
    {
        Order::Unordered
    }
}

/// How far the handshake has brought one end of a channel.
#[derive(Clone, Copy, Debug, PartialEq, Eq, Structural)]
pub enum State {
    Uninitialized,
    Init,
    TryOpen,
    Open,
    Closed,
}

impl State {
    /// The position of the state in the order
    /// `Uninitialized < Init < TryOpen < Open < Closed`.
    pub open spec fn rank(self) -> nat {
        match self {
            State::Uninitialized => 0,
            State::Init => 1,
            State::TryOpen => 2,
            State::Open => 3,
            State::Closed => 4,
        }
    }

    pub fn as_u32(&self) -> (r: u32)
        ensures
            r == self.rank(),
    {
        match self {
            State::Uninitialized => 0,
            State::Init => 1,
            State::TryOpen => 2,
            State::Open => 3,
            State::Closed => 4,
        }
    }
}

/// The other end of a channel: its port and, once known, its channel.
#[derive(Clone, Debug, PartialEq, Eq)]
pub struct Counterparty {
    pub port_id: PortId,
    pub channel_id: Option<ChannelId>,
}

pub ghost struct CounterpartyView {
    pub port_id: Seq<char>,
    pub channel_id: Option<Seq<char>>,
}

impl View for Counterparty {
    type V = CounterpartyView;

    open spec fn view(&self) -> CounterpartyView {
        CounterpartyView {
            port_id: self.port_id@,
            channel_id: match self.channel_id {
                Some(id) => Some(id@),
                None => None,
            },
        }
    }
}

impl Counterparty {
    pub fn new(port_id: PortId, channel_id: Option<ChannelId>) -> (r: Counterparty)
        ensures
            r == (Counterparty { port_id, channel_id }),
    {
        Counterparty { port_id, channel_id }
    }

    pub fn port_id(&self) -> (r: &PortId)
        ensures
            *r == self.port_id,
    {
        &self.port_id
    }

    pub fn channel_id(&self) -> (r: Option<&ChannelId>)
        ensures
            r.is_some() == self.channel_id.is_some(),
            r.is_some() ==> *r.unwrap() == self.channel_id.unwrap(),
    {
        self.channel_id.as_ref()
    }
}

/// One end of a channel.
#[derive(Clone, Debug, PartialEq, Eq)]
pub struct ChannelEnd {
    pub state: State,
    pub ordering: Order,
    pub remote: Counterparty,
    pub connection_hops: Vec<ConnectionId>,
    pub version: String,
}

pub ghost struct ChannelEndView {
    pub state: State,
    pub ordering: Order,
    pub remote: CounterpartyView,
    pub connection_hops: Seq<Seq<char>>,
    pub version: Seq<char>,
}

/// The texts of a list of connection identifiers.
pub open spec fn hops_view(hops: Seq<ConnectionId>) -> Seq<Seq<char>> {
    Seq::new(hops.len(), |i: int| hops[i]@)
}

impl View for ChannelEnd {
    type V = ChannelEndView;

    open spec fn view(&self) -> ChannelEndView {
        ChannelEndView {
            state: self.state,
            ordering: self.ordering,
            remote: self.remote@,
            connection_hops: hops_view(self.connection_hops@),
            version: self.version@,
        }
    }
}

impl ChannelEnd {
    pub fn new(
        state: State,
        ordering: Order,
        remote: Counterparty,
        connection_hops: Vec<ConnectionId>,
        version: String,
    ) -> (r: ChannelEnd)
        ensures
            r == (ChannelEnd { state, ordering, remote, connection_hops, version }),
    {
        ChannelEnd { state, ordering, remote, connection_hops, version }
    }

    pub fn state(&self) -> (r: &State)
        ensures
            *r == self.state,
    {
        &self.state
    }

    pub fn ordering(&self) -> (r: &Order)
        ensures
            *r == self.ordering,
    {
        &self.ordering
    }

    pub fn counterparty(&self) -> (r: &Counterparty)
        ensures
            *r == self.remote,
    {
        &self.remote
    }

    pub fn connection_hops(&self) -> (r: &Vec<ConnectionId>)
        ensures
            *r == self.connection_hops,
    {
        &self.connection_hops
    }

    pub fn version(&self) -> (r: &String)
        ensures
            *r == self.version,
    {
        &self.version
    }

    /// Whether this end is in state `other`.
    pub fn state_matches(&self, other: &State) -> (r: bool)
        ensures
            r == (self.state == *other),
    {
        self.state == *other
    }
}

} // verus!
