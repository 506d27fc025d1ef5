//! The messages of the channel opening handshake, and the list in which they
//! are submitted to a chain.
use crate::chain::Signer;
use crate::ics04::{ChannelEnd, ChannelEndView};
use crate::identifier::{ChannelId, PortId};
use crate::proofs::Proofs;
use vstd::prelude::*;

verus! {

/// Declares `prost_types::Any`, the envelope of an encoded protobuf message,
/// as a type whose values are carried but never looked into. The handshake
/// receives client updates in this form and passes them on untouched.
#[verifier::external_type_specification]
#[verifier::external_body]
pub struct ExAny(prost_types::Any);

/// `ChanOpenInit`: opens a channel end on the chain it is sent to.
#[derive(Clone, Debug, PartialEq)]
pub struct MsgChannelOpenInit {
    pub port_id: PortId,
    pub channel: ChannelEnd,
    pub signer: Signer,
}

/// `ChanOpenTry`: answers a `ChanOpenInit` seen on the counterparty.
#[derive(Clone, Debug, PartialEq)]
pub struct MsgChannelOpenTry {
    pub port_id: PortId,
    pub previous_channel_id: Option<ChannelId>,
    pub channel: ChannelEnd,
    pub counterparty_version: String,
    pub proofs: Proofs,
    pub signer: Signer,
}

/// `ChanOpenAck`: acknowledges a `ChanOpenTry` seen on the counterparty.
#[derive(Clone, Debug, PartialEq)]
pub struct MsgChannelOpenAck {
    pub port_id: PortId,
    pub channel_id: ChannelId,
    pub counterparty_channel_id: ChannelId,
    pub counterparty_version: String,
    pub proofs: Proofs,
    pub signer: Signer,
}

/// `ChanOpenConfirm`: confirms a `ChanOpenAck` seen on the counterparty.
#[derive(Clone, Debug, PartialEq)]
pub struct MsgChannelOpenConfirm {
    pub port_id: PortId,
    pub channel_id: ChannelId,
    pub proofs: Proofs,
    pub signer: Signer,
}

/// One message of a transaction.
#[derive(Debug, PartialEq)]
pub enum ChainMsg {
    /// Advances a light client; made by the client updater.
    UpdateClient(prost_types::Any),
    ChanOpenInit(MsgChannelOpenInit),
    ChanOpenTry(MsgChannelOpenTry),
    ChanOpenAck(MsgChannelOpenAck),
    ChanOpenConfirm(MsgChannelOpenConfirm),
}

/// The model of a message: identifiers and versions as text, proofs and
/// encoded client updates as they were received.
pub ghost enum ChainMsgView {
    UpdateClient(prost_types::Any),
    ChanOpenInit { port_id: Seq<char>, channel: ChannelEndView, signer: Signer },
    ChanOpenTry {
        port_id: Seq<char>,
        previous_channel_id: Option<Seq<char>>,
        channel: ChannelEndView,
        counterparty_version: Seq<char>,
        proofs: Proofs,
        signer: Signer,
    },
    ChanOpenAck {
        port_id: Seq<char>,
        channel_id: Seq<char>,
        counterparty_channel_id: Seq<char>,
        counterparty_version: Seq<char>,
        proofs: Proofs,
        signer: Signer,
    },
    ChanOpenConfirm { port_id: Seq<char>, channel_id: Seq<char>, proofs: Proofs, signer: Signer },
}

impl View for ChainMsg {
    type V = ChainMsgView;

    open spec fn view(&self) -> ChainMsgView {
        match *self {
            ChainMsg::UpdateClient(any) => ChainMsgView::UpdateClient(any),
            ChainMsg::ChanOpenInit(m) => ChainMsgView::ChanOpenInit {
                port_id: m.port_id@,
                channel: m.channel@,
                signer: m.signer,
            },
            ChainMsg::ChanOpenTry(m) => ChainMsgView::ChanOpenTry {
                port_id: m.port_id@,
                previous_channel_id: match m.previous_channel_id {
                    Some(id) => Some(id@),
                    None => None,
                },
                channel: m.channel@,
                counterparty_version: m.counterparty_version@,
                proofs: m.proofs,
                signer: m.signer,
            },
            ChainMsg::ChanOpenAck(m) => ChainMsgView::ChanOpenAck {
                port_id: m.port_id@,
                channel_id: m.channel_id@,
                counterparty_channel_id: m.counterparty_channel_id@,
                counterparty_version: m.counterparty_version@,
                proofs: m.proofs,
                signer: m.signer,
            },
            ChainMsg::ChanOpenConfirm(m) => ChainMsgView::ChanOpenConfirm {
                port_id: m.port_id@,
                channel_id: m.channel_id@,
                proofs: m.proofs,
                signer: m.signer,
            },
        }
    }
}

/// The models of a list of messages, in order.
pub open spec fn msgs_view(msgs: Seq<ChainMsg>) -> Seq<ChainMsgView> {
    Seq::new(msgs.len(), |i: int| msgs[i]@)
}

} // verus!
