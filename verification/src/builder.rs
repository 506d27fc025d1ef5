//! The construction of one handshake transaction, as a dialogue: the builder
//! says what to ask of which chain, takes the answer, and in the end hands
//! out the list of messages. It never reaches a chain itself.
use crate::chain::{ChainHandle, ClientUpdater, ConnectionEnd, Signer};
use crate::channel::{validate_destination, validated, ChannelConfig, ChannelMsgType};
use crate::error::{Error, ErrorView, Kind, KindView};
use crate::height::Height;
use crate::ics04::{ChannelEnd, ChannelEndView, Counterparty, CounterpartyView, State};
use crate::identifier::{ChannelId, ClientId, ConnectionId, PortId};
use crate::msgs::{
    ChainMsg, ChainMsgView, MsgChannelOpenAck, MsgChannelOpenConfirm, MsgChannelOpenInit,
    MsgChannelOpenTry,
};
use crate::proofs::Proofs;
use vstd::prelude::*;

verus! {

/// The four steps of the channel opening handshake.
#[derive(Clone, Copy, Debug, PartialEq, Eq, Structural)]
pub enum Step {
    OpenInit,
    OpenTry,
    OpenAck,
    OpenConfirm,
}

/// What a builder gathers, one item per stage.
#[derive(Clone, Copy, Debug, PartialEq, Eq, Structural)]
pub enum Stage {
    /// The channel end on the destination chain, which has to be compatible
    /// with the message about to be built.
    DstChannel,
    /// The channel end on the source chain.
    SrcChannel,
    /// The connection end on the destination chain.
    DstConnection,
    /// The latest height of the source chain.
    LatestHeight,
    /// The messages that update the destination's client of the source.
    ClientUpdate,
    /// The version spoken by the destination's module.
    DstVersion,
    /// The signer on the destination chain.
    Signer,
    /// The version reported by the source chain.
    SrcVersion,
    /// The proofs of the source channel end.
    Proofs,
}

/// The chain that a request is addressed to: the destination, which will
/// receive the transaction, or the source, whose state is proved to it.
#[derive(Clone, Copy, Debug, PartialEq, Eq, Structural)]
pub enum Side {
    Dst,
    Src,
}

impl Step {
    /// The type of the message of this step, where the message carries a
    /// proof and the destination is checked before it is built.
    pub open spec fn checks(self) -> Option<ChannelMsgType> {
        match self {
            Step::OpenAck => Some(ChannelMsgType::OpenAck),
            Step::OpenConfirm => Some(ChannelMsgType::OpenConfirm),
            _ => None,
        }
    }

    /// The stage a step begins with.
    pub open spec fn first(self) -> Stage {
        match self {
            Step::OpenInit => Stage::Signer,
            Step::OpenTry => Stage::SrcChannel,
            _ => Stage::DstVersion,
        }
    }

    /// The stage that comes after `stage` in this step, if any.
    pub open spec fn following(self, stage: Stage) -> Option<Stage> {
        match (self, stage) {
            (Step::OpenInit, Stage::Signer) => Some(Stage::DstVersion),
            (Step::OpenInit, _) => None,
            (Step::OpenTry, Stage::DstVersion) => Some(Stage::Signer),
            (_, Stage::DstVersion) => Some(Stage::DstChannel),
            (_, Stage::DstChannel) => Some(Stage::SrcChannel),
            (_, Stage::SrcChannel) => Some(Stage::DstConnection),
            (_, Stage::DstConnection) => Some(Stage::LatestHeight),
            (_, Stage::LatestHeight) => Some(Stage::ClientUpdate),
            (Step::OpenTry, Stage::ClientUpdate) => Some(Stage::DstVersion),
            (_, Stage::ClientUpdate) => Some(Stage::Signer),
            (Step::OpenConfirm, Stage::Signer) => Some(Stage::Proofs),
            (_, Stage::Signer) => Some(Stage::SrcVersion),
            (_, Stage::SrcVersion) => Some(Stage::Proofs),
            (_, Stage::Proofs) => None,
        }
    }

    /// Whether this step passes through `stage` at all.
    pub open spec fn includes(self, stage: Stage) -> bool {
        match (self, stage) {
            (Step::OpenInit, Stage::Signer) => true,
            (Step::OpenInit, Stage::DstVersion) => true,
            (Step::OpenInit, _) => false,
            (Step::OpenTry, Stage::DstChannel) => false,
            (Step::OpenTry, _) => true,
            (Step::OpenAck, _) => true,
            (Step::OpenConfirm, Stage::SrcVersion) => false,
            (Step::OpenConfirm, _) => true,
        }
    }

    /// An upper bound on the requests still to be made when `stage` is
    /// pending; it falls with every stage passed.
    pub open spec fn remaining(self, stage: Option<Stage>) -> nat {
        match (self, stage) {
            (_, None) => 0,
            (Step::OpenInit, Some(Stage::Signer)) => 2,
            (Step::OpenInit, Some(_)) => 1,
            (Step::OpenTry, Some(Stage::DstVersion)) => 4,
            (_, Some(Stage::DstVersion)) => 10,
            (_, Some(Stage::DstChannel)) => 9,
            (_, Some(Stage::SrcChannel)) => 8,
            (_, Some(Stage::DstConnection)) => 7,
            (_, Some(Stage::LatestHeight)) => 6,
            (_, Some(Stage::ClientUpdate)) => 5,
            (_, Some(Stage::Signer)) => 3,
            (_, Some(Stage::SrcVersion)) => 2,
            (_, Some(Stage::Proofs)) => 1,
        }
    }

    /// Whether `stage` lies behind a builder whose pending stage is `pending`.
    pub open spec fn passed(self, pending: Option<Stage>, stage: Stage) -> bool {
        self.includes(stage) && self.remaining(Some(stage)) > self.remaining(pending)
    }

    fn first_stage(self) -> (r: Stage)
        ensures
            r == self.first(),
    {
        match self {
            Step::OpenInit => Stage::Signer,
            Step::OpenTry => Stage::SrcChannel,
            _ => Stage::DstVersion,
        }
    }

    fn next_stage(self, stage: Stage) -> (r: Option<Stage>)
        ensures
            r == self.following(stage),
    {
        match (self, stage) {
            (Step::OpenInit, Stage::Signer) => Some(Stage::DstVersion),
            (Step::OpenInit, _) => None,
            (Step::OpenTry, Stage::DstVersion) => Some(Stage::Signer),
            (_, Stage::DstVersion) => Some(Stage::DstChannel),
            (_, Stage::DstChannel) => Some(Stage::SrcChannel),
            (_, Stage::SrcChannel) => Some(Stage::DstConnection),
            (_, Stage::DstConnection) => Some(Stage::LatestHeight),
            (_, Stage::LatestHeight) => Some(Stage::ClientUpdate),
            (Step::OpenTry, Stage::ClientUpdate) => Some(Stage::DstVersion),
            (_, Stage::ClientUpdate) => Some(Stage::Signer),
            (Step::OpenConfirm, Stage::Signer) => Some(Stage::Proofs),
            (_, Stage::Signer) => Some(Stage::SrcVersion),
            (_, Stage::SrcVersion) => Some(Stage::Proofs),
            (_, Stage::Proofs) => None,
        }
    }
}

/// A question to one of the two chains.
#[derive(Debug, PartialEq, Eq)]
pub enum Request {
    /// The signer, asked of the destination.
    GetSigner,
    /// The version of the module bound to a port, asked of either chain.
    ModuleVersion { on: Side, port_id: PortId },
    /// The latest height, asked of the source.
    QueryLatestHeight,
    /// A channel end, asked of either chain.
    QueryChannel { on: Side, port_id: PortId, channel_id: ChannelId, height: Height },
    /// A connection end, asked of the destination.
    QueryConnection { connection_id: ConnectionId, height: Height },
    /// The messages that update a client hosted on the destination.
    BuildUpdateClient { client_id: ClientId, target_height: Height },
    /// Proofs of a channel end, asked of the source.
    BuildChannelProofs { port_id: PortId, channel_id: ChannelId, height: Height },
}

/// The answer to a request: what the chain returned, or its error.
#[derive(Debug)]
pub enum Response {
    Signer(Result<Signer, Error>),
    ModuleVersion(Result<String, Error>),
    LatestHeight(Result<Height, Error>),
    Channel(Result<ChannelEnd, Error>),
    Connection(Result<ConnectionEnd, Error>),
    UpdateClient(Result<Vec<prost_types::Any>, Error>),
    ChannelProofs(Result<Proofs, Error>),
}

impl Response {
    /// Whether a response of this form is an answer to `request`.
    pub open spec fn answers(self, request: Request) -> bool {
        match (request, self) {
            (Request::GetSigner, Response::Signer(_)) => true,
            (Request::ModuleVersion { .. }, Response::ModuleVersion(_)) => true,
            (Request::QueryLatestHeight, Response::LatestHeight(_)) => true,
            (Request::QueryChannel { .. }, Response::Channel(_)) => true,
            (Request::QueryConnection { .. }, Response::Connection(_)) => true,
            (Request::BuildUpdateClient { .. }, Response::UpdateClient(_)) => true,
            (Request::BuildChannelProofs { .. }, Response::ChannelProofs(_)) => true,
            _ => false,
        }
    }

    /// Whether a response of this form is what `stage` waits for.
    pub open spec fn fits(self, stage: Stage) -> bool {
        match (stage, self) {
            (Stage::DstChannel, Response::Channel(_)) => true,
            (Stage::SrcChannel, Response::Channel(_)) => true,
            (Stage::DstConnection, Response::Connection(_)) => true,
            (Stage::LatestHeight, Response::LatestHeight(_)) => true,
            (Stage::ClientUpdate, Response::UpdateClient(_)) => true,
            (Stage::DstVersion, Response::ModuleVersion(_)) => true,
            (Stage::Signer, Response::Signer(_)) => true,
            (Stage::SrcVersion, Response::ModuleVersion(_)) => true,
            (Stage::Proofs, Response::ChannelProofs(_)) => true,
            _ => false,
        }
    }

    /// The error that the chain answered with, if it did.
    pub open spec fn failure(self) -> Option<Error> {
        match self {
            Response::Signer(Err(e)) => Some(e),
            Response::ModuleVersion(Err(e)) => Some(e),
            Response::LatestHeight(Err(e)) => Some(e),
            Response::Channel(Err(e)) => Some(e),
            Response::Connection(Err(e)) => Some(e),
            Response::UpdateClient(Err(e)) => Some(e),
            Response::ChannelProofs(Err(e)) => Some(e),
            _ => None,
        }
    }
}

/// The channel end that a step proposes on the destination chain: in state
/// `state`, with the ordering of `opts`, facing the source port (and the
/// source channel, where `counterparty_channel` gives it), over the
/// destination's connection alone, speaking `version`.
pub open spec fn proposed_end(
    opts: ChannelConfig,
    state: State,
    counterparty_channel: Option<Seq<char>>,
    version: Seq<char>,
) -> ChannelEndView {
    ChannelEndView {
        state,
        ordering: opts.ordering,
        remote: CounterpartyView {
            port_id: opts.a_config.port_id@,
            channel_id: counterparty_channel,
        },
        connection_hops: seq![opts.b_config.connection_id@],
        version,
    }
}

/// Builds the channel end that `proposed_end` describes. With `facing_channel`
/// the counterparty names the source channel of `opts`, else none.
pub fn propose_end(opts: &ChannelConfig, state: State, facing_channel: bool, version: String) -> (r:
    ChannelEnd)
    ensures
        r@ == proposed_end(
            *opts,
            state,
            if facing_channel {
                Some(opts.a_config.channel_id@)
            } else {
                None
            },
            version@,
        ),
{
    let channel_id = if facing_channel {
        Some(opts.src().channel_id().clone())
    } else {
        None
    };
    let counterparty = Counterparty::new(opts.src().port_id().clone(), channel_id);
    let hops = vec![opts.dst().connection_id().clone()];
    let end = ChannelEnd::new(state, opts.ordering, counterparty, hops, version);
    assert(end@.connection_hops =~= seq![opts.b_config.connection_id@]);
    end
}

/// The question for the version that the module of the destination speaks:
/// it goes to the destination chain and names the port of the destination
/// side.
pub open spec fn destination_version_question(opts: ChannelConfig) -> Request {
    Request::ModuleVersion { on: Side::Dst, port_id: opts.b_config.port_id }
}

/// The question for the channel end that the destination holds: it goes to
/// the destination chain and names the port and the channel of the
/// destination side, at the zero height, which asks for the latest.
pub open spec fn destination_channel_question(opts: ChannelConfig) -> Request {
    Request::QueryChannel {
        on: Side::Dst,
        port_id: opts.b_config.port_id,
        channel_id: opts.b_config.channel_id,
        height: Height::spec_zero(),
    }
}

/// Makes the question for the version of the destination's module.
pub fn ask_destination_version(opts: &ChannelConfig) -> (r: Request)
    ensures
        r == destination_version_question(*opts),
{
    Request::ModuleVersion { on: Side::Dst, port_id: opts.dst().port_id().clone() }
}

/// Makes the question for the channel end on the destination.
pub fn ask_destination_channel(opts: &ChannelConfig) -> (r: Request)
    ensures
        r == destination_channel_question(*opts),
{
    Request::QueryChannel {
        on: Side::Dst,
        port_id: opts.dst().port_id().clone(),
        channel_id: opts.dst().channel_id().clone(),
        height: Height::default(),
    }
}

/// The state of one construction: the step, the channel it is for, the stage
/// whose answer is awaited, and what the chains have answered so far.
#[derive(Debug)]
pub struct Builder {
    pub step: Step,
    pub opts: ChannelConfig,
    /// The stage whose answer is awaited; `None` once everything is gathered.
    pub pending: Option<Stage>,
    /// The channel end found on the destination, once it has passed the
    /// check.
    pub dst_channel: Option<ChannelEnd>,
    pub previous_channel_id: Option<ChannelId>,
    pub client_id: Option<ClientId>,
    pub height: Option<Height>,
    pub updates: Option<Vec<prost_types::Any>>,
    pub dst_version: Option<String>,
    pub signer: Option<Signer>,
    pub src_version: Option<String>,
    pub proofs: Option<Proofs>,
}

impl Builder {
    /// Whether the channel end `end`, found on the destination, passes the
    /// check that this step makes before its message is built, given the
    /// version that the destination's module was found to speak.
    pub open spec fn admits(self, end: ChannelEnd) -> bool {
        self.step.checks() matches Some(msg_type) && self.dst_version matches Some(version)
            && validated(msg_type, self.opts, version@, end@) is Ok
    }

    /// The answers held are those of the stages that lie behind the builder:
    /// each such stage has left its answer, and no other answer is held. The
    /// channel end held for the destination has passed the check.
    pub open spec fn wf(self) -> bool {
        &&& self.pending matches Some(s) ==> self.step.includes(s)
        &&& self.step.passed(self.pending, Stage::DstChannel) <==> self.dst_channel is Some
        &&& self.dst_channel matches Some(end) ==> self.admits(end)
        &&& self.previous_channel_id is Some ==> self.step.passed(self.pending, Stage::SrcChannel)
        &&& self.step.passed(self.pending, Stage::DstConnection) <==> self.client_id is Some
        &&& self.step.passed(self.pending, Stage::LatestHeight) <==> self.height is Some
        &&& self.step.passed(self.pending, Stage::ClientUpdate) <==> self.updates is Some
        &&& self.step.passed(self.pending, Stage::DstVersion) <==> self.dst_version is Some
        &&& self.step.passed(self.pending, Stage::Signer) <==> self.signer is Some
        &&& self.step.passed(self.pending, Stage::SrcVersion) <==> self.src_version is Some
        &&& self.step.passed(self.pending, Stage::Proofs) <==> self.proofs is Some
    }

    /// The builder before anything was asked.
    pub open spec fn start(step: Step, opts: ChannelConfig) -> Builder {
        Builder {
            step,
            opts,
            pending: Some(step.first()),
            dst_channel: None,
            previous_channel_id: None,
            client_id: None,
            height: None,
            updates: None,
            dst_version: None,
            signer: None,
            src_version: None,
            proofs: None,
        }
    }

    /// What the builder asks next, and `None` once it has all it needs. (A
    /// builder that lacks the answer of an earlier stage, which `wf` rules
    /// out, asks nothing either.)
    pub open spec fn asks(self) -> Option<Request> {
        match self.pending {
            None => None,
            Some(Stage::DstChannel) => Some(destination_channel_question(self.opts)),
            Some(Stage::SrcChannel) => Some(
                Request::QueryChannel {
                    on: Side::Src,
                    port_id: self.opts.a_config.port_id,
                    channel_id: self.opts.a_config.channel_id,
                    height: Height::spec_zero(),
                },
            ),
            Some(Stage::DstConnection) => Some(
                Request::QueryConnection {
                    connection_id: self.opts.b_config.connection_id,
                    height: Height::spec_zero(),
                },
            ),
            Some(Stage::LatestHeight) => Some(Request::QueryLatestHeight),
            Some(Stage::ClientUpdate) => match (self.client_id, self.height) {
                (Some(client_id), Some(target_height)) => Some(
                    Request::BuildUpdateClient { client_id, target_height },
                ),
                _ => None,
            },
            Some(Stage::DstVersion) => Some(destination_version_question(self.opts)),
            Some(Stage::Signer) => Some(Request::GetSigner),
            Some(Stage::SrcVersion) => Some(
                Request::ModuleVersion {
                    on: Side::Src,
                    port_id: if self.step == Step::OpenTry {
                        self.opts.a_config.port_id
                    } else {
                        self.opts.b_config.port_id
                    },
                },
            ),
            Some(Stage::Proofs) => match self.height {
                Some(height) => Some(
                    Request::BuildChannelProofs {
                        port_id: self.opts.a_config.port_id,
                        channel_id: self.opts.a_config.channel_id,
                        height,
                    },
                ),
                None => None,
            },
        }
    }

    /// The builder after a good answer to what it asked; `None` where the
    /// response is an error, does not answer the pending request, or reports
    /// a channel end on the destination that does not pass the check.
    pub open spec fn accepted(self, response: Response) -> Option<Builder> {
        match (self.pending, response) {
            (Some(Stage::DstChannel), Response::Channel(Ok(end))) => if self.admits(end) {
                Some(
                    Builder {
                        pending: self.step.following(Stage::DstChannel),
                        dst_channel: Some(end),
                        ..self
                    },
                )
            } else {
                None
            },
            (Some(Stage::SrcChannel), Response::Channel(Ok(end))) => Some(
                Builder {
                    pending: self.step.following(Stage::SrcChannel),
                    previous_channel_id: end.remote.channel_id,
                    ..self
                },
            ),
            (Some(Stage::DstConnection), Response::Connection(Ok(end))) => Some(
                Builder {
                    pending: self.step.following(Stage::DstConnection),
                    client_id: Some(end.client_id),
                    ..self
                },
            ),
            (Some(Stage::LatestHeight), Response::LatestHeight(Ok(height))) => Some(
                Builder {
                    pending: self.step.following(Stage::LatestHeight),
                    height: Some(height),
                    ..self
                },
            ),
            (Some(Stage::ClientUpdate), Response::UpdateClient(Ok(msgs))) => Some(
                Builder {
                    pending: self.step.following(Stage::ClientUpdate),
                    updates: Some(msgs),
                    ..self
                },
            ),
            (Some(Stage::DstVersion), Response::ModuleVersion(Ok(version))) => Some(
                Builder {
                    pending: self.step.following(Stage::DstVersion),
                    dst_version: Some(version),
                    ..self
                },
            ),
            (Some(Stage::Signer), Response::Signer(Ok(signer))) => Some(
                Builder {
                    pending: self.step.following(Stage::Signer),
                    signer: Some(signer),
                    ..self
                },
            ),
            (Some(Stage::SrcVersion), Response::ModuleVersion(Ok(version))) => Some(
                Builder {
                    pending: self.step.following(Stage::SrcVersion),
                    src_version: Some(version),
                    ..self
                },
            ),
            (Some(Stage::Proofs), Response::ChannelProofs(Ok(proofs))) => Some(
                Builder {
                    pending: self.step.following(Stage::Proofs),
                    proofs: Some(proofs),
                    ..self
                },
            ),
            _ => None,
        }
    }

    /// What is wrong with a response of the form awaited: the error that the
    /// chain answered with or, for a channel end found on the destination,
    /// the error that the check of it comes to.
    pub open spec fn trouble(self, response: Response) -> Option<ErrorView> {
        match (response.failure(), self.pending, response) {
            (Some(e), _, _) => Some(e@),
            (None, Some(Stage::DstChannel), Response::Channel(Ok(end))) => match (
                self.step.checks(),
                self.dst_version,
            ) {
                (Some(msg_type), Some(version)) => match validated(
                    msg_type,
                    self.opts,
                    version@,
                    end@,
                ) {
                    Err(e) => Some(e),
                    Ok(_) => None,
                },
                _ => None,
            },
            _ => None,
        }
    }

    /// The error with which the builder gives up at `stage` for the reason
    /// `cause`. A failed signer lookup is a key store error. A source channel
    /// that cannot be read is reported under the step being built. Whatever
    /// goes wrong while the destination is checked, an error of the chain or
    /// a channel that does not pass, is reported as options inconsistent
    /// with the channel on the destination, under the source channel. Any
    /// other error of a chain is passed on as it is.
    pub open spec fn reported(self, stage: Stage, cause: ErrorView) -> ErrorView {
        match (stage, self.step) {
            (Stage::Signer, _) => ErrorView {
                kind: KindView::KeyBase,
                source: Some(Box::new(cause)),
            },
            (Stage::SrcChannel, Step::OpenTry) => ErrorView {
                kind: KindView::ChanOpenTry("channel does not exist on source"@),
                source: Some(Box::new(cause)),
            },
            (Stage::SrcChannel, Step::OpenAck) => ErrorView {
                kind: KindView::ChanOpenAck(
                    self.opts.b_config.channel_id@,
                    "channel does not exist on source"@,
                ),
                source: Some(Box::new(cause)),
            },
            (Stage::SrcChannel, Step::OpenConfirm) => ErrorView {
                kind: KindView::ChanOpenConfirm(
                    self.opts.a_config.channel_id@,
                    "channel does not exist on source"@,
                ),
                source: Some(Box::new(cause)),
            },
            (Stage::DstVersion, Step::OpenAck) | (Stage::DstChannel, Step::OpenAck) => ErrorView {
                kind: KindView::ChanOpenAck(
                    self.opts.a_config.channel_id@,
                    "ack options inconsistent with existing channel on destination chain"@,
                ),
                source: Some(Box::new(cause)),
            },
            (Stage::DstVersion, Step::OpenConfirm) | (
                Stage::DstChannel,
                Step::OpenConfirm,
            ) => ErrorView {
                kind: KindView::ChanOpenConfirm(
                    self.opts.a_config.channel_id@,
                    "confirm options inconsistent with existing channel on destination chain"@,
                ),
                source: Some(Box::new(cause)),
            },
            _ => cause,
        }
    }

    /// The error with which the builder gives up on a response it cannot
    /// accept: what `reported` makes of the trouble with the response, and
    /// an error of its own for a response that does not answer the pending
    /// request.
    pub open spec fn rejection(self, response: Response) -> ErrorView {
        if self.pending is Some && response.fits(self.pending.unwrap()) && self.trouble(
            response,
        ) is Some {
            self.reported(self.pending.unwrap(), self.trouble(response).unwrap())
        } else {
            ErrorView {
                kind: KindView::Query("response does not answer the request"@),
                source: None,
            }
        }
    }

    /// The client updates, each as a message of the transaction.
    pub open spec fn update_msgs(self) -> Seq<ChainMsgView> {
        match self.updates {
            Some(updates) => Seq::new(
                updates@.len(),
                |i: int| ChainMsgView::UpdateClient(updates@[i]),
            ),
            None => Seq::empty(),
        }
    }

    /// The handshake message of the step, made of what was gathered.
    pub open spec fn step_msg(self) -> ChainMsgView {
        match self.step {
            Step::OpenInit => ChainMsgView::ChanOpenInit {
                port_id: self.opts.b_config.port_id@,
                channel: proposed_end(self.opts, State::Init, None, self.dst_version.unwrap()@),
                signer: self.signer.unwrap(),
            },
            Step::OpenTry => ChainMsgView::ChanOpenTry {
                port_id: self.opts.b_config.port_id@,
                previous_channel_id: match self.previous_channel_id {
                    Some(id) => Some(id@),
                    None => None,
                },
                channel: proposed_end(
                    self.opts,
                    State::TryOpen,
                    Some(self.opts.a_config.channel_id@),
                    self.dst_version.unwrap()@,
                ),
                counterparty_version: self.src_version.unwrap()@,
                proofs: self.proofs.unwrap(),
                signer: self.signer.unwrap(),
            },
            Step::OpenAck => ChainMsgView::ChanOpenAck {
                port_id: self.opts.b_config.port_id@,
                channel_id: self.opts.b_config.channel_id@,
                counterparty_channel_id: self.opts.a_config.channel_id@,
                counterparty_version: self.src_version.unwrap()@,
                proofs: self.proofs.unwrap(),
                signer: self.signer.unwrap(),
            },
            Step::OpenConfirm => ChainMsgView::ChanOpenConfirm {
                port_id: self.opts.b_config.port_id@,
                channel_id: self.opts.b_config.channel_id@,
                proofs: self.proofs.unwrap(),
                signer: self.signer.unwrap(),
            },
        }
    }

    /// The transaction: the client updates in the order received, then the
    /// handshake message of the step.
    pub open spec fn output(self) -> Seq<ChainMsgView> {
        self.update_msgs().push(self.step_msg())
    }
}

/// The error for a response that does not answer the pending request.
fn unanswered() -> (r: Error)
    ensures
        r@ == (ErrorView {
            kind: KindView::Query("response does not answer the request"@),
            source: None,
        }),
{
    Kind::Query("response does not answer the request".to_owned()).into_error()
}

/// Each encoded client update as a message of the transaction, in order.
fn wrap_updates(updates: Option<Vec<prost_types::Any>>) -> (r: Vec<ChainMsg>)
    ensures
        r@.len() == (match updates {
            Some(u) => u@.len(),
            None => 0,
        }),
        forall|i: int| 0 <= i < r@.len() ==> r@[i] == ChainMsg::UpdateClient(updates.unwrap()@[i]),
{
    let mut msgs: Vec<ChainMsg> = Vec::new();
    match updates {
        None => {},
        Some(mut rest) => {
            let ghost all = rest@;
            let mut reversed: Vec<prost_types::Any> = Vec::new();
            while rest.len() > 0
                invariant
                    rest@.len() + reversed@.len() == all.len(),
                    forall|i: int| 0 <= i < rest@.len() ==> rest@[i] == all[i],
                    forall|i: int|
                        0 <= i < reversed@.len() ==> reversed@[i] == all[all.len() - 1 - i],
                decreases rest@.len(),
            {
                let last = rest.pop().unwrap();
                reversed.push(last);
            }
            while reversed.len() > 0
                invariant
                    msgs@.len() + reversed@.len() == all.len(),
                    forall|i: int|
                        0 <= i < reversed@.len() ==> reversed@[i] == all[all.len() - 1 - i],
                    forall|i: int| 0 <= i < msgs@.len() ==> msgs@[i] == ChainMsg::UpdateClient(all[i]),
                decreases reversed@.len(),
            {
                let next = reversed.pop().unwrap();
                msgs.push(ChainMsg::UpdateClient(next));
            }
        },
    }
    msgs
}

impl Builder {
    /// A builder for `step` on the channel `opts`, with nothing gathered yet.
    pub fn new(step: Step, opts: &ChannelConfig) -> (r: Builder)
        ensures
            r == Builder::start(step, *opts),
            r.wf(),
    {
        Builder {
            step,
            opts: opts.clone(),
            pending: Some(step.first_stage()),
            dst_channel: None,
            previous_channel_id: None,
            client_id: None,
            height: None,
            updates: None,
            dst_version: None,
            signer: None,
            src_version: None,
            proofs: None,
        }
    }

    /// Whether everything is gathered and `finish` may be called.
    pub fn is_complete(&self) -> (r: bool)
        ensures
            r == (self.pending is None),
    {
        self.pending.is_none()
    }

    /// What to ask next, of which chain; `None` once everything is gathered.
    pub fn request(&self) -> (r: Option<Request>)
        ensures
            r == self.asks(),
            self.wf() ==> (r is None <==> self.pending is None),
    {
        let stage = match self.pending {
            None => {
                return None;
            },
            Some(stage) => stage,
        };
        let src = self.opts.src();
        let dst = self.opts.dst();
        let request = match stage {
            Stage::DstChannel => ask_destination_channel(&self.opts),
            Stage::SrcChannel => Request::QueryChannel {
                on: Side::Src,
                port_id: src.port_id().clone(),
                channel_id: src.channel_id().clone(),
                height: Height::default(),
            },
            Stage::DstConnection => Request::QueryConnection {
                connection_id: dst.connection_id().clone(),
                height: Height::default(),
            },
            Stage::LatestHeight => Request::QueryLatestHeight,
            Stage::ClientUpdate => {
                let client_id = match &self.client_id {
                    Some(id) => id.clone(),
                    None => {
                        return None;
                    },
                };
                let target_height = match self.height {
                    Some(h) => h,
                    None => {
                        return None;
                    },
                };
                Request::BuildUpdateClient { client_id, target_height }
            },
            Stage::DstVersion => ask_destination_version(&self.opts),
            Stage::Signer => Request::GetSigner,
            Stage::SrcVersion => {
                let port_id = match self.step {
                    Step::OpenTry => src.port_id().clone(),
                    _ => dst.port_id().clone(),
                };
                Request::ModuleVersion { on: Side::Src, port_id }
            },
            Stage::Proofs => {
                let height = match self.height {
                    Some(h) => h,
                    None => {
                        return None;
                    },
                };
                Request::BuildChannelProofs {
                    port_id: src.port_id().clone(),
                    channel_id: src.channel_id().clone(),
                    height,
                }
            },
        };
        Some(request)
    }

    /// The error for the trouble `cause` met at `stage`.
    fn reject(&self, stage: Stage, cause: Error) -> (r: Error)
        ensures
            r@ == self.reported(stage, cause@),
    {
        match (stage, self.step) {
            (Stage::Signer, _) => Kind::KeyBase.context(cause),
            (Stage::SrcChannel, Step::OpenTry) => Kind::ChanOpenTry(
                "channel does not exist on source".to_owned(),
            ).context(cause),
            (Stage::SrcChannel, Step::OpenAck) => Kind::ChanOpenAck(
                self.opts.dst().channel_id().clone(),
                "channel does not exist on source".to_owned(),
            ).context(cause),
            (Stage::SrcChannel, Step::OpenConfirm) => Kind::ChanOpenConfirm(
                self.opts.src().channel_id().clone(),
                "channel does not exist on source".to_owned(),
            ).context(cause),
            (Stage::DstVersion, Step::OpenAck) | (Stage::DstChannel, Step::OpenAck) => {
                Kind::ChanOpenAck(
                    self.opts.src().channel_id().clone(),
                    "ack options inconsistent with existing channel on destination chain".to_owned(),
                ).context(cause)
            },
            (Stage::DstVersion, Step::OpenConfirm) | (Stage::DstChannel, Step::OpenConfirm) => {
                Kind::ChanOpenConfirm(
                    self.opts.src().channel_id().clone(),
                    "confirm options inconsistent with existing channel on destination chain".to_owned(),
                ).context(cause)
            },
            _ => cause,
        }
    }

    /// Checks the channel end found on the destination against the one that
    /// the message of this step expects there. `None` where this step makes
    /// no such check, or the version of the destination is not known yet.
    fn check(&self, end: &ChannelEnd) -> (r: Option<Result<(), Error>>)
        ensures
            match (self.step.checks(), self.dst_version) {
                (Some(msg_type), Some(version)) => match r {
                    Some(Ok(())) => validated(msg_type, self.opts, version@, end@) is Ok,
                    Some(Err(e)) => validated(msg_type, self.opts, version@, end@) == Err::<
                        ChannelEndView,
                        ErrorView,
                    >(e@),
                    None => false,
                },
                _ => r is None,
            },
    {
        let msg_type = match self.step {
            Step::OpenAck => ChannelMsgType::OpenAck,
            Step::OpenConfirm => ChannelMsgType::OpenConfirm,
            _ => {
                return None;
            },
        };
        let version = match &self.dst_version {
            Some(version) => version.clone(),
            None => {
                return None;
            },
        };
        match validate_destination(msg_type, &self.opts, version, end) {
            Ok(_) => Some(Ok(())),
            Err(e) => Some(Err(e)),
        }
    }

    /// Takes the answer to the pending request. A good answer is recorded and
    /// the builder moves to its next stage; an error of the chain, or a
    /// response of another form than the one awaited, ends the construction.
    pub fn accept(self, response: Response) -> (r: Result<Builder, Error>)
        ensures
            match r {
                Ok(b) => self.accepted(response) == Some(b) && (self.wf() ==> b.wf()),
                Err(e) => self.accepted(response) is None && e@ == self.rejection(response),
            },
    {
        let stage = match self.pending {
            None => {
                return Err(unanswered());
            },
            Some(stage) => stage,
        };
        let next = self.step.next_stage(stage);
        match (stage, response) {
            (Stage::DstChannel, Response::Channel(answer)) => match answer {
                Ok(end) => match self.check(&end) {
                    Some(Ok(())) => Ok(Builder { pending: next, dst_channel: Some(end), ..self }),
                    Some(Err(e)) => Err(self.reject(stage, e)),
                    None => Err(unanswered()),
                },
                Err(e) => Err(self.reject(stage, e)),
            },
            (Stage::SrcChannel, Response::Channel(answer)) => match answer {
                Ok(end) => Ok(
                    Builder { pending: next, previous_channel_id: end.remote.channel_id, ..self },
                ),
                Err(e) => Err(self.reject(stage, e)),
            },
            (Stage::DstConnection, Response::Connection(answer)) => match answer {
                Ok(end) => Ok(Builder { pending: next, client_id: Some(end.client_id), ..self }),
                Err(e) => Err(self.reject(stage, e)),
            },
            (Stage::LatestHeight, Response::LatestHeight(answer)) => match answer {
                Ok(height) => Ok(Builder { pending: next, height: Some(height), ..self }),
                Err(e) => Err(self.reject(stage, e)),
            },
            (Stage::ClientUpdate, Response::UpdateClient(answer)) => match answer {
                Ok(msgs) => Ok(Builder { pending: next, updates: Some(msgs), ..self }),
                Err(e) => Err(self.reject(stage, e)),
            },
            (Stage::DstVersion, Response::ModuleVersion(answer)) => match answer {
                Ok(version) => Ok(Builder { pending: next, dst_version: Some(version), ..self }),
                Err(e) => Err(self.reject(stage, e)),
            },
            (Stage::Signer, Response::Signer(answer)) => match answer {
                Ok(signer) => Ok(Builder { pending: next, signer: Some(signer), ..self }),
                Err(e) => Err(self.reject(stage, e)),
            },
            (Stage::SrcVersion, Response::ModuleVersion(answer)) => match answer {
                Ok(version) => Ok(Builder { pending: next, src_version: Some(version), ..self }),
                Err(e) => Err(self.reject(stage, e)),
            },
            (Stage::Proofs, Response::ChannelProofs(answer)) => match answer {
                Ok(proofs) => Ok(Builder { pending: next, proofs: Some(proofs), ..self }),
                Err(e) => Err(self.reject(stage, e)),
            },
            (_, _) => Err(unanswered()),
        }
    }

    /// The finished transaction: the client updates in the order in which the
    /// updater gave them, then the one handshake message of the step.
    pub fn finish(self) -> (r: Vec<ChainMsg>)
        requires
            self.wf(),
            self.pending is None,
        ensures
            crate::msgs::msgs_view(r@) == self.output(),
    {
        let ghost before = self;
        let Builder {
            step,
            opts,
            pending: _,
            dst_channel: _,
            previous_channel_id,
            client_id: _,
            height: _,
            updates,
            dst_version,
            signer,
            src_version,
            proofs,
        } = self;
        let mut msgs = wrap_updates(updates);
        let port_id = opts.dst().port_id().clone();
        let last = match step {
            Step::OpenInit => ChainMsg::ChanOpenInit(
                MsgChannelOpenInit {
                    port_id,
                    channel: propose_end(&opts, State::Init, false, dst_version.unwrap()),
                    signer: signer.unwrap(),
                },
            ),
            Step::OpenTry => ChainMsg::ChanOpenTry(
                MsgChannelOpenTry {
                    port_id,
                    previous_channel_id,
                    channel: propose_end(&opts, State::TryOpen, true, dst_version.unwrap()),
                    counterparty_version: src_version.unwrap(),
                    proofs: proofs.unwrap(),
                    signer: signer.unwrap(),
                },
            ),
            Step::OpenAck => ChainMsg::ChanOpenAck(
                MsgChannelOpenAck {
                    port_id,
                    channel_id: opts.dst().channel_id().clone(),
                    counterparty_channel_id: opts.src().channel_id().clone(),
                    counterparty_version: src_version.unwrap(),
                    proofs: proofs.unwrap(),
                    signer: signer.unwrap(),
                },
            ),
            Step::OpenConfirm => ChainMsg::ChanOpenConfirm(
                MsgChannelOpenConfirm {
                    port_id,
                    channel_id: opts.dst().channel_id().clone(),
                    proofs: proofs.unwrap(),
                    signer: signer.unwrap(),
                },
            ),
        };
        assert(last@ == before.step_msg());
        msgs.push(last);
        assert(crate::msgs::msgs_view(msgs@) =~= before.output());
        msgs
    }
}

/// Puts `request` to the chain it is addressed to and returns the answer.
pub fn perform<D: ClientUpdater, S: ChainHandle>(dst_chain: &D, src_chain: &S, request: &Request) -> (r:
    Response)
    ensures
        r.answers(*request),
{
    match request {
        Request::GetSigner => Response::Signer(dst_chain.get_signer()),
        Request::ModuleVersion { on, port_id } => match on {
            Side::Dst => Response::ModuleVersion(dst_chain.module_version(port_id)),
            Side::Src => Response::ModuleVersion(src_chain.module_version(port_id)),
        },
        Request::QueryLatestHeight => Response::LatestHeight(src_chain.query_latest_height()),
        Request::QueryChannel { on, port_id, channel_id, height } => match on {
            Side::Dst => Response::Channel(dst_chain.query_channel(port_id, channel_id, *height)),
            Side::Src => Response::Channel(src_chain.query_channel(port_id, channel_id, *height)),
        },
        Request::QueryConnection { connection_id, height } => Response::Connection(
            dst_chain.query_connection(connection_id, *height),
        ),
        Request::BuildUpdateClient { client_id, target_height } => Response::UpdateClient(
            dst_chain.build_update_client(src_chain, client_id, *target_height),
        ),
        Request::BuildChannelProofs { port_id, channel_id, height } => Response::ChannelProofs(
            src_chain.build_channel_proofs(port_id, channel_id, *height),
        ),
    }
}

impl Builder {
    /// The builder after the chains have answered with `responses`, one
    /// request after the other, and every answer was accepted; `None` where
    /// one of them was not.
    pub open spec fn reached(self, responses: Seq<Response>) -> Option<Builder>
        decreases responses.len(),
    {
        if responses.len() == 0 {
            Some(self)
        } else {
            match self.reached(responses.drop_last()) {
                Some(b) => b.accepted(responses.last()),
                None => None,
            }
        }
    }
}

/// Whether `msgs` is the transaction of `step` for the channel `opts` that
/// some answers of the two chains lead to: a builder that starts with
/// nothing, accepts these answers one by one and then has all it needs,
/// hands out `msgs`.
pub open spec fn built_by(step: Step, opts: ChannelConfig, msgs: Seq<ChainMsgView>) -> bool {
    exists|responses: Seq<Response>| #[trigger]
        Builder::start(step, opts).reached(responses) matches Some(b) && b.pending is None && msgs
            == b.output()
}

/// Whether `error` is what the construction of `step` for the channel `opts`
/// ends with on some answers of the two chains: a builder that starts with
/// nothing and accepts a number of answers gives up with `error` on the
/// answer to its next request.
pub open spec fn failed_by(step: Step, opts: ChannelConfig, error: ErrorView) -> bool {
    exists|responses: Seq<Response>, response: Response|
        #![trigger Builder::start(step, opts).reached(responses), response.failure()]
        Builder::start(step, opts).reached(responses) matches Some(b) && b.asks() matches Some(
            request,
        ) && response.answers(request) && b.accepted(response) is None && error == b.rejection(
            response,
        )
}

/// A builder that has come from the start by accepting answers is well
/// formed.
pub proof fn lemma_reached_is_wf(step: Step, opts: ChannelConfig, responses: Seq<Response>)
    ensures
        Builder::start(step, opts).reached(responses) matches Some(b) ==> b.wf() && b.step == step
            && b.opts == opts,
    decreases responses.len(),
{
    if responses.len() > 0 {
        lemma_reached_is_wf(step, opts, responses.drop_last());
    }
}

/// Asks the two chains whatever a builder for `step` on `opts` needs, one
/// request after the other, and returns the finished transaction. The first
/// answer that cannot be accepted ends the construction with the error that
/// the builder makes of it.
pub fn build<D: ClientUpdater, S: ChainHandle>(
    dst_chain: &D,
    src_chain: &S,
    step: Step,
    opts: &ChannelConfig,
) -> (r: Result<Vec<ChainMsg>, Error>)
    ensures
        match r {
            Ok(msgs) => built_by(step, *opts, crate::msgs::msgs_view(msgs@)),
            Err(e) => failed_by(step, *opts, e@),
        },
{
    let mut builder = Builder::new(step, opts);
    let ghost mut answers: Seq<Response> = Seq::empty();
    loop
        invariant
            builder.wf(),
            builder.step == step,
            Builder::start(step, *opts).reached(answers) == Some(builder),
        decreases step.remaining(builder.pending),
    {
        let request = match builder.request() {
            None => {
                let ghost done = builder;
                let msgs = builder.finish();
                assert(done.output() == crate::msgs::msgs_view(msgs@));
                return Ok(msgs);
            },
            Some(request) => request,
        };
        let response = perform(dst_chain, src_chain, &request);
        let ghost asked = builder;
        builder = match builder.accept(response) {
            Ok(next) => next,
            Err(e) => {
                assert(asked.rejection(response) == e@);
                return Err(e);
            },
        };
        proof {
            assert(answers.push(response).drop_last() == answers);
            answers = answers.push(response);
        }
    }
}

/// The transaction of a step ends with the handshake message of that step,
/// and everything before that message is a client update; the first step
/// needs no update at all.
pub proof fn lemma_built_transaction_shape(step: Step, opts: ChannelConfig, msgs: Seq<ChainMsgView>)
    requires
        built_by(step, opts, msgs),
    ensures
        msgs.len() >= 1,
        match step {
            Step::OpenInit => msgs.last() is ChanOpenInit,
            Step::OpenTry => msgs.last() is ChanOpenTry,
            Step::OpenAck => msgs.last() is ChanOpenAck,
            Step::OpenConfirm => msgs.last() is ChanOpenConfirm,
        },
        forall|i: int| 0 <= i < msgs.len() - 1 ==> msgs[i] is UpdateClient,
        step == Step::OpenInit ==> msgs.len() == 1,
{
    let responses = choose|responses: Seq<Response>| #[trigger]
        Builder::start(step, opts).reached(responses) matches Some(b) && b.pending is None && msgs
            == b.output();
    lemma_reached_is_wf(step, opts, responses);
    lemma_transaction_shape(Builder::start(step, opts).reached(responses).unwrap());
}

/// What a builder hands out once it has all it needs ends with the handshake
/// message of its step, and everything before that message is a client
/// update.
pub proof fn lemma_transaction_shape(b: Builder)
    requires
        b.wf(),
        b.pending is None,
    ensures
        b.output().len() >= 1,
        b.output().last() == b.step_msg(),
        match b.step {
            Step::OpenInit => b.step_msg() is ChanOpenInit,
            Step::OpenTry => b.step_msg() is ChanOpenTry,
            Step::OpenAck => b.step_msg() is ChanOpenAck,
            Step::OpenConfirm => b.step_msg() is ChanOpenConfirm,
        },
        forall|i: int| 0 <= i < b.output().len() - 1 ==> b.output()[i] is UpdateClient,
        b.step == Step::OpenInit ==> b.output().len() == 1,
{
}

/// The latest height of the source chain is asked for at one stage only, and
/// no stage is ever awaited twice: with each accepted answer the builder
/// moves strictly closer to its end.
pub proof fn lemma_height_asked_once(b: Builder, response: Response)
    requires
        b.wf(),
    ensures
        b.asks() == Some(Request::QueryLatestHeight) <==> b.pending == Some(Stage::LatestHeight),
        b.accepted(response) matches Some(next) ==> b.step.remaining(next.pending)
            < b.step.remaining(b.pending),
{
}

/// The height that the source chain answered is the one that every later
/// request carries: the client update aims at it and the proofs are taken at
/// it. Once recorded, it is never replaced.
pub proof fn lemma_height_used_throughout(b: Builder, response: Response)
    requires
        b.wf(),
    ensures
        response matches Response::LatestHeight(Ok(h)) ==> (b.pending == Some(Stage::LatestHeight)
            ==> b.accepted(response).unwrap().height == Some(h)),
        b.accepted(response) matches Some(next) ==> (b.pending != Some(Stage::LatestHeight)
            ==> next.height == b.height),
        b.asks() matches Some(Request::BuildUpdateClient { target_height, .. })
            ==> b.height == Some(target_height),
        b.asks() matches Some(Request::BuildChannelProofs { height, .. }) ==> b.height == Some(
            height,
        ),
{
}

impl Builder {
    /// The requests that the builder makes, in order, when the chains answer
    /// with `responses`: it asks, takes the answer, and asks again for as
    /// long as answers come and it can accept them.
    pub open spec fn requests(self, responses: Seq<Response>) -> Seq<Request>
        decreases responses.len(),
    {
        match self.asks() {
            None => Seq::empty(),
            Some(request) => if responses.len() > 0 && self.accepted(responses[0]) is Some {
                seq![request] + self.accepted(responses[0]).unwrap().requests(
                    responses.drop_first(),
                )
            } else {
                seq![request]
            },
        }
    }
}

/// Whether `request` may follow once the source chain has reported the height
/// `h`: it does not ask for the height again, does not read the source
/// channel any more, and where it names a height of the source, as the
/// client update and the proofs do, that height is `h`.
pub open spec fn settled_at(request: Request, h: Height) -> bool {
    match request {
        Request::QueryLatestHeight => false,
        Request::QueryChannel { .. } => false,
        Request::BuildUpdateClient { target_height, .. } => target_height == h,
        Request::BuildChannelProofs { height, .. } => height == h,
        _ => true,
    }
}

/// The height that a response reports as the latest of the source chain.
pub open spec fn answered_height(response: Response) -> Option<Height> {
    match response {
        Response::LatestHeight(Ok(h)) => Some(h),
        _ => None,
    }
}

/// Whether, in a run that made the requests `made` on the answers
/// `responses`, the request at place `j` keeps to the height answered at
/// place `i`, should the height have been asked for there.
spec fn keeps_height(made: Seq<Request>, responses: Seq<Response>, i: int, j: int) -> bool {
    made[i] == Request::QueryLatestHeight ==> answered_height(responses[i]) is Some && settled_at(
        made[j],
        answered_height(responses[i]).unwrap(),
    )
}

proof fn lemma_requests_follow_the_height(b: Builder, responses: Seq<Response>)
    requires
        b.wf(),
    ensures
        b.requests(responses).len() <= responses.len() + 1,
        b.height matches Some(h) ==> forall|k: int|
            0 <= k < b.requests(responses).len() ==> settled_at(
                #[trigger] b.requests(responses)[k],
                h,
            ),
        b.height is None ==> forall|i: int, j: int|
            0 <= i < j < b.requests(responses).len() ==> #[trigger] keeps_height(
                b.requests(responses),
                responses,
                i,
                j,
            ),
    decreases responses.len(),
{
    let all = b.requests(responses);
    if b.asks() is Some && responses.len() > 0 && b.accepted(responses[0]) is Some {
        let next = b.accepted(responses[0]).unwrap();
        let rest = responses.drop_first();
        let tail = next.requests(rest);
        lemma_requests_follow_the_height(next, rest);
        assert(all == seq![b.asks().unwrap()] + tail);
        assert forall|k: int| 1 <= k < all.len() implies all[k] == tail[k - 1] by {}
        if b.height is None {
            assert forall|i: int, j: int| 0 <= i < j < all.len() implies #[trigger] keeps_height(
                all,
                responses,
                i,
                j,
            ) by {
                assert(all[j] == tail[j - 1]);
                if i == 0 {
                    if all[0] == Request::QueryLatestHeight {
                        assert(b.pending == Some(Stage::LatestHeight));
                        assert(next.height == answered_height(responses[0]));
                    }
                } else {
                    assert(all[i] == tail[i - 1]);
                    assert(rest[i - 1] == responses[i]);
                    if next.height is None {
                        assert(keeps_height(tail, rest, i - 1, j - 1));
                    }
                }
            }
        }
    } else if b.asks() is Some {
        assert(all == seq![b.asks().unwrap()]);
    } else {
        assert(all.len() == 0);
    }
}

/// In any run of a builder, whatever the chains answer, the latest height
/// of the source chain is asked for at most once, and every request that
/// comes after it keeps to the height that was answered: the source channel
/// is not read again, the client update aims at that height, and the proofs
/// are taken at that height.
pub proof fn lemma_one_height_per_run(
    step: Step,
    opts: ChannelConfig,
    responses: Seq<Response>,
    i: int,
    j: int,
)
    requires
        0 <= i < j < Builder::start(step, opts).requests(responses).len(),
        Builder::start(step, opts).requests(responses)[i] == Request::QueryLatestHeight,
    ensures
        responses[i] matches Response::LatestHeight(Ok(h)) && settled_at(
            Builder::start(step, opts).requests(responses)[j],
            h,
        ),
        Builder::start(step, opts).requests(responses)[j] != Request::QueryLatestHeight,
{
    let made = Builder::start(step, opts).requests(responses);
    lemma_requests_follow_the_height(Builder::start(step, opts), responses);
    assert(keeps_height(made, responses, i, j));
}

/// How many requests a builder still makes before it asks for the latest
/// height of the source chain; `None` where it does not ask for it any more,
/// or never does.
pub open spec fn requests_before_height(step: Step, pending: Option<Stage>) -> Option<int> {
    match (step, pending) {
        (Step::OpenInit, _) => None,
        (Step::OpenTry, Some(Stage::DstVersion)) => None,
        (_, Some(Stage::DstVersion)) => Some(4),
        (_, Some(Stage::DstChannel)) => Some(3),
        (_, Some(Stage::SrcChannel)) => Some(2),
        (_, Some(Stage::DstConnection)) => Some(1),
        (_, Some(Stage::LatestHeight)) => Some(0),
        _ => None,
    }
}

proof fn lemma_place_of_the_height(b: Builder, responses: Seq<Response>, k: int)
    requires
        b.wf(),
        0 <= k < b.requests(responses).len(),
    ensures
        b.requests(responses)[k] == Request::QueryLatestHeight <==> requests_before_height(
            b.step,
            b.pending,
        ) == Some(k),
    decreases responses.len(),
{
    let all = b.requests(responses);
    if k > 0 {
        let next = b.accepted(responses[0]).unwrap();
        let tail = next.requests(responses.drop_first());
        assert(all == seq![b.asks().unwrap()] + tail);
        assert(all[k] == tail[k - 1]);
        lemma_place_of_the_height(next, responses.drop_first(), k - 1);
    }
}

/// The first step of the handshake proves nothing and never asks for the
/// latest height of the source chain. `ChanOpenTry` asks for it as its third
/// request, after it has read the source channel and the destination
/// connection. The last two steps ask for it as their fifth request: the
/// two questions by which the destination is checked come before.
pub proof fn lemma_where_the_height_is_asked(
    step: Step,
    opts: ChannelConfig,
    responses: Seq<Response>,
    k: int,
)
    requires
        0 <= k < Builder::start(step, opts).requests(responses).len(),
    ensures
        Builder::start(step, opts).requests(responses)[k] == Request::QueryLatestHeight <==> (step
            == Step::OpenTry && k == 2) || ((step == Step::OpenAck || step == Step::OpenConfirm)
            && k == 4),
{
    lemma_place_of_the_height(Builder::start(step, opts), responses, k);
}

/// The last two steps begin with the check of the destination: the first
/// two requests are the questions for the version of its module and for its
/// channel end, and every request after them is made only once a channel end
/// was reported that passes the check. So no transaction is built, and no
/// question is put to the source chain, where the check fails.
pub proof fn lemma_checked_before_built(b: Builder, response: Response)
    requires
        b.wf(),
        b.step == Step::OpenAck || b.step == Step::OpenConfirm,
    ensures
        b.pending == Some(b.step.first()) ==> b.asks() == Some(
            destination_version_question(b.opts),
        ),
        b.pending == Some(Stage::DstChannel) ==> b.asks() == Some(
            destination_channel_question(b.opts),
        ),
        b.pending == Some(Stage::DstChannel) && b.accepted(response) is Some ==> (
        response matches Response::Channel(Ok(end)) && b.admits(end)),
        response matches Response::Channel(Ok(end)) ==> (b.pending == Some(Stage::DstChannel)
            && !b.admits(end) ==> b.accepted(response) is None && b.trouble(response) is Some
            && b.rejection(response) == b.reported(
            Stage::DstChannel,
            b.trouble(response).unwrap(),
        )),
        b.pending is None ==> (b.dst_channel matches Some(end) && b.admits(end)),
{
}

/// Whether the first answers among `responses` are those of a destination
/// that passes the check of `step`: the version of its module, then a
/// channel end that is compatible with the message of the step.
pub open spec fn passes_the_check(step: Step, opts: ChannelConfig, responses: Seq<Response>) -> bool {
    &&& responses.len() >= 2
    &&& step.checks() is Some
    &&& responses[0] matches Response::ModuleVersion(Ok(version))
    &&& responses[1] matches Response::Channel(Ok(end))
    &&& validated(step.checks().unwrap(), opts, version@, end@) is Ok
}

proof fn lemma_check_comes_first(step: Step, opts: ChannelConfig, responses: Seq<Response>)
    requires
        step == Step::OpenAck || step == Step::OpenConfirm,
        Builder::start(step, opts).reached(responses) is Some,
    ensures
        ({
            let b = Builder::start(step, opts).reached(responses).unwrap();
            &&& b.wf() && b.step == step && b.opts == opts
            &&& responses.len() == 0 ==> b.pending == Some(Stage::DstVersion)
            &&& responses.len() == 1 ==> b.pending == Some(Stage::DstChannel)
            &&& responses.len() >= 1 ==> responses[0] == Response::ModuleVersion(
                Ok(b.dst_version.unwrap()),
            ) && b.dst_version is Some
            &&& responses.len() >= 2 ==> responses[1] == Response::Channel(
                Ok(b.dst_channel.unwrap()),
            ) && b.dst_channel is Some && step.remaining(b.pending) < 9
        }),
    decreases responses.len(),
{
    lemma_reached_is_wf(step, opts, responses);
    if responses.len() > 0 {
        let before = responses.drop_last();
        lemma_check_comes_first(step, opts, before);
        if before.len() >= 1 {
            assert(before[0] == responses[0]);
        }
        if before.len() >= 2 {
            assert(before[1] == responses[1]);
        }
    }
}

/// A transaction of one of the last two steps is built only after the
/// destination has passed the check: the answers that lead to it begin with
/// the version of the destination's module and a channel end on the
/// destination that is compatible with the message.
pub proof fn lemma_built_after_the_check(step: Step, opts: ChannelConfig, responses: Seq<Response>)
    requires
        step == Step::OpenAck || step == Step::OpenConfirm,
        Builder::start(step, opts).reached(responses) matches Some(b) && b.pending is None,
    ensures
        passes_the_check(step, opts, responses),
{
    lemma_check_comes_first(step, opts, responses);
}

} // verus!
