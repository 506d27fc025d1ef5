//! Channels: their two-sided configuration and the handshake that opens them.
use crate::builder::{
    ask_destination_channel, ask_destination_version, build, built_by, failed_by, perform,
    propose_end, proposed_end, Response, Step,
};
use crate::chain::{ChainHandle, ClientUpdater};
use crate::config::RelayPath;
use crate::connection::{Connection, ConnectionConfig};
use crate::error::{Error, ErrorView, Kind, KindView};
use crate::event::IBCEvent;
use crate::handshake::{Action, End, Failure, Handshake, Outcome, Phase};
use crate::height::Height;
use crate::ics04::{ChannelEnd, ChannelEndView, Order, State};
use crate::identifier::{ChainId, ChannelId, ClientId, ConnectionId, PortId};
use crate::msgs::{msgs_view, ChainMsg};
use crate::relay::MAX_ITER;
use vstd::prelude::*;

verus! {

/// Why a channel could not be opened.
#[derive(Clone, Debug, PartialEq, Eq)]
pub enum ChannelError {
    Failed(String),
}

impl ChannelError {
    /// The reason carried by the error.
    pub open spec fn reason(self) -> Seq<char> {
        match self {
            ChannelError::Failed(reason) => reason@,
        }
    }

    /// How the error is shown: the fixed text `failed`.
    pub fn to_string(&self) -> (r: String)
        ensures
            r@ == "failed"@,
    {
        "failed".to_owned()
    }
}

/// One side of a channel: where its end lives and what it is called there.
#[derive(Debug, PartialEq, Eq)]
pub struct ChannelConfigSide {
    pub chain_id: ChainId,
    pub connection_id: ConnectionId,
    pub client_id: ClientId,
    pub port_id: PortId,
    pub channel_id: ChannelId,
}

impl Clone for ChannelConfigSide {
    fn clone(&self) -> (r: Self)
        ensures
            r == *self,
    {
        ChannelConfigSide {
            chain_id: self.chain_id.clone(),
            connection_id: self.connection_id.clone(),
            client_id: self.client_id.clone(),
            port_id: self.port_id.clone(),
            channel_id: self.channel_id.clone(),
        }
    }
}

impl ChannelConfigSide {
    pub fn new(
        chain_id: &ChainId,
        connection_id: &ConnectionId,
        client_id: &ClientId,
        port_id: &PortId,
        channel_id: &ChannelId,
    ) -> (r: ChannelConfigSide)
        ensures
            r == (ChannelConfigSide {
                chain_id: *chain_id,
                connection_id: *connection_id,
                client_id: *client_id,
                port_id: *port_id,
                channel_id: *channel_id,
            }),
    {
        Self {
            chain_id: chain_id.clone(),
            connection_id: connection_id.clone(),
            client_id: client_id.clone(),
            port_id: port_id.clone(),
            channel_id: channel_id.clone(),
        }
    }

    pub fn chain_id(&self) -> (r: &ChainId)
        ensures
            *r == self.chain_id,
    {
        &self.chain_id
    }

    pub fn connection_id(&self) -> (r: &ConnectionId)
        ensures
            *r == self.connection_id,
    {
        &self.connection_id
    }

    pub fn client_id(&self) -> (r: &ClientId)
        ensures
            *r == self.client_id,
    {
        &self.client_id
    }

    pub fn port_id(&self) -> (r: &PortId)
        ensures
            *r == self.port_id,
    {
        &self.port_id
    }

    pub fn channel_id(&self) -> (r: &ChannelId)
        ensures
            *r == self.channel_id,
    {
        &self.channel_id
    }

    pub fn set_client_id(&mut self, id: &ClientId)
        ensures
            *final(self) == (ChannelConfigSide { client_id: *id, ..*old(self) }),
    {
        self.client_id = id.clone()
    }

    pub fn set_connection_id(&mut self, id: &ConnectionId)
        ensures
            *final(self) == (ChannelConfigSide { connection_id: *id, ..*old(self) }),
    {
        self.connection_id = id.clone()
    }
}

/// The two sides of a channel and the ordering that both agree on.
#[derive(Debug, PartialEq, Eq)]
pub struct ChannelConfig {
    pub ordering: Order,
    pub a_config: ChannelConfigSide,
    pub b_config: ChannelConfigSide,
}

impl Clone for ChannelConfig {
    fn clone(&self) -> (r: Self)
        ensures
            r == *self,
    {
        ChannelConfig {
            ordering: self.ordering,
            a_config: self.a_config.clone(),
            b_config: self.b_config.clone(),
        }
    }
}

impl ChannelConfig {
    /// The side that a message is built from: side A.
    pub fn src(&self) -> (r: &ChannelConfigSide)
        ensures
            *r == self.a_config,
    {
        &self.a_config
    }

    /// The side that a message is sent to: side B.
    pub fn dst(&self) -> (r: &ChannelConfigSide)
        ensures
            *r == self.b_config,
    {
        &self.b_config
    }

    pub fn a_end(&self) -> (r: &ChannelConfigSide)
        ensures
            *r == self.a_config,
    {
        &self.a_config
    }

    pub fn b_end(&self) -> (r: &ChannelConfigSide)
        ensures
            *r == self.b_config,
    {
        &self.b_config
    }

    /// The same channel seen from the other side.
    pub open spec fn spec_flipped(&self) -> ChannelConfig {
        ChannelConfig {
            ordering: self.ordering,
            a_config: self.b_config,
            b_config: self.a_config,
        }
    }

    /// A new configuration with the two sides swapped and the ordering kept.
    #[verifier::when_used_as_spec(spec_flipped)]
    pub fn flipped(&self) -> (r: ChannelConfig)
        ensures
            r == self.spec_flipped(),
    {
        ChannelConfig {
            ordering: self.ordering,
            a_config: self.b_config.clone(),
            b_config: self.a_config.clone(),
        }
    }

    /// The configuration of a channel that is yet to be opened between the
    /// two ports of `path`, over the connection `conn`: the chains are those
    /// of the connection, the ordering is the default one, and the client,
    /// connection and channel identifiers are placeholders.
    pub fn new(conn: &ConnectionConfig, path: &RelayPath) -> (r: Result<ChannelConfig, String>)
        ensures
            r matches Ok(c) && {
                &&& c.ordering == Order::Unordered
                &&& c.a_config.chain_id == conn.a_config.chain_id
                &&& c.b_config.chain_id == conn.b_config.chain_id
                &&& c.a_config.port_id == path.a_port
                &&& c.b_config.port_id == path.b_port
                &&& c.a_config.connection_id@ == "defaultConnection"@
                &&& c.b_config.connection_id@ == "defaultConnection"@
                &&& c.a_config.client_id@ == "defaultClient"@
                &&& c.b_config.client_id@ == "defaultClient"@
                &&& c.a_config.channel_id@ == "defaultChannel"@
                &&& c.b_config.channel_id@ == "defaultChannel"@
            },
    {
        let a_config = ChannelConfigSide {
            chain_id: conn.a_end().chain_id().clone(),
            connection_id: ConnectionId::default(),
            client_id: ClientId::default(),
            port_id: path.a_port.clone(),
            channel_id: ChannelId::default(),
        };

        let b_config = ChannelConfigSide {
            chain_id: conn.b_end().chain_id().clone(),
            connection_id: ConnectionId::default(),
            client_id: ClientId::default(),
            port_id: path.b_port.clone(),
            channel_id: ChannelId::default(),
        };

        Ok(ChannelConfig { ordering: Order::default(), a_config, b_config })
    }
}

/// Swapping the sides twice gives back the configuration.
pub proof fn lemma_flipped_twice(c: ChannelConfig)
    ensures
        c.flipped().flipped() == c,
{
}

/// The handshake messages that carry a proof of the counterparty's state.
#[derive(Clone, Copy, Debug, PartialEq, Eq, Structural)]
pub enum ChannelMsgType {
    OpenTry,
    OpenAck,
    OpenConfirm,
}

impl ChannelMsgType {
    /// The furthest state in which the destination may already hold the
    /// channel when a message of this type is sent to it.
    pub open spec fn highest_state(self) -> State {
        match self {
            ChannelMsgType::OpenAck => State::TryOpen,
            ChannelMsgType::OpenConfirm => State::TryOpen,
            ChannelMsgType::OpenTry => State::Uninitialized,
        }
    }
}

/// Whether a channel end found on the destination can be the one that the
/// handshake expects there: it runs over the same connections, has not moved
/// past the expected state, and names no other counterparty channel than the
/// expected one.
pub open spec fn compatible(existing: ChannelEndView, expected: ChannelEndView) -> bool {
    &&& existing.connection_hops == expected.connection_hops
    &&& existing.state.rank() <= expected.state.rank()
    &&& (existing.remote.channel_id is None || existing.remote.channel_id
        == expected.remote.channel_id)
}

/// Compares the channel end found on the destination with the expected one.
/// The error names `channel_id`.
pub fn check_destination_channel_state(
    channel_id: ChannelId,
    existing_channel: &ChannelEnd,
    expected_channel: &ChannelEnd,
) -> (r: Result<(), Error>)
    ensures
        r is Ok <==> compatible(existing_channel@, expected_channel@),
        r matches Err(e) ==> e@ == (ErrorView {
            kind: KindView::ChanOpen(
                channel_id@,
                "channel already exist in an incompatible state"@,
            ),
            source: None,
        }),
{
    let good_connection_hops = *existing_channel.connection_hops()
        == *expected_channel.connection_hops();
    proof {
        let a = existing_channel.connection_hops@;
        let b = expected_channel.connection_hops@;
        if good_connection_hops {
            assert(existing_channel@.connection_hops =~= expected_channel@.connection_hops);
        } else {
            if a.len() == b.len() {
                let i = choose|i: int| 0 <= i < a.len() && a[i]@ != b[i]@;
                assert(existing_channel@.connection_hops[i] == a[i]@);
                assert(expected_channel@.connection_hops[i] == b[i]@);
            } else {
                assert(existing_channel@.connection_hops.len() == a.len());
                assert(expected_channel@.connection_hops.len() == b.len());
            }
        }
    }

    let good_state = existing_channel.state().as_u32() <= expected_channel.state().as_u32();

    let good_channel_ids = existing_channel.counterparty().channel_id.is_none()
        || existing_channel.counterparty().channel_id == expected_channel.counterparty().channel_id;

    if good_state && good_connection_hops && good_channel_ids {
        Ok(())
    } else {
        Err(
            Kind::ChanOpen(
                channel_id,
                "channel already exist in an incompatible state".to_owned(),
            ).into_error(),
        )
    }
}

/// What the check of a destination channel end `observed` gives before a
/// message of type `msg_type` is built for the channel `opts`, where the
/// destination's module speaks `version`: the expected channel end, or the
/// error. No channel on the destination is an error that names the source
/// channel; an incompatible one is an error that names the destination
/// channel.
pub open spec fn validated(
    msg_type: ChannelMsgType,
    opts: ChannelConfig,
    version: Seq<char>,
    observed: ChannelEndView,
) -> Result<ChannelEndView, ErrorView> {
    let expected = proposed_end(
        opts,
        msg_type.highest_state(),
        Some(opts.a_config.channel_id@),
        version,
    );
    if observed.state == State::Uninitialized {
        Err(
            ErrorView {
                kind: KindView::ChanOpen(
                    opts.a_config.channel_id@,
                    "missing channel on source chain"@,
                ),
                source: None,
            },
        )
    } else if !compatible(observed, expected) {
        Err(
            ErrorView {
                kind: KindView::ChanOpen(
                    opts.b_config.channel_id@,
                    "channel already exist in an incompatible state"@,
                ),
                source: None,
            },
        )
    } else {
        Ok(expected)
    }
}

/// Checks the channel end `dst_channel`, as found on the destination,
/// against the one expected there, and returns the expected one.
pub fn validate_destination(
    msg_type: ChannelMsgType,
    opts: &ChannelConfig,
    version: String,
    dst_channel: &ChannelEnd,
) -> (r: Result<ChannelEnd, Error>)
    ensures
        match r {
            Ok(end) => validated(msg_type, *opts, version@, dst_channel@) == Ok::<
                ChannelEndView,
                ErrorView,
            >(end@),
            Err(e) => validated(msg_type, *opts, version@, dst_channel@) == Err::<
                ChannelEndView,
                ErrorView,
            >(e@),
        },
{
    // The highest expected state, depends on the message type:
    let highest_state = match msg_type {
        ChannelMsgType::OpenAck => State::TryOpen,
        ChannelMsgType::OpenConfirm => State::TryOpen,
        _ => State::Uninitialized,
    };
    let dst_expected_channel = propose_end(opts, highest_state, true, version);

    // A channel must exist on destination chain for Ack and Confirm Tx-es to succeed
    if dst_channel.state_matches(&State::Uninitialized) {
        return Err(
            Kind::ChanOpen(
                opts.src().channel_id().clone(),
                "missing channel on source chain".to_owned(),
            ).into_error(),
        );
    }
    match check_destination_channel_state(
        opts.dst().channel_id().clone(),
        dst_channel,
        &dst_expected_channel,
    ) {
        Err(e) => Err(e),
        Ok(()) => Ok(dst_expected_channel),
    }
}

/// Retrieves the channel from the destination and compares it against the
/// expected channel built from the message type and the options. If the two
/// are compatible, returns the expected channel. The two questions put to
/// the destination are those that `ask_destination_version` and
/// `ask_destination_channel` make. The result is what `checked` makes of
/// the two answers: an error of the chain is passed on as it is, and the
/// channel end that the chain reports is checked against the expected one.
pub fn validated_expected_channel<D: ClientUpdater, S: ChainHandle>(
    dst_chain: &D,
    _src_chain: &S,
    msg_type: ChannelMsgType,
    opts: &ChannelConfig,
) -> (r: Result<ChannelEnd, Error>)
    ensures
        checks_to(msg_type, *opts, end_result_view(r)),
{
    let version = match perform(dst_chain, _src_chain, &ask_destination_version(opts)) {
        Response::ModuleVersion(answer) => answer,
        _ => vstd::pervasive::unreached(),
    };
    let version = match version {
        Err(e) => {
            assert(checked(msg_type, *opts, Err(e), Err(e)) == end_result_view(Err(e)));
            return Err(e);
        },
        Ok(version) => version,
    };
    let dst_channel = match perform(dst_chain, _src_chain, &ask_destination_channel(opts)) {
        Response::Channel(answer) => answer,
        _ => vstd::pervasive::unreached(),
    };
    let dst_channel = match dst_channel {
        Err(e) => {
            assert(checked(msg_type, *opts, Ok(version), Err(e)) == end_result_view(Err(e)));
            return Err(e);
        },
        Ok(dst_channel) => dst_channel,
    };
    let ghost asked = version;
    let r = validate_destination(msg_type, opts, version, &dst_channel);
    assert(checked(msg_type, *opts, Ok(asked), Ok(dst_channel)) == end_result_view(r));
    r
}

/// The model of the result of a check: the channel end or the error.
pub open spec fn end_result_view(r: Result<ChannelEnd, Error>) -> Result<
    ChannelEndView,
    ErrorView,
> {
    match r {
        Ok(end) => Ok(end@),
        Err(e) => Err(e@),
    }
}

/// What the check of the destination comes to, given what the destination
/// answered: `version` to the lookup of the version of its module, `channel`
/// to the query of its channel end. An error of the chain is the result as
/// it is, the one of the version lookup first: the channel end is not asked
/// for when that lookup has failed. Two good answers give what `validated`
/// makes of them.
pub open spec fn checked(
    msg_type: ChannelMsgType,
    opts: ChannelConfig,
    version: Result<String, Error>,
    channel: Result<ChannelEnd, Error>,
) -> Result<ChannelEndView, ErrorView> {
    match version {
        Err(e) => Err(e@),
        Ok(version) => match channel {
            Err(e) => Err(e@),
            Ok(end) => validated(msg_type, opts, version@, end@),
        },
    }
}

/// Whether `result` is what the check of the destination comes to on some
/// answers of the destination.
pub open spec fn checks_to(
    msg_type: ChannelMsgType,
    opts: ChannelConfig,
    result: Result<ChannelEndView, ErrorView>,
) -> bool {
    exists|version: Result<String, Error>, channel: Result<ChannelEnd, Error>|
        #![trigger checked(msg_type, opts, version, channel)]
        checked(msg_type, opts, version, channel) == result
}

/// A destination channel whose state lies beyond the furthest one allowed
/// for the message type, `TryOpen` for both the acknowledgement and the
/// confirmation, is always rejected.
pub proof fn lemma_state_beyond_highest_is_rejected(
    msg_type: ChannelMsgType,
    opts: ChannelConfig,
    version: Seq<char>,
    observed: ChannelEndView,
)
    requires
        observed.state.rank() > msg_type.highest_state().rank(),
    ensures
        validated(msg_type, opts, version, observed) is Err,
        msg_type != ChannelMsgType::OpenTry ==> msg_type.highest_state() == State::TryOpen,
{
}

/// The error under which the failure of `step` is reported, with `message`.
/// For the last two steps it names the destination channel.
pub open spec fn step_failure(step: Step, opts: ChannelConfig, message: Seq<char>) -> ErrorView {
    ErrorView {
        kind: match step {
            Step::OpenInit => KindView::ChanOpenInit(message),
            Step::OpenTry => KindView::ChanOpenTry(message),
            Step::OpenAck => KindView::ChanOpenAck(opts.b_config.channel_id@, message),
            Step::OpenConfirm => KindView::ChanOpenConfirm(opts.b_config.channel_id@, message),
        },
        source: None,
    }
}

fn fail_step(step: Step, opts: &ChannelConfig, message: String) -> (r: Error)
    ensures
        r@ == step_failure(step, *opts, message@),
{
    let kind = match step {
        Step::OpenInit => Kind::ChanOpenInit(message),
        Step::OpenTry => Kind::ChanOpenTry(message),
        Step::OpenAck => Kind::ChanOpenAck(opts.dst().channel_id().clone(), message),
        Step::OpenConfirm => Kind::ChanOpenConfirm(opts.dst().channel_id().clone(), message),
    };
    kind.into_error()
}

/// The text of the error for a response that holds no event about `step`.
pub open spec fn no_event_text(step: Step) -> Seq<char> {
    match step {
        Step::OpenInit => "no chan init event was in the response"@,
        Step::OpenTry => "no chan try event was in the response"@,
        Step::OpenAck => "no chan ack event was in the response"@,
        Step::OpenConfirm => "no chan confirm event was in the response"@,
    }
}

/// Whether `event` is the one by which a chain announces that it has taken
/// `step`.
pub open spec fn announces(step: Step, event: IBCEvent) -> bool {
    match step {
        Step::OpenInit => event is OpenInitChannel,
        Step::OpenTry => event is OpenTryChannel,
        Step::OpenAck => event is OpenAckChannel,
        Step::OpenConfirm => event is OpenConfirmChannel,
    }
}

/// Whether `event` decides the outcome of `step`: the announcement of the
/// step, or the refusal of the transaction.
pub open spec fn decides(step: Step, event: IBCEvent) -> bool {
    announces(step, event) || event is ChainError
}

/// Whether `i` is the place of the first event in `events` that decides the
/// outcome of `step`.
pub open spec fn first_deciding(step: Step, events: Seq<IBCEvent>, i: int) -> bool {
    &&& 0 <= i < events.len()
    &&& decides(step, events[i])
    &&& forall|j: int| 0 <= j < i ==> !decides(step, #[trigger] events[j])
}

fn event_decides(step: Step, event: &IBCEvent) -> (r: bool)
    ensures
        r == decides(step, *event),
{
    match (step, event) {
        (_, IBCEvent::ChainError(_)) => true,
        (Step::OpenInit, IBCEvent::OpenInitChannel(_)) => true,
        (Step::OpenTry, IBCEvent::OpenTryChannel(_)) => true,
        (Step::OpenAck, IBCEvent::OpenAckChannel(_)) => true,
        (Step::OpenConfirm, IBCEvent::OpenConfirmChannel(_)) => true,
        _ => false,
    }
}

/// No two places are the first.
proof fn lemma_first_deciding_is_unique(step: Step, events: Seq<IBCEvent>, i: int, j: int)
    requires
        first_deciding(step, events, i),
        first_deciding(step, events, j),
    ensures
        i == j,
{
}

/// The model of the result of a step: the event or the error.
pub open spec fn event_result_view(r: Result<IBCEvent, Error>) -> Result<IBCEvent, ErrorView> {
    match r {
        Ok(event) => Ok(event),
        Err(e) => Err(e@),
    }
}

/// How `step` went, by the events of the response to its transaction: the
/// first event that decides is looked at, wherever in the list it stands.
/// The announcement of the step is the result. A refusal is the error of the
/// step with the chain's own message, and a response in which no event
/// decides is the error of the step that says so.
pub open spec fn step_event(step: Step, opts: ChannelConfig, events: Seq<IBCEvent>) -> Result<
    IBCEvent,
    ErrorView,
> {
    if exists|i: int| first_deciding(step, events, i) {
        let i = choose|i: int| first_deciding(step, events, i);
        match events[i] {
            IBCEvent::ChainError(message) => Err(step_failure(step, opts, message@)),
            event => Ok(event),
        }
    } else {
        Err(step_failure(step, opts, no_event_text(step)))
    }
}

/// What submitting the transaction of `step` comes to, given what the
/// destination answered to the submission: its error is the result as it
/// is, and the events that it reports give what `step_event` makes of them.
pub open spec fn submitted(
    step: Step,
    opts: ChannelConfig,
    sending: Result<Vec<IBCEvent>, Error>,
) -> Result<IBCEvent, ErrorView> {
    match sending {
        Err(e) => Err(e@),
        Ok(events) => step_event(step, opts, events@),
    }
}

/// Whether `result` is what `step` for the channel `opts` comes to on some
/// answers of the two chains: either the builder of its transaction has
/// given up, and the result is the error of that, or a transaction was
/// built, and the result is what the answer to its submission gives.
pub open spec fn step_result(step: Step, opts: ChannelConfig, result: Result<IBCEvent, ErrorView>) -> bool {
    ||| (result matches Err(e) && failed_by(step, opts, e))
    ||| exists|msgs: Seq<crate::msgs::ChainMsgView>, sending: Result<Vec<IBCEvent>, Error>|
        #![trigger built_by(step, opts, msgs), submitted(step, opts, sending)]
        built_by(step, opts, msgs) && submitted(step, opts, sending) == result
}

/// Picks from the events of a response the one that tells how `step` went:
/// the first that either announces the step or reports a refusal, wherever
/// in the list it stands. The announcement is returned. A refusal becomes
/// the error of the step with the chain's own message, and a response
/// without either becomes the error of the step that says so.
pub fn find_step_event(step: Step, opts: &ChannelConfig, events: Vec<IBCEvent>) -> (r: Result<
    IBCEvent,
    Error,
>)
    ensures
        event_result_view(r) == step_event(step, *opts, events@),
        r matches Ok(event) ==> announces(step, event),
{
    let mut rest = events;
    let mut i: usize = 0;
    while i < rest.len()
        invariant
            rest@ == events@,
            i <= rest@.len(),
            forall|j: int| 0 <= j < i ==> !decides(step, #[trigger] events@[j]),
        decreases rest@.len() - i,
    {
        if event_decides(step, &rest[i]) {
            proof {
                assert(first_deciding(step, events@, i as int));
                let chosen = choose|k: int| first_deciding(step, events@, k);
                lemma_first_deciding_is_unique(step, events@, chosen, i as int);
            }
            let found = rest.swap_remove(i);
            return match found {
                IBCEvent::ChainError(message) => Err(fail_step(step, opts, message)),
                event => Ok(event),
            };
        }
        i += 1;
    }
    let message = match step {
        Step::OpenInit => "no chan init event was in the response".to_owned(),
        Step::OpenTry => "no chan try event was in the response".to_owned(),
        Step::OpenAck => "no chan ack event was in the response".to_owned(),
        Step::OpenConfirm => "no chan confirm event was in the response".to_owned(),
    };
    Err(fail_step(step, opts, message))
}

/// The channel identifier that an event of the opening handshake carries.
pub fn extract_channel_id(event: &IBCEvent) -> (r: Result<&ChannelId, ChannelError>)
    ensures
        match *event {
            IBCEvent::OpenInitChannel(ev) => r == Ok::<&ChannelId, ChannelError>(&ev.channel_id),
            IBCEvent::OpenTryChannel(ev) => r == Ok::<&ChannelId, ChannelError>(&ev.channel_id),
            IBCEvent::OpenAckChannel(ev) => r == Ok::<&ChannelId, ChannelError>(&ev.channel_id),
            IBCEvent::OpenConfirmChannel(ev) => r == Ok::<&ChannelId, ChannelError>(
                &ev.channel_id,
            ),
            _ => r matches Err(e) && e.reason() == "cannot extract channel_id from result"@,
        },
{
    match event {
        IBCEvent::OpenInitChannel(ev) => Ok(&ev.channel_id),
        IBCEvent::OpenTryChannel(ev) => Ok(&ev.channel_id),
        IBCEvent::OpenAckChannel(ev) => Ok(&ev.channel_id),
        IBCEvent::OpenConfirmChannel(ev) => Ok(&ev.channel_id),
        _ => Err(ChannelError::Failed("cannot extract channel_id from result".to_owned())),
    }
}

/// The transaction that opens the channel on the destination: the one
/// `ChanOpenInit` message, signed by the destination's signer, for a channel
/// end in state `Init` that speaks the version of the destination's module.
pub fn build_chan_init<D: ClientUpdater, S: ChainHandle>(
    dst_chain: &D,
    src_chain: &S,
    opts: &ChannelConfig,
) -> (r: Result<Vec<ChainMsg>, Error>)
    ensures
        match r {
            Ok(msgs) => built_by(Step::OpenInit, *opts, msgs_view(msgs@)),
            Err(e) => failed_by(Step::OpenInit, *opts, e@),
        },
{
    build(dst_chain, src_chain, Step::OpenInit, opts)
}

/// The transaction that answers the source's `Init`: the updates of the
/// destination's client up to the latest source height, then `ChanOpenTry`
/// with the proofs of the source channel at that height.
pub fn build_chan_try<D: ClientUpdater, S: ChainHandle>(
    dst_chain: &D,
    src_chain: &S,
    opts: &ChannelConfig,
) -> (r: Result<Vec<ChainMsg>, Error>)
    ensures
        match r {
            Ok(msgs) => built_by(Step::OpenTry, *opts, msgs_view(msgs@)),
            Err(e) => failed_by(Step::OpenTry, *opts, e@),
        },
{
    build(dst_chain, src_chain, Step::OpenTry, opts)
}

/// The transaction that acknowledges the source's `TryOpen`, built only where
/// the channel found on the destination is compatible with it: the client
/// updates, then `ChanOpenAck` with the proofs of the source channel. The
/// destination is asked first; where its answer does not pass the check,
/// nothing else is asked and the error names the inconsistency.
pub fn build_chan_ack<D: ClientUpdater, S: ChainHandle>(
    dst_chain: &D,
    src_chain: &S,
    opts: &ChannelConfig,
) -> (r: Result<Vec<ChainMsg>, Error>)
    ensures
        match r {
            Ok(msgs) => built_by(Step::OpenAck, *opts, msgs_view(msgs@)),
            Err(e) => failed_by(Step::OpenAck, *opts, e@),
        },
{
    build(dst_chain, src_chain, Step::OpenAck, opts)
}

/// The transaction that confirms the source's `Open`, built only where the
/// channel found on the destination is compatible with it: the client
/// updates, then `ChanOpenConfirm` with the proofs of the source channel.
/// The destination is asked first; where its answer does not pass the
/// check, nothing else is asked and the error names the inconsistency.
pub fn build_chan_confirm<D: ClientUpdater, S: ChainHandle>(
    dst_chain: &D,
    src_chain: &S,
    opts: &ChannelConfig,
) -> (r: Result<Vec<ChainMsg>, Error>)
    ensures
        match r {
            Ok(msgs) => built_by(Step::OpenConfirm, *opts, msgs_view(msgs@)),
            Err(e) => failed_by(Step::OpenConfirm, *opts, e@),
        },
{
    build(dst_chain, src_chain, Step::OpenConfirm, opts)
}

/// Builds the `ChanOpenInit` transaction, submits it to the destination and
/// returns the event by which the destination announces the new channel end.
/// Where the transaction cannot be built, the error of that is returned and
/// nothing is submitted; an error of the submission is passed on; a response
/// without the announcement is an error of the step.
pub fn build_chan_init_and_send<D: ClientUpdater, S: ChainHandle>(
    dst_chain: &D,
    src_chain: &S,
    opts: &ChannelConfig,
) -> (r: Result<IBCEvent, Error>)
    ensures
        step_result(Step::OpenInit, *opts, event_result_view(r)),
        r matches Ok(event) ==> event is OpenInitChannel,
{
    submit(dst_chain, src_chain, Step::OpenInit, opts)
}

/// Builds the `ChanOpenTry` transaction, submits it to the destination and
/// returns the event by which the destination announces the new channel end.
/// Where the transaction cannot be built, the error of that is returned and
/// nothing is submitted; an error of the submission is passed on; a response
/// without the announcement is an error of the step.
pub fn build_chan_try_and_send<D: ClientUpdater, S: ChainHandle>(
    dst_chain: &D,
    src_chain: &S,
    opts: &ChannelConfig,
) -> (r: Result<IBCEvent, Error>)
    ensures
        step_result(Step::OpenTry, *opts, event_result_view(r)),
        r matches Ok(event) ==> event is OpenTryChannel,
{
    submit(dst_chain, src_chain, Step::OpenTry, opts)
}

/// Builds the `ChanOpenAck` transaction, submits it to the destination and
/// returns the event by which the destination announces the acknowledgement.
/// Where the transaction cannot be built, the error of that is returned and
/// nothing is submitted; an error of the submission is passed on; a response
/// without the announcement is an error of the step.
pub fn build_chan_ack_and_send<D: ClientUpdater, S: ChainHandle>(
    dst_chain: &D,
    src_chain: &S,
    opts: &ChannelConfig,
) -> (r: Result<IBCEvent, Error>)
    ensures
        step_result(Step::OpenAck, *opts, event_result_view(r)),
        r matches Ok(event) ==> event is OpenAckChannel,
{
    submit(dst_chain, src_chain, Step::OpenAck, opts)
}

/// Builds the `ChanOpenConfirm` transaction, submits it to the destination
/// and returns the event by which the destination announces the confirmation.
/// Where the transaction cannot be built, the error of that is returned and
/// nothing is submitted; an error of the submission is passed on; a response
/// without the announcement is an error of the step.
pub fn build_chan_confirm_and_send<D: ClientUpdater, S: ChainHandle>(
    dst_chain: &D,
    src_chain: &S,
    opts: &ChannelConfig,
) -> (r: Result<IBCEvent, Error>)
    ensures
        step_result(Step::OpenConfirm, *opts, event_result_view(r)),
        r matches Ok(event) ==> event is OpenConfirmChannel,
{
    submit(dst_chain, src_chain, Step::OpenConfirm, opts)
}

/// Whether `outcome` is something that can come of `action`: of a
/// submission, what the step comes to when it is built from the
/// configuration that the action names; of a read, an error or a channel
/// end. Nothing comes of the end of a handshake.
pub open spec fn comes_of(action: Action, outcome: Outcome) -> bool {
    match action {
        Action::Submit { step, opts, .. } => outcome matches Outcome::Submitted(result)
            && step_result(step, opts, event_result_view(result)),
        Action::Observe { .. } => outcome is Observed,
        _ => false,
    }
}

/// A step that comes to an event has come to the announcement of the step.
pub proof fn lemma_step_result_announces(step: Step, opts: ChannelConfig, event: IBCEvent)
    requires
        step_result(step, opts, Ok(event)),
    ensures
        announces(step, event),
{
    let (msgs, sending) = choose|
        msgs: Seq<crate::msgs::ChainMsgView>,
        sending: Result<Vec<IBCEvent>, Error>,
    |
        #![trigger built_by(step, opts, msgs), submitted(step, opts, sending)]
        built_by(step, opts, msgs) && submitted(step, opts, sending) == Ok::<IBCEvent, ErrorView>(
            event,
        );
    let events = sending->Ok_0@;
    let i = choose|i: int| first_deciding(step, events, i);
    assert(first_deciding(step, events, i));
}

/// What a handshake for `config` asks for once the first `i` of `outcomes`
/// are taken.
pub open spec fn asked_at(config: ChannelConfig, outcomes: Seq<Outcome>, i: int) -> Action {
    Handshake::start(config).after(outcomes.take(i)).action()
}

/// Whether `outcomes` is what came of a handshake for `config`, action by
/// action: each outcome came of the action that the handshake asked for
/// after the outcomes before it.
pub open spec fn is_run(config: ChannelConfig, outcomes: Seq<Outcome>) -> bool {
    forall|i: int|
        0 <= i < outcomes.len() ==> comes_of(#[trigger] asked_at(config, outcomes, i), outcomes[i])
}

/// Whether a handshake started with `config` can end with the configuration
/// `end_config` and the result `result`: some run of it ends so. Success is
/// the result of a run that ends with both channel ends open, an error the
/// result of one that was given up, with the reason of that failure.
pub open spec fn ends_with(
    config: ChannelConfig,
    end_config: ChannelConfig,
    result: Result<(), ChannelError>,
) -> bool {
    exists|outcomes: Seq<Outcome>| #[trigger]
        is_run(config, outcomes) && {
            let end = Handshake::start(config).after(outcomes);
            &&& end.config == end_config
            &&& match result {
                Ok(()) => end.phase is Done,
                Err(e) => end.phase matches Phase::Failed { failure } && e.reason() == failure_text(
                    failure,
                ),
            }
        }
}

/// In a run, every submission that succeeds is announced with the event of
/// its step, so the channel identifier is always there to be recorded: a run
/// is never given up for want of one. It is given up only when a phase has
/// used up its rounds.
pub proof fn lemma_runs_name_their_channels(config: ChannelConfig, outcomes: Seq<Outcome>)
    requires
        is_run(config, outcomes),
    ensures
        Handshake::start(config).after(outcomes).phase matches Phase::Failed { failure }
            ==> failure == Failure::OutOfIterations,
    decreases outcomes.len(),
{
    if outcomes.len() > 0 {
        let before = outcomes.drop_last();
        assert forall|i: int| 0 <= i < before.len() implies comes_of(
            #[trigger] asked_at(config, before, i),
            before[i],
        ) by {
            assert(before.take(i) == outcomes.take(i));
            assert(asked_at(config, before, i) == asked_at(config, outcomes, i));
        }
        lemma_runs_name_their_channels(config, before);
        assert(outcomes.take(outcomes.len() - 1) == before);
        assert(comes_of(asked_at(config, outcomes, outcomes.len() - 1), outcomes.last()));
        match (asked_at(config, outcomes, outcomes.len() - 1), outcomes.last()) {
            (Action::Submit { step, opts, .. }, Outcome::Submitted(Ok(event))) => {
                lemma_step_result_announces(step, opts, event);
            },
            _ => {},
        }
    }
}

/// Whether a handshake started with `config` can be given up with `error`.
pub open spec fn given_up_with(config: ChannelConfig, error: ChannelError) -> bool {
    exists|end_config: ChannelConfig| #[trigger] ends_with(config, end_config, Err(error))
}

/// Builds the transaction of `step` for `dst_chain`, submits it there and
/// returns the event that announces the step. Where the transaction cannot
/// be built, the error of that is returned and nothing is submitted. An
/// error of the submission is passed on as it is, and the events of the
/// response decide as `step_event` says.
fn submit<D: ClientUpdater, S: ChainHandle>(
    dst_chain: &D,
    src_chain: &S,
    step: Step,
    opts: &ChannelConfig,
) -> (r: Result<IBCEvent, Error>)
    ensures
        step_result(step, *opts, event_result_view(r)),
        r matches Ok(event) ==> announces(step, event),
{
    let built = match step {
        Step::OpenInit => build_chan_init(dst_chain, src_chain, opts),
        Step::OpenTry => build_chan_try(dst_chain, src_chain, opts),
        Step::OpenAck => build_chan_ack(dst_chain, src_chain, opts),
        Step::OpenConfirm => build_chan_confirm(dst_chain, src_chain, opts),
    };
    let dst_msgs = match built {
        Err(e) => {
            return Err(e);
        },
        Ok(dst_msgs) => dst_msgs,
    };
    let ghost built_msgs = msgs_view(dst_msgs@);
    let sending = dst_chain.send_msgs(dst_msgs);
    let ghost answer = sending;
    let r = match sending {
        Err(e) => Err(e),
        Ok(events) => find_step_event(step, opts, events),
    };
    assert(built_by(step, *opts, built_msgs) && submitted(step, *opts, answer)
        == event_result_view(r));
    r
}

/// Does what the handshake asks for. A message for chain A has chain A as
/// its destination and chain B as the source of its proofs, and the other
/// way round for chain B; it is built from the configuration that the action
/// names. A channel end is read with the port, the channel and the height
/// that the action names.
fn carry_out<A: ClientUpdater, B: ClientUpdater>(a_chain: &A, b_chain: &B, action: &Action) -> (r:
    Outcome)
    requires
        action is Submit || action is Observe,
    ensures
        comes_of(*action, r),
{
    match action {
        Action::Submit { step, on: End::A, opts } => Outcome::Submitted(
            submit(a_chain, b_chain, *step, opts),
        ),
        Action::Submit { step, on: End::B, opts } => Outcome::Submitted(
            submit(b_chain, a_chain, *step, opts),
        ),
        Action::Observe { on: End::A, port_id, channel_id, height } => Outcome::Observed(
            a_chain.query_channel(port_id, channel_id, *height),
        ),
        Action::Observe { on: End::B, port_id, channel_id, height } => Outcome::Observed(
            b_chain.query_channel(port_id, channel_id, *height),
        ),
        _ => vstd::pervasive::unreached(),
    }
}

/// The reason given for a handshake that was given up.
pub open spec fn failure_text(failure: Failure) -> Seq<char> {
    match failure {
        Failure::NoChannelId => "cannot extract channel_id from result"@,
        Failure::OutOfIterations => "Failed to finish channel handshake in 10 iterations"@,
    }
}

fn give_up(failure: Failure) -> (r: ChannelError)
    ensures
        r.reason() == failure_text(failure),
{
    match failure {
        Failure::NoChannelId => ChannelError::Failed(
            "cannot extract channel_id from result".to_owned(),
        ),
        Failure::OutOfIterations => {
            assert(MAX_ITER == 10);
            ChannelError::Failed("Failed to finish channel handshake in 10 iterations".to_owned())
        },
    }
}

/// Whether two configurations differ in nothing but the channel identifiers
/// of their sides.
pub open spec fn same_but_channel_ids(before: ChannelConfig, after: ChannelConfig) -> bool {
    &&& after.ordering == before.ordering
    &&& after.a_config.chain_id == before.a_config.chain_id
    &&& after.a_config.connection_id == before.a_config.connection_id
    &&& after.a_config.client_id == before.a_config.client_id
    &&& after.a_config.port_id == before.a_config.port_id
    &&& after.b_config.chain_id == before.b_config.chain_id
    &&& after.b_config.connection_id == before.b_config.connection_id
    &&& after.b_config.client_id == before.b_config.client_id
    &&& after.b_config.port_id == before.b_config.port_id
}

/// A channel on top of a connection.
pub struct Channel<A: ClientUpdater, B: ClientUpdater> {
    pub config: ChannelConfig,
    pub connection: Connection<A, B>,
}

impl<A: ClientUpdater, B: ClientUpdater> Channel<A, B> {
    /// The configuration with which the handshake of a new channel starts:
    /// `config` with the clients and connections of the connection.
    pub open spec fn inherited(config: ChannelConfig, conn: ConnectionConfig) -> ChannelConfig {
        ChannelConfig {
            ordering: config.ordering,
            a_config: ChannelConfigSide {
                client_id: conn.a_config.client_id,
                connection_id: conn.a_config.connection_id,
                ..config.a_config
            },
            b_config: ChannelConfigSide {
                client_id: conn.b_config.client_id,
                connection_id: conn.b_config.connection_id,
                ..config.b_config
            },
        }
    }

    /// Creates a new channel on top of the existing connection: takes the
    /// clients and connections of the two sides from the connection and runs
    /// the channel handshake. The channel returned keeps the connection; its
    /// configuration is the one that the handshake ended with, which is the
    /// inherited one but for the channel identifiers that the chains gave.
    pub fn new(connection: Connection<A, B>, config: ChannelConfig) -> (r: Result<
        Channel<A, B>,
        ChannelError,
    >)
        ensures
            r matches Ok(channel) ==> {
                &&& channel.connection == connection
                &&& ends_with(Self::inherited(config, connection.config), channel.config, Ok(()))
                &&& same_but_channel_ids(
                    Self::inherited(config, connection.config),
                    channel.config,
                )
            },
            r matches Err(e) ==> given_up_with(Self::inherited(config, connection.config), e)
                && e.reason() == failure_text(Failure::OutOfIterations),
    {
        let mut opts = config;
        opts.a_config.set_client_id(connection.config.a_config.client_id());
        opts.b_config.set_client_id(connection.config.b_config.client_id());
        opts.a_config.set_connection_id(connection.config.a_config.connection_id());
        opts.b_config.set_connection_id(connection.config.b_config.connection_id());
        assert(opts == Self::inherited(config, connection.config));
        let mut channel = Channel { config: opts, connection };
        match channel.handshake() {
            Err(e) => {
                assert(ends_with(Self::inherited(config, connection.config), channel.config, Err(e)));
                Err(e)
            },
            Ok(()) => Ok(channel),
        }
    }

    /// Returns the underlying connection of this channel
    pub fn connection(&self) -> (r: &Connection<A, B>)
        ensures
            *r == self.connection,
    {
        &self.connection
    }

    /// Executes the channel handshake protocol (ICS004): does what the
    /// handshake machine asks for until the machine is done. Whatever the
    /// chains answer, the handshake ends; the configuration it leaves and
    /// the result are those of a run of the machine, and nothing but the
    /// channel identifiers has changed in the configuration.
    fn handshake(&mut self) -> (r: Result<(), ChannelError>)
        ensures
            final(self).connection == old(self).connection,
            ends_with(old(self).config, final(self).config, r),
            same_but_channel_ids(old(self).config, final(self).config),
            r matches Err(e) ==> e.reason() == failure_text(Failure::OutOfIterations),
    {
        let ghost before = self.config;
        let ghost mut taken: Seq<Outcome> = Seq::empty();
        let mut hs = Handshake::new(self.config.clone());
        loop
            invariant
                same_but_channel_ids(before, hs.config),
                *self == *old(self),
                before == old(self).config,
                is_run(before, taken),
                hs == Handshake::start(before).after(taken),
            decreases hs.fuel(),
        {
            let action = hs.next_action();
            match &action {
                Action::Succeed => {
                    self.config = hs.config;
                    return Ok(());
                },
                Action::GiveUp { failure } => {
                    proof {
                        lemma_runs_name_their_channels(before, taken);
                    }
                    self.config = hs.config;
                    return Err(give_up(*failure));
                },
                _ => {
                    let outcome = carry_out(
                        self.connection.chain_a(),
                        self.connection.chain_b(),
                        &action,
                    );
                    proof {
                        crate::handshake::lemma_only_channel_ids_change(hs, outcome);
                        crate::handshake::lemma_handshake_ends(hs, outcome);
                        let longer = taken.push(outcome);
                        assert(longer.drop_last() == taken);
                        assert forall|i: int| 0 <= i < longer.len() implies comes_of(
                            #[trigger] asked_at(before, longer, i),
                            longer[i],
                        ) by {
                            if i < taken.len() {
                                assert(longer.take(i) == taken.take(i));
                                assert(asked_at(before, longer, i) == asked_at(before, taken, i));
                            } else {
                                assert(longer.take(i) == taken);
                            }
                        }
                        taken = longer;
                    }
                    hs = hs.advance(outcome);
                },
            }
        }
    }
}

} // verus!
