//! The channel opening handshake as a state machine. The machine says what
//! to do next, takes what came of it, and decides how to go on; it never
//! reaches a chain itself.
//!
//! There are three phases, each with its own budget of `MAX_ITER` rounds.
//! Phase I sends `ChanOpenInit` to chain A until A announces the channel,
//! and records the identifier A gave it. Phase II does the same with
//! `ChanOpenTry` on chain B. Phase III reads both channel ends and sends
//! whatever message the pair of their states calls for, until both are open.
//! A phase that uses up its rounds ends the handshake with a failure.
use crate::builder::Step;
use crate::channel::{extract_channel_id, ChannelConfig};
use crate::error::Error;
use crate::event::IBCEvent;
use crate::height::Height;
use crate::ics04::{ChannelEnd, State};
use crate::identifier::{ChannelId, PortId};
use crate::relay::MAX_ITER;
use vstd::prelude::*;

verus! {

/// One of the two chains of a channel.
#[derive(Clone, Copy, Debug, PartialEq, Eq, Structural)]
pub enum End {
    A,
    B,
}

/// Why a handshake was given up.
#[derive(Clone, Copy, Debug, PartialEq, Eq, Structural)]
pub enum Failure {
    /// A chain reported success with an event that names no new channel.
    NoChannelId,
    /// A phase used up its rounds: the channel was not announced in phase I
    /// or II, or not open on both ends by the end of phase III.
    OutOfIterations,
}

/// What the driver of a handshake has to do next, with all that it needs
/// to do it.
#[derive(Debug, PartialEq, Eq)]
pub enum Action {
    /// Build the transaction of `step` from the configuration `opts`, whose
    /// destination side is chain `on` and whose source side is the other
    /// chain, and submit it to `on`.
    Submit { step: Step, on: End, opts: ChannelConfig },
    /// Read from chain `on` the channel end `channel_id` of the port
    /// `port_id` at `height`.
    Observe { on: End, port_id: PortId, channel_id: ChannelId, height: Height },
    /// Both ends are open: report success.
    Succeed,
    /// Report the failure.
    GiveUp { failure: Failure },
}

/// What the states of the two channel ends call for in phase III.
#[derive(Clone, Copy, Debug, PartialEq, Eq, Structural)]
pub enum Dispatch {
    /// Send the message of `step` to chain `on`.
    Send { step: Step, on: End },
    /// Both ends are open: the handshake is done.
    Finish,
}

/// What came of an action.
#[derive(Debug, PartialEq, Eq)]
pub enum Outcome {
    /// The event that announced the step, or the error of the submission.
    Submitted(Result<IBCEvent, Error>),
    /// The channel end read, or the error of the query.
    Observed(Result<ChannelEnd, Error>),
}

/// Where a handshake stands.
#[derive(Clone, Copy, Debug, PartialEq, Eq, Structural)]
pub enum Phase {
    /// Phase I: `ChanOpenInit` is being sent to chain A.
    Init,
    /// Phase II: `ChanOpenTry` is being sent to chain B.
    Try,
    /// Phase III, start of a round: the end on chain A is being read.
    ReadA,
    /// Phase III: the end on A is in `a_state`; the end on B is being read.
    ReadB { a_state: State },
    /// Phase III: the message that the two states call for is being sent.
    Sending { step: Step, on: End },
    /// Both ends are open.
    Done,
    /// The handshake was given up.
    Failed { failure: Failure },
}

/// What the pair of states of the two channel ends calls for: a message to
/// one of the chains, the end of the handshake when both are open, and
/// nothing (`None`) for every other pair, which is looked at again in the
/// next round.
pub open spec fn called_for(a_state: State, b_state: State) -> Option<Dispatch> {
    match (a_state, b_state) {
        (State::Init, State::TryOpen) => Some(Dispatch::Send { step: Step::OpenAck, on: End::A }),
        (State::TryOpen, State::TryOpen) => Some(
            Dispatch::Send { step: Step::OpenAck, on: End::A },
        ),
        (State::Open, State::TryOpen) => Some(
            Dispatch::Send { step: Step::OpenConfirm, on: End::B },
        ),
        (State::TryOpen, State::Open) => Some(
            Dispatch::Send { step: Step::OpenConfirm, on: End::A },
        ),
        (State::Open, State::Open) => Some(Dispatch::Finish),
        _ => None,
    }
}

/// Decides from the states of the two channel ends what phase III does next.
pub fn dispatch(a_state: State, b_state: State) -> (r: Option<Dispatch>)
    ensures
        r == called_for(a_state, b_state),
{
    match (a_state, b_state) {
        (State::Init, State::TryOpen) | (State::TryOpen, State::TryOpen) => Some(
            Dispatch::Send { step: Step::OpenAck, on: End::A },
        ),
        (State::Open, State::TryOpen) => Some(
            Dispatch::Send { step: Step::OpenConfirm, on: End::B },
        ),
        (State::TryOpen, State::Open) => Some(
            Dispatch::Send { step: Step::OpenConfirm, on: End::A },
        ),
        (State::Open, State::Open) => Some(Dispatch::Finish),
        _ => None,
    }
}

/// A handshake in progress: the configuration of the channel, the phase,
/// and the number of the round within the phase, counted from 1.
#[derive(Debug, PartialEq, Eq)]
pub struct Handshake {
    pub config: ChannelConfig,
    pub phase: Phase,
    pub round: u32,
}

impl Handshake {
    /// The handshake before anything was done: phase I, first round.
    pub open spec fn start(config: ChannelConfig) -> Handshake {
        Handshake { config, phase: Phase::Init, round: 1 }
    }

    /// The configuration from which a message for chain `on` is built: the
    /// flipped one for chain A, so that A is its destination, and the
    /// configuration as it is for chain B.
    pub open spec fn opts_for(self, on: End) -> ChannelConfig {
        match on {
            End::A => self.config.flipped(),
            End::B => self.config,
        }
    }

    /// The reading of the channel end on chain `on`: the port and the channel
    /// of that side, at the zero height, which asks for the latest.
    pub open spec fn reading(self, on: End) -> Action {
        match on {
            End::A => Action::Observe {
                on,
                port_id: self.config.a_config.port_id,
                channel_id: self.config.a_config.channel_id,
                height: Height::spec_zero(),
            },
            End::B => Action::Observe {
                on,
                port_id: self.config.b_config.port_id,
                channel_id: self.config.b_config.channel_id,
                height: Height::spec_zero(),
            },
        }
    }

    /// What is to be done in the present state.
    pub open spec fn action(self) -> Action {
        match self.phase {
            Phase::Init => Action::Submit {
                step: Step::OpenInit,
                on: End::A,
                opts: self.opts_for(End::A),
            },
            Phase::Try => Action::Submit {
                step: Step::OpenTry,
                on: End::B,
                opts: self.opts_for(End::B),
            },
            Phase::ReadA => self.reading(End::A),
            Phase::ReadB { .. } => self.reading(End::B),
            Phase::Sending { step, on } => Action::Submit { step, on, opts: self.opts_for(on) },
            Phase::Done => Action::Succeed,
            Phase::Failed { failure } => Action::GiveUp { failure },
        }
    }

    /// The state after a round of phase I or II that did not succeed: the
    /// next round of the phase, or failure once the budget of the phase is
    /// used up.
    pub open spec fn retried(self) -> Handshake {
        if self.round < MAX_ITER {
            Handshake { round: (self.round + 1) as u32, ..self }
        } else {
            Handshake { phase: Phase::Failed { failure: Failure::OutOfIterations }, ..self }
        }
    }

    /// The state after a round of phase III: the next round, or failure once
    /// the budget is used up.
    pub open spec fn next_round(self) -> Handshake {
        if self.round < MAX_ITER {
            Handshake { phase: Phase::ReadA, round: (self.round + 1) as u32, ..self }
        } else {
            Handshake { phase: Phase::Failed { failure: Failure::OutOfIterations }, ..self }
        }
    }

    /// The state after `outcome` came of the present action.
    ///
    /// In phases I and II the announcement of the step carries the identifier
    /// of the new channel end, which is recorded for the side concerned; any
    /// other event reported as success ends the handshake, and an error is
    /// retried until the rounds of the phase are used up, which ends the
    /// handshake too. In phase III a failed query ends the round, the two states
    /// read decide what is sent, and what comes of sending is not looked at:
    /// the next round reads the states again. An outcome of another form than
    /// the one awaited, a channel end where a submission was asked for or the
    /// other way round, counts as a failure of the action. A handshake that
    /// is over stays as it is.
    pub open spec fn advanced(self, outcome: Outcome) -> Handshake {
        match (self.phase, outcome) {
            (Phase::Init, Outcome::Submitted(Ok(IBCEvent::OpenInitChannel(ev)))) => Handshake {
                config: ChannelConfig {
                    a_config: crate::channel::ChannelConfigSide {
                        channel_id: ev.channel_id,
                        ..self.config.a_config
                    },
                    ..self.config
                },
                phase: Phase::Try,
                round: 1,
            },
            (Phase::Try, Outcome::Submitted(Ok(IBCEvent::OpenTryChannel(ev)))) => Handshake {
                config: ChannelConfig {
                    b_config: crate::channel::ChannelConfigSide {
                        channel_id: ev.channel_id,
                        ..self.config.b_config
                    },
                    ..self.config
                },
                phase: Phase::ReadA,
                round: 1,
            },
            (Phase::Init, Outcome::Submitted(Ok(_))) => Handshake {
                phase: Phase::Failed { failure: Failure::NoChannelId },
                ..self
            },
            (Phase::Try, Outcome::Submitted(Ok(_))) => Handshake {
                phase: Phase::Failed { failure: Failure::NoChannelId },
                ..self
            },
            (Phase::Init, _) => self.retried(),
            (Phase::Try, _) => self.retried(),
            (Phase::ReadA, Outcome::Observed(Ok(end))) => Handshake {
                phase: Phase::ReadB { a_state: end.state },
                ..self
            },
            (Phase::ReadB { a_state }, Outcome::Observed(Ok(end))) => match called_for(
                a_state,
                end.state,
            ) {
                Some(Dispatch::Send { step, on }) => Handshake {
                    phase: Phase::Sending { step, on },
                    ..self
                },
                Some(Dispatch::Finish) => Handshake { phase: Phase::Done, ..self },
                None => self.next_round(),
            },
            (Phase::ReadA, _) => self.next_round(),
            (Phase::ReadB { .. }, _) => self.next_round(),
            (Phase::Sending { .. }, _) => self.next_round(),
            (Phase::Done, _) => self,
            (Phase::Failed { .. }, _) => self,
        }
    }

    /// An upper bound on the actions still to come; it falls with every
    /// outcome taken, so every handshake ends.
    pub open spec fn fuel(self) -> nat {
        let rounds_left: nat = if self.round < MAX_ITER {
            (MAX_ITER - self.round) as nat
        } else {
            0
        };
        match self.phase {
            Phase::Init => rounds_left + 1 + 4 * MAX_ITER as nat,
            Phase::Try => rounds_left + 1 + 3 * MAX_ITER as nat,
            Phase::ReadA => 3 * rounds_left + 3,
            Phase::ReadB { .. } => 3 * rounds_left + 2,
            Phase::Sending { .. } => 3 * rounds_left + 1,
            Phase::Done => 0,
            Phase::Failed { .. } => 0,
        }
    }

    /// Whether the handshake is over.
    pub open spec fn is_over(self) -> bool {
        self.phase is Done || self.phase is Failed
    }

    /// Starts a handshake for the channel `config`.
    pub fn new(config: ChannelConfig) -> (r: Handshake)
        ensures
            r == Handshake::start(config),
    {
        Handshake { config, phase: Phase::Init, round: 1 }
    }

    fn read(&self, on: End) -> (r: Action)
        ensures
            r == self.reading(on),
    {
        let side = match on {
            End::A => self.config.a_end(),
            End::B => self.config.b_end(),
        };
        Action::Observe {
            on,
            port_id: side.port_id().clone(),
            channel_id: side.channel_id().clone(),
            height: Height::zero(),
        }
    }

    fn send(&self, step: Step, on: End) -> (r: Action)
        ensures
            r == (Action::Submit { step, on, opts: self.opts_for(on) }),
    {
        let opts = match on {
            End::A => self.config.flipped(),
            End::B => self.config.clone(),
        };
        Action::Submit { step, on, opts }
    }

    /// What the driver has to do next.
    pub fn next_action(&self) -> (r: Action)
        ensures
            r == self.action(),
    {
        match self.phase {
            Phase::Init => self.send(Step::OpenInit, End::A),
            Phase::Try => self.send(Step::OpenTry, End::B),
            Phase::ReadA => self.read(End::A),
            Phase::ReadB { .. } => self.read(End::B),
            Phase::Sending { step, on } => self.send(step, on),
            Phase::Done => Action::Succeed,
            Phase::Failed { failure } => Action::GiveUp { failure },
        }
    }

    fn retry(self) -> (r: Handshake)
        ensures
            r == self.retried(),
    {
        if self.round < MAX_ITER {
            Handshake { round: self.round + 1, ..self }
        } else {
            Handshake { phase: Phase::Failed { failure: Failure::OutOfIterations }, ..self }
        }
    }

    fn end_round(self) -> (r: Handshake)
        ensures
            r == self.next_round(),
    {
        if self.round < MAX_ITER {
            Handshake { phase: Phase::ReadA, round: self.round + 1, ..self }
        } else {
            Handshake { phase: Phase::Failed { failure: Failure::OutOfIterations }, ..self }
        }
    }

    /// Takes what came of the action last asked for and moves on.
    pub fn advance(self, outcome: Outcome) -> (r: Handshake)
        ensures
            r == self.advanced(outcome),
    {
        match self.phase {
            Phase::Init => match outcome {
                Outcome::Submitted(Ok(event)) => match (&event, extract_channel_id(&event)) {
                    (IBCEvent::OpenInitChannel(_), Ok(channel_id)) => {
                        let Handshake { config, phase: _, round: _ } = self;
                        let ChannelConfig { ordering, a_config, b_config } = config;
                        let mut a_config = a_config;
                        a_config.channel_id = channel_id.clone();
                        Handshake {
                            config: ChannelConfig { ordering, a_config, b_config },
                            phase: Phase::Try,
                            round: 1,
                        }
                    },
                    _ => Handshake {
                        phase: Phase::Failed { failure: Failure::NoChannelId },
                        ..self
                    },
                },
                _ => self.retry(),
            },
            Phase::Try => match outcome {
                Outcome::Submitted(Ok(event)) => match (&event, extract_channel_id(&event)) {
                    (IBCEvent::OpenTryChannel(_), Ok(channel_id)) => {
                        let Handshake { config, phase: _, round: _ } = self;
                        let ChannelConfig { ordering, a_config, b_config } = config;
                        let mut b_config = b_config;
                        b_config.channel_id = channel_id.clone();
                        Handshake {
                            config: ChannelConfig { ordering, a_config, b_config },
                            phase: Phase::ReadA,
                            round: 1,
                        }
                    },
                    _ => Handshake {
                        phase: Phase::Failed { failure: Failure::NoChannelId },
                        ..self
                    },
                },
                _ => self.retry(),
            },
            Phase::ReadA => match outcome {
                Outcome::Observed(Ok(end)) => Handshake {
                    phase: Phase::ReadB { a_state: end.state },
                    ..self
                },
                _ => self.end_round(),
            },
            Phase::ReadB { a_state } => match outcome {
                Outcome::Observed(Ok(end)) => match dispatch(a_state, end.state) {
                    Some(Dispatch::Send { step, on }) => Handshake {
                        phase: Phase::Sending { step, on },
                        ..self
                    },
                    Some(Dispatch::Finish) => Handshake { phase: Phase::Done, ..self },
                    None => self.end_round(),
                },
                _ => self.end_round(),
            },
            Phase::Sending { .. } => self.end_round(),
            Phase::Done => self,
            Phase::Failed { .. } => self,
        }
    }
}

/// The channel identifier of side A is written only when chain A announces
/// the channel in phase I, with the identifier that the announcement
/// carries; the handshake then leaves phase I, and it never comes back to
/// it. So the identifier is written at most once.
pub proof fn lemma_a_channel_id_written_once(hs: Handshake, outcome: Outcome)
    ensures
        hs.advanced(outcome).config.a_config.channel_id != hs.config.a_config.channel_id ==> {
            &&& hs.phase is Init
            &&& outcome matches Outcome::Submitted(Ok(IBCEvent::OpenInitChannel(ev)))
            &&& hs.advanced(outcome).config.a_config.channel_id == ev.channel_id
            &&& hs.advanced(outcome).phase is Try
        },
        !(hs.phase is Init) ==> !(hs.advanced(outcome).phase is Init),
{
}

/// The channel identifier of side B is written only when chain B announces
/// the channel in phase II, with the identifier that the announcement
/// carries; the handshake then leaves phase II, and it never comes back to
/// it. So the identifier is written at most once.
pub proof fn lemma_b_channel_id_written_once(hs: Handshake, outcome: Outcome)
    ensures
        hs.advanced(outcome).config.b_config.channel_id != hs.config.b_config.channel_id ==> {
            &&& hs.phase is Try
            &&& outcome matches Outcome::Submitted(Ok(IBCEvent::OpenTryChannel(ev)))
            &&& hs.advanced(outcome).config.b_config.channel_id == ev.channel_id
            &&& hs.advanced(outcome).phase is ReadA
        },
        !(hs.phase is Init || hs.phase is Try) ==> !(hs.advanced(outcome).phase is Try),
{
}

/// Nothing but the two channel identifiers ever changes in the configuration:
/// the ordering, the chains, the ports, the clients and the connections of a
/// handshake are those it was started with.
pub proof fn lemma_only_channel_ids_change(hs: Handshake, outcome: Outcome)
    ensures
        ({
            let before = hs.config;
            let after = hs.advanced(outcome).config;
            &&& after.ordering == before.ordering
            &&& after.a_config.chain_id == before.a_config.chain_id
            &&& after.a_config.connection_id == before.a_config.connection_id
            &&& after.a_config.client_id == before.a_config.client_id
            &&& after.a_config.port_id == before.a_config.port_id
            &&& after.b_config.chain_id == before.b_config.chain_id
            &&& after.b_config.connection_id == before.b_config.connection_id
            &&& after.b_config.client_id == before.b_config.client_id
            &&& after.b_config.port_id == before.b_config.port_id
        }),
{
}

/// A round of phase III that finds both ends open ends the handshake with
/// success, and nothing was submitted in that round: reading the two ends is
/// all it did.
pub proof fn lemma_open_ends_need_no_transaction(hs: Handshake, a_end: ChannelEnd, b_end: ChannelEnd)
    requires
        hs.phase is ReadA,
        a_end.state == State::Open,
        b_end.state == State::Open,
    ensures
        ({
            let read_a = hs.advanced(Outcome::Observed(Ok(a_end)));
            let read_b = read_a.advanced(Outcome::Observed(Ok(b_end)));
            &&& hs.action() == hs.reading(End::A)
            &&& read_a.action() == hs.reading(End::B)
            &&& read_b.phase is Done
            &&& read_b.action() == Action::Succeed
            &&& read_b.config == hs.config
        }),
{
}

/// Phase III sends a message only for the four pairs of states that call for
/// one; for every other pair that is not open on both sides, a closed end
/// among them, the round ends without a transaction.
pub proof fn lemma_other_pairs_wait(a_state: State, b_state: State)
    ensures
        called_for(a_state, b_state) is Some ==> (a_state == State::Init || a_state
            == State::TryOpen || a_state == State::Open) && (b_state == State::TryOpen || b_state
            == State::Open),
        a_state == State::Closed || b_state == State::Closed || a_state == State::Uninitialized
            || b_state == State::Uninitialized ==> called_for(a_state, b_state) is None,
{
}

/// Every outcome taken brings a handshake that is not over closer to its end.
pub proof fn lemma_handshake_ends(hs: Handshake, outcome: Outcome)
    requires
        !hs.is_over(),
    ensures
        hs.advanced(outcome).fuel() < hs.fuel(),
{
}

/// A failed attempt of phase I or II changes nothing in the configuration:
/// it is tried again until the rounds of the phase are used up, and then the
/// handshake is given up. No later phase begins without the announcement
/// that the phase was waiting for.
pub proof fn lemma_failed_attempt_is_retried(hs: Handshake, e: Error)
    requires
        hs.phase is Init || hs.phase is Try,
    ensures
        ({
            let next = hs.advanced(Outcome::Submitted(Err(e)));
            &&& next.config == hs.config
            &&& hs.round < MAX_ITER ==> next.phase == hs.phase && next.round == hs.round + 1
            &&& hs.round >= MAX_ITER ==> next.phase == Phase::Failed {
                failure: Failure::OutOfIterations,
            }
        }),
{
}

/// Phase II begins only with the announcement of the channel by chain A,
/// and phase III only with the announcement by chain B: a handshake that
/// never saw them sends neither a `ChanOpenTry` nor anything after it.
pub proof fn lemma_phases_begin_with_announcements(hs: Handshake, outcome: Outcome)
    ensures
        !(hs.phase is Try) && hs.advanced(outcome).phase is Try ==> hs.phase is Init
            && outcome matches Outcome::Submitted(Ok(IBCEvent::OpenInitChannel(_))),
        (hs.phase is Init || hs.phase is Try) && !(hs.advanced(outcome).phase is Init
            || hs.advanced(outcome).phase is Try || hs.advanced(outcome).phase is Failed)
            ==> hs.phase is Try && outcome matches Outcome::Submitted(
            Ok(IBCEvent::OpenTryChannel(_)),
        ),
{
}

impl Handshake {
    /// The state after a whole sequence of outcomes was taken, one after
    /// the other.
    pub open spec fn after(self, outcomes: Seq<Outcome>) -> Handshake
        decreases outcomes.len(),
    {
        if outcomes.len() == 0 {
            self
        } else {
            self.after(outcomes.drop_last()).advanced(outcomes.last())
        }
    }
}

/// The identifier of the new channel end that `outcome` announces for side
/// `on`: chain A announces with the event of `ChanOpenInit`, chain B with the
/// event of `ChanOpenTry`.
pub open spec fn announced_id(on: End, outcome: Outcome) -> Option<crate::identifier::ChannelId> {
    match (on, outcome) {
        (End::A, Outcome::Submitted(Ok(IBCEvent::OpenInitChannel(ev)))) => Some(ev.channel_id),
        (End::B, Outcome::Submitted(Ok(IBCEvent::OpenTryChannel(ev)))) => Some(ev.channel_id),
        _ => None,
    }
}

/// The channel identifier that a configuration holds for side `on`.
pub open spec fn channel_id_of(config: ChannelConfig, on: End) -> crate::identifier::ChannelId {
    match on {
        End::A => config.a_config.channel_id,
        End::B => config.b_config.channel_id,
    }
}

/// Whether the phase in which the channel identifier of side `on` is written
/// still lies ahead of, or is, the phase `phase`.
spec fn may_still_write(phase: Phase, on: End) -> bool {
    match on {
        End::A => phase is Init,
        End::B => phase is Init || phase is Try,
    }
}

proof fn lemma_written_when_the_phase_is_left(
    config: ChannelConfig,
    outcomes: Seq<Outcome>,
    on: End,
)
    ensures
        may_still_write(Handshake::start(config).after(outcomes).phase, on) ==> channel_id_of(
            Handshake::start(config).after(outcomes).config,
            on,
        ) == channel_id_of(config, on),
    decreases outcomes.len(),
{
    if outcomes.len() > 0 {
        lemma_written_when_the_phase_is_left(config, outcomes.drop_last(), on);
    }
}

/// Over a whole run of the handshake, whatever comes of its actions, the
/// channel identifier of a side is written at most once, and only with the
/// identifier that the chain of that side announced: if the run has changed
/// the identifier by the time `k` outcomes were taken, it holds the same
/// identifier at the end, and an identifier that differs at the end from the
/// one at the start is the one announced by some outcome of the run.
pub proof fn lemma_channel_id_over_a_run(
    config: ChannelConfig,
    outcomes: Seq<Outcome>,
    on: End,
    k: int,
)
    requires
        0 <= k <= outcomes.len(),
    ensures
        ({
            let start = Handshake::start(config);
            let at_k = channel_id_of(start.after(outcomes.take(k)).config, on);
            let at_end = channel_id_of(start.after(outcomes).config, on);
            &&& at_k != channel_id_of(config, on) ==> at_end == at_k
            &&& at_end != channel_id_of(config, on) ==> exists|i: int|
                0 <= i < outcomes.len() && #[trigger] announced_id(on, outcomes[i]) == Some(at_end)
        }),
    decreases outcomes.len(),
{
    let start = Handshake::start(config);
    if k == outcomes.len() {
        assert(outcomes.take(k) == outcomes);
    }
    if outcomes.len() > 0 {
        let before = outcomes.drop_last();
        let last = outcomes.last();
        let k1 = if k == outcomes.len() {
            k - 1
        } else {
            k
        };
        lemma_channel_id_over_a_run(config, before, on, k1);
        lemma_written_when_the_phase_is_left(config, before, on);
        lemma_a_channel_id_written_once(start.after(before), last);
        lemma_b_channel_id_written_once(start.after(before), last);
        if k < outcomes.len() {
            assert(before.take(k) == outcomes.take(k));
        }
        let at_end = channel_id_of(start.after(outcomes).config, on);
        if at_end != channel_id_of(config, on) {
            if at_end == channel_id_of(start.after(before).config, on) {
                let i = choose|i: int|
                    0 <= i < before.len() && #[trigger] announced_id(on, before[i]) == Some(at_end);
                assert(outcomes[i] == before[i]);
            } else {
                assert(announced_id(on, outcomes[outcomes.len() - 1]) == Some(at_end));
            }
        }
    }
}

} // verus!
