use relayer::builder::{Builder, Request, Response, Side, Step};
use relayer::chain::{ConnectionEnd, Signer};
use relayer::channel::{ChannelConfig, ChannelConfigSide};
use relayer::error::{Error, Kind};
use relayer::event::{Attributes, IBCEvent};
use relayer::handshake::{dispatch, Action, Dispatch, End, Failure, Handshake, Outcome, Phase};
use relayer::height::Height;
use relayer::ics04::{ChannelEnd, Counterparty, Order, State};
use relayer::identifier::{ChainId, ChannelId, ClientId, ConnectionId, PortId};
use relayer::msgs::ChainMsg;
use relayer::proofs::Proofs;
use relayer::relay::MAX_ITER;

fn side(chain: &str, connection: &str, client: &str, port: &str, channel: &str) -> ChannelConfigSide {
    ChannelConfigSide::new(
        &ChainId::new(chain),
        &ConnectionId::new(connection),
        &ClientId::new(client),
        &PortId::new(port),
        &ChannelId::new(channel),
    )
}

fn config(a_channel: &str, b_channel: &str) -> ChannelConfig {
    ChannelConfig {
        ordering: Order::Unordered,
        a_config: side("chain-A", "connection-0", "07-tendermint-0", "transfer", a_channel),
        b_config: side("chain-B", "connection-1", "07-tendermint-1", "bank", b_channel),
    }
}

fn attributes(channel: &str) -> Attributes {
    Attributes {
        height: Height { revision_number: 0, revision_height: 5 },
        channel_id: ChannelId::new(channel),
    }
}

fn end(state: State) -> ChannelEnd {
    ChannelEnd::new(
        state,
        Order::Unordered,
        Counterparty::new(PortId::new("transfer"), None),
        vec![ConnectionId::new("connection-0")],
        "v".to_string(),
    )
}

fn failure() -> Error {
    Error { kind: Kind::Query("down".to_string()), source: None }
}

fn observed(state: State) -> Outcome {
    Outcome::Observed(Ok(end(state)))
}

/// The submission of `step` to chain `on` for the channel `cfg`: built from
/// the flipped configuration for chain A, from `cfg` itself for chain B.
fn submission(step: Step, on: End, cfg: ChannelConfig) -> Action {
    let opts = match on {
        End::A => ChannelConfig {
            ordering: cfg.ordering,
            a_config: cfg.b_config.clone(),
            b_config: cfg.a_config.clone(),
        },
        End::B => cfg,
    };
    Action::Submit { step, on, opts }
}

/// The reading of the channel end on chain `on` for the channel `cfg`.
fn reading(on: End, cfg: ChannelConfig) -> Action {
    let side = match on {
        End::A => cfg.a_config,
        End::B => cfg.b_config,
    };
    Action::Observe {
        on,
        port_id: side.port_id().clone(),
        channel_id: side.channel_id().clone(),
        height: Height { revision_number: 0, revision_height: 0 },
    }
}

const STATES: [State; 5] =
    [State::Uninitialized, State::Init, State::TryOpen, State::Open, State::Closed];

#[test]
fn dispatch_follows_the_table() {
    let ack_a = Some(Dispatch::Send { step: Step::OpenAck, on: End::A });
    let confirm_a = Some(Dispatch::Send { step: Step::OpenConfirm, on: End::A });
    let confirm_b = Some(Dispatch::Send { step: Step::OpenConfirm, on: End::B });
    for a in STATES {
        for b in STATES {
            let expected = match (a, b) {
                (State::Init, State::TryOpen) => ack_a,
                (State::TryOpen, State::TryOpen) => ack_a,
                (State::Open, State::TryOpen) => confirm_b,
                (State::TryOpen, State::Open) => confirm_a,
                (State::Open, State::Open) => Some(Dispatch::Finish),
                _ => None,
            };
            assert_eq!(dispatch(a, b), expected);
        }
    }
}

#[test]
fn handshake_starts_with_init_on_a() {
    let hs = Handshake::new(config("defaultChannel", "defaultChannel"));
    assert_eq!(hs.phase, Phase::Init);
    assert_eq!(hs.round, 1);
    let action = hs.next_action();
    assert_eq!(
        action,
        submission(Step::OpenInit, End::A, config("defaultChannel", "defaultChannel"))
    );
    // The message for chain A is built with A as its destination.
    match action {
        Action::Submit { opts, .. } => {
            assert_eq!(opts.dst().chain_id().as_str(), "chain-A");
            assert_eq!(opts.src().chain_id().as_str(), "chain-B");
            assert_eq!(opts.dst().port_id().as_str(), "transfer");
            assert_eq!(opts.src().port_id().as_str(), "bank");
        }
        other => panic!("not a submission: {:?}", other),
    }
}

#[test]
fn announcements_name_the_channels() {
    let hs = Handshake::new(config("defaultChannel", "defaultChannel"));
    let hs = hs.advance(Outcome::Submitted(Ok(IBCEvent::OpenInitChannel(attributes("channel-0")))));
    assert_eq!(hs.config, config("channel-0", "defaultChannel"));
    assert_eq!((hs.phase, hs.round), (Phase::Try, 1));
    let action = hs.next_action();
    assert_eq!(action, submission(Step::OpenTry, End::B, config("channel-0", "defaultChannel")));
    match action {
        Action::Submit { opts, .. } => {
            assert_eq!(opts.dst().chain_id().as_str(), "chain-B");
            assert_eq!(opts.src().channel_id().as_str(), "channel-0");
        }
        other => panic!("not a submission: {:?}", other),
    }
    let hs = hs.advance(Outcome::Submitted(Ok(IBCEvent::OpenTryChannel(attributes("channel-7")))));
    assert_eq!(hs.config, config("channel-0", "channel-7"));
    assert_eq!((hs.phase, hs.round), (Phase::ReadA, 1));
    assert_eq!(
        hs.next_action(),
        Action::Observe {
            on: End::A,
            port_id: PortId::new("transfer"),
            channel_id: ChannelId::new("channel-0"),
            height: Height { revision_number: 0, revision_height: 0 },
        }
    );
}

#[test]
fn phase_one_gives_up_after_its_last_round() {
    let mut hs = Handshake::new(config("defaultChannel", "defaultChannel"));
    for round in 1..MAX_ITER {
        assert_eq!((hs.phase, hs.round), (Phase::Init, round));
        assert_eq!(
            hs.next_action(),
            submission(Step::OpenInit, End::A, config("defaultChannel", "defaultChannel"))
        );
        hs = hs.advance(Outcome::Submitted(Err(failure())));
    }
    assert_eq!((hs.phase, hs.round), (Phase::Init, MAX_ITER));
    hs = hs.advance(Outcome::Submitted(Err(failure())));
    assert_eq!(hs.phase, Phase::Failed { failure: Failure::OutOfIterations });
    assert_eq!(hs.next_action(), Action::GiveUp { failure: Failure::OutOfIterations });
    assert_eq!(hs.config, config("defaultChannel", "defaultChannel"));
}

#[test]
fn phase_two_gives_up_after_its_last_round() {
    let mut hs = Handshake::new(config("defaultChannel", "defaultChannel"));
    hs = hs.advance(Outcome::Submitted(Ok(IBCEvent::OpenInitChannel(attributes("channel-0")))));
    for round in 1..=MAX_ITER {
        assert_eq!((hs.phase, hs.round), (Phase::Try, round));
        hs = hs.advance(Outcome::Submitted(Err(failure())));
    }
    assert_eq!(hs.phase, Phase::Failed { failure: Failure::OutOfIterations });
    assert_eq!(hs.next_action(), Action::GiveUp { failure: Failure::OutOfIterations });
    assert_eq!(hs.config, config("channel-0", "defaultChannel"));
}

#[test]
fn outcome_of_another_form_counts_as_a_failure() {
    let hs = Handshake::new(config("defaultChannel", "defaultChannel"));
    let hs = hs.advance(observed(State::Open));
    assert_eq!((hs.phase, hs.round), (Phase::Init, 2));
    let hs = Handshake { config: config("channel-0", "channel-7"), phase: Phase::ReadA, round: 1 };
    let hs = hs.advance(Outcome::Submitted(Err(failure())));
    assert_eq!((hs.phase, hs.round), (Phase::ReadA, 2));
}

#[test]
fn unexpected_announcement_gives_no_channel_id() {
    let hs = Handshake::new(config("defaultChannel", "defaultChannel"));
    let hs = hs.advance(Outcome::Submitted(Ok(IBCEvent::OpenTryChannel(attributes("channel-0")))));
    assert_eq!(hs.phase, Phase::Failed { failure: Failure::NoChannelId });
    assert_eq!(hs.config, config("defaultChannel", "defaultChannel"));
    assert_eq!(hs.next_action(), Action::GiveUp { failure: Failure::NoChannelId });
    let hs = Handshake { config: config("channel-0", "defaultChannel"), phase: Phase::Try, round: 3 };
    let hs = hs.advance(Outcome::Submitted(Ok(IBCEvent::Other)));
    assert_eq!(hs.phase, Phase::Failed { failure: Failure::NoChannelId });
    assert_eq!(hs.config, config("channel-0", "defaultChannel"));
}

#[test]
fn round_reads_both_ends_then_sends() {
    let start = || Handshake { config: config("channel-0", "channel-7"), phase: Phase::ReadA, round: 4 };
    let hs = start().advance(observed(State::Init));
    assert_eq!((hs.phase, hs.round), (Phase::ReadB { a_state: State::Init }, 4));
    assert_eq!(hs.next_action(), reading(End::B, config("channel-0", "channel-7")));
    let hs = hs.advance(observed(State::TryOpen));
    assert_eq!(hs.phase, Phase::Sending { step: Step::OpenAck, on: End::A });
    assert_eq!(
        hs.next_action(),
        submission(Step::OpenAck, End::A, config("channel-0", "channel-7"))
    );
    // What comes of sending is not looked at.
    let hs = hs.advance(Outcome::Submitted(Err(failure())));
    assert_eq!((hs.phase, hs.round), (Phase::ReadA, 5));
    assert_eq!(hs.config, config("channel-0", "channel-7"));
}

#[test]
fn open_on_both_sides_is_success_without_a_transaction() {
    let hs = Handshake { config: config("channel-0", "channel-7"), phase: Phase::ReadA, round: 1 };
    assert_eq!(hs.next_action(), reading(End::A, config("channel-0", "channel-7")));
    let hs = hs.advance(observed(State::Open));
    assert_eq!(
        hs.next_action(),
        Action::Observe {
            on: End::B,
            port_id: PortId::new("bank"),
            channel_id: ChannelId::new("channel-7"),
            height: Height { revision_number: 0, revision_height: 0 },
        }
    );
    let hs = hs.advance(observed(State::Open));
    assert_eq!(hs.phase, Phase::Done);
    assert_eq!(hs.next_action(), Action::Succeed);
    assert_eq!(hs.config, config("channel-0", "channel-7"));
}

#[test]
fn failed_query_ends_the_round() {
    let hs = Handshake { config: config("channel-0", "channel-7"), phase: Phase::ReadA, round: 2 };
    let hs = hs.advance(Outcome::Observed(Err(failure())));
    assert_eq!((hs.phase, hs.round), (Phase::ReadA, 3));
    let hs = hs.advance(observed(State::Open));
    let hs = hs.advance(Outcome::Observed(Err(failure())));
    assert_eq!((hs.phase, hs.round), (Phase::ReadA, 4));
}

#[test]
fn phase_three_gives_up_after_its_last_round() {
    let hs =
        Handshake { config: config("channel-0", "channel-7"), phase: Phase::ReadA, round: MAX_ITER };
    let hs = hs.advance(observed(State::Closed));
    let hs = hs.advance(observed(State::Open));
    assert_eq!(hs.phase, Phase::Failed { failure: Failure::OutOfIterations });
    assert_eq!(hs.next_action(), Action::GiveUp { failure: Failure::OutOfIterations });
    // A handshake that is over stays as it is.
    let hs = hs.advance(observed(State::Open));
    assert_eq!(hs.phase, Phase::Failed { failure: Failure::OutOfIterations });
}

fn proofs(height: Height) -> Proofs {
    Proofs {
        object_proof: vec![1, 2, 3],
        client_proof: None,
        consensus_proof: None,
        other_proof: None,
        height,
    }
}

#[test]
fn builder_asks_in_order_and_carries_the_height() {
    let zero = Height { revision_number: 0, revision_height: 0 };
    let h = Height { revision_number: 3, revision_height: 42 };
    let opts = config("channel-0", "channel-7");
    let b = Builder::new(Step::OpenTry, &opts);
    assert!(!b.is_complete());
    assert_eq!(
        b.request(),
        Some(Request::QueryChannel {
            on: Side::Src,
            port_id: PortId::new("transfer"),
            channel_id: ChannelId::new("channel-0"),
            height: zero
        })
    );
    let b = b.accept(Response::Channel(Ok(end(State::Init)))).unwrap();
    assert_eq!(
        b.request(),
        Some(Request::QueryConnection { connection_id: ConnectionId::new("connection-1"), height: zero })
    );
    let b = b
        .accept(Response::Connection(Ok(ConnectionEnd { client_id: ClientId::new("07-tendermint-5") })))
        .unwrap();
    assert_eq!(b.request(), Some(Request::QueryLatestHeight));
    let b = b.accept(Response::LatestHeight(Ok(h))).unwrap();
    assert_eq!(
        b.request(),
        Some(Request::BuildUpdateClient {
            client_id: ClientId::new("07-tendermint-5"),
            target_height: h
        })
    );
    let b = b.accept(Response::UpdateClient(Ok(vec![]))).unwrap();
    assert_eq!(
        b.request(),
        Some(Request::ModuleVersion { on: Side::Dst, port_id: PortId::new("bank") })
    );
    let b = b.accept(Response::ModuleVersion(Ok("v-dst".to_string()))).unwrap();
    assert_eq!(b.request(), Some(Request::GetSigner));
    let b = b.accept(Response::Signer(Ok(Signer { account: [7; 20] }))).unwrap();
    assert_eq!(
        b.request(),
        Some(Request::ModuleVersion { on: Side::Src, port_id: PortId::new("transfer") })
    );
    let b = b.accept(Response::ModuleVersion(Ok("v-src".to_string()))).unwrap();
    assert_eq!(
        b.request(),
        Some(Request::BuildChannelProofs {
            port_id: PortId::new("transfer"),
            channel_id: ChannelId::new("channel-0"),
            height: h
        })
    );
    let b = b.accept(Response::ChannelProofs(Ok(proofs(h)))).unwrap();
    assert!(b.is_complete());
    assert_eq!(b.request(), None);
    let msgs = b.finish();
    assert_eq!(msgs.len(), 1);
    match &msgs[0] {
        ChainMsg::ChanOpenTry(m) => {
            assert_eq!(m.port_id.as_str(), "bank");
            assert_eq!(m.previous_channel_id, None);
            assert_eq!(m.channel.state, State::TryOpen);
            assert_eq!(m.channel.version, "v-dst");
            assert_eq!(m.counterparty_version, "v-src");
            assert_eq!(m.proofs, proofs(h));
            assert_eq!(m.signer, Signer { account: [7; 20] });
        }
        other => panic!("not a try message: {:?}", other),
    }
}

#[test]
fn builder_rejects_a_response_that_does_not_answer() {
    let opts = config("channel-0", "channel-7");
    let unanswered = || Error {
        kind: Kind::Query("response does not answer the request".to_string()),
        source: None,
    };
    let b = Builder::new(Step::OpenInit, &opts);
    assert_eq!(b.request(), Some(Request::GetSigner));
    assert_eq!(
        b.accept(Response::ModuleVersion(Ok("v".to_string()))).err(),
        Some(unanswered())
    );
    let b = Builder::new(Step::OpenInit, &opts);
    let b = b.accept(Response::Signer(Ok(Signer { account: [1; 20] }))).unwrap();
    let b = b.accept(Response::ModuleVersion(Ok("v".to_string()))).unwrap();
    assert!(b.is_complete());
    assert_eq!(b.accept(Response::Signer(Ok(Signer { account: [1; 20] }))).err(), Some(unanswered()));
}

/// The channel end that the confirmation for `config("channel-0",
/// "channel-7")` expects on its destination, chain B, in state `state`.
fn destination_end(state: State) -> ChannelEnd {
    ChannelEnd::new(
        state,
        Order::Unordered,
        Counterparty::new(PortId::new("transfer"), Some(ChannelId::new("channel-0"))),
        vec![ConnectionId::new("connection-1")],
        "v-dst".to_string(),
    )
}

#[test]
fn confirm_builder_checks_the_destination_first() {
    let zero = Height { revision_number: 0, revision_height: 0 };
    let opts = config("channel-0", "channel-7");
    let h = Height { revision_number: 0, revision_height: 9 };
    let b = Builder::new(Step::OpenConfirm, &opts);
    assert_eq!(
        b.request(),
        Some(Request::ModuleVersion { on: Side::Dst, port_id: PortId::new("bank") })
    );
    let b = b.accept(Response::ModuleVersion(Ok("v-dst".to_string()))).unwrap();
    assert_eq!(
        b.request(),
        Some(Request::QueryChannel {
            on: Side::Dst,
            port_id: PortId::new("bank"),
            channel_id: ChannelId::new("channel-7"),
            height: zero
        })
    );
    let b = b.accept(Response::Channel(Ok(destination_end(State::TryOpen)))).unwrap();
    assert_eq!(
        b.request(),
        Some(Request::QueryChannel {
            on: Side::Src,
            port_id: PortId::new("transfer"),
            channel_id: ChannelId::new("channel-0"),
            height: zero
        })
    );
    let b = b.accept(Response::Channel(Ok(end(State::Open)))).unwrap();
    let b = b
        .accept(Response::Connection(Ok(ConnectionEnd { client_id: ClientId::new("07-tendermint-5") })))
        .unwrap();
    let b = b.accept(Response::LatestHeight(Ok(h))).unwrap();
    let b = b.accept(Response::UpdateClient(Ok(vec![]))).unwrap();
    // The confirmation carries no version of the counterparty.
    assert_eq!(b.request(), Some(Request::GetSigner));
    let b = b.accept(Response::Signer(Ok(Signer { account: [7; 20] }))).unwrap();
    assert_eq!(
        b.request(),
        Some(Request::BuildChannelProofs {
            port_id: PortId::new("transfer"),
            channel_id: ChannelId::new("channel-0"),
            height: h
        })
    );
}

#[test]
fn builder_gives_up_where_the_destination_fails_the_check() {
    let opts = config("channel-0", "channel-7");
    let refusal = |step: Step, cause: Error| Error {
        kind: match step {
            Step::OpenAck => Kind::ChanOpenAck(
                ChannelId::new("channel-0"),
                "ack options inconsistent with existing channel on destination chain".to_string(),
            ),
            _ => Kind::ChanOpenConfirm(
                ChannelId::new("channel-0"),
                "confirm options inconsistent with existing channel on destination chain"
                    .to_string(),
            ),
        },
        source: Some(Box::new(cause)),
    };
    for step in [Step::OpenAck, Step::OpenConfirm] {
        // The destination holds the channel in a state beyond `TryOpen`.
        for state in [State::Open, State::Closed] {
            let b = Builder::new(step, &opts);
            let b = b.accept(Response::ModuleVersion(Ok("v-dst".to_string()))).unwrap();
            let cause = Error {
                kind: Kind::ChanOpen(
                    ChannelId::new("channel-7"),
                    "channel already exist in an incompatible state".to_string(),
                ),
                source: None,
            };
            assert_eq!(
                b.accept(Response::Channel(Ok(destination_end(state)))).err(),
                Some(refusal(step, cause))
            );
        }
        // The destination holds no channel.
        let b = Builder::new(step, &opts);
        let b = b.accept(Response::ModuleVersion(Ok("v-dst".to_string()))).unwrap();
        let cause = Error {
            kind: Kind::ChanOpen(
                ChannelId::new("channel-0"),
                "missing channel on source chain".to_string(),
            ),
            source: None,
        };
        assert_eq!(
            b.accept(Response::Channel(Ok(destination_end(State::Uninitialized)))).err(),
            Some(refusal(step, cause))
        );
        // The destination cannot be asked.
        let b = Builder::new(step, &opts);
        assert_eq!(
            b.accept(Response::ModuleVersion(Err(failure()))).err(),
            Some(refusal(step, failure()))
        );
        let b = Builder::new(step, &opts);
        let b = b.accept(Response::ModuleVersion(Ok("v-dst".to_string()))).unwrap();
        assert_eq!(
            b.accept(Response::Channel(Err(failure()))).err(),
            Some(refusal(step, failure()))
        );
    }
}
