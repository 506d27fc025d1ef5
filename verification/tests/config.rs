use relayer::channel::ChannelConfig;
use relayer::config::RelayPath;
use relayer::connection::{ConnectionConfig, ConnectionSideConfig};
use relayer::identifier::{ChainId, ClientId, ConnectionId, PortId};
use relayer::ics04::Order;

fn connection_config() -> ConnectionConfig {
    ConnectionConfig::new(
        ConnectionSideConfig::new(
            ChainId::new("chain-A"),
            ConnectionId::new("connection-0"),
            ClientId::new("07-tendermint-0"),
        ),
        ConnectionSideConfig::new(
            ChainId::new("chain-B"),
            ConnectionId::new("connection-1"),
            ClientId::new("07-tendermint-1"),
        ),
    )
}

#[test]
fn new_config_has_placeholder_identifiers() {
    let path = RelayPath { a_port: PortId::new("transfer"), b_port: PortId::new("transfer") };
    let config = ChannelConfig::new(&connection_config(), &path).unwrap();
    assert_eq!(config.ordering, Order::Unordered);
    assert_eq!(config.a_end().chain_id().as_str(), "chain-A");
    assert_eq!(config.b_end().chain_id().as_str(), "chain-B");
    assert_eq!(config.a_end().port_id().as_str(), "transfer");
    assert_eq!(config.a_end().channel_id().as_str(), "defaultChannel");
    assert_eq!(config.b_end().channel_id().as_str(), "defaultChannel");
    assert_eq!(config.a_end().client_id().as_str(), "defaultClient");
    assert_eq!(config.b_end().connection_id().as_str(), "defaultConnection");
}
