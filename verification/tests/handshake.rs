use wasm_icq_invoker::contract::{instantiate, send_query_balance};
use wasm_icq_invoker::error::ContractError;
use wasm_icq_invoker::ibc::{
    ibc_channel_close, ibc_channel_connect, ibc_channel_open, validate_order_and_version,
    IbcChannel, IbcOrder, IBC_VERSION,
};
use wasm_icq_invoker::msg::{InstantiateMsg, QueryBalanceMsg};
use wasm_icq_invoker::response::{Attribute, IbcBasicResponse, Timestamp};
use wasm_icq_invoker::state::{ChannelInfo, DeliveryMode, IbcEndpoint, IcqState};

fn channel(order: IbcOrder, version: &str) -> IbcChannel {
    IbcChannel {
        endpoint: IbcEndpoint { port_id: "wasm.contract".to_string(), channel_id: "channel-3".to_string() },
        counterparty_endpoint: IbcEndpoint {
            port_id: "icqhost".to_string(),
            channel_id: "channel-12".to_string(),
        },
        order,
        version: version.to_string(),
        connection_id: "connection-0".to_string(),
    }
}

fn invalid(actual: &str) -> ContractError {
    ContractError::InvalidVersion { actual: actual.to_string(), expected: "icq-1".to_string() }
}

fn query() -> QueryBalanceMsg {
    QueryBalanceMsg {
        chain_id: "osmosis-1".to_string(),
        addr: "osmo1abc".to_string(),
        denom: "uosmo".to_string(),
    }
}

#[test]
fn version_tag_is_icq_1() {
    assert_eq!(IBC_VERSION, "icq-1");
}

#[test]
fn unordered_channel_of_the_right_version_passes() {
    let ch = channel(IbcOrder::Unordered, "icq-1");
    assert_eq!(validate_order_and_version(&ch, None), Ok(()));
    assert_eq!(validate_order_and_version(&ch, Some("icq-1")), Ok(()));
}

#[test]
fn ordered_channel_is_refused_whatever_its_versions() {
    for version in ["icq-1", "icq-2", ""] {
        for theirs in [None, Some("icq-1"), Some("ics20-1")] {
            let ch = channel(IbcOrder::Ordered, version);
            assert_eq!(
                validate_order_and_version(&ch, theirs),
                Err(ContractError::OnlyUnorderedChannel)
            );
            assert_eq!(ibc_channel_open(&ch, theirs), Err(ContractError::OnlyUnorderedChannel));
            let mut state = IcqState::new(DeliveryMode::Receive);
            assert_eq!(
                ibc_channel_connect(&mut state, ch, theirs),
                Err(ContractError::OnlyUnorderedChannel)
            );
            assert_eq!(state.channel_info, None);
        }
    }
}

#[test]
fn wrong_channel_version_is_refused() {
    for version in ["icq-2", "", "icq-", "icq-11", "ICQ-1", " icq-1", "ics20-1"] {
        let ch = channel(IbcOrder::Unordered, version);
        assert_eq!(validate_order_and_version(&ch, None), Err(invalid(version)));
        assert_eq!(ibc_channel_open(&ch, None), Err(invalid(version)));
        assert_eq!(ibc_channel_open(&ch, Some("icq-1")), Err(invalid(version)));
        let mut state = IcqState::new(DeliveryMode::Acknowledgement);
        assert_eq!(ibc_channel_connect(&mut state, ch, Some("icq-1")), Err(invalid(version)));
        assert_eq!(state.channel_info, None);
    }
}

#[test]
fn wrong_counterparty_version_is_refused() {
    for theirs in ["icq-2", "", "icq-10", "ics20-1"] {
        let ch = channel(IbcOrder::Unordered, "icq-1");
        assert_eq!(validate_order_and_version(&ch, Some(theirs)), Err(invalid(theirs)));
        assert_eq!(ibc_channel_open(&ch, Some(theirs)), Err(invalid(theirs)));
        let mut state = IcqState::new(DeliveryMode::Receive);
        assert_eq!(ibc_channel_connect(&mut state, ch, Some(theirs)), Err(invalid(theirs)));
        assert_eq!(state.channel_info, None);
    }
}

#[test]
fn the_channels_own_version_is_named_first() {
    let ch = channel(IbcOrder::Unordered, "mine");
    assert_eq!(validate_order_and_version(&ch, Some("theirs")), Err(invalid("mine")));
}

#[test]
fn absent_counterparty_version_is_no_error() {
    let ch = channel(IbcOrder::Unordered, "icq-1");
    assert_eq!(ibc_channel_open(&ch, None), Ok(None));
}

#[test]
fn open_accepts_without_proposing_a_version() {
    let ch = channel(IbcOrder::Unordered, "icq-1");
    assert_eq!(ibc_channel_open(&ch, Some("icq-1")), Ok(None));
}

#[test]
fn connect_keeps_the_channel() {
    let mut state = IcqState::new(DeliveryMode::Receive);
    let r = ibc_channel_connect(&mut state, channel(IbcOrder::Unordered, "icq-1"), Some("icq-1"));
    assert_eq!(r, Ok(IbcBasicResponse { attributes: vec![] }));
    assert_eq!(
        state.channel_info,
        Some(ChannelInfo {
            id: "channel-3".to_string(),
            counterparty_endpoint: IbcEndpoint {
                port_id: "icqhost".to_string(),
                channel_id: "channel-12".to_string(),
            },
            connection_id: "connection-0".to_string(),
        })
    );
    assert_eq!(state.mode, DeliveryMode::Receive);
}

#[test]
fn second_connect_replaces_the_channel_whole() {
    let mut state = IcqState::new(DeliveryMode::Receive);
    ibc_channel_connect(&mut state, channel(IbcOrder::Unordered, "icq-1"), None).unwrap();
    let mut other = channel(IbcOrder::Unordered, "icq-1");
    other.endpoint.channel_id = "channel-4".to_string();
    other.counterparty_endpoint.channel_id = "channel-40".to_string();
    other.connection_id = "connection-9".to_string();
    ibc_channel_connect(&mut state, other, None).unwrap();
    let info = state.channel_info.unwrap();
    assert_eq!(info.id, "channel-4");
    assert_eq!(info.counterparty_endpoint.channel_id, "channel-40");
    assert_eq!(info.counterparty_endpoint.port_id, "icqhost");
    assert_eq!(info.connection_id, "connection-9");
}

#[test]
fn failed_connect_leaves_the_connected_channel() {
    let mut state = IcqState::new(DeliveryMode::Receive);
    ibc_channel_connect(&mut state, channel(IbcOrder::Unordered, "icq-1"), None).unwrap();
    let mut other = channel(IbcOrder::Ordered, "icq-1");
    other.endpoint.channel_id = "channel-4".to_string();
    assert!(ibc_channel_connect(&mut state, other, None).is_err());
    assert_eq!(state.channel_info.unwrap().id, "channel-3");
}

#[test]
fn dispatch_before_connect_fails() {
    let (state, _) = instantiate(DeliveryMode::Acknowledgement, InstantiateMsg {}).unwrap();
    assert_eq!(
        send_query_balance(&state, Timestamp { nanos: 1 }, query()),
        Err(ContractError::ChannelNotEstablished)
    );
}

#[test]
fn dispatch_after_failed_connect_fails() {
    let mut state = IcqState::new(DeliveryMode::Acknowledgement);
    assert!(ibc_channel_open(&channel(IbcOrder::Unordered, "icq-1"), None).is_ok());
    assert!(ibc_channel_connect(&mut state, channel(IbcOrder::Unordered, "icq-9"), None).is_err());
    assert_eq!(
        send_query_balance(&state, Timestamp { nanos: 1 }, query()),
        Err(ContractError::ChannelNotEstablished)
    );
}

#[test]
fn close_answers_with_the_channels_name() {
    let mut state = IcqState::new(DeliveryMode::Receive);
    let ch = channel(IbcOrder::Unordered, "icq-1");
    ibc_channel_connect(&mut state, ch.clone(), None).unwrap();
    let r = ibc_channel_close(&mut state, &ch).unwrap();
    assert_eq!(
        r.attributes,
        vec![
            Attribute { key: "method".to_string(), value: "ibc_channel_close".to_string() },
            Attribute { key: "channel".to_string(), value: "channel-3".to_string() },
        ]
    );
    assert_eq!(state.channel_info, None);
}

#[test]
fn close_without_a_channel_is_accepted() {
    let mut state = IcqState::new(DeliveryMode::Receive);
    assert!(ibc_channel_close(&mut state, &channel(IbcOrder::Ordered, "x")).is_ok());
    assert_eq!(state.channel_info, None);
}

#[test]
fn error_messages() {
    assert_eq!(ContractError::OnlyUnorderedChannel.message(), "Only supports unordered channels");
    assert_eq!(
        invalid("icq-2").message(),
        "Invalid IBC channel version. Got (icq-2), expected (icq-1)"
    );
    assert_eq!(
        ContractError::ChannelNotEstablished.message(),
        "Channel to ICQ module is not setup"
    );
    assert_eq!(ContractError::MalformedAck.message(), "Malformed acknowledgement");
    assert_eq!(
        ContractError::MalformedBalance { reason: "missing field".to_string() }.message(),
        "missing field"
    );
    assert_eq!(ContractError::EmptyBalance.message(), "Balance response holds no coin");
    assert_eq!(ContractError::Unserializable.message(), "Balances cannot be serialized");
}

#[test]
fn reconnect_after_close_restores_dispatch() {
    let mut state = IcqState::new(DeliveryMode::Receive);
    let ch = channel(IbcOrder::Unordered, "icq-1");
    ibc_channel_connect(&mut state, ch.clone(), None).unwrap();
    ibc_channel_close(&mut state, &ch).unwrap();
    assert!(send_query_balance(&state, Timestamp { nanos: 1 }, query()).is_err());
    ibc_channel_connect(&mut state, ch, Some("icq-1")).unwrap();
    assert!(send_query_balance(&state, Timestamp { nanos: 1 }, query()).is_ok());
}

#[test]
fn handshake_is_the_same_in_both_modes() {
    for (order, version, theirs) in [
        (IbcOrder::Unordered, "icq-1", Some("icq-1")),
        (IbcOrder::Ordered, "icq-1", None),
        (IbcOrder::Unordered, "icq-3", None),
        (IbcOrder::Unordered, "icq-1", Some("v2")),
    ] {
        let mut by_ack = IcqState::new(DeliveryMode::Acknowledgement);
        let mut by_packet = IcqState::new(DeliveryMode::Receive);
        let a = ibc_channel_connect(&mut by_ack, channel(order, version), theirs);
        let b = ibc_channel_connect(&mut by_packet, channel(order, version), theirs);
        assert_eq!(a, b);
        assert_eq!(by_ack.channel_info, by_packet.channel_info);
        assert_eq!(
            send_query_balance(&by_ack, Timestamp { nanos: 9 }, query()),
            send_query_balance(&by_packet, Timestamp { nanos: 9 }, query())
        );
    }
}
