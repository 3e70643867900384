use ibc_query_relay::error::ContractError;
use ibc_query_relay::handshake::ibc_channel_open;
use ibc_query_relay::handshake::APP_ORDER;
use ibc_query_relay::handshake::BAD_APP_ORDER;
use ibc_query_relay::ibc_app_version;
use ibc_query_relay::msg::InstantiateMsg;
use ibc_query_relay::registry::instantiate;
use ibc_query_relay::registry::PendingChannelRegistry;

#[test]
fn instantiate_works() {
    let msg = InstantiateMsg {
        packet_lifetime: 60u64,
    };
    let config = instantiate(&msg);
    assert_eq!(config.packet_lifetime, 60u64);
}

#[test]
fn enforce_version_in_handshake() {
    let _config = instantiate(&InstantiateMsg {
        packet_lifetime: 60u64,
    });
    let version = ibc_app_version().to_string();

    // "channel-12" proposed with the wrong order
    let wrong_order = ibc_channel_open(BAD_APP_ORDER, Some(&version));
    wrong_order.unwrap_err();

    let reflect = "reflect".to_string();
    let wrong_version = ibc_channel_open(APP_ORDER, Some(&reflect));
    wrong_version.unwrap_err();

    let valid_handshake = ibc_channel_open(APP_ORDER, Some(&version));
    valid_handshake.unwrap();
}

#[test]
fn proper_handshake_flow() {
    let _config = instantiate(&InstantiateMsg {
        packet_lifetime: 60u64,
    });
    let channel_id = "channel-1234";

    // first we try to open with a valid handshake
    let version = ibc_app_version().to_string();
    let returned = ibc_channel_open(APP_ORDER, Some(&version)).unwrap();
    assert_eq!(returned, version);

    // then we connect: the channel id is recorded for the reply handler
    let mut registry = PendingChannelRegistry::new();
    registry.register(channel_id.to_string()).unwrap();
    assert_eq!(registry.channels, vec![channel_id.to_string()]);
}

#[test]
fn open_without_counterparty_version_returns_fixed_version() {
    let returned = ibc_channel_open(APP_ORDER, None).unwrap();
    assert_eq!(returned, "ibc-query-1".to_string());
}

#[test]
fn open_rejects_wrong_order_whatever_the_version() {
    let version = ibc_app_version().to_string();
    assert_eq!(
        ibc_channel_open(BAD_APP_ORDER, Some(&version)).unwrap_err(),
        ContractError::InvalidChannelOrder
    );
    assert_eq!(
        ibc_channel_open(BAD_APP_ORDER, None).unwrap_err(),
        ContractError::InvalidChannelOrder
    );
    let other = "some-other-version".to_string();
    assert_eq!(
        ibc_channel_open(BAD_APP_ORDER, Some(&other)).unwrap_err(),
        ContractError::InvalidChannelOrder
    );
}

#[test]
fn open_rejects_wrong_counterparty_version() {
    let almost = "ibc-query-2".to_string();
    assert_eq!(
        ibc_channel_open(APP_ORDER, Some(&almost)).unwrap_err(),
        ContractError::InvalidChannelVersion
    );
    let empty = String::new();
    assert_eq!(
        ibc_channel_open(APP_ORDER, Some(&empty)).unwrap_err(),
        ContractError::InvalidChannelVersion
    );
}
