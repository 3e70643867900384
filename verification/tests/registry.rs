use ibc_query_relay::error::ContractError;
use ibc_query_relay::error::DecodeError;
use ibc_query_relay::error::QueryError;
use ibc_query_relay::registry::Config;
use ibc_query_relay::registry::PendingChannelRegistry;

#[test]
fn duplicate_registration_fails_and_keeps_the_first_entry() {
    let mut registry = PendingChannelRegistry::new();
    registry.register("channel-3".to_string()).unwrap();
    let err = registry.register("channel-3".to_string()).unwrap_err();
    assert_eq!(err, ContractError::ChannelAlreadyRegistered);
    assert_eq!(registry.channels, vec!["channel-3".to_string()]);
}

#[test]
fn distinct_channels_register_side_by_side() {
    let mut registry = PendingChannelRegistry::new();
    registry.register("channel-3".to_string()).unwrap();
    registry.register("channel-4".to_string()).unwrap();
    assert!(registry.contains(&"channel-3".to_string()));
    assert!(registry.contains(&"channel-4".to_string()));
    assert!(!registry.contains(&"channel-5".to_string()));
    assert_eq!(registry.channels.len(), 2);
}

#[test]
fn outbound_timeout_adds_the_configured_lifetime() {
    let config = Config::new(60);
    assert_eq!(config.outbound_timeout(40), 100);
    let zero = Config::new(0);
    assert_eq!(zero.outbound_timeout(1234), 1234);
}

#[test]
fn error_messages_name_their_cause() {
    assert_eq!(
        ContractError::InvalidChannelOrder.message(),
        "Only supports unordered channels".to_string()
    );
    assert_eq!(
        ContractError::InvalidChannelVersion.message(),
        "Counterparty version must be `ibc-query-1`".to_string()
    );
    assert_eq!(
        ContractError::ChannelAlreadyRegistered.message(),
        "Cannot register over an existing channel".to_string()
    );
    assert_eq!(
        ContractError::Payment.message(),
        "This message does no accept funds".to_string()
    );
    assert_eq!(
        DecodeError::Truncated.message(),
        "truncated payload".to_string()
    );
    assert_eq!(
        QueryError::System("down".to_string()).message(),
        "Querier system error: down".to_string()
    );
    assert_eq!(
        QueryError::Contract("denied".to_string()).message(),
        "Querier contract error: denied".to_string()
    );
}
