use ibc_query_relay::adapter::decode_spot_price_payload;
use ibc_query_relay::codec::decode_packet;
use ibc_query_relay::compose::execute;
use ibc_query_relay::compose::nonpayable;
use ibc_query_relay::compose::validate_callback_address;
use ibc_query_relay::compose::Coin;
use ibc_query_relay::error::ContractError;
use ibc_query_relay::msg::ExecuteMsg;
use ibc_query_relay::msg::StargateRequest;
use ibc_query_relay::registry::Config;

fn forward_msg() -> ExecuteMsg {
    ExecuteMsg::ForwardQueries {
        channel_id: "channel-1".to_string(),
        callback: "callback-addr".to_string(),
        requests: vec![StargateRequest {
            path: b"/x".to_vec(),
            data: vec![1, 2],
        }],
    }
}

#[test]
fn attached_funds_are_rejected_before_composition() {
    let config = Config::new(60);
    let funds = vec![Coin {
        denom: "uosmo".to_string(),
        amount: 1,
    }];
    let err = execute(forward_msg(), &funds, 1000, &config).unwrap_err();
    assert_eq!(err, ContractError::Payment);
}

#[test]
fn zero_amount_coin_still_counts_as_attached_funds() {
    let config = Config::new(60);
    let funds = vec![Coin {
        denom: "uosmo".to_string(),
        amount: 0,
    }];
    let err = execute(forward_msg(), &funds, 1000, &config).unwrap_err();
    assert_eq!(err, ContractError::Payment);
}

#[test]
fn forward_queries_composes_one_packet() {
    let config = Config::new(60);
    let funds: Vec<Coin> = Vec::new();
    let packet = execute(forward_msg(), &funds, 1000, &config).unwrap();
    assert_eq!(packet.channel_id, "channel-1".to_string());
    assert_eq!(packet.callback, "callback-addr".to_string());
    assert_eq!(packet.timeout_seconds, 1060);
    let batch = decode_packet(&packet.payload).unwrap();
    assert_eq!(batch.requests.len(), 1);
    assert_eq!(batch.requests[0].path, b"/x".to_vec());
    assert_eq!(batch.requests[0].data, vec![1, 2]);
}

#[test]
fn forward_price_query_composes_a_batch_of_one() {
    let config = Config::new(30);
    let funds: Vec<Coin> = Vec::new();
    let msg = ExecuteMsg::ForwardPriceQuery {
        channel_id: "channel-2".to_string(),
        callback: "callback-addr".to_string(),
        pool_id: 5,
        token_in_denom: "uatom".to_string(),
        token_out_denom: "uosmo".to_string(),
        with_swap_fee: false,
    };
    let packet = execute(msg, &funds, 500, &config).unwrap();
    assert_eq!(packet.timeout_seconds, 530);
    let batch = decode_packet(&packet.payload).unwrap();
    assert_eq!(batch.requests.len(), 1);
    assert_eq!(
        batch.requests[0].path,
        "/osmosis.gamm.v2.Query/SpotPrice".as_bytes().to_vec()
    );
    let payload = decode_spot_price_payload(&batch.requests[0].data).unwrap();
    assert_eq!(payload.pool_id, 5);
    assert_eq!(payload.token_in_denom, b"uatom".to_vec());
    assert_eq!(payload.token_out_denom, b"uosmo".to_vec());
    assert!(!payload.with_swap_fee);
}

#[test]
fn malformed_callback_address_is_rejected() {
    let config = Config::new(60);
    let funds: Vec<Coin> = Vec::new();
    let msg = ExecuteMsg::ForwardQueries {
        channel_id: "channel-1".to_string(),
        callback: String::new(),
        requests: Vec::new(),
    };
    let err = execute(msg, &funds, 1000, &config).unwrap_err();
    assert_eq!(err, ContractError::InvalidCallbackAddress);
}

#[test]
fn nonpayable_accepts_exactly_no_funds() {
    assert!(nonpayable(&Vec::new()).is_ok());
    let funds = vec![Coin {
        denom: "uatom".to_string(),
        amount: 7,
    }];
    assert_eq!(
        nonpayable(&funds).unwrap_err(),
        ContractError::Payment
    );
}

#[test]
fn callback_address_must_be_nonempty_ascii() {
    assert!(validate_callback_address(&"osmo1abc".to_string()).is_ok());
    assert_eq!(
        validate_callback_address(&String::new()).unwrap_err(),
        ContractError::InvalidCallbackAddress
    );
    assert_eq!(
        validate_callback_address(&"adr\u{00e9}sse".to_string()).unwrap_err(),
        ContractError::InvalidCallbackAddress
    );
}
