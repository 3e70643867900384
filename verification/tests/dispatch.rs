use ibc_query_relay::codec::decode_ack;
use ibc_query_relay::codec::decode_icq_response;
use ibc_query_relay::codec::encode_packet;
use ibc_query_relay::dispatch::dispatch_queries;
use ibc_query_relay::dispatch::finish_receive;
use ibc_query_relay::dispatch::process_query_result;
use ibc_query_relay::dispatch::receive_step;
use ibc_query_relay::dispatch::QueryOutcome;
use ibc_query_relay::dispatch::ReceiveOutcome;
use ibc_query_relay::error::QueryError;
use ibc_query_relay::msg::IbcStargate;
use ibc_query_relay::msg::StargateRequest;

#[test]
fn batch_isolates_item_failures() {
    let outcomes = vec![
        QueryOutcome::Value(vec![10, 11]),
        QueryOutcome::ContractErr("pool paused".to_string()),
        QueryOutcome::Value(vec![12]),
    ];
    let agg = dispatch_queries(&outcomes);
    assert_eq!(agg.responses.len(), 3);
    assert!(agg.responses[0].success);
    assert_eq!(agg.responses[0].data, vec![10, 11]);
    assert!(!agg.responses[1].success);
    assert_eq!(
        agg.responses[1].data,
        b"Querier contract error: pool paused".to_vec()
    );
    assert!(agg.responses[2].success);
    assert_eq!(agg.responses[2].data, vec![12]);
}

#[test]
fn system_failure_is_recorded_distinctly() {
    let outcomes = vec![QueryOutcome::SystemErr("node down".to_string())];
    let agg = dispatch_queries(&outcomes);
    assert_eq!(agg.responses.len(), 1);
    assert!(!agg.responses[0].success);
    assert_eq!(
        agg.responses[0].data,
        b"Querier system error: node down".to_vec()
    );
}

#[test]
fn undecodable_packet_gets_invalid_packet_ack() {
    let garbage = vec![7u8, 7, 7];
    match receive_step(&garbage) {
        ReceiveOutcome::Queries(_) => panic!("garbage must not decode"),
        ReceiveOutcome::Rejected(ack) => {
            let dec = decode_ack(&ack).unwrap();
            assert!(dec.is_error);
            let message = String::from_utf8(dec.payload).unwrap();
            assert!(message.starts_with("invalid packet: "));
        },
    }
}

#[test]
fn well_formed_packet_reaches_dispatch() {
    let batch = IbcStargate {
        requests: vec![
            StargateRequest {
                path: b"/x".to_vec(),
                data: vec![1],
            },
            StargateRequest {
                path: b"/y".to_vec(),
                data: vec![2],
            },
        ],
    };
    let bytes = encode_packet(&batch);
    match receive_step(&bytes) {
        ReceiveOutcome::Queries(decoded) => {
            assert_eq!(decoded, batch);
        },
        ReceiveOutcome::Rejected(_) => panic!("a well-formed packet must decode"),
    }
}

#[test]
fn receive_produces_exactly_one_result_ack() {
    let outcomes = vec![
        QueryOutcome::Value(vec![42]),
        QueryOutcome::ContractErr("no such endpoint".to_string()),
    ];
    let ack = finish_receive(&outcomes);
    let dec = decode_ack(&ack).unwrap();
    assert!(!dec.is_error);
    let agg = decode_icq_response(&dec.payload).unwrap();
    assert_eq!(agg.responses.len(), 2);
    assert!(agg.responses[0].success);
    assert_eq!(agg.responses[0].data, vec![42]);
    assert!(!agg.responses[1].success);
    assert_eq!(
        agg.responses[1].data,
        b"Querier contract error: no such endpoint".to_vec()
    );
}

#[test]
fn process_query_result_keeps_the_three_outcomes_apart() {
    assert_eq!(
        process_query_result(QueryOutcome::Value(vec![1])).unwrap(),
        vec![1]
    );
    assert_eq!(
        process_query_result(QueryOutcome::SystemErr("a".to_string())).unwrap_err(),
        QueryError::System("a".to_string())
    );
    assert_eq!(
        process_query_result(QueryOutcome::ContractErr("b".to_string())).unwrap_err(),
        QueryError::Contract("b".to_string())
    );
}

#[test]
fn empty_batch_dispatches_to_empty_result() {
    let outcomes: Vec<QueryOutcome> = Vec::new();
    let agg = dispatch_queries(&outcomes);
    assert_eq!(agg.responses.len(), 0);
}

#[test]
fn empty_batch_flows_through_the_whole_pipeline() {
    let batch = IbcStargate {
        requests: Vec::new(),
    };
    let bytes = encode_packet(&batch);
    match receive_step(&bytes) {
        ReceiveOutcome::Queries(decoded) => {
            assert_eq!(decoded.requests.len(), 0);
            let ack = finish_receive(&Vec::new());
            let dec = decode_ack(&ack).unwrap();
            assert!(!dec.is_error);
            let agg = decode_icq_response(&dec.payload).unwrap();
            assert_eq!(agg.responses.len(), 0);
        },
        ReceiveOutcome::Rejected(_) => panic!("an empty batch is a well-formed packet"),
    }
}
