use ibc_query_relay::codec::decode_ack;
use ibc_query_relay::codec::decode_icq_response;
use ibc_query_relay::codec::decode_packet;
use ibc_query_relay::codec::encode_ack;
use ibc_query_relay::codec::encode_ibc_error;
use ibc_query_relay::codec::encode_icq_response;
use ibc_query_relay::codec::encode_packet;
use ibc_query_relay::error::DecodeError;
use ibc_query_relay::msg::CallResult;
use ibc_query_relay::msg::ICQResponse;
use ibc_query_relay::msg::IbcQueryRequestResponse;
use ibc_query_relay::msg::IbcStargate;
use ibc_query_relay::msg::StargateRequest;

fn sample_batch() -> IbcStargate {
    IbcStargate {
        requests: vec![
            StargateRequest {
                path: b"/a/b".to_vec(),
                data: vec![0, 1, 2],
            },
            StargateRequest {
                path: Vec::new(),
                data: Vec::new(),
            },
            StargateRequest {
                path: b"/c".to_vec(),
                data: vec![255; 100],
            },
        ],
    }
}

#[test]
fn packet_encoding_layout_is_exact() {
    let batch = IbcStargate {
        requests: vec![StargateRequest {
            path: b"p".to_vec(),
            data: b"xy".to_vec(),
        }],
    };
    let enc = encode_packet(&batch);
    let mut expected = vec![1u8];
    expected.extend_from_slice(&1u64.to_le_bytes());
    expected.extend_from_slice(&1u64.to_le_bytes());
    expected.push(b'p');
    expected.extend_from_slice(&2u64.to_le_bytes());
    expected.extend_from_slice(b"xy");
    assert_eq!(enc, expected);
}

#[test]
fn packet_round_trip_keeps_length_and_items() {
    let batch = sample_batch();
    let enc = encode_packet(&batch);
    let dec = decode_packet(&enc).unwrap();
    assert_eq!(dec.requests.len(), batch.requests.len());
    for (d, o) in dec.requests.iter().zip(batch.requests.iter()) {
        assert_eq!(d.path, o.path);
        assert_eq!(d.data, o.data);
    }
}

#[test]
fn empty_packet_round_trips() {
    let batch = IbcStargate {
        requests: Vec::new(),
    };
    let dec = decode_packet(&encode_packet(&batch)).unwrap();
    assert_eq!(dec.requests.len(), 0);
}

#[test]
fn decode_packet_rejects_trailing_bytes() {
    let mut enc = encode_packet(&sample_batch());
    enc.push(0);
    assert_eq!(decode_packet(&enc).unwrap_err(), DecodeError::TrailingBytes);
}

#[test]
fn decode_packet_rejects_truncation() {
    let enc = encode_packet(&sample_batch());
    let cut = &enc[..enc.len() - 1];
    assert_eq!(decode_packet(cut).unwrap_err(), DecodeError::Truncated);
}

#[test]
fn decode_packet_rejects_empty_input() {
    assert_eq!(decode_packet(&[]).unwrap_err(), DecodeError::Truncated);
}

#[test]
fn decode_packet_rejects_unknown_schema_version() {
    let mut enc = encode_packet(&sample_batch());
    enc[0] = 9;
    assert_eq!(
        decode_packet(&enc).unwrap_err(),
        DecodeError::UnsupportedVersion
    );
}

#[test]
fn ack_result_round_trips() {
    let ack = encode_ack(&IbcQueryRequestResponse::Result(vec![1, 2, 3]));
    let dec = decode_ack(&ack).unwrap();
    assert!(!dec.is_error);
    assert_eq!(dec.payload, vec![1, 2, 3]);
}

#[test]
fn ack_error_round_trips() {
    let ack = encode_ibc_error("invalid packet: boom".to_string());
    let dec = decode_ack(&ack).unwrap();
    assert!(dec.is_error);
    assert_eq!(dec.payload, b"invalid packet: boom".to_vec());
}

#[test]
fn ack_encoding_layout_is_exact() {
    let ack = encode_ack(&IbcQueryRequestResponse::Result(b"ok".to_vec()));
    let mut expected = vec![1u8, 0u8];
    expected.extend_from_slice(&2u64.to_le_bytes());
    expected.extend_from_slice(b"ok");
    assert_eq!(ack, expected);
}

#[test]
fn decode_ack_rejects_unknown_tag() {
    let mut bytes = vec![1u8, 2u8];
    bytes.extend_from_slice(&0u64.to_le_bytes());
    assert_eq!(decode_ack(&bytes).unwrap_err(), DecodeError::InvalidTag);
}

#[test]
fn decode_ack_rejects_trailing_bytes() {
    let mut ack = encode_ack(&IbcQueryRequestResponse::Result(vec![5]));
    ack.push(7);
    assert_eq!(decode_ack(&ack).unwrap_err(), DecodeError::TrailingBytes);
}

#[test]
fn icq_response_round_trips() {
    let resp = ICQResponse {
        responses: vec![
            CallResult {
                success: true,
                data: vec![9, 9],
            },
            CallResult {
                success: false,
                data: b"some error".to_vec(),
            },
        ],
    };
    let enc = encode_icq_response(&resp);
    let dec = decode_icq_response(&enc).unwrap();
    assert_eq!(dec, resp);
}

#[test]
fn decode_icq_response_rejects_bad_flag_byte() {
    // one item whose flag block holds the invalid value 7
    let mut bytes = vec![1u8];
    bytes.extend_from_slice(&1u64.to_le_bytes());
    bytes.extend_from_slice(&1u64.to_le_bytes());
    bytes.push(7);
    bytes.extend_from_slice(&0u64.to_le_bytes());
    assert_eq!(
        decode_icq_response(&bytes).unwrap_err(),
        DecodeError::InvalidTag
    );
}

#[test]
fn decode_icq_response_rejects_oversized_flag_block() {
    // one item whose flag block holds two bytes
    let mut bytes = vec![1u8];
    bytes.extend_from_slice(&1u64.to_le_bytes());
    bytes.extend_from_slice(&2u64.to_le_bytes());
    bytes.push(1);
    bytes.push(1);
    bytes.extend_from_slice(&0u64.to_le_bytes());
    assert_eq!(
        decode_icq_response(&bytes).unwrap_err(),
        DecodeError::InvalidTag
    );
}
