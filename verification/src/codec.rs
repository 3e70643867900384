//! Packet, aggregate-result and acknowledgement codecs.
//!
//! A packet carries an ordered batch of query requests; the aggregate result
//! carries one flagged outcome per request; the acknowledgement wraps either
//! an encoded aggregate result or a single error message. Each decoder
//! accepts exactly the encoders' output — same length, same items, same
//! order — and rejects everything else with a typed error; the round-trip
//! lemmas state this once and for all.

use crate::error::DecodeError;
use crate::msg::CallResult;
use crate::msg::ICQResponse;
use crate::msg::IbcQueryRequestResponse;
use crate::msg::IbcStargate;
use crate::msg::StargateRequest;
use crate::wire::decode_pairs_message;
use crate::wire::lemma_pairs_message_round_trip;
use crate::wire::lemma_read_block_frame;
use crate::wire::lemma_enc_pairs_push;
use crate::wire::pairs_view;
use crate::wire::pairs_wf;
use crate::wire::read_block_at;
use crate::wire::read_byte_at;
use crate::wire::spec_block;
use crate::wire::spec_dec_pairs_message;
use crate::wire::spec_enc_pairs;
use crate::wire::spec_enc_pairs_message;
use crate::wire::spec_read_block;
use crate::wire::spec_read_byte;
use crate::wire::write_block;
use crate::wire::write_u64;
use crate::wire::WIRE_SCHEMA_VERSION;
use vstd::bytes::lemma_auto_spec_u64_to_from_le_bytes;
use vstd::bytes::spec_u64_to_le_bytes;
use vstd::prelude::*;
use vstd::slice::slice_to_vec;
use vstd::string::StrSliceExecFns;
use vstd::utf8::encode_utf8;

verus! {

/// The wire view of a batch: each request as its path bytes and payload
/// bytes, in order.
pub open spec fn reqs_view(s: Seq<StargateRequest>) -> Seq<(Seq<u8>, Seq<u8>)> {
    Seq::new(s.len(), |i: int| (s[i].path@, s[i].data@))
}

/// Encodes a batch for channel transmission.
pub fn encode_packet(batch: &IbcStargate) -> (out: Vec<u8>)
    ensures
        out@ == spec_enc_pairs_message(reqs_view(batch.requests@)),
{
    let ghost v = reqs_view(batch.requests@);
    let ghost base = seq![WIRE_SCHEMA_VERSION] + spec_u64_to_le_bytes(
        batch.requests@.len() as u64,
    );
    let mut out: Vec<u8> = Vec::new();
    out.push(WIRE_SCHEMA_VERSION);
    write_u64(&mut out, batch.requests.len() as u64);
    proof {
        assert(spec_enc_pairs(v.take(0)) == Seq::<u8>::empty());
        assert(out@ =~= base + spec_enc_pairs(v.take(0)));
    }
    let mut k: usize = 0;
    while k < batch.requests.len()
        invariant
            k <= batch.requests@.len(),
            v == reqs_view(batch.requests@),
            base == seq![WIRE_SCHEMA_VERSION] + spec_u64_to_le_bytes(
                batch.requests@.len() as u64,
            ),
            out@ == base + spec_enc_pairs(v.take(k as int)),
        decreases batch.requests@.len() - k,
    {
        let req = &batch.requests[k];
        write_block(&mut out, req.path.as_slice());
        write_block(&mut out, req.data.as_slice());
        proof {
            lemma_enc_pairs_push(v.take(k as int), v[k as int]);
            assert(v.take(k as int + 1) =~= v.take(k as int).push(v[k as int]));
            assert(out@ =~= base + spec_enc_pairs(v.take(k as int + 1)));
        }
        k = k + 1;
    }
    proof {
        assert(v.take(batch.requests@.len() as int) =~= v);
        assert(out@ =~= spec_enc_pairs_message(v));
    }
    out
}

/// Decodes a received packet, exactly as the spec decoder does: succeeds if
/// and only if the bytes are one well-formed packet, and then yields its
/// requests in order.
pub fn decode_packet(bytes: &[u8]) -> (r: Result<IbcStargate, DecodeError>)
    ensures
        match r {
            Ok(batch) => spec_dec_pairs_message(bytes@) == Some(reqs_view(batch.requests@)),
            Err(_) => spec_dec_pairs_message(bytes@) is None,
        },
{
    let pairs = decode_pairs_message(bytes)?;
    let mut requests: Vec<StargateRequest> = Vec::new();
    let mut k: usize = 0;
    while k < pairs.len()
        invariant
            k <= pairs@.len(),
            requests@.len() == k as nat,
            forall|i: int|
                0 <= i < k ==> (#[trigger] requests@[i]).path@ == pairs@[i].0@
                    && requests@[i].data@ == pairs@[i].1@,
        decreases pairs@.len() - k,
    {
        let p = &pairs[k];
        let path = slice_to_vec(p.0.as_slice());
        let data = slice_to_vec(p.1.as_slice());
        requests.push(StargateRequest { path, data });
        k = k + 1;
    }
    proof {
        assert(reqs_view(requests@) =~= pairs_view(pairs@));
    }
    Ok(IbcStargate { requests })
}

/// Round-trip law of the packet codec: decoding an encoded batch yields a
/// batch of the same length whose items carry the same destination path and
/// the same payload, in the same order.
pub proof fn lemma_packet_round_trip(requests: Seq<StargateRequest>)
    requires
        pairs_wf(reqs_view(requests)),
        requests.len() <= u64::MAX,
    ensures
        spec_dec_pairs_message(spec_enc_pairs_message(reqs_view(requests))) == Some(
            reqs_view(requests),
        ),
{
    lemma_pairs_message_round_trip(reqs_view(requests));
}

/// The single byte a result's success flag becomes on the wire.
pub open spec fn spec_flag(success: bool) -> Seq<u8> {
    if success {
        seq![1u8]
    } else {
        seq![0u8]
    }
}

/// The wire view of an aggregate result: each item as its flag byte and its
/// data bytes, in order.
pub open spec fn results_view(s: Seq<CallResult>) -> Seq<(Seq<u8>, Seq<u8>)> {
    Seq::new(s.len(), |i: int| (spec_flag(s[i].success), s[i].data@))
}

/// Every flag component is a valid flag byte.
pub open spec fn flags_wf(items: Seq<(Seq<u8>, Seq<u8>)>) -> bool {
    forall|i: int|
        0 <= i < items.len() ==> (#[trigger] items[i]).0 == seq![0u8] || items[i].0 == seq![1u8]
}

/// Encodes an aggregate result for the success acknowledgement.
pub fn encode_icq_response(resp: &ICQResponse) -> (out: Vec<u8>)
    ensures
        out@ == spec_enc_pairs_message(results_view(resp.responses@)),
{
    let ghost v = results_view(resp.responses@);
    let ghost base = seq![WIRE_SCHEMA_VERSION] + spec_u64_to_le_bytes(
        resp.responses@.len() as u64,
    );
    let mut out: Vec<u8> = Vec::new();
    out.push(WIRE_SCHEMA_VERSION);
    write_u64(&mut out, resp.responses.len() as u64);
    proof {
        assert(spec_enc_pairs(v.take(0)) == Seq::<u8>::empty());
        assert(out@ =~= base + spec_enc_pairs(v.take(0)));
    }
    let mut k: usize = 0;
    while k < resp.responses.len()
        invariant
            k <= resp.responses@.len(),
            v == results_view(resp.responses@),
            base == seq![WIRE_SCHEMA_VERSION] + spec_u64_to_le_bytes(
                resp.responses@.len() as u64,
            ),
            out@ == base + spec_enc_pairs(v.take(k as int)),
        decreases resp.responses@.len() - k,
    {
        let r = &resp.responses[k];
        let flag: u8 = if r.success {
            1
        } else {
            0
        };
        let mut fv: Vec<u8> = Vec::new();
        fv.push(flag);
        proof {
            assert(fv@ =~= spec_flag(resp.responses@[k as int].success));
        }
        write_block(&mut out, fv.as_slice());
        write_block(&mut out, r.data.as_slice());
        proof {
            lemma_enc_pairs_push(v.take(k as int), v[k as int]);
            assert(v.take(k as int + 1) =~= v.take(k as int).push(v[k as int]));
            assert(out@ =~= base + spec_enc_pairs(v.take(k as int + 1)));
        }
        k = k + 1;
    }
    proof {
        assert(v.take(resp.responses@.len() as int) =~= v);
        assert(out@ =~= spec_enc_pairs_message(v));
    }
    out
}

/// Decodes an aggregate result: succeeds if and only if the bytes are one
/// well-formed result message whose flag components are single valid flag
/// bytes, and then yields its items in order.
pub fn decode_icq_response(bytes: &[u8]) -> (r: Result<ICQResponse, DecodeError>)
    ensures
        match r {
            Ok(resp) => spec_dec_pairs_message(bytes@) == Some(results_view(resp.responses@)),
            Err(_) => match spec_dec_pairs_message(bytes@) {
                Some(items) => !flags_wf(items),
                None => true,
            },
        },
{
    let pairs = decode_pairs_message(bytes)?;
    let mut responses: Vec<CallResult> = Vec::new();
    let mut k: usize = 0;
    while k < pairs.len()
        invariant
            k <= pairs@.len(),
            spec_dec_pairs_message(bytes@) == Some(pairs_view(pairs@)),
            responses@.len() == k as nat,
            forall|i: int|
                0 <= i < k ==> spec_flag((#[trigger] responses@[i]).success) == pairs@[i].0@
                    && responses@[i].data@ == pairs@[i].1@,
        decreases pairs@.len() - k,
    {
        let p = &pairs[k];
        if p.0.len() != 1 {
            proof {
                let items = pairs_view(pairs@);
                assert(items[k as int].0 == pairs@[k as int].0@);
                assert(items[k as int].0.len() != 1);
                assert(seq![0u8].len() == 1);
                assert(seq![1u8].len() == 1);
                assert(!flags_wf(items));
            }
            return Err(DecodeError::InvalidTag);
        }
        let flag = p.0[0];
        if flag != 0 && flag != 1 {
            proof {
                let items = pairs_view(pairs@);
                assert(items[k as int].0 == pairs@[k as int].0@);
                assert(items[k as int].0[0] == flag);
                assert(seq![0u8][0] == 0u8);
                assert(seq![1u8][0] == 1u8);
                assert(!flags_wf(items));
            }
            return Err(DecodeError::InvalidTag);
        }
        let data = slice_to_vec(p.1.as_slice());
        responses.push(CallResult { success: flag == 1, data });
        proof {
            assert(pairs@[k as int].0@ =~= seq![pairs@[k as int].0@[0]]);
        }
        k = k + 1;
    }
    proof {
        assert(results_view(responses@) =~= pairs_view(pairs@));
    }
    Ok(ICQResponse { responses })
}

/// Round-trip law of the aggregate-result codec: decoding an encoded result
/// yields the same per-item success flags and data, in the same order.
pub proof fn lemma_icq_round_trip(responses: Seq<CallResult>)
    requires
        pairs_wf(results_view(responses)),
        responses.len() <= u64::MAX,
    ensures
        spec_dec_pairs_message(spec_enc_pairs_message(results_view(responses))) == Some(
            results_view(responses),
        ),
        flags_wf(results_view(responses)),
{
    lemma_pairs_message_round_trip(results_view(responses));
}

/// An acknowledgement on the wire: the schema version, a tag byte telling
/// `Result` (0) from `Error` (1), then the payload as one block.
pub open spec fn spec_enc_ack(is_error: bool, payload: Seq<u8>) -> Seq<u8>
    recommends
        payload.len() <= u64::MAX,
{
    seq![
        WIRE_SCHEMA_VERSION,
        if is_error {
            1u8
        } else {
            0u8
        },
    ] + spec_block(payload)
}

/// Decodes an acknowledgement: version byte, tag byte, payload block, and
/// nothing after them.
pub open spec fn spec_dec_ack(b: Seq<u8>) -> Option<(bool, Seq<u8>)> {
    match spec_read_byte(b, 0) {
        Some((v, i1)) => if v == WIRE_SCHEMA_VERSION {
            match spec_read_byte(b, i1) {
                Some((t, i2)) => if t == 0 || t == 1 {
                    match spec_read_block(b, i2) {
                        Some((p, m)) => if m == b.len() {
                            Some((t == 1, p))
                        } else {
                            None
                        },
                        None => None,
                    }
                } else {
                    None
                },
                None => None,
            }
        } else {
            None
        },
        None => None,
    }
}

/// The bytes a given acknowledgement value encodes to: `Result` carries its
/// payload as is, `Error` carries the UTF-8 bytes of its message.
pub open spec fn spec_enc_ack_of(a: IbcQueryRequestResponse) -> Seq<u8> {
    match a {
        IbcQueryRequestResponse::Result(d) => spec_enc_ack(false, d@),
        IbcQueryRequestResponse::Error(s) => spec_enc_ack(true, encode_utf8(s@)),
    }
}

/// Encodes an acknowledgement for return over the channel. Total: cannot
/// fail on any input.
pub fn encode_ack(ack: &IbcQueryRequestResponse) -> (out: Vec<u8>)
    ensures
        out@ == spec_enc_ack_of(*ack),
{
    let mut out: Vec<u8> = Vec::new();
    out.push(WIRE_SCHEMA_VERSION);
    match ack {
        IbcQueryRequestResponse::Result(d) => {
            out.push(0);
            write_block(&mut out, d.as_slice());
            proof {
                assert(out@ =~= spec_enc_ack_of(*ack));
            }
        },
        IbcQueryRequestResponse::Error(s) => {
            out.push(1);
            let b = s.as_str().as_bytes_vec();
            write_block(&mut out, b.as_slice());
            proof {
                assert(out@ =~= spec_enc_ack_of(*ack));
            }
        },
    }
    out
}

/// Encodes an error message into a proper acknowledgement for the sender.
/// Total: this cannot fail, so the receive callback always has a well-formed
/// acknowledgement to return.
pub fn encode_ibc_error(msg: String) -> (out: Vec<u8>)
    ensures
        out@ == spec_enc_ack(true, encode_utf8(msg@)),
{
    encode_ack(&IbcQueryRequestResponse::Error(msg))
}

/// An acknowledgement as decoded on the origin side: the error flag and the
/// raw payload bytes. For an error acknowledgement the payload holds the
/// UTF-8 bytes of the message.
#[derive(Clone, Debug, PartialEq, Eq)]
pub struct DecodedAck {
    /// Whether the packet as a whole was rejected.
    pub is_error: bool,
    /// Encoded aggregate result, or UTF-8 message bytes when `is_error`.
    pub payload: Vec<u8>,
}

/// Decodes an acknowledgement, exactly as `spec_dec_ack` does: succeeds if
/// and only if the bytes are one well-formed acknowledgement.
pub fn decode_ack(bytes: &[u8]) -> (r: Result<DecodedAck, DecodeError>)
    ensures
        match r {
            Ok(a) => spec_dec_ack(bytes@) == Some((a.is_error, a.payload@)),
            Err(_) => spec_dec_ack(bytes@) is None,
        },
{
    let (version, i1) = read_byte_at(bytes, 0)?;
    if version != WIRE_SCHEMA_VERSION {
        return Err(DecodeError::UnsupportedVersion);
    }
    let (tag, i2) = read_byte_at(bytes, i1)?;
    if tag != 0 && tag != 1 {
        return Err(DecodeError::InvalidTag);
    }
    let (payload, m) = read_block_at(bytes, i2)?;
    if m != bytes.len() {
        return Err(DecodeError::TrailingBytes);
    }
    Ok(DecodedAck { is_error: tag == 1, payload })
}

/// Round-trip law of the acknowledgement codec: decoding an encoded
/// acknowledgement yields the same error flag and the same payload.
pub proof fn lemma_ack_round_trip(is_error: bool, payload: Seq<u8>)
    requires
        payload.len() <= u64::MAX,
    ensures
        spec_dec_ack(spec_enc_ack(is_error, payload)) == Some((is_error, payload)),
{
    lemma_auto_spec_u64_to_from_le_bytes();
    let enc = spec_enc_ack(is_error, payload);
    assert(enc.len() == 2 + 8 + payload.len());
    assert(enc[0] == WIRE_SCHEMA_VERSION);
    assert(enc.subrange(2, enc.len() as int) =~= spec_block(payload));
    lemma_read_block_frame(enc, 2, payload);
}

} // verus!
