//! Batched query dispatcher and the two-stage receive pipeline.
//!
//! The receive callback is a two-stage pipeline. The first stage decodes the
//! packet; a packet that does not decode is answered at once with an `Error`
//! acknowledgement whose message starts with `invalid packet: `, and nothing
//! is dispatched. The second stage takes the per-item outcomes of the local
//! query engine, in request order, and aggregates them: a failed item
//! becomes a failed `CallResult` and never aborts its siblings. Both stages
//! are total, so the receive callback always has exactly one well-formed
//! acknowledgement to return and never fails the host call.

use crate::codec::decode_packet;
use crate::codec::encode_ack;
use crate::codec::encode_ibc_error;
use crate::codec::encode_icq_response;
use crate::codec::reqs_view;
use crate::codec::results_view;
use crate::codec::spec_enc_ack;
use crate::codec::spec_flag;
use crate::error::DecodeError;
use crate::error::QueryError;
use crate::msg::CallResult;
use crate::msg::ICQResponse;
use crate::msg::IbcQueryRequestResponse;
use crate::msg::IbcStargate;
use crate::wire::spec_dec_pairs_message;
use crate::wire::spec_enc_pairs_message;
use vstd::prelude::*;
use vstd::slice::slice_to_vec;
use vstd::string::StrSliceExecFns;
use vstd::string::StringExecFns;
use vstd::utf8::encode_utf8;

verus! {

/// The three-way outcome of one query against the local engine: the raw
/// response bytes, a failure of the query subsystem itself, or a rejection
/// by the target endpoint.
#[derive(Clone, Debug, PartialEq, Eq)]
pub enum QueryOutcome {
    /// The engine answered; holds the raw response bytes.
    Value(Vec<u8>),
    /// The query subsystem itself errored.
    SystemErr(String),
    /// The target endpoint rejected the request.
    ContractErr(String),
}

/// Whether an outcome is a success.
pub open spec fn outcome_ok(o: QueryOutcome) -> bool {
    o is Value
}

/// The data a `CallResult` records for an outcome: the response bytes on
/// success, the UTF-8 bytes of the error description on failure.
pub open spec fn outcome_data(o: QueryOutcome) -> Seq<u8> {
    match o {
        QueryOutcome::Value(v) => v@,
        QueryOutcome::SystemErr(s) => encode_utf8("Querier system error: "@ + s@),
        QueryOutcome::ContractErr(s) => encode_utf8("Querier contract error: "@ + s@),
    }
}

/// One entry of the aggregate result records its outcome exactly.
pub open spec fn call_result_matches(o: QueryOutcome, c: CallResult) -> bool {
    c.success == outcome_ok(o) && c.data@ == outcome_data(o)
}

/// Keeps the engine's three-way outcome distinct: response bytes on success,
/// a typed system or contract error otherwise.
pub fn process_query_result(result: QueryOutcome) -> (r: Result<Vec<u8>, QueryError>)
    ensures
        result matches QueryOutcome::Value(v) ==> r == Ok::<Vec<u8>, QueryError>(v),
        result matches QueryOutcome::SystemErr(s) ==> r == Err::<Vec<u8>, QueryError>(
            QueryError::System(s),
        ),
        result matches QueryOutcome::ContractErr(s) ==> r == Err::<Vec<u8>, QueryError>(
            QueryError::Contract(s),
        ),
{
    match result {
        QueryOutcome::Value(v) => Ok(v),
        QueryOutcome::SystemErr(s) => Err(QueryError::System(s)),
        QueryOutcome::ContractErr(s) => Err(QueryError::Contract(s)),
    }
}

/// Aggregates the per-item outcomes of one batch, in request order: exactly
/// one `CallResult` per outcome, success and data recorded exactly, and a
/// failed item never aborts its siblings.
pub fn dispatch_queries(outcomes: &Vec<QueryOutcome>) -> (r: ICQResponse)
    ensures
        r.responses@.len() == outcomes@.len(),
        forall|i: int|
            0 <= i < outcomes@.len() ==> call_result_matches(
                outcomes@[i],
                #[trigger] r.responses@[i],
            ),
{
    let mut responses: Vec<CallResult> = Vec::new();
    let mut k: usize = 0;
    while k < outcomes.len()
        invariant
            k <= outcomes@.len(),
            responses@.len() == k as nat,
            forall|i: int|
                0 <= i < k ==> call_result_matches(outcomes@[i], #[trigger] responses@[i]),
        decreases outcomes@.len() - k,
    {
        let entry = match &outcomes[k] {
            QueryOutcome::Value(v) => CallResult { success: true, data: slice_to_vec(v.as_slice()) },
            QueryOutcome::SystemErr(s) => {
                let e = QueryError::System(s.clone());
                CallResult { success: false, data: e.message().as_str().as_bytes_vec() }
            },
            QueryOutcome::ContractErr(s) => {
                let e = QueryError::Contract(s.clone());
                CallResult { success: false, data: e.message().as_str().as_bytes_vec() }
            },
        };
        responses.push(entry);
        k = k + 1;
    }
    ICQResponse { responses }
}

/// The wire view of the aggregate result a sequence of outcomes dispatches
/// to.
pub open spec fn spec_dispatch_view(outcomes: Seq<QueryOutcome>) -> Seq<(Seq<u8>, Seq<u8>)> {
    Seq::new(outcomes.len(), |i: int| (spec_flag(outcome_ok(outcomes[i])), outcome_data(outcomes[i])))
}

/// The message of every rejection acknowledgement names the failure as a
/// packet-level one.
pub open spec fn is_invalid_packet_message(m: Seq<char>) -> bool {
    "invalid packet: "@.is_prefix_of(m)
}

/// The message a packet-level failure is reported with.
pub fn invalid_packet_message(e: &DecodeError) -> (m: String)
    ensures
        m@ == "invalid packet: "@ + e.spec_message(),
        is_invalid_packet_message(m@),
{
    let m = String::from_str("invalid packet: ").concat(e.message().as_str());
    proof {
        assert(("invalid packet: "@).is_prefix_of(m@)) by {
            assert(m@.subrange(0, "invalid packet: "@.len() as int) =~= "invalid packet: "@);
        }
    }
    m
}

/// What the first stage of the receive pipeline decided: either the decoded
/// batch, still to be dispatched, or the complete rejection acknowledgement
/// for a packet that did not decode.
#[derive(Clone, Debug, PartialEq, Eq)]
pub enum ReceiveOutcome {
    /// The packet decoded; dispatch these requests in order.
    Queries(IbcStargate),
    /// The packet was rejected; return exactly these acknowledgement bytes.
    Rejected(Vec<u8>),
}

/// First stage of the receive callback: decodes the packet. A packet that
/// does not decode is rejected as a whole — no partial results — with an
/// `Error` acknowledgement whose message starts with `invalid packet: `;
/// this stage is total and never fails the host call.
pub fn receive_step(packet_bytes: &[u8]) -> (r: ReceiveOutcome)
    ensures
        r is Rejected <==> spec_dec_pairs_message(packet_bytes@) is None,
        match r {
            ReceiveOutcome::Queries(batch) => spec_dec_pairs_message(packet_bytes@) == Some(
                reqs_view(batch.requests@),
            ),
            ReceiveOutcome::Rejected(ack) => exists|m: Seq<char>|
                #![auto]
                ack@ == spec_enc_ack(true, encode_utf8(m)) && is_invalid_packet_message(m),
        },
{
    match decode_packet(packet_bytes) {
        Ok(batch) => ReceiveOutcome::Queries(batch),
        Err(e) => {
            let msg = invalid_packet_message(&e);
            let ghost m = msg@;
            let ack = encode_ibc_error(msg);
            proof {
                assert(ack@ == spec_enc_ack(true, encode_utf8(m)) && is_invalid_packet_message(m));
            }
            ReceiveOutcome::Rejected(ack)
        },
    }
}

/// Second stage of the receive callback: wraps the aggregated outcomes of a
/// decoded batch in the success acknowledgement. Total — encoding cannot
/// fail — so together with `receive_step` every received packet is answered
/// with exactly one acknowledgement.
pub fn finish_receive(outcomes: &Vec<QueryOutcome>) -> (ack: Vec<u8>)
    ensures
        ack@ == spec_enc_ack(false, spec_enc_pairs_message(spec_dispatch_view(outcomes@))),
{
    let resp = dispatch_queries(outcomes);
    let payload = encode_icq_response(&resp);
    proof {
        assert(results_view(resp.responses@) =~= spec_dispatch_view(outcomes@));
    }
    encode_ack(&IbcQueryRequestResponse::Result(payload))
}

} // verus!
