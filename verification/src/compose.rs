//! Outbound packet composer.
//!
//! Turns one forwarding command into exactly one outbound send instruction:
//! it rejects calls that attach funds — query relay accepts no payment —
//! validates the callback address, builds the batch (the given requests, or
//! one adapter-built price query), computes the absolute timeout as the
//! current block time plus the configured lifetime, and encodes the payload.
//! Rejection happens before any packet is composed.

use crate::adapter::build_spot_price_request;
use crate::adapter::spec_enc_spot_price;
use crate::adapter::spec_spot_price_path;
use crate::codec::encode_packet;
use crate::codec::reqs_view;
use crate::error::ContractError;
use crate::msg::ExecuteMsg;
use crate::msg::IbcStargate;
use crate::registry::Config;
use crate::wire::spec_enc_pairs_message;
use vstd::prelude::*;
use vstd::string::StringExecFnsIsAscii;
use vstd::utf8::encode_utf8;
use vstd::utf8::is_ascii_chars;

verus! {

/// One attached coin: a denomination and an amount.
#[derive(Clone, Debug, PartialEq, Eq)]
pub struct Coin {
    /// Denomination of the attached amount.
    pub denom: String,
    /// Attached amount, in the denomination's base unit.
    pub amount: u128,
}

/// Accepts only calls with no attached funds.
pub fn nonpayable(funds: &Vec<Coin>) -> (r: Result<(), ContractError>)
    ensures
        r is Ok <==> funds@.len() == 0,
        r is Err ==> r == Err::<(), ContractError>(ContractError::Payment),
{
    if funds.is_empty() {
        Ok(())
    } else {
        Err(ContractError::Payment)
    }
}

/// A callback address is well-formed when it is non-empty ASCII.
pub open spec fn valid_callback_address(a: Seq<char>) -> bool {
    a.len() > 0 && is_ascii_chars(a)
}

/// Accepts exactly the well-formed callback addresses.
pub fn validate_callback_address(addr: &String) -> (r: Result<(), ContractError>)
    ensures
        r is Ok <==> valid_callback_address(addr@),
        r is Err ==> r == Err::<(), ContractError>(ContractError::InvalidCallbackAddress),
{
    if addr.as_str().is_empty() {
        Err(ContractError::InvalidCallbackAddress)
    } else if addr.is_ascii() {
        Ok(())
    } else {
        Err(ContractError::InvalidCallbackAddress)
    }
}

/// The one outbound send instruction a forwarding command becomes: the
/// channel to send on, the callback to hand the acknowledgement to, the
/// encoded packet payload, and the absolute timeout.
#[derive(Clone, Debug, PartialEq, Eq)]
pub struct OutboundPacket {
    /// The established channel to send on.
    pub channel_id: String,
    /// Address to hand the eventual acknowledgement to.
    pub callback: String,
    /// The encoded packet.
    pub payload: Vec<u8>,
    /// Absolute timeout in seconds: block time at composition plus the
    /// configured packet lifetime.
    pub timeout_seconds: u64,
}

/// The channel a command asks to send on.
pub open spec fn msg_channel_id(m: ExecuteMsg) -> Seq<char> {
    match m {
        ExecuteMsg::ForwardQueries { channel_id, .. } => channel_id@,
        ExecuteMsg::ForwardPriceQuery { channel_id, .. } => channel_id@,
    }
}

/// The callback address a command names.
pub open spec fn msg_callback(m: ExecuteMsg) -> Seq<char> {
    match m {
        ExecuteMsg::ForwardQueries { callback, .. } => callback@,
        ExecuteMsg::ForwardPriceQuery { callback, .. } => callback@,
    }
}

/// The batch items a command asks to forward: the given requests, or the one
/// adapter-built price query.
pub open spec fn msg_items(m: ExecuteMsg) -> Seq<(Seq<u8>, Seq<u8>)> {
    match m {
        ExecuteMsg::ForwardQueries { requests, .. } => reqs_view(requests@),
        ExecuteMsg::ForwardPriceQuery {
            pool_id,
            token_in_denom,
            token_out_denom,
            with_swap_fee,
            ..
        } => seq![
            (
                spec_spot_price_path(),
                spec_enc_spot_price(
                    pool_id,
                    encode_utf8(token_in_denom@),
                    encode_utf8(token_out_denom@),
                    with_swap_fee,
                ),
            ),
        ],
    }
}

/// Composes the outbound packet for one forwarding command. Calls that
/// attach funds are rejected before anything is composed; then the callback
/// address is validated; on success the one send instruction carries the
/// encoded batch and the absolute timeout `now_seconds` plus the configured
/// lifetime.
pub fn execute(msg: ExecuteMsg, funds: &Vec<Coin>, now_seconds: u64, config: &Config) -> (r:
    Result<OutboundPacket, ContractError>)
    requires
        now_seconds + config.packet_lifetime <= u64::MAX,
    ensures
        r is Ok <==> funds@.len() == 0 && valid_callback_address(msg_callback(msg)),
        funds@.len() > 0 ==> r == Err::<OutboundPacket, ContractError>(ContractError::Payment),
        funds@.len() == 0 && !valid_callback_address(msg_callback(msg)) ==> r == Err::<
            OutboundPacket,
            ContractError,
        >(ContractError::InvalidCallbackAddress),
        r matches Ok(p) ==> p.payload@ == spec_enc_pairs_message(msg_items(msg))
            && p.timeout_seconds == now_seconds + config.packet_lifetime && p.channel_id@
            == msg_channel_id(msg) && p.callback@ == msg_callback(msg),
{
    let ghost gm = msg;
    nonpayable(funds)?;
    match msg {
        ExecuteMsg::ForwardQueries { channel_id, callback, requests } => {
            validate_callback_address(&callback)?;
            let batch = IbcStargate { requests };
            let payload = encode_packet(&batch);
            let timeout_seconds = config.outbound_timeout(now_seconds);
            Ok(OutboundPacket { channel_id, callback, payload, timeout_seconds })
        },
        ExecuteMsg::ForwardPriceQuery {
            channel_id,
            callback,
            pool_id,
            token_in_denom,
            token_out_denom,
            with_swap_fee,
        } => {
            validate_callback_address(&callback)?;
            let request = build_spot_price_request(
                pool_id,
                token_in_denom.as_str(),
                token_out_denom.as_str(),
                with_swap_fee,
            );
            let mut requests = Vec::new();
            requests.push(request);
            let batch = IbcStargate { requests };
            proof {
                assert(reqs_view(batch.requests@) =~= msg_items(gm));
            }
            let payload = encode_packet(&batch);
            let timeout_seconds = config.outbound_timeout(now_seconds);
            Ok(OutboundPacket { channel_id, callback, payload, timeout_seconds })
        },
    }
}

} // verus!
