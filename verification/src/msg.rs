//! Message and value types of the relay.
//!
//! Paths, request payloads, response data and acknowledgement payloads are
//! opaque byte strings; where a path or a denomination is text, the bytes
//! are its UTF-8 encoding.

use vstd::prelude::*;

verus! {

/// Instantiation parameter: the packet lifetime in seconds, set once and
/// immutable thereafter.
#[derive(Clone, Debug, PartialEq, Eq)]
pub struct InstantiateMsg {
    /// Seconds an outbound packet stays valid; every outbound timeout is the
    /// current block time plus this.
    pub packet_lifetime: u64,
}

/// One unit of work for the remote query engine: an opaque destination path
/// and an opaque, engine-specific request payload.
#[derive(Clone, Debug, PartialEq, Eq)]
pub struct StargateRequest {
    /// UTF-8 bytes of the query endpoint path on the remote engine.
    pub path: Vec<u8>,
    /// Engine-specific encoded request.
    pub data: Vec<u8>,
}

/// An ordered batch of query requests: the payload of one packet. Result
/// position `i` corresponds to request position `i`.
#[derive(Clone, Debug, PartialEq, Eq)]
pub struct IbcStargate {
    /// The requests, in dispatch order.
    pub requests: Vec<StargateRequest>,
}

/// The outcome of one dispatched query: the raw response bytes on success,
/// the UTF-8 bytes of an error description on failure.
#[derive(Clone, Debug, PartialEq, Eq, Default)]
pub struct CallResult {
    /// Whether the query engine answered this item.
    pub success: bool,
    /// Response bytes when `success`, error text bytes otherwise.
    pub data: Vec<u8>,
}

/// The aggregated outcome of one received batch: exactly one `CallResult`
/// per request, aligned by index.
#[derive(Clone, Debug, PartialEq, Eq)]
pub struct ICQResponse {
    /// One entry per request of the originating batch, in request order.
    pub responses: Vec<CallResult>,
}

/// The acknowledgement returned for every received packet: the serialized
/// aggregate result when the packet could be processed, a single descriptive
/// message when the packet as a whole was rejected.
#[derive(Clone, Debug, PartialEq, Eq)]
pub enum IbcQueryRequestResponse {
    /// The batch was processed; holds the encoded `ICQResponse`. Individual
    /// items may still have failed: inspect their `success` flags.
    Result(Vec<u8>),
    /// The packet itself was rejected before any item ran.
    Error(String),
}

/// A structured command selecting what to forward over the channel.
#[derive(Clone, Debug, PartialEq, Eq)]
pub enum ExecuteMsg {
    /// Forward an opaque query batch as one packet.
    ForwardQueries {
        /// The established channel to send on.
        channel_id: String,
        /// Address to hand the eventual acknowledgement to.
        callback: String,
        /// The batch, in dispatch order.
        requests: Vec<StargateRequest>,
    },
    /// Build one price-query request through the builder adapter and forward
    /// it as a batch of one.
    ForwardPriceQuery {
        /// The established channel to send on.
        channel_id: String,
        /// Address to hand the eventual acknowledgement to.
        callback: String,
        /// Liquidity pool to price.
        pool_id: u64,
        /// Denomination paid in.
        token_in_denom: String,
        /// Denomination priced out.
        token_out_denom: String,
        /// Whether the swap fee is included in the quote.
        with_swap_fee: bool,
    },
}

/// A read-only request answered locally, without going through the channel.
#[derive(Clone, Debug, PartialEq, Eq)]
pub enum QueryMsg {
    /// Price of a pool between two denominations, built through the builder
    /// adapter and answered by the local query engine.
    QueryStargateTwap {
        /// Liquidity pool to price.
        pool_id: u64,
        /// Denomination paid in.
        token_in_denom: String,
        /// Denomination priced out.
        token_out_denom: String,
        /// Whether the swap fee is included in the quote.
        with_swap_fee: bool,
    },
}

/// Migration carries no parameters.
#[derive(Clone, Debug, PartialEq, Eq)]
pub struct MigrateMsg {}

/// A price query as it arrives inside a packet, in human-level form: all
/// fields are text and the pool id still has to be parsed before the binary
/// request can be built.
#[derive(Clone, Debug, PartialEq, Eq)]
pub struct IbcQueryRequestTwap {
    /// Denomination paid in.
    pub base_denom: String,
    /// Decimal text of the pool id.
    pub pool_id: String,
    /// Denomination priced out.
    pub quote_denom: String,
    /// Averaging window, kept for forward compatibility; the spot-price
    /// request does not use it.
    pub twap_period: String,
}

} // verus!
