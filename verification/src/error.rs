//! Error taxonomy of the relay.
//!
//! Validation errors (`ContractError`) abort the invocation outright and are
//! surfaced to the host. Packet-level decode errors (`DecodeError`) and
//! per-item query errors (`QueryError`) never abort: the receive pipeline
//! absorbs them into acknowledgements or per-item results.

use vstd::prelude::*;
use vstd::string::StringExecFns;

verus! {

/// Validation failures surfaced directly to the invoking host.
///
/// Only these fail an invocation; everything that happens after a packet has
/// reached the receive callback is turned into a well-formed acknowledgement
/// instead.
#[derive(Clone, Copy, PartialEq, Eq, Structural, Debug)]
pub enum ContractError {
    /// A channel-open proposal carried an order other than the required one.
    InvalidChannelOrder,
    /// A channel-open proposal declared a counterparty version other than the
    /// fixed protocol version.
    InvalidChannelVersion,
    /// The channel id is already present in the pending-channel registry.
    ChannelAlreadyRegistered,
    /// A non-payable call arrived with attached funds.
    Payment,
    /// The callback address handed to the outbound composer is malformed.
    InvalidCallbackAddress,
}

impl ContractError {
    /// Human-readable description of the failure.
    pub fn message(&self) -> (r: String)
        ensures
            r@ == self.spec_message(),
    {
        match self {
            ContractError::InvalidChannelOrder => String::from_str(
                "Only supports unordered channels",
            ),
            ContractError::InvalidChannelVersion => String::from_str(
                "Counterparty version must be `ibc-query-1`",
            ),
            ContractError::ChannelAlreadyRegistered => String::from_str(
                "Cannot register over an existing channel",
            ),
            ContractError::Payment => String::from_str("This message does no accept funds"),
            ContractError::InvalidCallbackAddress => String::from_str("Invalid callback address"),
        }
    }

    /// The description that `message` returns, variant by variant.
    pub open spec fn spec_message(&self) -> Seq<char> {
        match self {
            ContractError::InvalidChannelOrder => "Only supports unordered channels"@,
            ContractError::InvalidChannelVersion => "Counterparty version must be `ibc-query-1`"@,
            ContractError::ChannelAlreadyRegistered => "Cannot register over an existing channel"@,
            ContractError::Payment => "This message does no accept funds"@,
            ContractError::InvalidCallbackAddress => "Invalid callback address"@,
        }
    }
}

/// Reasons a received packet (or an adapter-shaped request inside it) failed
/// to decode. Any of these rejects the whole packet: the receive pipeline
/// answers with an `Error` acknowledgement and produces no partial results.
#[derive(Clone, Copy, PartialEq, Eq, Structural, Debug)]
pub enum DecodeError {
    /// The bytes end before the announced structure is complete.
    Truncated,
    /// Bytes remain after the announced structure is complete.
    TrailingBytes,
    /// The leading schema-version byte is not the supported one.
    UnsupportedVersion,
    /// A tag byte holds a value that names no variant.
    InvalidTag,
    /// A pool identifier field is not a decimal number that fits in 64 bits.
    InvalidPoolId,
}

impl DecodeError {
    /// Human-readable description of the failure.
    pub fn message(&self) -> (r: String)
        ensures
            r@ == self.spec_message(),
    {
        match self {
            DecodeError::Truncated => String::from_str("truncated payload"),
            DecodeError::TrailingBytes => String::from_str("trailing bytes after payload"),
            DecodeError::UnsupportedVersion => String::from_str("unsupported schema version"),
            DecodeError::InvalidTag => String::from_str("unknown tag"),
            DecodeError::InvalidPoolId => String::from_str("Parse error: invalid pool id"),
        }
    }

    /// The description that `message` returns, variant by variant.
    pub open spec fn spec_message(&self) -> Seq<char> {
        match self {
            DecodeError::Truncated => "truncated payload"@,
            DecodeError::TrailingBytes => "trailing bytes after payload"@,
            DecodeError::UnsupportedVersion => "unsupported schema version"@,
            DecodeError::InvalidTag => "unknown tag"@,
            DecodeError::InvalidPoolId => "Parse error: invalid pool id"@,
        }
    }
}

/// One query's failure, as the local query engine reported it. The dispatcher
/// keeps the system/contract distinction; both collapse to a failed
/// `CallResult` without aborting sibling items.
#[derive(Clone, PartialEq, Eq, Debug)]
pub enum QueryError {
    /// The query subsystem itself errored.
    System(String),
    /// The target endpoint rejected the request.
    Contract(String),
}

impl QueryError {
    /// Human-readable description of the failure, prefixed with which side
    /// of the engine produced it.
    pub fn message(&self) -> (r: String)
        ensures
            r@ == self.spec_message(),
    {
        match self {
            QueryError::System(s) => String::from_str("Querier system error: ").concat(s.as_str()),
            QueryError::Contract(s) => String::from_str("Querier contract error: ").concat(
                s.as_str(),
            ),
        }
    }

    /// The description that `message` returns, variant by variant.
    pub open spec fn spec_message(&self) -> Seq<char> {
        match self {
            QueryError::System(s) => "Querier system error: "@ + s@,
            QueryError::Contract(s) => "Querier contract error: "@ + s@,
        }
    }
}

} // verus!
