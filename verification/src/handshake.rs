//! Channel handshake validator.
//!
//! Pure validation of a proposed channel order and an optional
//! counterparty-declared version string against the fixed requirements:
//! the channel must be unordered and the counterparty, if it declares a
//! version at all, must declare exactly the fixed protocol version. On
//! success the validator returns the locally-required version, never the
//! counterparty's: this side dictates the version.

use crate::error::ContractError;
use crate::ibc_app_version;
use crate::spec_ibc_app_version;
use vstd::prelude::*;
use vstd::string::StringExecFns;

verus! {

/// Delivery ordering of a channel, as proposed during the handshake.
#[derive(Clone, Copy, PartialEq, Eq, Structural, Debug)]
pub enum ChannelOrder {
    /// Packets may be delivered in any order.
    Unordered,
    /// Packets are delivered in the order they were sent.
    Ordered,
}

/// The order every channel of this relay must have.
pub const APP_ORDER: ChannelOrder = ChannelOrder::Unordered;

/// An order that must be rejected; kept so that rejection stays exercised.
pub const BAD_APP_ORDER: ChannelOrder = ChannelOrder::Ordered;

/// A channel-open proposal is acceptable exactly when its order is unordered
/// and its counterparty version, where one is declared, is the fixed protocol
/// version.
pub open spec fn open_accepted(order: ChannelOrder, counterparty_version: Option<Seq<char>>) -> bool {
    &&& order == ChannelOrder::Unordered
    &&& match counterparty_version {
        Some(v) => v == spec_ibc_app_version(),
        None => true,
    }
}

/// Validates a channel-open proposal.
///
/// Succeeds exactly on unordered channels whose counterparty version, if
/// declared, equals the fixed protocol version, and then returns that fixed
/// version regardless of what was offered. A wrong order is reported before
/// a wrong version. Pure: no state is read or written.
pub fn ibc_channel_open(order: ChannelOrder, counterparty_version: Option<&String>) -> (r: Result<
    String,
    ContractError,
>)
    ensures
        r is Ok <==> open_accepted(order, spec_version_view(counterparty_version)),
        r is Ok ==> r->Ok_0@ == spec_ibc_app_version(),
        order != ChannelOrder::Unordered ==> r == Err::<String, ContractError>(
            ContractError::InvalidChannelOrder,
        ),
        order == ChannelOrder::Unordered && !open_accepted(
            order,
            spec_version_view(counterparty_version),
        ) ==> r == Err::<String, ContractError>(ContractError::InvalidChannelVersion),
{
    check_order(order)?;
    if let Some(version) = counterparty_version {
        check_version(version)?;
    }
    Ok(String::from_str(ibc_app_version()))
}

/// The character sequence a declared counterparty version holds, if any.
pub open spec fn spec_version_view(v: Option<&String>) -> Option<Seq<char>> {
    match v {
        Some(s) => Some(s@),
        None => None,
    }
}

/// Accepts exactly the required channel order.
pub fn check_order(order: ChannelOrder) -> (r: Result<(), ContractError>)
    ensures
        r is Ok <==> order == ChannelOrder::Unordered,
        r is Err ==> r == Err::<(), ContractError>(ContractError::InvalidChannelOrder),
{
    if order == ChannelOrder::Unordered {
        Ok(())
    } else {
        Err(ContractError::InvalidChannelOrder)
    }
}

/// Accepts exactly the fixed protocol version.
pub fn check_version(version: &String) -> (r: Result<(), ContractError>)
    ensures
        r is Ok <==> version@ == spec_ibc_app_version(),
        r is Err ==> r == Err::<(), ContractError>(ContractError::InvalidChannelVersion),
{
    let required = String::from_str(ibc_app_version());
    if version.eq(&required) {
        Ok(())
    } else {
        Err(ContractError::InvalidChannelVersion)
    }
}

} // verus!
