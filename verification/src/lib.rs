//! Cross-domain query relay protocol.
//!
//! A library for forwarding read-only queries from one blockchain domain to
//! another over a bidirectional packet channel: the channel handshake
//! validator, the pending-channel registry, the packet and acknowledgement
//! codecs, the batched query dispatcher with per-item failure isolation, and
//! the price-query builder adapter.

pub mod adapter;
pub mod codec;
pub mod compose;
pub mod dispatch;
pub mod error;
pub mod registry;
pub mod handshake;
pub mod msg;
pub mod wire;

use vstd::prelude::*;

verus! {

/// Fixed protocol version that this relay requires on every channel.
pub open spec fn spec_ibc_app_version() -> Seq<char> {
    "ibc-query-1"@
}

/// The fixed protocol version string, as negotiated during the channel
/// handshake.
pub fn ibc_app_version() -> (s: &'static str)
    ensures
        s@ == spec_ibc_app_version(),
{
    "ibc-query-1"
}

} // verus!
