//! Pending-channel registry and packet-timeout configuration.
//!
//! The registry is an explicit keyed store: one entry per channel id that is
//! currently being opened, written on the connect callback. Registering an
//! id that is already present fails and changes nothing. Closing a channel
//! does not purge its entry — an intentional simplification of this design
//! that callers must be aware of.

use crate::error::ContractError;
use crate::msg::InstantiateMsg;
use vstd::prelude::*;

verus! {

/// The packet-timeout configuration: one duration in seconds, written once
/// at instantiation and immutable thereafter (no update is exposed).
#[derive(Clone, Copy, Debug, PartialEq, Eq, Structural)]
pub struct Config {
    /// Seconds an outbound packet stays valid; every outbound timeout is the
    /// current block time plus this.
    pub packet_lifetime: u64,
}

impl Config {
    /// The configuration with the given packet lifetime.
    pub fn new(packet_lifetime: u64) -> (c: Config)
        ensures
            c.packet_lifetime == packet_lifetime,
    {
        Config { packet_lifetime }
    }

    /// Absolute timeout of a packet sent now: the current block time plus
    /// the configured lifetime.
    pub fn outbound_timeout(&self, now_seconds: u64) -> (t: u64)
        requires
            now_seconds + self.packet_lifetime <= u64::MAX,
        ensures
            t == now_seconds + self.packet_lifetime,
    {
        now_seconds + self.packet_lifetime
    }
}

/// Builds the configuration that instantiation persists: exactly the packet
/// lifetime the message carries.
pub fn instantiate(msg: &InstantiateMsg) -> (c: Config)
    ensures
        c.packet_lifetime == msg.packet_lifetime,
{
    Config::new(msg.packet_lifetime)
}

/// The channel ids currently being opened, each at most once.
#[derive(Clone, Debug, PartialEq, Eq)]
pub struct PendingChannelRegistry {
    /// The registered ids, in registration order.
    pub channels: Vec<String>,
}

impl PendingChannelRegistry {
    /// At most one entry per channel id.
    pub open spec fn wf(self) -> bool {
        forall|i: int, j: int|
            0 <= i < j < self.channels@.len() ==> (#[trigger] self.channels@[i])@ != (
            #[trigger] self.channels@[j])@
    }

    /// Whether an entry for this id exists.
    pub open spec fn spec_contains(self, id: Seq<char>) -> bool {
        exists|i: int| 0 <= i < self.channels@.len() && (#[trigger] self.channels@[i])@ == id
    }

    /// The empty registry.
    pub fn new() -> (r: PendingChannelRegistry)
        ensures
            r.channels@.len() == 0,
            r.wf(),
    {
        PendingChannelRegistry { channels: Vec::new() }
    }

    /// Whether an entry for this id exists.
    pub fn contains(&self, channel_id: &String) -> (r: bool)
        ensures
            r == self.spec_contains(channel_id@),
    {
        let mut k: usize = 0;
        while k < self.channels.len()
            invariant
                k <= self.channels@.len(),
                forall|i: int| 0 <= i < k ==> (#[trigger] self.channels@[i])@ != channel_id@,
            decreases self.channels@.len() - k,
        {
            let e = &self.channels[k];
            if e.eq(channel_id) {
                return true;
            }
            k = k + 1;
        }
        false
    }

    /// Records that this channel is being opened. Fails, and changes
    /// nothing, when an entry for the id already exists.
    pub fn register(&mut self, channel_id: String) -> (r: Result<(), ContractError>)
        requires
            old(self).wf(),
        ensures
            final(self).wf(),
            old(self).spec_contains(channel_id@) ==> r == Err::<(), ContractError>(
                ContractError::ChannelAlreadyRegistered,
            ) && *final(self) == *old(self),
            !old(self).spec_contains(channel_id@) ==> r == Ok::<(), ContractError>(())
                && final(self).channels@ == old(self).channels@.push(channel_id),
    {
        if self.contains(&channel_id) {
            Err(ContractError::ChannelAlreadyRegistered)
        } else {
            self.channels.push(channel_id);
            Ok(())
        }
    }
}

} // verus!
