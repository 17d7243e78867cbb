use vstd::prelude::*;

use crate::primitives::Weight;

verus! {

/// Index of the Gateway -> Circuit messages pallet among the bridge pallet
/// instances of the Gateway runtime.
pub const GATEWAY_TO_CIRCUIT_INDEX: u8 = 0;

/// The constants of the Gateway chain that the relay works with.
#[derive(Clone, Copy, Debug, PartialEq, Eq)]
pub struct Gateway {
    /// Maximal size (in bytes) of an extrinsic at the Gateway chain.
    pub max_extrinsic_size: u32,
    /// Maximal weight of an extrinsic at the Gateway chain.
    pub max_extrinsic_weight: Weight,
    /// SS58 address prefix of the Gateway chain.
    pub ss58_prefix: u16,
}

/// The constants of the Circuit chain that the relay works with.
#[derive(Clone, Copy, Debug, PartialEq, Eq)]
pub struct Circuit {
    /// Maximal size (in bytes) of an extrinsic at the Circuit chain.
    pub max_extrinsic_size: u32,
    /// Maximal weight of an extrinsic at the Circuit chain.
    pub max_extrinsic_weight: Weight,
    /// Spec version of the Circuit runtime.
    pub spec_version: u32,
    /// Maximal number of unrewarded relayer entries at a Circuit inbound lane.
    pub max_unrewarded_relayer_entries_at_inbound_lane: u64,
    /// Maximal number of unconfirmed messages at a Circuit inbound lane.
    pub max_unconfirmed_messages_at_inbound_lane: u64,
}

impl Gateway {
    /// Maximal size (in bytes) of a Gateway extrinsic.
    pub fn max_extrinsic_size(&self) -> (size: u32)
        ensures
            size == self.max_extrinsic_size,
    {
        self.max_extrinsic_size
    }

    /// SS58 address format of Gateway accounts.
    pub fn ss58_format(&self) -> (format: u16)
        ensures
            format == self.ss58_prefix,
    {
        self.ss58_prefix
    }

    /// Maximal weight of a Gateway extrinsic.
    pub fn max_extrinsic_weight(&self) -> (weight: Weight)
        ensures
            weight == self.max_extrinsic_weight,
    {
        self.max_extrinsic_weight
    }
}

} // verus!
