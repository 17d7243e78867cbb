use vstd::prelude::*;

use crate::chain::Circuit;
use crate::primitives::{LaneId, MessageNonce, Weight};

verus! {

/// Time (in seconds) after which the message lane loop is considered stalled.
pub const STALL_TIMEOUT_SECS: u64 = 5 * 60;

/// Limits of the message delivery transactions at the target chain.
#[derive(Clone, Copy, Debug, PartialEq, Eq, Structural)]
pub struct MessageDeliveryParams {
    pub max_unrewarded_relayer_entries_at_target: MessageNonce,
    pub max_unconfirmed_nonces_at_target: MessageNonce,
    pub max_messages_in_single_batch: MessageNonce,
    pub max_messages_weight_in_single_batch: Weight,
    pub max_messages_size_in_single_batch: usize,
}

/// What the Gateway -> Circuit message lane loop runs with.
#[derive(Clone, Copy, Debug, PartialEq, Eq)]
pub struct LaneLoopParams {
    pub lane: LaneId,
    pub stall_timeout_secs: u64,
    pub delivery_params: MessageDeliveryParams,
}

/// Size (in bytes) of the messages in a single delivery transaction: a third of
/// a Circuit extrinsic, the rest being left to the proofs and the transaction.
pub fn max_messages_size_in_single_batch(target: &Circuit) -> (size: usize)
    ensures
        size == target.max_extrinsic_size / 3,
        3 * size <= target.max_extrinsic_size,
        target.max_extrinsic_size < 3 * (size + 1),
{
    (target.max_extrinsic_size as usize) / 3
}

/// Parameters of the Gateway -> Circuit message lane loop for `lane`, where
/// `delivery_limits` are the maximal number of messages and their maximal
/// dispatch weight in a single delivery transaction.
pub fn message_lane_params(
    lane: LaneId,
    target: &Circuit,
    delivery_limits: (MessageNonce, Weight),
) -> (params: LaneLoopParams)
    ensures
        params.lane == lane,
        params.stall_timeout_secs == 300,
        params.delivery_params.max_unrewarded_relayer_entries_at_target
            == target.max_unrewarded_relayer_entries_at_inbound_lane,
        params.delivery_params.max_unconfirmed_nonces_at_target
            == target.max_unconfirmed_messages_at_inbound_lane,
        params.delivery_params.max_messages_in_single_batch == delivery_limits.0,
        params.delivery_params.max_messages_weight_in_single_batch == delivery_limits.1,
        params.delivery_params.max_messages_size_in_single_batch == target.max_extrinsic_size / 3,
{
    let max_messages_size_in_single_batch = max_messages_size_in_single_batch(target);
    let (max_messages_in_single_batch, max_messages_weight_in_single_batch) = delivery_limits;
    LaneLoopParams {
        lane,
        stall_timeout_secs: STALL_TIMEOUT_SECS,
        delivery_params: MessageDeliveryParams {
            max_unrewarded_relayer_entries_at_target: target.max_unrewarded_relayer_entries_at_inbound_lane,
            max_unconfirmed_nonces_at_target: target.max_unconfirmed_messages_at_inbound_lane,
            max_messages_in_single_batch,
            max_messages_weight_in_single_batch,
            max_messages_size_in_single_batch,
        },
    }
}

} // verus!
