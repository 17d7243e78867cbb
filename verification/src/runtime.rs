use vstd::prelude::*;

use crate::primitives::{AccountId, Balance, BlockHash, Index, LaneId, MessageNonce, Weight};

verus! {

/// Proof that messages `nonces_start..=nonces_end` of `lane` are stored at the
/// bridged chain, at the header `bridged_header_hash`.
#[derive(Debug)]
pub struct MessagesProof {
    pub bridged_header_hash: BlockHash,
    pub storage_proof: Vec<Vec<u8>>,
    pub lane: LaneId,
    pub nonces_start: MessageNonce,
    pub nonces_end: MessageNonce,
}

/// Proof that messages of `lane` have been delivered to the bridged chain.
#[derive(Debug)]
pub struct MessagesDeliveryProof {
    pub bridged_header_hash: BlockHash,
    pub storage_proof: Vec<Vec<u8>>,
    pub lane: LaneId,
}

/// State of the unrewarded relayers at the inbound lane of the bridged chain.
#[derive(Clone, Copy, Debug, PartialEq, Eq)]
pub struct UnrewardedRelayersState {
    pub unrewarded_relayer_entries: MessageNonce,
    pub messages_in_oldest_entry: MessageNonce,
    pub total_messages: MessageNonce,
}

/// The Gateway runtime calls that the relay builds.
#[derive(Debug)]
pub enum GatewayCall {
    /// A runtime call given by its SCALE encoding, which the Gateway runtime
    /// codec decodes.
    Encoded { data: Vec<u8> },
    /// `System::remark`.
    SystemRemark { remark: Vec<u8> },
    /// `Balances::transfer`.
    BalancesTransfer { dest: AccountId, value: Balance },
    /// `BridgeCircuitMessages::send_message`; the payload is given by its SCALE
    /// encoding, which the Gateway runtime codec decodes.
    BridgeCircuitMessagesSendMessage { lane_id: LaneId, payload: Vec<u8>, delivery_and_dispatch_fee: Balance },
    /// `BridgeCircuitMessages::receive_messages_delivery_proof`.
    BridgeCircuitMessagesReceiveMessagesDeliveryProof {
        proof: MessagesDeliveryProof,
        relayers_state: UnrewardedRelayersState,
    },
}

/// The Circuit runtime calls that the relay builds.
#[derive(Debug)]
pub enum CircuitCall {
    /// `BridgeGatewayMessages::receive_messages_proof`.
    BridgeGatewayMessagesReceiveMessagesProof {
        relayer_id_at_bridged_chain: AccountId,
        proof: MessagesProof,
        messages_count: u32,
        dispatch_weight: Weight,
    },
}

/// A transaction that is ready to be signed by `signer` and sent to the chain
/// with genesis hash `genesis_hash`.
#[derive(Debug)]
pub struct UnsignedTransaction<C> {
    pub genesis_hash: BlockHash,
    pub signer: AccountId,
    pub nonce: Index,
    pub call: C,
}

} // verus!
