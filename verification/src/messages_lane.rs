use vstd::prelude::*;

use crate::primitives::{AccountId, BlockHash, HeaderId, Index, MessageNonce, Weight};
use crate::runtime::{
    CircuitCall, GatewayCall, MessagesDeliveryProof, MessagesProof, UnrewardedRelayersState,
    UnsignedTransaction,
};

verus! {

/// Number of messages in the nonce range `nonces_start..=nonces_end`, as the
/// `u32` that the delivery call carries.
pub open spec fn spec_messages_count(nonces_start: MessageNonce, nonces_end: MessageNonce) -> u32 {
    ((nonces_end - nonces_start + 1) as u64) as u32
}

/// Number of messages that a proof of `nonces_start..=nonces_end` delivers.
pub fn messages_count(nonces_start: MessageNonce, nonces_end: MessageNonce) -> (count: u32)
    requires
        nonces_start <= nonces_end,
        nonces_end - nonces_start < u64::MAX,
    ensures
        count == spec_messages_count(nonces_start, nonces_end),
        nonces_end - nonces_start + 1 <= u32::MAX ==> count == nonces_end - nonces_start + 1,
{
    let count: u64 = nonces_end - nonces_start + 1;
    count as u32
}

/// The Gateway -> Circuit message lane: the relay's signers at both chains and
/// the genesis hashes of both chains.
#[derive(Clone, Copy, Debug)]
pub struct GatewayMessagesToCircuit {
    /// Genesis hash of the source (Gateway) chain.
    pub source_genesis_hash: BlockHash,
    /// Public key of the relay's signer at the source (Gateway) chain.
    pub source_signer: AccountId,
    /// Genesis hash of the target (Circuit) chain.
    pub target_genesis_hash: BlockHash,
    /// Public key of the relay's signer at the target (Circuit) chain.
    pub target_signer: AccountId,
    /// Account of the relayer at the source chain, which gets the delivery rewards.
    pub relayer_id_at_source: AccountId,
}

impl GatewayMessagesToCircuit {
    /// The lane the relay runs with: the relayer at the source chain is the
    /// account of its own signer there.
    pub open spec fn spec_new(
        source_genesis_hash: BlockHash,
        source_signer: AccountId,
        target_genesis_hash: BlockHash,
        target_signer: AccountId,
    ) -> Self {
        GatewayMessagesToCircuit {
            source_genesis_hash,
            source_signer,
            target_genesis_hash,
            target_signer,
            relayer_id_at_source: source_signer,
        }
    }

    /// The source chain call that confirms a delivery of messages.
    pub open spec fn spec_receiving_proof_call(
        self,
        relayers_state: UnrewardedRelayersState,
        proof: MessagesDeliveryProof,
    ) -> GatewayCall {
        GatewayCall::BridgeCircuitMessagesReceiveMessagesDeliveryProof { proof, relayers_state }
    }

    /// The target chain call that delivers the messages of `proof`.
    pub open spec fn spec_delivery_call(self, dispatch_weight: Weight, proof: MessagesProof) -> CircuitCall {
        CircuitCall::BridgeGatewayMessagesReceiveMessagesProof {
            relayer_id_at_bridged_chain: self.relayer_id_at_source,
            messages_count: spec_messages_count(proof.nonces_start, proof.nonces_end),
            dispatch_weight,
            proof,
        }
    }

    /// The lane the relay runs with: the relayer at the source chain is the
    /// account of its own signer there.
    pub fn new(
        source_genesis_hash: BlockHash,
        source_signer: AccountId,
        target_genesis_hash: BlockHash,
        target_signer: AccountId,
    ) -> (lane: Self)
        ensures
            lane == Self::spec_new(source_genesis_hash, source_signer, target_genesis_hash, target_signer),
            lane.source_genesis_hash == source_genesis_hash,
            lane.source_signer == source_signer,
            lane.target_genesis_hash == target_genesis_hash,
            lane.target_signer == target_signer,
            lane.relayer_id_at_source == source_signer,
    {
        GatewayMessagesToCircuit {
            source_genesis_hash,
            source_signer,
            target_genesis_hash,
            target_signer,
            relayer_id_at_source: source_signer,
        }
    }

    /// Account that signs the transactions sent to the source chain.
    pub fn source_transactions_author(&self) -> (author: AccountId)
        ensures
            author == self.source_signer,
    {
        self.source_signer
    }

    /// Account that signs the transactions sent to the target chain.
    pub fn target_transactions_author(&self) -> (author: AccountId)
        ensures
            author == self.target_signer,
    {
        self.target_signer
    }

    /// Transaction that confirms, at the source chain, the delivery of messages
    /// to the target chain.
    pub fn make_messages_receiving_proof_transaction(
        &self,
        transaction_nonce: Index,
        _generated_at_block: HeaderId,
        proof: (UnrewardedRelayersState, MessagesDeliveryProof),
    ) -> (transaction: UnsignedTransaction<GatewayCall>)
        ensures
            transaction.genesis_hash == self.source_genesis_hash,
            transaction.signer == self.source_signer,
            transaction.nonce == transaction_nonce,
            transaction.call == self.spec_receiving_proof_call(proof.0, proof.1),
            transaction.call matches GatewayCall::BridgeCircuitMessagesReceiveMessagesDeliveryProof {
                proof: delivered,
                relayers_state,
            } && relayers_state == proof.0 && delivered.bridged_header_hash == proof.1.bridged_header_hash
                && delivered.storage_proof == proof.1.storage_proof && delivered.lane == proof.1.lane,
    {
        let (relayers_state, proof) = proof;
        let call = GatewayCall::BridgeCircuitMessagesReceiveMessagesDeliveryProof { proof, relayers_state };
        UnsignedTransaction {
            genesis_hash: self.source_genesis_hash,
            signer: self.source_signer,
            nonce: transaction_nonce,
            call,
        }
    }

    /// Transaction that delivers messages, with their dispatch weight, to the
    /// target chain.
    pub fn make_messages_delivery_transaction(
        &self,
        transaction_nonce: Index,
        _generated_at_header: HeaderId,
        _nonces: (MessageNonce, MessageNonce),
        proof: (Weight, MessagesProof),
    ) -> (transaction: UnsignedTransaction<CircuitCall>)
        requires
            proof.1.nonces_start <= proof.1.nonces_end,
            proof.1.nonces_end - proof.1.nonces_start < u64::MAX,
        ensures
            transaction.genesis_hash == self.target_genesis_hash,
            transaction.signer == self.target_signer,
            transaction.nonce == transaction_nonce,
            transaction.call == self.spec_delivery_call(proof.0, proof.1),
            transaction.call matches CircuitCall::BridgeGatewayMessagesReceiveMessagesProof {
                relayer_id_at_bridged_chain,
                proof: delivered,
                messages_count,
                dispatch_weight,
            } && relayer_id_at_bridged_chain == self.relayer_id_at_source && dispatch_weight == proof.0
                && delivered.bridged_header_hash == proof.1.bridged_header_hash
                && delivered.storage_proof == proof.1.storage_proof && delivered.lane == proof.1.lane
                && delivered.nonces_start == proof.1.nonces_start && delivered.nonces_end == proof.1.nonces_end
                && (proof.1.nonces_end - proof.1.nonces_start + 1 <= u32::MAX ==> messages_count
                == proof.1.nonces_end - proof.1.nonces_start + 1),
    {
        let (dispatch_weight, proof) = proof;
        let count = messages_count(proof.nonces_start, proof.nonces_end);
        let call = CircuitCall::BridgeGatewayMessagesReceiveMessagesProof {
            relayer_id_at_bridged_chain: self.relayer_id_at_source,
            proof,
            messages_count: count,
            dispatch_weight,
        };
        UnsignedTransaction {
            genesis_hash: self.target_genesis_hash,
            signer: self.target_signer,
            nonce: transaction_nonce,
            call,
        }
    }
}

/// Messages that the relay's lane delivers to the target chain are credited,
/// at the source chain, to the account that signs the lane's transactions to
/// the source chain.
pub proof fn lemma_delivery_credits_source_transactions_author(
    source_genesis_hash: BlockHash,
    source_signer: AccountId,
    target_genesis_hash: BlockHash,
    target_signer: AccountId,
    dispatch_weight: Weight,
    proof: MessagesProof,
)
    ensures
        ({
            let lane = GatewayMessagesToCircuit::spec_new(
                source_genesis_hash,
                source_signer,
                target_genesis_hash,
                target_signer,
            );
            lane.spec_delivery_call(dispatch_weight, proof) matches
                CircuitCall::BridgeGatewayMessagesReceiveMessagesProof { relayer_id_at_bridged_chain, .. }
                && relayer_id_at_bridged_chain == lane.source_signer
        }),
{
}

/// The number of messages that a delivery call carries is the number of nonces
/// in the proof's range, whenever that number fits in a `u32`; a proof of a
/// single nonce carries one message.
pub proof fn lemma_messages_count_is_range_length(nonces_start: MessageNonce, nonces_end: MessageNonce)
    requires
        nonces_start <= nonces_end,
    ensures
        nonces_end - nonces_start + 1 <= u32::MAX ==> spec_messages_count(nonces_start, nonces_end)
            == nonces_end - nonces_start + 1,
        nonces_start == nonces_end ==> spec_messages_count(nonces_start, nonces_end) == 1,
{
}

/// The lane keeps what it is set up with: both genesis hashes and both signers
/// as given, and the source signer as the relayer at the source chain.
pub proof fn lemma_new_keeps_its_inputs(
    source_genesis_hash: BlockHash,
    source_signer: AccountId,
    target_genesis_hash: BlockHash,
    target_signer: AccountId,
)
    ensures
        ({
            let lane = GatewayMessagesToCircuit::spec_new(
                source_genesis_hash,
                source_signer,
                target_genesis_hash,
                target_signer,
            );
            &&& lane.source_genesis_hash == source_genesis_hash
            &&& lane.source_signer == source_signer
            &&& lane.target_genesis_hash == target_genesis_hash
            &&& lane.target_signer == target_signer
            &&& lane.relayer_id_at_source == source_signer
        }),
{
}

/// A delivery call carries the messages proof it is given unchanged, with the
/// dispatch weight given, the lane's relayer, and as many messages as the
/// proof's nonce range holds (whenever that number fits in a `u32`).
pub proof fn lemma_delivery_call_carries_its_proof(
    lane: GatewayMessagesToCircuit,
    dispatch_weight: Weight,
    proof: MessagesProof,
)
    requires
        proof.nonces_start <= proof.nonces_end,
    ensures
        lane.spec_delivery_call(dispatch_weight, proof) matches CircuitCall::BridgeGatewayMessagesReceiveMessagesProof {
            relayer_id_at_bridged_chain,
            proof: delivered,
            messages_count,
            dispatch_weight: weight,
        } && relayer_id_at_bridged_chain == lane.relayer_id_at_source && weight == dispatch_weight
            && delivered == proof
            && delivered.bridged_header_hash == proof.bridged_header_hash
            && delivered.storage_proof == proof.storage_proof && delivered.lane == proof.lane
            && delivered.nonces_start == proof.nonces_start && delivered.nonces_end == proof.nonces_end
            && (proof.nonces_end - proof.nonces_start + 1 <= u32::MAX ==> messages_count
            == proof.nonces_end - proof.nonces_start + 1)
            && (proof.nonces_start == proof.nonces_end ==> messages_count == 1),
{
}

/// A delivery confirmation call carries the delivery proof and the unrewarded
/// relayers state it is given unchanged.
pub proof fn lemma_receiving_proof_call_carries_its_proof(
    lane: GatewayMessagesToCircuit,
    relayers_state: UnrewardedRelayersState,
    proof: MessagesDeliveryProof,
)
    ensures
        lane.spec_receiving_proof_call(relayers_state, proof) matches
            GatewayCall::BridgeCircuitMessagesReceiveMessagesDeliveryProof { proof: delivered, relayers_state: state }
            && state == relayers_state && delivered == proof
            && delivered.bridged_header_hash == proof.bridged_header_hash
            && delivered.storage_proof == proof.storage_proof && delivered.lane == proof.lane,
{
}

} // verus!
