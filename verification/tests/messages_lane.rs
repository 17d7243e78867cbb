use gateway_relay::messages_lane::{messages_count, GatewayMessagesToCircuit};
use gateway_relay::primitives::HeaderId;
use gateway_relay::runtime::{
    CircuitCall, GatewayCall, MessagesDeliveryProof, MessagesProof, UnrewardedRelayersState,
};

fn lane() -> GatewayMessagesToCircuit {
    GatewayMessagesToCircuit::new([1u8; 32], [2u8; 32], [3u8; 32], [4u8; 32])
}

fn header() -> HeaderId {
    HeaderId { number: 7, hash: [9u8; 32] }
}

#[test]
fn messages_count_of_single_nonce_is_one() {
    assert_eq!(messages_count(5, 5), 1);
}

#[test]
fn messages_count_of_range() {
    assert_eq!(messages_count(10, 19), 10);
    assert_eq!(messages_count(0, 4_294_967_294), u32::MAX);
}

#[test]
fn messages_count_beyond_u32_is_truncated() {
    // 2^32 + 1 messages, carried as a u32
    assert_eq!(messages_count(0, 4_294_967_296), 1);
}

#[test]
fn relayer_at_source_is_source_signer() {
    let lane = lane();
    assert_eq!(lane.relayer_id_at_source, [2u8; 32]);
    assert_eq!(lane.source_transactions_author(), [2u8; 32]);
    assert_eq!(lane.target_transactions_author(), [4u8; 32]);
}

#[test]
fn delivery_transaction_goes_to_target_chain() {
    let lane = lane();
    let proof = MessagesProof {
        bridged_header_hash: [5u8; 32],
        storage_proof: vec![vec![1, 2, 3]],
        lane: [0, 0, 0, 1],
        nonces_start: 100,
        nonces_end: 104,
    };
    let tx = lane.make_messages_delivery_transaction(17, header(), (100, 104), (1_000, proof));
    assert_eq!(tx.genesis_hash, [3u8; 32]);
    assert_eq!(tx.signer, [4u8; 32]);
    assert_eq!(tx.nonce, 17);
    match tx.call {
        CircuitCall::BridgeGatewayMessagesReceiveMessagesProof {
            relayer_id_at_bridged_chain,
            proof,
            messages_count,
            dispatch_weight,
        } => {
            assert_eq!(relayer_id_at_bridged_chain, [2u8; 32]);
            assert_eq!(messages_count, 5);
            assert_eq!(dispatch_weight, 1_000);
            assert_eq!(proof.nonces_start, 100);
            assert_eq!(proof.nonces_end, 104);
            assert_eq!(proof.storage_proof, vec![vec![1, 2, 3]]);
            assert_eq!(proof.lane, [0, 0, 0, 1]);
            assert_eq!(proof.bridged_header_hash, [5u8; 32]);
        }
    }
}

#[test]
fn receiving_proof_transaction_goes_to_source_chain() {
    let lane = lane();
    let relayers_state = UnrewardedRelayersState {
        unrewarded_relayer_entries: 2,
        messages_in_oldest_entry: 3,
        total_messages: 8,
    };
    let proof = MessagesDeliveryProof {
        bridged_header_hash: [6u8; 32],
        storage_proof: vec![vec![4], vec![5, 6]],
        lane: [0, 0, 0, 2],
    };
    let tx = lane.make_messages_receiving_proof_transaction(3, header(), (relayers_state, proof));
    assert_eq!(tx.genesis_hash, [1u8; 32]);
    assert_eq!(tx.signer, [2u8; 32]);
    assert_eq!(tx.nonce, 3);
    match tx.call {
        GatewayCall::BridgeCircuitMessagesReceiveMessagesDeliveryProof { proof, relayers_state: state } => {
            assert_eq!(state, relayers_state);
            assert_eq!(proof.bridged_header_hash, [6u8; 32]);
            assert_eq!(proof.storage_proof, vec![vec![4], vec![5, 6]]);
            assert_eq!(proof.lane, [0, 0, 0, 2]);
        }
        other => panic!("unexpected call {:?}", other),
    }
}
