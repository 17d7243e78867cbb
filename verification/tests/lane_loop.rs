use gateway_relay::chain::Circuit;
use gateway_relay::lane_loop::{max_messages_size_in_single_batch, message_lane_params, STALL_TIMEOUT_SECS};

fn circuit(max_extrinsic_size: u32) -> Circuit {
    Circuit {
        max_extrinsic_size,
        max_extrinsic_weight: 2_000_000,
        spec_version: 1,
        max_unrewarded_relayer_entries_at_inbound_lane: 128,
        max_unconfirmed_messages_at_inbound_lane: 8192,
    }
}

#[test]
fn a_third_of_the_extrinsic_is_for_messages() {
    assert_eq!(max_messages_size_in_single_batch(&circuit(3 * 1024 * 1024)), 1024 * 1024);
    assert_eq!(max_messages_size_in_single_batch(&circuit(1000)), 333);
    assert_eq!(max_messages_size_in_single_batch(&circuit(2)), 0);
    assert_eq!(max_messages_size_in_single_batch(&circuit(u32::MAX)), 1_431_655_765);
}

#[test]
fn lane_loop_params() {
    let params = message_lane_params([0, 0, 0, 1], &circuit(3000), (64, 700_000));
    assert_eq!(params.lane, [0, 0, 0, 1]);
    assert_eq!(params.stall_timeout_secs, 300);
    assert_eq!(STALL_TIMEOUT_SECS, 300);
    assert_eq!(params.delivery_params.max_unrewarded_relayer_entries_at_target, 128);
    assert_eq!(params.delivery_params.max_unconfirmed_nonces_at_target, 8192);
    assert_eq!(params.delivery_params.max_messages_in_single_batch, 64);
    assert_eq!(params.delivery_params.max_messages_weight_in_single_batch, 700_000);
    assert_eq!(params.delivery_params.max_messages_size_in_single_batch, 1000);
}
