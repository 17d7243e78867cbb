use vstd::prelude::*;

use crate::chain::{Gateway, GATEWAY_TO_CIRCUIT_INDEX};
use crate::primitives::{AccountId, Balance, LaneId};
use crate::runtime::GatewayCall;

verus! {

/// A call that the relay is asked to encode for the Gateway chain.
#[derive(Debug)]
pub enum Call {
    /// A call given by its SCALE encoding.
    Raw { data: Vec<u8> },
    /// `System::remark` with the given payload; an empty remark where none is given.
    Remark { remark_payload: Option<Vec<u8>> },
    /// Transfer of `amount` to `recipient`.
    Transfer { recipient: AccountId, amount: Balance },
    /// A message sent over the bridge pallet instance `bridge_instance_index`;
    /// the payload is given by its SCALE encoding.
    BridgeSendMessage { lane: LaneId, payload: Vec<u8>, fee: Balance, bridge_instance_index: u8 },
}

/// Why a call could not be encoded for the Gateway chain.
#[derive(Clone, Copy, Debug, PartialEq, Eq, Structural)]
pub enum EncodeCallError {
    /// The Gateway runtime has no bridge messages pallet with this instance index.
    UnsupportedBridgeInstance { bridge_instance_index: u8 },
}

/// The character of the decimal digit `d`.
pub open spec fn spec_digit(d: nat) -> char {
    if d == 0 { '0' }
    else if d == 1 { '1' }
    else if d == 2 { '2' }
    else if d == 3 { '3' }
    else if d == 4 { '4' }
    else if d == 5 { '5' }
    else if d == 6 { '6' }
    else if d == 7 { '7' }
    else if d == 8 { '8' }
    else { '9' }
}

/// Decimal notation of `n`, without leading zeros.
pub open spec fn spec_decimal(n: nat) -> Seq<char>
    decreases n,
{
    if n < 10 {
        seq![spec_digit(n)]
    } else {
        spec_decimal(n / 10).push(spec_digit(n % 10))
    }
}

/// Text of an error, as the relay reports it.
pub open spec fn spec_error_message(error: EncodeCallError) -> Seq<char> {
    match error {
        EncodeCallError::UnsupportedBridgeInstance { bridge_instance_index } =>
            "Unsupported target bridge pallet with instance index: "@ + spec_decimal(bridge_instance_index as nat),
    }
}

fn digit_str(d: u8) -> (s: &'static str)
    requires
        d < 10,
    ensures
        s@ == seq![spec_digit(d as nat)],
{
    if d == 0 {
        proof { reveal_strlit("0"); }
        "0"
    } else if d == 1 {
        proof { reveal_strlit("1"); }
        "1"
    } else if d == 2 {
        proof { reveal_strlit("2"); }
        "2"
    } else if d == 3 {
        proof { reveal_strlit("3"); }
        "3"
    } else if d == 4 {
        proof { reveal_strlit("4"); }
        "4"
    } else if d == 5 {
        proof { reveal_strlit("5"); }
        "5"
    } else if d == 6 {
        proof { reveal_strlit("6"); }
        "6"
    } else if d == 7 {
        proof { reveal_strlit("7"); }
        "7"
    } else if d == 8 {
        proof { reveal_strlit("8"); }
        "8"
    } else {
        proof { reveal_strlit("9"); }
        "9"
    }
}

impl EncodeCallError {
    /// Text of the error, as the relay reports it.
    pub fn message(&self) -> (text: String)
        ensures
            text@ == spec_error_message(*self),
    {
        match self {
            EncodeCallError::UnsupportedBridgeInstance { bridge_instance_index } => {
                let n: u8 = *bridge_instance_index;
                let mut text = String::from_str("Unsupported target bridge pallet with instance index: ");
                let ghost prefix = text@;
                if n >= 100 {
                    text.append(digit_str(n / 100));
                }
                if n >= 10 {
                    text.append(digit_str((n / 10) % 10));
                }
                text.append(digit_str(n % 10));
                proof {
                    let m = n as nat;
                    if m >= 100 {
                        assert(spec_decimal(m / 100) == seq![spec_digit(m / 100)]);
                        assert(spec_decimal(m / 10) == spec_decimal(m / 100).push(spec_digit((m / 10) % 10)));
                        assert(spec_decimal(m) == spec_decimal(m / 10).push(spec_digit(m % 10)));
                    } else if m >= 10 {
                        assert(spec_decimal(m / 10) == seq![spec_digit(m / 10)]);
                        assert(spec_decimal(m) == spec_decimal(m / 10).push(spec_digit(m % 10)));
                    }
                    assert(text@ =~= prefix + spec_decimal(m));
                }
                text
            },
        }
    }
}

impl Gateway {
    /// The Gateway runtime call that `call` stands for.
    pub fn encode_call(call: &Call) -> (encoded: Result<GatewayCall, EncodeCallError>)
        ensures
            match *call {
                Call::Raw { data } => encoded matches Ok(GatewayCall::Encoded { data: d }) && d@ == data@,
                Call::Remark { remark_payload } => encoded matches Ok(GatewayCall::SystemRemark { remark })
                    && remark@ == (match remark_payload {
                        Some(p) => p@,
                        None => Seq::<u8>::empty(),
                    }),
                Call::Transfer { recipient, amount } => encoded matches Ok(
                    GatewayCall::BalancesTransfer { dest, value },
                ) && dest == recipient && value == amount,
                Call::BridgeSendMessage { lane, payload, fee, bridge_instance_index } =>
                    if bridge_instance_index == GATEWAY_TO_CIRCUIT_INDEX {
                        encoded matches Ok(
                            GatewayCall::BridgeCircuitMessagesSendMessage { lane_id, payload: p, delivery_and_dispatch_fee },
                        ) && lane_id == lane && p@ == payload@ && delivery_and_dispatch_fee == fee
                    } else {
                        encoded == Err::<GatewayCall, EncodeCallError>(
                            EncodeCallError::UnsupportedBridgeInstance { bridge_instance_index },
                        )
                    },
            },
    {
        match call {
            Call::Raw { data } => Ok(GatewayCall::Encoded { data: data.clone() }),
            Call::Remark { remark_payload } => {
                let remark = match remark_payload {
                    Some(p) => p.clone(),
                    None => Vec::new(),
                };
                Ok(GatewayCall::SystemRemark { remark })
            },
            Call::Transfer { recipient, amount } => Ok(
                GatewayCall::BalancesTransfer { dest: *recipient, value: *amount },
            ),
            Call::BridgeSendMessage { lane, payload, fee, bridge_instance_index } => {
                if *bridge_instance_index == GATEWAY_TO_CIRCUIT_INDEX {
                    Ok(
                        GatewayCall::BridgeCircuitMessagesSendMessage {
                            lane_id: *lane,
                            payload: payload.clone(),
                            delivery_and_dispatch_fee: *fee,
                        },
                    )
                } else {
                    Err(
                        EncodeCallError::UnsupportedBridgeInstance {
                            bridge_instance_index: *bridge_instance_index,
                        },
                    )
                }
            },
        }
    }
}

} // verus!
