use vstd::prelude::*;

use crate::chain::{Circuit, Gateway};
use crate::primitives::AccountId;

verus! {

/// A message that the relay is asked to send from the Gateway chain to the
/// Circuit chain.
#[derive(Debug)]
pub enum MessagePayload<C> {
    /// A message payload given by its SCALE encoding.
    Raw { data: Vec<u8> },
    /// A message that dispatches `call`, a call for the Circuit chain, there
    /// on behalf of `sender`, an account of the Gateway chain.
    Call { call: C, sender: AccountId },
}

/// Origin of a call that a bridged message dispatches.
#[derive(Clone, Copy, Debug, PartialEq, Eq)]
pub enum CallOrigin {
    /// The call is dispatched on behalf of an account of the source chain.
    SourceAccount(AccountId),
}

/// What a Gateway message payload is made of.
#[derive(Debug)]
pub enum EncodedMessage<C> {
    /// A payload given by its SCALE encoding, which the runtime codec decodes.
    Encoded { data: Vec<u8> },
    /// A payload that dispatches `call`, encoded for the Circuit runtime of
    /// version `spec_version`, from `origin`.
    Dispatch { spec_version: u32, origin: CallOrigin, call: C },
}

impl Gateway {
    /// The Gateway message payload that `message` stands for, sent to the
    /// Circuit chain `target`.
    pub fn encode_message<C>(target: &Circuit, message: MessagePayload<C>) -> (encoded: EncodedMessage<C>)
        ensures
            match message {
                MessagePayload::Raw { data } => encoded matches EncodedMessage::Encoded { data: d } && d@
                    == data@,
                MessagePayload::Call { call, sender } => encoded == (EncodedMessage::Dispatch {
                    spec_version: target.spec_version,
                    origin: CallOrigin::SourceAccount(sender),
                    call,
                }),
            },
    {
        match message {
            MessagePayload::Raw { data } => EncodedMessage::Encoded { data },
            MessagePayload::Call { call, sender } => {
                let spec_version = target.spec_version;
                let origin = CallOrigin::SourceAccount(sender);
                EncodedMessage::Dispatch { spec_version, origin, call }
            },
        }
    }
}

} // verus!
