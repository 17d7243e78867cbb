use vstd::prelude::*;

verus! {

/// A 32 byte account id (the raw bytes of an sr25519 public key).
pub type AccountId = [u8; 32];

/// Hash of a block header.
pub type BlockHash = [u8; 32];

/// Dispatch weight.
pub type Weight = u64;

/// Nonce of a message in a lane.
pub type MessageNonce = u64;

/// Identifier of a message lane.
pub type LaneId = [u8; 4];

/// Balance of an account.
pub type Balance = u64;

/// Transaction index (account nonce) of a chain.
pub type Index = u32;

/// Block number of a chain.
pub type BlockNumber = u32;

/// Identifier of a header: its number and its hash.
#[derive(Clone, Copy, Debug, PartialEq, Eq)]
pub struct HeaderId {
    pub number: BlockNumber,
    pub hash: BlockHash,
}

} // verus!
