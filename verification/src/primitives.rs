//! The chain's basic types.

use vstd::prelude::*;

verus! {

/// An account on the chain: its 32 bytes.
pub type AccountId = [u8; 32];

/// The hash of a block.
pub type Hash = [u8; 32];

/// An amount of the chain's token.
pub type Balance = u128;

/// The number of a staking era.
pub type EraIndex = u32;

/// The stake that stands behind a vote.
pub type VoteWeight = u64;

} // verus!
