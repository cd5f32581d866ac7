//! Constants of the staking pool.
use vstd::prelude::*;

verus! {

/// Messages to other contracts are padded to a multiple of this many bytes.
pub const RESPONSE_BLOCK_SIZE: usize = 256;

/// Fixed-point scale of the reward accumulator: 10^18.
pub const REWARD_SCALE: u128 = 1_000_000_000_000_000_000;

} // verus!
