use vstd::prelude::*;

verus! {

/// Largest number of participants one pool accepts.
pub const MAX_BETTORS: u8 = 200;

/// Platform fee, in basis points of the total staked (3%).
pub const PLATFORM_FEE_BPS: u64 = 300;

/// The fixed stake of every participant, in lamports.
pub const FIXED_STAKE_SOL: u64 = 1_000_000_000;

/// Basis points in a whole.
pub const BPS_DENOMINATOR: u64 = 10000;

/// Largest length of a match identifier, in bytes.
pub const MAX_MATCH_ID_LEN: usize = 64;

} // verus!
