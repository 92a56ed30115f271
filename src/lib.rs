//! A pari-mutuel prediction pool with an escrow vault: participants stake a fixed
//! amount on a predicted score, a reporter locks the pool and publishes the result,
//! winners are resolved with a platform fee taken once, and each participant then
//! withdraws a payout or a refund exactly once.

pub mod claim_or_refund;
pub mod constants;
pub mod error;
pub mod escrow;
pub mod initialize_pool;
pub mod lock_pool;
pub mod place_prediction;
pub mod stake_my_score;
pub mod state;
pub mod submit_result;
pub mod update_winner;

pub use claim_or_refund::ClaimOrRefund;
pub use error::StakeMyScoreError;
pub use initialize_pool::InitializePool;
pub use lock_pool::LockPool;
pub use place_prediction::PlacePrediction;
pub use state::{BettorAccount, GameAccount, PoolState, Pubkey, SystemAccount};
pub use submit_result::SubmitResult;
pub use update_winner::{RemainingAccount, UpdateWinner};
