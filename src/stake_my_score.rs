use vstd::prelude::*;

use crate::claim_or_refund::ClaimOrRefund;
use crate::error::StakeMyScoreError;
use crate::initialize_pool::InitializePool;
use crate::lock_pool::LockPool;
use crate::place_prediction::PlacePrediction;
use crate::submit_result::SubmitResult;
use crate::update_winner::{RemainingAccount, UpdateWinner};

verus! {

/// Creates a pool; see `InitializePool::initialize_pool`.
pub fn initialize_pool(
    ctx: &mut InitializePool,
    match_id: String,
    pool_index: u16,
    bump: u8,
    escrow_bump: u8,
) -> (r: Result<(), StakeMyScoreError>)
    ensures
        (r, *final(ctx)) == old(ctx).spec_initialize_pool(match_id, pool_index, bump, escrow_bump),
{
    ctx.initialize_pool(match_id, pool_index, bump, escrow_bump)
}

/// Accepts a stake; see `PlacePrediction::place_prediction`.
pub fn place_prediction(ctx: &mut PlacePrediction, runs: u16, wickets: u8, bettor_bump: u8) -> (r:
    Result<(), StakeMyScoreError>)
    ensures
        (r, *final(ctx)) == old(ctx).spec_place_prediction(runs, wickets, bettor_bump),
{
    ctx.place_prediction(runs, wickets, bettor_bump)
}

/// Locks a pool; see `LockPool::lock_pool`.
pub fn lock_pool(ctx: &mut LockPool) -> (r: Result<(), StakeMyScoreError>)
    ensures
        (r, *final(ctx)) == old(ctx).spec_lock_pool(),
{
    ctx.lock_pool()
}

/// Reports a pool's outcome; see `SubmitResult::submit_result`.
pub fn submit_result(ctx: &mut SubmitResult, final_runs: u16, final_wickets: u8) -> (r: Result<
    (),
    StakeMyScoreError,
>)
    ensures
        (r, *final(ctx)) == old(ctx).spec_submit_result(final_runs, final_wickets),
{
    ctx.submit_result(final_runs, final_wickets)
}

/// Resolves a pool's winners; see `UpdateWinner::update_winner`.
pub fn update_winner(
    ctx: &mut UpdateWinner,
    is_any_winner: bool,
    remaining_accounts: &mut Vec<RemainingAccount>,
) -> (r: Result<(), StakeMyScoreError>)
    ensures
        (r, *final(ctx), final(remaining_accounts)@) == old(ctx).spec_update_winner(
            is_any_winner,
            old(remaining_accounts)@,
        ),
{
    ctx.update_winner(is_any_winner, remaining_accounts)
}

/// Withdraws a participant's payout or refund; see `ClaimOrRefund::claim_or_refund`.
pub fn claim_or_refund(ctx: &mut ClaimOrRefund) -> (r: Result<(), StakeMyScoreError>)
    ensures
        (r, *final(ctx)) == old(ctx).spec_claim_or_refund(),
{
    ctx.claim_or_refund()
}

} // verus!
