use vstd::prelude::*;

use crate::constants::{BPS_DENOMINATOR, FIXED_STAKE_SOL, PLATFORM_FEE_BPS};
use crate::error::StakeMyScoreError;
use crate::state::SystemAccount;

verus! {

/// Why moving `amount` lamports from `from` to `to` fails, if it does.
pub open spec fn transfer_error(from: SystemAccount, to: SystemAccount, amount: u64) -> Option<
    StakeMyScoreError,
> {
    if from.lamports < amount {
        Some(StakeMyScoreError::InsufficientFunds)
    } else if to.lamports + amount > u64::MAX {
        Some(StakeMyScoreError::LamportsOverflow)
    } else {
        None
    }
}

/// `a` with `amount` lamports taken out.
pub open spec fn debited(a: SystemAccount, amount: u64) -> SystemAccount {
    SystemAccount { lamports: (a.lamports - amount) as u64, ..a }
}

/// `a` with `amount` lamports put in.
pub open spec fn credited(a: SystemAccount, amount: u64) -> SystemAccount {
    SystemAccount { lamports: (a.lamports + amount) as u64, ..a }
}

/// Moves `amount` lamports from `from` to `to`, or changes nothing and says why not.
pub fn transfer(from: &mut SystemAccount, to: &mut SystemAccount, amount: u64) -> (r: Result<
    (),
    StakeMyScoreError,
>)
    ensures
        match transfer_error(*old(from), *old(to), amount) {
            Some(e) => {
                &&& r == Err::<(), StakeMyScoreError>(e)
                &&& *final(from) == *old(from)
                &&& *final(to) == *old(to)
            },
            None => {
                &&& r is Ok
                &&& *final(from) == debited(*old(from), amount)
                &&& *final(to) == credited(*old(to), amount)
            },
        },
{
    if from.lamports < amount {
        return Err(StakeMyScoreError::InsufficientFunds);
    }
    if to.lamports > u64::MAX - amount {
        return Err(StakeMyScoreError::LamportsOverflow);
    }
    from.lamports = from.lamports - amount;
    to.lamports = to.lamports + amount;
    Ok(())
}

/// Everything staked in a pool with `bettors` participants.
pub open spec fn total_staked(bettors: nat) -> nat {
    (bettors * FIXED_STAKE_SOL) as nat
}

/// The platform's share of a pool with `bettors` participants, rounded down.
pub open spec fn fee_of(bettors: nat) -> nat {
    (total_staked(bettors) * PLATFORM_FEE_BPS / BPS_DENOMINATOR as int) as nat
}

/// What each of `winners` winners of a pool with `bettors` participants is paid: the
/// stakes less the fee, split evenly and rounded down.
pub open spec fn payout_of(bettors: nat, winners: nat) -> nat
    recommends
        winners > 0,
{
    (total_staked(bettors) - fee_of(bettors)) as nat / winners
}

/// Total staked in a pool with `total_bettors` participants.
pub fn total_stake(total_bettors: u8) -> (r: u64)
    ensures
        r == total_staked(total_bettors as nat),
{
    assert(total_bettors * FIXED_STAKE_SOL <= 255 * FIXED_STAKE_SOL) by (nonlinear_arith)
        requires
            total_bettors <= 255,
    ;
    total_bettors as u64 * FIXED_STAKE_SOL
}

/// Platform fee of a pool with `total_bettors` participants.
pub fn platform_fee(total_bettors: u8) -> (r: u64)
    ensures
        r == fee_of(total_bettors as nat),
        r <= total_staked(total_bettors as nat),
{
    let total = total_stake(total_bettors);
    assert(total * PLATFORM_FEE_BPS <= 255 * FIXED_STAKE_SOL * PLATFORM_FEE_BPS) by (
    nonlinear_arith)
        requires
            total <= 255 * FIXED_STAKE_SOL,
    ;
    let fee = total * PLATFORM_FEE_BPS / BPS_DENOMINATOR;
    assert(fee <= total) by (nonlinear_arith)
        requires
            fee == total * 300 / 10000,
            total >= 0,
    ;
    fee
}

/// Amount paid to each of `winner_count` winners of a pool with `total_bettors`
/// participants.
pub fn payout_per_winner(total_bettors: u8, winner_count: u8) -> (r: u64)
    requires
        winner_count > 0,
    ensures
        r == payout_of(total_bettors as nat, winner_count as nat),
{
    let total = total_stake(total_bettors);
    let fee = platform_fee(total_bettors);
    (total - fee) / winner_count as u64
}

/// After the fee, paying `winners` winners their share never pays out more than was
/// staked; what stays behind is exactly the remainder of the split.
pub proof fn lemma_payout_conserves_stakes(bettors: nat, winners: nat)
    requires
        winners > 0,
    ensures
        fee_of(bettors) <= total_staked(bettors),
        fee_of(bettors) + winners * payout_of(bettors, winners) <= total_staked(bettors),
        total_staked(bettors) - fee_of(bettors) - winners * payout_of(bettors, winners) == (
        total_staked(bettors) - fee_of(bettors)) as nat % winners,
{
    let t = total_staked(bettors);
    let f = fee_of(bettors);
    assert(f <= t) by (nonlinear_arith)
        requires
            f == t * 300 / 10000,
            t >= 0,
    ;
    let net = (t - f) as nat;
    let p = payout_of(bettors, winners);
    assert(net == winners * p + net % winners) by (nonlinear_arith)
        requires
            winners > 0,
            p == net / winners,
    ;
    assert(net % winners >= 0) by (nonlinear_arith)
        requires
            winners > 0,
    ;
}

} // verus!
