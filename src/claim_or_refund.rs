use vstd::prelude::*;

use crate::constants::FIXED_STAKE_SOL;
use crate::error::StakeMyScoreError;
use crate::escrow::{credited, debited, transfer, transfer_error};
use crate::state::{BettorAccount, GameAccount, PoolState, SystemAccount};

verus! {

/// What a withdrawal works on: the pool, the participant's record (`None` once it
/// has been closed), the signing participant, and the pool's vault.
#[derive(Debug)]
pub struct ClaimOrRefund {
    pub game: GameAccount,
    pub bettor_account: Option<BettorAccount>,
    pub bettor: SystemAccount,
    pub escrow_vault: SystemAccount,
}

/// What one withdrawal from `game` pays: the per-winner payout where the pool has
/// winners, else the stake back.
pub open spec fn withdrawal_amount(game: GameAccount) -> u64 {
    if game.is_any_winner {
        game.payout_amount
    } else {
        FIXED_STAKE_SOL
    }
}

impl ClaimOrRefund {
    /// The outcome of a withdrawal: the result and the context afterwards.
    pub open spec fn spec_claim_or_refund(self) -> (Result<(), StakeMyScoreError>, ClaimOrRefund) {
        let amount = withdrawal_amount(self.game);
        if self.game.pool_state != PoolState::Settled {
            (Err(StakeMyScoreError::PoolNotSettled), self)
        } else if !self.game.resolved {
            (Err(StakeMyScoreError::WinnersNotResolved), self)
        } else {
            match self.bettor_account {
                None => (Err(StakeMyScoreError::AccountNotInitialized), self),
                Some(b) => if b.bettor != self.bettor.key {
                    (Err(StakeMyScoreError::UnauthorizedBettor), self)
                } else if self.game.is_any_winner && !b.is_winner {
                    (Err(StakeMyScoreError::NotAWinner), self)
                } else if self.game.is_any_winner && !self.game.fee_collected {
                    (Err(StakeMyScoreError::FeeNotCollected), self)
                } else {
                    match transfer_error(self.escrow_vault, self.bettor, amount) {
                        Some(e) => (Err(e), self),
                        None => (
                            Ok(()),
                            ClaimOrRefund {
                                bettor_account: None,
                                escrow_vault: debited(self.escrow_vault, amount),
                                bettor: credited(self.bettor, amount),
                                ..self
                            },
                        ),
                    }
                },
            }
        }
    }

    /// Pays a participant of a settled pool whose winners are resolved out of the
    /// vault and closes their record:
    /// the payout to a winner where the pool has winners, the stake back where it
    /// has none. A closed record cannot be withdrawn against again.
    pub fn claim_or_refund(&mut self) -> (r: Result<(), StakeMyScoreError>)
        ensures
            (r, *final(self)) == old(self).spec_claim_or_refund(),
            final(self).game == old(self).game,
            r is Ok ==> old(self).game.pool_state == PoolState::Settled && old(self).game.resolved,
            r is Ok ==> final(self).bettor_account is None,
    {
        if self.game.pool_state != PoolState::Settled {
            return Err(StakeMyScoreError::PoolNotSettled);
        }
        if !self.game.resolved {
            return Err(StakeMyScoreError::WinnersNotResolved);
        }
        let record = match self.bettor_account {
            Some(b) => b,
            None => {
                return Err(StakeMyScoreError::AccountNotInitialized);
            },
        };
        if record.bettor != self.bettor.key {
            return Err(StakeMyScoreError::UnauthorizedBettor);
        }
        let amount = if self.game.is_any_winner {
            if !record.is_winner {
                return Err(StakeMyScoreError::NotAWinner);
            }
            if !self.game.fee_collected {
                return Err(StakeMyScoreError::FeeNotCollected);
            }
            self.game.payout_amount
        } else {
            FIXED_STAKE_SOL
        };
        let paid = transfer(&mut self.escrow_vault, &mut self.bettor, amount);
        if paid.is_err() {
            return paid;
        }
        self.bettor_account = None;
        Ok(())
    }
}

/// Once a participant has withdrawn, their record is gone: a second withdrawal by
/// the same participant from the same pool fails and changes nothing.
pub proof fn lemma_no_double_withdrawal(ctx: ClaimOrRefund)
    requires
        ctx.spec_claim_or_refund().0 is Ok,
    ensures
        ({
            let after = ctx.spec_claim_or_refund().1;
            after.spec_claim_or_refund() == (
            Err::<(), StakeMyScoreError>(StakeMyScoreError::AccountNotInitialized),
            after,
            )
        }),
{
}

} // verus!
