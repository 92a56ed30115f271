use vstd::prelude::*;

use crate::constants::{FIXED_STAKE_SOL, MAX_BETTORS};
use crate::error::StakeMyScoreError;
use crate::escrow::{credited, debited, transfer, transfer_error};
use crate::state::{advances, BettorAccount, GameAccount, PoolState, Pubkey, SystemAccount};

verus! {

/// What staking works on: the pool and its address, the participant's record
/// (`None` until it is created), the pool's vault, and the signing participant.
#[derive(Debug)]
pub struct PlacePrediction {
    pub game: GameAccount,
    pub game_key: Pubkey,
    pub bettor_account: Option<BettorAccount>,
    pub escrow_vault: SystemAccount,
    pub bettor: SystemAccount,
}

impl PlacePrediction {
    /// The outcome of staking on `runs` and `wickets`: the result and the context
    /// afterwards.
    pub open spec fn spec_place_prediction(self, runs: u16, wickets: u8, bettor_bump: u8) -> (
        Result<(), StakeMyScoreError>,
        PlacePrediction,
    ) {
        if self.game.total_bettors >= MAX_BETTORS {
            (Err(StakeMyScoreError::PoolFull), self)
        } else if self.game.pool_state != PoolState::Open {
            (Err(StakeMyScoreError::PoolLocked), self)
        } else if self.bettor_account is Some {
            (Err(StakeMyScoreError::AccountAlreadyInitialized), self)
        } else {
            match transfer_error(self.bettor, self.escrow_vault, FIXED_STAKE_SOL) {
                Some(e) => (Err(e), self),
                None => (
                    Ok(()),
                    PlacePrediction {
                        game: GameAccount {
                            total_bettors: (self.game.total_bettors + 1) as u8,
                            ..self.game
                        },
                        bettor_account: Some(
                            BettorAccount {
                                game: self.game_key,
                                bettor: self.bettor.key,
                                runs_predicted: runs,
                                wickets_predicted: wickets,
                                is_winner: false,
                                bump: bettor_bump,
                            },
                        ),
                        bettor: debited(self.bettor, FIXED_STAKE_SOL),
                        escrow_vault: credited(self.escrow_vault, FIXED_STAKE_SOL),
                        ..self
                    },
                ),
            }
        }
    }

    /// Stakes the fixed amount from the participant into the vault of an open pool
    /// that is not full (a full pool refuses with `PoolFull`, whatever its state), and records their prediction. Fails if the participant has
    /// a record in this pool already.
    pub fn place_prediction(&mut self, runs: u16, wickets: u8, bettor_bump: u8) -> (r: Result<
        (),
        StakeMyScoreError,
    >)
        ensures
            (r, *final(self)) == old(self).spec_place_prediction(runs, wickets, bettor_bump),
            advances(old(self).game.pool_state, final(self).game.pool_state),
            old(self).game.wf() ==> final(self).game.wf(),
            old(self).game.total_bettors >= MAX_BETTORS ==> r == Err::<(), StakeMyScoreError>(
                StakeMyScoreError::PoolFull,
            ) && *final(self) == *old(self),
            old(self).game.total_bettors <= MAX_BETTORS ==> final(self).game.total_bettors
                <= MAX_BETTORS,
    {
        if self.game.total_bettors >= MAX_BETTORS {
            return Err(StakeMyScoreError::PoolFull);
        }
        if self.game.pool_state != PoolState::Open {
            return Err(StakeMyScoreError::PoolLocked);
        }
        if self.bettor_account.is_some() {
            return Err(StakeMyScoreError::AccountAlreadyInitialized);
        }
        let paid = transfer(&mut self.bettor, &mut self.escrow_vault, FIXED_STAKE_SOL);
        if paid.is_err() {
            return paid;
        }
        self.bettor_account = Some(
            BettorAccount {
                game: self.game_key,
                bettor: self.bettor.key,
                runs_predicted: runs,
                wickets_predicted: wickets,
                is_winner: false,
                bump: bettor_bump,
            },
        );
        self.game.total_bettors = self.game.total_bettors + 1;
        Ok(())
    }
}

} // verus!
