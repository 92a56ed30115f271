use vstd::prelude::*;
use vstd::utf8::encode_utf8;

use crate::constants::{FIXED_STAKE_SOL, MAX_MATCH_ID_LEN};
use crate::error::StakeMyScoreError;
use crate::escrow::{credited, debited, transfer, transfer_error};
use crate::state::{GameAccount, PoolState, Pubkey, SystemAccount};

verus! {

/// What pool creation works on: the pool record (`None` until it is created), the
/// reporter, the pool's vault, the paying signer, the least balance that keeps the
/// vault alive, and the time now.
#[derive(Debug)]
pub struct InitializePool {
    pub game: Option<GameAccount>,
    pub oracle: Pubkey,
    pub escrow_vault: SystemAccount,
    pub payer: SystemAccount,
    pub rent_exempt_minimum: u64,
    pub unix_timestamp: i64,
}

/// Length of `s` in bytes, encoded as UTF-8.
pub open spec fn byte_len(s: Seq<char>) -> nat {
    encode_utf8(s).len()
}

impl InitializePool {
    /// A new open pool of this context, before any stake.
    pub open spec fn fresh_game(self, match_id: String, pool_index: u16, bump: u8, escrow_bump: u8) -> GameAccount {
        GameAccount {
            bump,
            match_id,
            pool_index,
            oracle: self.oracle,
            escrow_vault: self.escrow_vault.key,
            escrow_bump,
            total_bettors: 0,
            pool_state: PoolState::Open,
            is_any_winner: false,
            winner_count: 0,
            payout_amount: FIXED_STAKE_SOL,
            final_runs: None,
            final_wickets: None,
            fee_collected: false,
                resolved: false,
            created_at: self.unix_timestamp,
        }
    }

    /// The outcome of creating the pool: the result and the context afterwards.
    pub open spec fn spec_initialize_pool(
        self,
        match_id: String,
        pool_index: u16,
        bump: u8,
        escrow_bump: u8,
    ) -> (Result<(), StakeMyScoreError>, InitializePool) {
        let rent = self.rent_exempt_minimum;
        if self.game is Some {
            (Err(StakeMyScoreError::AccountAlreadyInitialized), self)
        } else if byte_len(match_id@) as usize > MAX_MATCH_ID_LEN {
            (Err(StakeMyScoreError::MatchIdTooLong), self)
        } else {
            match transfer_error(self.payer, self.escrow_vault, rent) {
                Some(e) => (Err(e), self),
                None => (
                    Ok(()),
                    InitializePool {
                        game: Some(self.fresh_game(match_id, pool_index, bump, escrow_bump)),
                        payer: debited(self.payer, rent),
                        escrow_vault: credited(self.escrow_vault, rent),
                        ..self
                    },
                ),
            }
        }
    }

    /// Creates an open pool for `match_id` and `pool_index` with this context's
    /// reporter, funding the vault with its rent-exempt minimum from the payer.
    /// Fails if the pool exists already.
    pub fn initialize_pool(
        &mut self,
        match_id: String,
        pool_index: u16,
        bump: u8,
        escrow_bump: u8,
    ) -> (r: Result<(), StakeMyScoreError>)
        ensures
            (r, *final(self)) == old(self).spec_initialize_pool(
                match_id,
                pool_index,
                bump,
                escrow_bump,
            ),
            r is Ok ==> final(self).game->0.wf(),
    {
        if self.game.is_some() {
            return Err(StakeMyScoreError::AccountAlreadyInitialized);
        }
        if match_id.as_str().len() > MAX_MATCH_ID_LEN {
            return Err(StakeMyScoreError::MatchIdTooLong);
        }
        let funded = transfer(&mut self.payer, &mut self.escrow_vault, self.rent_exempt_minimum);
        if funded.is_err() {
            return funded;
        }
        self.game = Some(
            GameAccount {
                bump,
                match_id,
                pool_index,
                oracle: self.oracle,
                escrow_vault: self.escrow_vault.key,
                escrow_bump,
                total_bettors: 0,
                pool_state: PoolState::Open,
                is_any_winner: false,
                winner_count: 0,
                payout_amount: FIXED_STAKE_SOL,
                final_runs: None,
                final_wickets: None,
                fee_collected: false,
                resolved: false,
                created_at: self.unix_timestamp,
            },
        );
        Ok(())
    }
}

} // verus!
