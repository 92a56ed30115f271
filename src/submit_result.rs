use vstd::prelude::*;

use crate::error::StakeMyScoreError;
use crate::state::{advances, GameAccount, PoolState, Pubkey};

verus! {

/// What reporting the result works on: the pool and the signer.
#[derive(Debug)]
pub struct SubmitResult {
    pub game: GameAccount,
    pub oracle: Pubkey,
}

impl SubmitResult {
    /// The outcome of reporting `final_runs` and `final_wickets`: the result and the
    /// context afterwards.
    pub open spec fn spec_submit_result(self, final_runs: u16, final_wickets: u8) -> (
        Result<(), StakeMyScoreError>,
        SubmitResult,
    ) {
        if self.oracle != self.game.oracle {
            (Err(StakeMyScoreError::UnauthorizedOracle), self)
        } else if self.game.final_runs is Some || self.game.final_wickets is Some {
            (Err(StakeMyScoreError::ResultsAlreadyAccepted), self)
        } else if self.game.pool_state != PoolState::Locked {
            (Err(StakeMyScoreError::PoolNotLocked), self)
        } else {
            (
                Ok(()),
                SubmitResult {
                    game: GameAccount {
                        final_runs: Some(final_runs),
                        final_wickets: Some(final_wickets),
                        pool_state: PoolState::Settled,
                        ..self.game
                    },
                    ..self
                },
            )
        }
    }

    /// Records the final outcome of a locked pool, once, and settles it; only the
    /// pool's reporter may do so.
    pub fn submit_result(&mut self, final_runs: u16, final_wickets: u8) -> (r: Result<
        (),
        StakeMyScoreError,
    >)
        ensures
            (r, *final(self)) == old(self).spec_submit_result(final_runs, final_wickets),
            r is Ok ==> old(self).game.pool_state == PoolState::Locked,
            advances(old(self).game.pool_state, final(self).game.pool_state),
            old(self).game.wf() ==> final(self).game.wf(),
    {
        if self.oracle != self.game.oracle {
            return Err(StakeMyScoreError::UnauthorizedOracle);
        }
        if self.game.final_runs.is_some() || self.game.final_wickets.is_some() {
            return Err(StakeMyScoreError::ResultsAlreadyAccepted);
        }
        if self.game.pool_state != PoolState::Locked {
            return Err(StakeMyScoreError::PoolNotLocked);
        }
        self.game.final_runs = Some(final_runs);
        self.game.final_wickets = Some(final_wickets);
        self.game.pool_state = PoolState::Settled;
        Ok(())
    }
}

/// The outcome is written once: after a successful report, a second report fails
/// with `ResultsAlreadyAccepted` and leaves the pool, with its first outcome, as it was.
pub proof fn lemma_result_is_write_once(
    ctx: SubmitResult,
    first_runs: u16,
    first_wickets: u8,
    second_runs: u16,
    second_wickets: u8,
)
    requires
        ctx.spec_submit_result(first_runs, first_wickets).0 is Ok,
    ensures
        ({
            let after = ctx.spec_submit_result(first_runs, first_wickets).1;
            let again = after.spec_submit_result(second_runs, second_wickets);
            &&& after.game.final_runs == Some(first_runs)
            &&& after.game.final_wickets == Some(first_wickets)
            &&& again.0 == Err::<(), StakeMyScoreError>(StakeMyScoreError::ResultsAlreadyAccepted)
            &&& again.1 == after
        }),
{
}

} // verus!
