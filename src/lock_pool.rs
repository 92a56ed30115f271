use vstd::prelude::*;

use crate::error::StakeMyScoreError;
use crate::state::{advances, GameAccount, PoolState, Pubkey};

verus! {

/// What locking works on: the pool and the signer.
#[derive(Debug)]
pub struct LockPool {
    pub game: GameAccount,
    pub oracle: Pubkey,
}

impl LockPool {
    /// The outcome of locking: the result and the context afterwards.
    pub open spec fn spec_lock_pool(self) -> (Result<(), StakeMyScoreError>, LockPool) {
        if self.oracle != self.game.oracle {
            (Err(StakeMyScoreError::UnauthorizedOracle), self)
        } else if self.game.pool_state != PoolState::Open {
            (Err(StakeMyScoreError::PoolNotOpen), self)
        } else {
            (
                Ok(()),
                LockPool { game: GameAccount { pool_state: PoolState::Locked, ..self.game }, ..self },
            )
        }
    }

    /// Closes an open pool to new stakes; only the pool's reporter may do so.
    pub fn lock_pool(&mut self) -> (r: Result<(), StakeMyScoreError>)
        ensures
            (r, *final(self)) == old(self).spec_lock_pool(),
            advances(old(self).game.pool_state, final(self).game.pool_state),
            old(self).game.wf() ==> final(self).game.wf(),
    {
        if self.oracle != self.game.oracle {
            return Err(StakeMyScoreError::UnauthorizedOracle);
        }
        if self.game.pool_state != PoolState::Open {
            return Err(StakeMyScoreError::PoolNotOpen);
        }
        self.game.pool_state = PoolState::Locked;
        Ok(())
    }
}

} // verus!
