use vstd::prelude::*;

use crate::constants::MAX_BETTORS;

verus! {

broadcast use vstd::array::group_array_axioms;

/// A 32-byte public key identifying an account or a signer.
#[derive(Clone, Copy, Debug)]
pub struct Pubkey {
    pub bytes: [u8; 32],
}

impl PartialEq for Pubkey {
    fn eq(&self, other: &Pubkey) -> (r: bool) {
        let mut i: usize = 0;
        while i < 32
            invariant
                0 <= i <= 32,
                forall|j: int| 0 <= j < i ==> self.bytes@[j] == other.bytes@[j],
            decreases 32 - i,
        {
            if self.bytes[i] != other.bytes[i] {
                return false;
            }
            i = i + 1;
        }
        assert(self.bytes =~= other.bytes);
        true
    }
}

impl vstd::std_specs::cmp::PartialEqSpecImpl for Pubkey {
    open spec fn obeys_eq_spec() -> bool {
        true
    }

    open spec fn eq_spec(&self, other: &Pubkey) -> bool {
        *self == *other
    }
}

/// Lifecycle state of a pool. The forward path is Open, then Locked, then Settled;
/// Cancelled is a terminal state that no operation of this library enters.
#[derive(Clone, Copy, Debug, PartialEq, Eq, Structural)]
pub enum PoolState {
    Open,
    Locked,
    Settled,
    Cancelled,
}

/// A native account as seen by this library: its address and its balance in lamports.
#[derive(Clone, Copy, Debug)]
pub struct SystemAccount {
    pub key: Pubkey,
    pub lamports: u64,
}

/// One betting pool for one match.
#[derive(Clone, Debug)]
pub struct GameAccount {
    /// Address nonce of this record.
    pub bump: u8,
    /// Short match identifier, at most `MAX_MATCH_ID_LEN` bytes.
    pub match_id: String,
    /// Which pool this is for the given match.
    pub pool_index: u16,
    /// The reporter allowed to lock the pool, report its result and resolve its winners.
    pub oracle: Pubkey,
    /// Address of the escrow vault that holds the pool's stakes.
    pub escrow_vault: Pubkey,
    pub escrow_bump: u8,
    pub total_bettors: u8,
    pub pool_state: PoolState,
    /// Whether the last resolution found winners; if not, withdrawals are refunds.
    pub is_any_winner: bool,
    pub winner_count: u8,
    pub payout_amount: u64,
    pub final_runs: Option<u16>,
    pub final_wickets: Option<u8>,
    pub fee_collected: bool,
    /// Whether the winners have been resolved; resolution happens once per pool.
    pub resolved: bool,
    /// Creation time, in seconds since the Unix epoch.
    pub created_at: i64,
}

/// One participant's stake and prediction in one pool.
#[derive(Clone, Copy, Debug)]
pub struct BettorAccount {
    /// The pool this prediction belongs to.
    pub game: Pubkey,
    pub bettor: Pubkey,
    pub runs_predicted: u16,
    pub wickets_predicted: u8,
    pub is_winner: bool,
    pub bump: u8,
}

/// Position of `s` along the lifecycle.
pub open spec fn stage(s: PoolState) -> int {
    match s {
        PoolState::Open => 0,
        PoolState::Locked => 1,
        PoolState::Settled => 2,
        PoolState::Cancelled => 3,
    }
}

/// The pool state went from `before` to `after` by staying put or by one step
/// forward along Open, Locked, Settled.
pub open spec fn advances(before: PoolState, after: PoolState) -> bool {
    ||| before == after
    ||| before == PoolState::Open && after == PoolState::Locked
    ||| before == PoolState::Locked && after == PoolState::Settled
}

/// A pool's state never moves back: whatever sequence of steps it takes, each
/// one by `advances`, its stage only grows.
pub proof fn lemma_lifecycle_never_regresses(before: PoolState, middle: PoolState, after: PoolState)
    requires
        advances(before, middle),
        advances(middle, after),
    ensures
        stage(before) <= stage(middle) <= stage(after),
        after == PoolState::Open ==> before == PoolState::Open,
        before == PoolState::Settled ==> after == PoolState::Settled,
{
}

impl GameAccount {
    /// The invariant that every operation of the pool lifecycle keeps.
    pub open spec fn wf(&self) -> bool {
        &&& self.total_bettors <= MAX_BETTORS
        &&& self.final_runs.is_some() == self.final_wickets.is_some()
        &&& self.final_runs.is_some() == (self.pool_state == PoolState::Settled)
        &&& self.resolved ==> self.pool_state == PoolState::Settled
        &&& self.fee_collected ==> self.resolved
        &&& self.is_any_winner ==> {
            &&& self.resolved
            &&& self.winner_count > 0
            &&& self.fee_collected
        }
    }
}

} // verus!
