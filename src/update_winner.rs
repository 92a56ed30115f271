use vstd::prelude::*;

use crate::error::StakeMyScoreError;
use crate::escrow::{
    credited, debited, fee_of, lemma_payout_conserves_stakes, payout_of, payout_per_winner,
    platform_fee, total_staked, transfer, transfer_error,
};
use crate::state::{advances, BettorAccount, GameAccount, PoolState, Pubkey, SystemAccount};

verus! {

/// An account named by the reporter as a winner's participation record.
#[derive(Clone, Copy, Debug)]
pub struct RemainingAccount {
    pub key: Pubkey,
    /// The program that owns the account.
    pub owner: Pubkey,
    /// The participation record stored in the account, if its data holds one.
    pub data: Option<BettorAccount>,
}

/// What winner resolution works on: the pool, the signer, the pool's vault, the
/// account that receives the platform fee, and this program's own address.
#[derive(Debug)]
pub struct UpdateWinner {
    pub game: GameAccount,
    pub oracle: Pubkey,
    pub escrow_vault: SystemAccount,
    pub fee_receiver: SystemAccount,
    pub program_id: Pubkey,
}

/// The account at position `i` of `accounts` is named at an earlier position too.
pub open spec fn named_before(accounts: Seq<RemainingAccount>, i: int) -> bool {
    exists|j: int| 0 <= j < i && #[trigger] accounts[j].key == accounts[i].key
}

/// How many distinct accounts of `accounts` are owned by `program_id`: an account
/// named more than once counts once.
pub open spec fn count_winners(accounts: Seq<RemainingAccount>, program_id: Pubkey) -> nat
    decreases accounts.len(),
{
    if accounts.len() == 0 {
        0
    } else {
        let i = accounts.len() - 1;
        count_winners(accounts.drop_last(), program_id) + if accounts[i].owner == program_id
            && !named_before(accounts, i) {
            1nat
        } else {
            0nat
        }
    }
}

/// Every account of `accounts` owned by `program_id` holds a participation record.
pub open spec fn owned_are_records(accounts: Seq<RemainingAccount>, program_id: Pubkey) -> bool {
    forall|i: int|
        0 <= i < accounts.len() && #[trigger] accounts[i].owner == program_id ==> accounts[i].data is Some
}

/// `a` with its record flagged as a winner, where `program_id` owns it; else `a`.
pub open spec fn marked_winner(a: RemainingAccount, program_id: Pubkey) -> RemainingAccount {
    match a.data {
        Some(b) => if a.owner == program_id {
            RemainingAccount { data: Some(BettorAccount { is_winner: true, ..b }), ..a }
        } else {
            a
        },
        None => a,
    }
}

/// `accounts` with every record owned by `program_id` flagged as a winner.
pub open spec fn marked_winners(accounts: Seq<RemainingAccount>, program_id: Pubkey) -> Seq<
    RemainingAccount,
> {
    accounts.map_values(|a: RemainingAccount| marked_winner(a, program_id))
}

proof fn lemma_count_winners_step(accounts: Seq<RemainingAccount>, program_id: Pubkey, i: int)
    requires
        0 <= i < accounts.len(),
    ensures
        count_winners(accounts.take(i + 1), program_id) == count_winners(
            accounts.take(i),
            program_id,
        ) + if accounts[i].owner == program_id && !named_before(accounts, i) {
            1nat
        } else {
            0nat
        },
{
    let t = accounts.take(i + 1);
    assert(t.drop_last() =~= accounts.take(i));
    if named_before(t, i) {
        let j = choose|j: int| 0 <= j < i && #[trigger] t[j].key == t[i].key;
        assert(accounts[j].key == accounts[i].key);
    }
    if named_before(accounts, i) {
        let j = choose|j: int| 0 <= j < i && #[trigger] accounts[j].key == accounts[i].key;
        assert(t[j].key == t[i].key);
    }
}

/// Whether the account at position `i` of `accounts` is named at an earlier position.
fn is_named_before(accounts: &Vec<RemainingAccount>, i: usize) -> (r: bool)
    requires
        i < accounts.len(),
    ensures
        r == named_before(accounts@, i as int),
{
    let mut j: usize = 0;
    while j < i
        invariant
            j <= i < accounts.len(),
            forall|k: int| 0 <= k < j ==> #[trigger] accounts@[k].key != accounts@[i as int].key,
        decreases i - j,
    {
        if accounts[j].key == accounts[i].key {
            assert(accounts@[j as int].key == accounts@[i as int].key);
            return true;
        }
        j = j + 1;
    }
    false
}

impl UpdateWinner {
    /// The outcome of resolving the winners of this pool: the result, the context
    /// afterwards, and the named accounts afterwards.
    pub open spec fn spec_update_winner(self, is_any_winner: bool, accounts: Seq<RemainingAccount>) -> (
        Result<(), StakeMyScoreError>,
        UpdateWinner,
        Seq<RemainingAccount>,
    ) {
        let count = count_winners(accounts, self.program_id);
        let fee = fee_of(self.game.total_bettors as nat) as u64;
        let pay_fee = !self.game.fee_collected;
        if self.oracle != self.game.oracle {
            (Err(StakeMyScoreError::UnauthorizedOracle), self, accounts)
        } else if self.game.pool_state != PoolState::Settled {
            (Err(StakeMyScoreError::PoolNotSettled), self, accounts)
        } else if self.game.resolved {
            (Err(StakeMyScoreError::AlreadyResolved), self, accounts)
        } else if is_any_winner {
            if accounts.len() == 0 {
                (Err(StakeMyScoreError::NoWinnersProvided), self, accounts)
            } else if accounts.len() > u8::MAX {
                (Err(StakeMyScoreError::TooManyWinners), self, accounts)
            } else if !owned_are_records(accounts, self.program_id) {
                (Err(StakeMyScoreError::InvalidBettorAccount), self, accounts)
            } else if count == 0 {
                (Err(StakeMyScoreError::NoWinnersProvided), self, accounts)
            } else if pay_fee && transfer_error(self.escrow_vault, self.fee_receiver, fee) is Some {
                (Err(transfer_error(self.escrow_vault, self.fee_receiver, fee)->0), self, accounts)
            } else {
                let game = GameAccount {
                    is_any_winner: true,
                    winner_count: count as u8,
                    payout_amount: payout_of(self.game.total_bettors as nat, count) as u64,
                    fee_collected: true,
                    resolved: true,
                    ..self.game
                };
                let after = if pay_fee {
                    UpdateWinner {
                        game,
                        escrow_vault: debited(self.escrow_vault, fee),
                        fee_receiver: credited(self.fee_receiver, fee),
                        ..self
                    }
                } else {
                    UpdateWinner { game, ..self }
                };
                (Ok(()), after, marked_winners(accounts, self.program_id))
            }
        } else if accounts.len() != 0 {
            (Err(StakeMyScoreError::UnexpectedWinnerAccounts), self, accounts)
        } else {
            (
                Ok(()),
                UpdateWinner {
                    game: GameAccount { is_any_winner: false, resolved: true, ..self.game },
                    ..self
                },
                accounts,
            )
        }
    }

    /// Resolves the winners of a settled pool, once. With `is_any_winner`, every named
    /// account owned by this program is flagged as a winner (an account named twice
    /// counts once), the platform fee leaves the vault and the per-winner payout is
    /// fixed; without it, no account may be named and every withdrawal is a refund.
    #[verifier::loop_isolation(false)]
    pub fn update_winner(
        &mut self,
        is_any_winner: bool,
        remaining_accounts: &mut Vec<RemainingAccount>,
    ) -> (r: Result<(), StakeMyScoreError>)
        ensures
            (r, *final(self), final(remaining_accounts)@) == old(self).spec_update_winner(
                is_any_winner,
                old(remaining_accounts)@,
            ),
            r is Ok ==> old(self).game.pool_state == PoolState::Settled && !old(self).game.resolved
                && final(self).game.resolved,
            advances(old(self).game.pool_state, final(self).game.pool_state),
            old(self).game.wf() ==> final(self).game.wf(),
            r is Ok && is_any_winner ==> {
                let g = final(self).game;
                let total = total_staked(g.total_bettors as nat);
                let fee = fee_of(g.total_bettors as nat);
                &&& g.winner_count > 0
                &&& fee + g.winner_count * g.payout_amount <= total
                &&& total - fee - g.winner_count * g.payout_amount == (total - fee) as nat
                    % g.winner_count as nat
            },
            r is Ok && is_any_winner && !old(self).game.fee_collected
                && old(self).escrow_vault.lamports >= total_staked(
                old(self).game.total_bettors as nat,
            ) ==> final(self).escrow_vault.lamports >= final(self).game.winner_count
                * final(self).game.payout_amount,
    {
        if self.oracle != self.game.oracle {
            return Err(StakeMyScoreError::UnauthorizedOracle);
        }
        if self.game.pool_state != PoolState::Settled {
            return Err(StakeMyScoreError::PoolNotSettled);
        }
        if self.game.resolved {
            return Err(StakeMyScoreError::AlreadyResolved);
        }
        let ghost accounts = remaining_accounts@;
        let n = remaining_accounts.len();
        if !is_any_winner {
            if n != 0 {
                return Err(StakeMyScoreError::UnexpectedWinnerAccounts);
            }
            self.game.is_any_winner = false;
            self.game.resolved = true;
            return Ok(());
        }
        if n == 0 {
            return Err(StakeMyScoreError::NoWinnersProvided);
        }
        if n > 255 {
            return Err(StakeMyScoreError::TooManyWinners);
        }
        let mut count: u8 = 0;
        let mut i: usize = 0;
        while i < n
            invariant
                n == accounts.len() <= u8::MAX,
                remaining_accounts@ == accounts,
                i <= n,
                count <= i,
                count == count_winners(accounts.take(i as int), self.program_id),
                forall|j: int|
                    0 <= j < i && #[trigger] accounts[j].owner == self.program_id
                        ==> accounts[j].data is Some,
            decreases n - i,
        {
            proof {
                lemma_count_winners_step(accounts, self.program_id, i as int);
            }
            let a = remaining_accounts[i];
            if a.owner == self.program_id {
                if a.data.is_none() {
                    assert(accounts[i as int].owner == self.program_id);
                    return Err(StakeMyScoreError::InvalidBettorAccount);
                }
                if !is_named_before(remaining_accounts, i) {
                    count = count + 1;
                }
            }
            i = i + 1;
        }
        assert(accounts.take(n as int) =~= accounts);
        if count == 0 {
            return Err(StakeMyScoreError::NoWinnersProvided);
        }
        if !self.game.fee_collected {
            let fee = platform_fee(self.game.total_bettors);
            let paid = transfer(&mut self.escrow_vault, &mut self.fee_receiver, fee);
            if paid.is_err() {
                return paid;
            }
        }
        let mut k: usize = 0;
        while k < n
            invariant
                n == accounts.len(),
                k <= n,
                remaining_accounts@.len() == n,
                forall|j: int|
                    0 <= j < k ==> #[trigger] remaining_accounts@[j] == marked_winner(
                        accounts[j],
                        self.program_id,
                    ),
                forall|j: int| k <= j < n ==> #[trigger] remaining_accounts@[j] == accounts[j],
            decreases n - k,
        {
            let mut a = remaining_accounts[k];
            if a.owner == self.program_id {
                match a.data {
                    Some(b) => {
                        a.data = Some(BettorAccount { is_winner: true, ..b });
                    },
                    None => {},
                }
            }
            remaining_accounts.set(k, a);
            k = k + 1;
        }
        assert(remaining_accounts@ =~= marked_winners(accounts, self.program_id));
        self.game.is_any_winner = true;
        self.game.winner_count = count;
        self.game.fee_collected = true;
        self.game.resolved = true;
        self.game.payout_amount = payout_per_winner(self.game.total_bettors, count);
        proof {
            lemma_payout_conserves_stakes(self.game.total_bettors as nat, count as nat);
        }
        Ok(())
    }
}

/// Winners are resolved once per pool: after a successful resolution, any further
/// resolution fails with `AlreadyResolved` and changes nothing, so no fee is taken
/// again and no further record is flagged.
pub proof fn lemma_resolution_happens_once(
    ctx: UpdateWinner,
    first_any_winner: bool,
    first_accounts: Seq<RemainingAccount>,
    second_any_winner: bool,
    second_accounts: Seq<RemainingAccount>,
)
    requires
        ctx.spec_update_winner(first_any_winner, first_accounts).0 is Ok,
    ensures
        ({
            let after = ctx.spec_update_winner(first_any_winner, first_accounts).1;
            after.spec_update_winner(second_any_winner, second_accounts) == (
            Err::<(), StakeMyScoreError>(StakeMyScoreError::AlreadyResolved),
            after,
            second_accounts,
            )
        }),
{
}

} // verus!
