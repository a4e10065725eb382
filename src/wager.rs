use crate::error::{ProcessError, RouletteError};
use crate::state::{slot_payout, table_sum, Guess, Honeypot, LockedGuess, RouletteGuess};
use vstd::prelude::*;

verus! {

/// The sum of the staked amounts, in wager units.
pub open spec fn stake_total(gs: Seq<RouletteGuess>) -> nat
    decreases gs.len(),
{
    if gs.len() == 0 {
        0
    } else {
        stake_total(gs.drop_last()) + gs.last().amount as nat
    }
}

/// The stake table after adding each stake into its category's slot, in
/// order (stakes on the same category add up).
pub open spec fn stakes_after(table: Seq<u64>, gs: Seq<RouletteGuess>) -> Seq<u64>
    decreases gs.len(),
{
    if gs.len() == 0 {
        table
    } else {
        let prev = stakes_after(table, gs.drop_last());
        let i = gs.last().guess.spec_index() as int;
        prev.update(i, (prev[i] + gs.last().amount) as u64)
    }
}

/// A stake table with every slot empty.
pub open spec fn empty_table() -> Seq<u64> {
    Seq::new(64, |i: int| 0u64)
}

/// Why a commit of `gs` is refused, checked in this order; `None` when it is
/// accepted.
pub open spec fn commit_error(
    rec: LockedGuess,
    hp: Honeypot,
    gs: Seq<RouletteGuess>,
    vault_balance: u64,
) -> Option<ProcessError> {
    if rec.active {
        Some(ProcessError::Roulette(RouletteError::ActiveSpin))
    } else if stake_total(gs) > u64::MAX || stake_total(gs) * hp.tick_size > u64::MAX {
        Some(ProcessError::Roulette(RouletteError::NumericalOverflow))
    } else if vault_balance <= hp.minimum_bank_size {
        Some(ProcessError::InsufficientFunds)
    } else if stake_total(gs) * hp.tick_size > hp.max_amount {
        Some(ProcessError::Roulette(RouletteError::AmountTooLarge))
    } else {
        None
    }
}

/// The record keeps its identity: version, nonce, owner and vault.
pub open spec fn same_identity(a: LockedGuess, b: LockedGuess) -> bool {
    a.version == b.version && a.bump_seed == b.bump_seed && a.owner == b.owner && a.vault == b.vault
}

/// What a commit does: on refusal nothing changes; else the record becomes
/// committed at `slot` with the stakes added into an empty table, its size
/// is the table's sum in base units, and that size is what moves from the
/// player into the vault.
pub open spec fn committed(
    old_rec: LockedGuess,
    new_rec: LockedGuess,
    hp: Honeypot,
    gs: Seq<RouletteGuess>,
    vault_balance: u64,
    slot: u64,
    r: Result<u64, ProcessError>,
) -> bool {
    match commit_error(old_rec, hp, gs, vault_balance) {
        Some(e) => r == Err::<u64, ProcessError>(e) && new_rec == old_rec,
        None => {
            &&& r == Ok::<u64, ProcessError>((stake_total(gs) * hp.tick_size) as u64)
            &&& new_rec.active
            &&& new_rec.active_size == stake_total(gs) * hp.tick_size
            &&& new_rec.slot == slot
            &&& new_rec.guesses@ == stakes_after(empty_table(), gs)
            &&& new_rec.size_matches(hp.tick_size)
            &&& same_identity(old_rec, new_rec)
        },
    }
}

/// The roulette outcome of a sampled value: a pocket in 0..=37.
pub open spec fn outcome_of(sample: u64) -> int {
    sample as int % 38
}

/// The sum of the payouts of the first `n` slots of a stake table.
pub open spec fn reward_sum(stakes: Seq<u64>, outcome: int, n: nat) -> int
    decreases n,
{
    if n == 0 {
        0
    } else {
        reward_sum(stakes, outcome, (n - 1) as nat) + slot_payout(
            (n - 1) as nat,
            stakes[n - 1],
            outcome,
        )
    }
}

/// The reward of a stake table on `outcome`, in wager units.
pub open spec fn reward(stakes: Seq<u64>, outcome: int) -> int {
    reward_sum(stakes, outcome, 50)
}

/// Why a resolution is refused, checked in this order; `None` when it goes
/// through.
pub open spec fn resolve_error(
    rec: LockedGuess,
    tick_size: u64,
    sample: u64,
    slot: u64,
    tolerance: u64,
) -> Option<ProcessError> {
    if !rec.active {
        Some(ProcessError::Roulette(RouletteError::Inactive))
    } else if slot <= rec.slot {
        Some(ProcessError::Roulette(RouletteError::InvalidSlot))
    } else if rec.slot + tolerance > u64::MAX {
        Some(ProcessError::Roulette(RouletteError::NumericalOverflow))
    } else if slot > rec.slot + tolerance {
        Some(ProcessError::Roulette(RouletteError::InvalidSlot))
    } else if reward(rec.guesses@, outcome_of(sample)) > u64::MAX {
        Some(ProcessError::Roulette(RouletteError::NumericalOverflow))
    } else if !rec.stakes_known() {
        Some(ProcessError::InvalidAccountData)
    } else if reward(rec.guesses@, outcome_of(sample)) * tick_size > u64::MAX {
        Some(ProcessError::Roulette(RouletteError::NumericalOverflow))
    } else {
        None
    }
}

/// What a resolution does: on refusal nothing changes; else the record goes
/// back to idle and the reward in base units is what the vault pays out.
pub open spec fn resolved(
    old_rec: LockedGuess,
    new_rec: LockedGuess,
    tick_size: u64,
    sample: u64,
    slot: u64,
    tolerance: u64,
    r: Result<u64, ProcessError>,
) -> bool {
    match resolve_error(old_rec, tick_size, sample, slot, tolerance) {
        Some(e) => r == Err::<u64, ProcessError>(e) && new_rec == old_rec,
        None => {
            &&& r == Ok::<u64, ProcessError>(
                (reward(old_rec.guesses@, outcome_of(sample)) * tick_size) as u64,
            )
            &&& new_rec.is_idle()
            &&& new_rec.slot == old_rec.slot
            &&& same_identity(old_rec, new_rec)
        },
    }
}

proof fn lemma_stake_total_prefix(gs: Seq<RouletteGuess>, i: int)
    requires
        0 <= i <= gs.len(),
    ensures
        stake_total(gs.take(i)) <= stake_total(gs),
    decreases gs.len(),
{
    if i < gs.len() {
        assert(gs.drop_last().take(i) =~= gs.take(i));
        lemma_stake_total_prefix(gs.drop_last(), i);
    } else {
        assert(gs.take(i) =~= gs);
    }
}

proof fn lemma_table_sum_update(s: Seq<u64>, i: int, v: u64)
    requires
        0 <= i < s.len(),
    ensures
        table_sum(s.update(i, v)) == table_sum(s) - s[i] + v,
    decreases s.len(),
{
    let t = s.update(i, v);
    if i == s.len() - 1 {
        assert(t.drop_last() =~= s.drop_last());
    } else {
        assert(t.drop_last() =~= s.drop_last().update(i, v));
        lemma_table_sum_update(s.drop_last(), i, v);
    }
}

proof fn lemma_entry_le_table_sum(s: Seq<u64>, i: int)
    requires
        0 <= i < s.len(),
    ensures
        s[i] <= table_sum(s),
        0 <= table_sum(s),
    decreases s.len(),
{
    lemma_table_sum_nonneg(s.drop_last());
    if i < s.len() - 1 {
        lemma_entry_le_table_sum(s.drop_last(), i);
    }
}

proof fn lemma_table_sum_nonneg(s: Seq<u64>)
    ensures
        0 <= table_sum(s),
    decreases s.len(),
{
    if s.len() > 0 {
        lemma_table_sum_nonneg(s.drop_last());
    }
}

pub(crate) proof fn lemma_table_sum_zero(s: Seq<u64>)
    requires
        forall|i: int| 0 <= i < s.len() ==> s[i] == 0,
    ensures
        table_sum(s) == 0,
    decreases s.len(),
{
    if s.len() > 0 {
        lemma_table_sum_zero(s.drop_last());
    }
}

proof fn lemma_reward_sum_monotone(stakes: Seq<u64>, outcome: int, n: nat, m: nat)
    requires
        n <= m,
    ensures
        reward_sum(stakes, outcome, n) <= reward_sum(stakes, outcome, m),
    decreases m,
{
    if n < m {
        lemma_reward_sum_monotone(stakes, outcome, n, (m - 1) as nat);
    }
}

impl LockedGuess {
    /// Back to idle: not committed, nothing staked.
    pub fn reset(&mut self)
        ensures
            final(self).is_idle(),
            final(self).slot == old(self).slot,
            same_identity(*old(self), *final(self)),
    {
        self.active = false;
        self.active_size = 0;
        self.guesses = [0u64; 64];
        assert(self.guesses@ =~= Seq::new(64, |i: int| 0u64));
    }

    /// Commits the stakes `guesses` at step `slot`, against a vault holding
    /// `vault_balance`; returns the base units to move from the player into
    /// the vault.
    pub fn commit(
        &mut self,
        honeypot: &Honeypot,
        guesses: &Vec<RouletteGuess>,
        vault_balance: u64,
        slot: u64,
    ) -> (r: Result<u64, ProcessError>)
        ensures
            committed(*old(self), *final(self), *honeypot, guesses@, vault_balance, slot, r),
    {
        if self.active {
            return Err(ProcessError::Roulette(RouletteError::ActiveSpin));
        }
        let mut total: u64 = 0;
        let mut i: usize = 0;
        while i < guesses.len()
            invariant
                i <= guesses.len(),
                total == stake_total(guesses@.take(i as int)),
                *self == *old(self),
                !self.active,
            decreases guesses.len() - i,
        {
            assert(guesses@.take(i + 1).drop_last() =~= guesses@.take(i as int));
            match total.checked_add(guesses[i].amount) {
                Some(t) => {
                    assert(guesses@.take(i + 1).last() == guesses@[i as int]);
                    total = t;
                },
                None => {
                    proof {
                        let pre = guesses@.take(i + 1);
                        assert(pre.last() == guesses@[i as int]);
                        assert(stake_total(pre) == total + guesses@[i as int].amount);
                        lemma_stake_total_prefix(guesses@, i + 1);
                    }
                    return Err(ProcessError::Roulette(RouletteError::NumericalOverflow));
                },
            }
            i = i + 1;
        }
        assert(guesses@.take(i as int) =~= guesses@);
        let total_tokens = match total.checked_mul(honeypot.tick_size) {
            Some(t) => t,
            None => {
                return Err(ProcessError::Roulette(RouletteError::NumericalOverflow));
            },
        };
        if vault_balance <= honeypot.minimum_bank_size {
            return Err(ProcessError::InsufficientFunds);
        }
        if total_tokens > honeypot.max_amount {
            return Err(ProcessError::Roulette(RouletteError::AmountTooLarge));
        }
        self.slot = slot;
        self.active = true;
        self.active_size = total_tokens;
        self.guesses = [0u64; 64];
        assert(self.guesses@ =~= empty_table());
        assert(guesses@.take(0) =~= Seq::<RouletteGuess>::empty());
        proof {
            lemma_table_sum_zero(self.guesses@);
        }
        let mut j: usize = 0;
        while j < guesses.len()
            invariant
                j <= guesses.len(),
                self.guesses@ == stakes_after(empty_table(), guesses@.take(j as int)),
                table_sum(self.guesses@) == stake_total(guesses@.take(j as int)),
                stake_total(guesses@) <= u64::MAX,
                self.active,
                self.active_size == total_tokens,
                total_tokens == stake_total(guesses@) * honeypot.tick_size,
                self.slot == slot,
                same_identity(*old(self), *self),
            decreases guesses.len() - j,
        {
            assert(guesses@.take(j + 1).drop_last() =~= guesses@.take(j as int));
            let g = guesses[j];
            assert(guesses@.take(j + 1).last() == g);
            let idx = g.guess.index() as usize;
            let before = self.guesses[idx];
            proof {
                lemma_entry_le_table_sum(self.guesses@, idx as int);
                lemma_stake_total_prefix(guesses@, j + 1);
                lemma_table_sum_update(self.guesses@, idx as int, (before + g.amount) as u64);
            }
            self.guesses[idx] = before + g.amount;
            j = j + 1;
        }
        assert(guesses@.take(j as int) =~= guesses@);
        assert(self.size_matches(honeypot.tick_size));
        Ok(total_tokens)
    }

    /// Resolves the outstanding commitment against the sampled value
    /// `sample`, drawn at step `slot`, which must come after the commit step
    /// and no more than `tolerance` steps later; returns the base units the
    /// vault pays to the player.
    pub fn resolve(
        &mut self,
        tick_size: u64,
        sample: u64,
        slot: u64,
        tolerance: u64,
    ) -> (r: Result<u64, ProcessError>)
        ensures
            resolved(*old(self), *final(self), tick_size, sample, slot, tolerance, r),
    {
        if !self.active {
            return Err(ProcessError::Roulette(RouletteError::Inactive));
        }
        if slot <= self.slot {
            return Err(ProcessError::Roulette(RouletteError::InvalidSlot));
        }
        let deadline = match self.slot.checked_add(tolerance) {
            Some(d) => d,
            None => {
                return Err(ProcessError::Roulette(RouletteError::NumericalOverflow));
            },
        };
        if slot > deadline {
            return Err(ProcessError::Roulette(RouletteError::InvalidSlot));
        }
        let outcome = sample % 38;
        let ghost stakes = self.guesses@;
        let mut total: u64 = 0;
        let mut i: usize = 0;
        while i < 50
            invariant
                i <= 50,
                stakes == self.guesses@,
                stakes.len() == 64,
                outcome == outcome_of(sample),
                total == reward_sum(stakes, outcome as int, i as nat),
                *self == *old(self),
                self.active,
                slot > self.slot,
                self.slot + tolerance <= u64::MAX,
                slot <= self.slot + tolerance,
            decreases 50 - i,
        {
            let amount = self.guesses[i];
            if amount != 0 {
                let g = match Guess::from_index(i as u8) {
                    Some(g) => g,
                    None => {
                        return Err(ProcessError::InvalidAccountData);
                    },
                };
                let stake = RouletteGuess { guess: g, amount };
                let payout = match stake.checked_payout(outcome) {
                    Some(p) => p,
                    None => {
                        proof {
                            lemma_reward_sum_monotone(stakes, outcome as int, (i + 1) as nat, 50);
                        }
                        return Err(ProcessError::Roulette(RouletteError::NumericalOverflow));
                    },
                };
                total = match total.checked_add(payout) {
                    Some(t) => t,
                    None => {
                        proof {
                            lemma_reward_sum_monotone(stakes, outcome as int, (i + 1) as nat, 50);
                        }
                        return Err(ProcessError::Roulette(RouletteError::NumericalOverflow));
                    },
                };
            }
            i = i + 1;
        }
        while i < 64
            invariant
                50 <= i <= 64,
                stakes == self.guesses@,
                stakes.len() == 64,
                forall|j: int| 50 <= j < i ==> stakes[j] == 0,
                total == reward(stakes, outcome_of(sample)),
                outcome == outcome_of(sample),
                *self == *old(self),
                self.active,
                slot > self.slot,
                self.slot + tolerance <= u64::MAX,
                slot <= self.slot + tolerance,
            decreases 64 - i,
        {
            if self.guesses[i] != 0 {
                return Err(ProcessError::InvalidAccountData);
            }
            i = i + 1;
        }
        let total_reward = match total.checked_mul(tick_size) {
            Some(t) => t,
            None => {
                return Err(ProcessError::Roulette(RouletteError::NumericalOverflow));
            },
        };
        self.reset();
        Ok(total_reward)
    }

    /// Withdraws the outstanding commitment, if any: returns the base units
    /// to refund from the vault, or `None` when the record was idle.
    pub fn cancel(&mut self) -> (r: Option<u64>)
        ensures
            !old(self).active ==> r is None && *final(self) == *old(self),
            old(self).active ==> r == Some(old(self).active_size) && final(self).is_idle()
                && final(self).slot == old(self).slot && same_identity(*old(self), *final(self)),
    {
        if !self.active {
            return None;
        }
        let refund = self.active_size;
        self.reset();
        Some(refund)
    }
}

} // verus!
