use crate::error::{ProcessError, RouletteError};
use crate::state::{Guess, Honeypot, LockedGuess, RouletteGuess, red_pocket};
use crate::wager::{
    committed, empty_table, lemma_table_sum_zero, resolved, stake_total, stakes_after,
};
use vstd::prelude::*;

verus! {

/// A commit whose stakes sum without overflow and whose total in base units
/// stays within the cap, against a
/// vault holding more than the floor, on an idle record, succeeds: the record
/// becomes active with exactly that total as its size, and that total is what
/// the player pays in.
pub proof fn lemma_commit_within_cap(
    old_rec: LockedGuess,
    new_rec: LockedGuess,
    hp: Honeypot,
    gs: Seq<RouletteGuess>,
    vault_balance: u64,
    slot: u64,
    r: Result<u64, ProcessError>,
)
    requires
        committed(old_rec, new_rec, hp, gs, vault_balance, slot, r),
        !old_rec.active,
        stake_total(gs) <= u64::MAX,
        stake_total(gs) * hp.tick_size <= hp.max_amount,
        vault_balance > hp.minimum_bank_size,
    ensures
        r == Ok::<u64, ProcessError>((stake_total(gs) * hp.tick_size) as u64),
        new_rec.active,
        new_rec.active_size == stake_total(gs) * hp.tick_size,
{
}

/// Of stakes that sum without overflow, a commit over the cap is refused as too large, and one against a vault
/// at or below its floor for want of funds; either way nothing changes and
/// nothing is paid in.
pub proof fn lemma_commit_refusals(
    old_rec: LockedGuess,
    new_rec: LockedGuess,
    hp: Honeypot,
    gs: Seq<RouletteGuess>,
    vault_balance: u64,
    slot: u64,
    r: Result<u64, ProcessError>,
)
    requires
        committed(old_rec, new_rec, hp, gs, vault_balance, slot, r),
        !old_rec.active,
        stake_total(gs) <= u64::MAX,
        stake_total(gs) * hp.tick_size <= u64::MAX,
    ensures
        vault_balance <= hp.minimum_bank_size ==> r == Err::<u64, ProcessError>(
            ProcessError::InsufficientFunds,
        ) && new_rec == old_rec,
        vault_balance > hp.minimum_bank_size && stake_total(gs) * hp.tick_size > hp.max_amount
            ==> r == Err::<u64, ProcessError>(ProcessError::Roulette(RouletteError::AmountTooLarge))
            && new_rec == old_rec,
{
}

/// A resolution that goes through leaves the record idle, whatever the
/// outcome: not active, no size, every stake slot empty.
pub proof fn lemma_resolve_leaves_idle(
    old_rec: LockedGuess,
    new_rec: LockedGuess,
    tick_size: u64,
    sample: u64,
    slot: u64,
    tolerance: u64,
    r: Result<u64, ProcessError>,
)
    requires
        resolved(old_rec, new_rec, tick_size, sample, slot, tolerance, r),
        r is Ok,
    ensures
        !new_rec.active,
        new_rec.active_size == 0,
        forall|i: int| 0 <= i < 64 ==> #[trigger] new_rec.guesses@[i] == 0,
{
}

/// A resolution at a step no later than the commit step, or more than the
/// tolerance after it, is refused as outside the window.
pub proof fn lemma_resolve_window(
    old_rec: LockedGuess,
    new_rec: LockedGuess,
    tick_size: u64,
    sample: u64,
    slot: u64,
    tolerance: u64,
    r: Result<u64, ProcessError>,
)
    requires
        resolved(old_rec, new_rec, tick_size, sample, slot, tolerance, r),
        old_rec.active,
        old_rec.slot + tolerance <= u64::MAX,
        slot <= old_rec.slot || slot > old_rec.slot + tolerance,
    ensures
        r == Err::<u64, ProcessError>(ProcessError::Roulette(RouletteError::InvalidSlot)),
        new_rec == old_rec,
{
}

/// A straight-up stake pays 36 times its amount when the outcome is its
/// pocket, and nothing otherwise.
pub proof fn lemma_straight_up_payout(g: RouletteGuess, outcome: int)
    requires
        g.guess.is_straight_up(),
    ensures
        g.spec_payout(outcome) == (if outcome == g.guess.spec_pocket() {
            g.amount * 36
        } else {
            0
        }),
{
}

/// A stake on Red pays twice its amount when the outcome is a red pocket
/// other than the two zeros, and nothing otherwise.
pub proof fn lemma_red_payout(amount: u64, outcome: int)
    ensures
        (RouletteGuess { guess: Guess::Red, amount }).spec_payout(outcome) == (if red_pocket(
            outcome,
        ) && outcome != 0 && outcome != 37 {
            amount * 2
        } else {
            0
        }),
{
}

proof fn lemma_index_in_range(g: Guess)
    ensures
        g.spec_index() < 50,
{
}

proof fn lemma_stakes_after_keeps_tail(table: Seq<u64>, gs: Seq<RouletteGuess>)
    requires
        table.len() == 64,
    ensures
        stakes_after(table, gs).len() == table.len(),
        forall|i: int| 50 <= i < table.len() ==> #[trigger] stakes_after(table, gs)[i] == table[i],
    decreases gs.len(),
{
    if gs.len() > 0 {
        let prev = stakes_after(table, gs.drop_last());
        lemma_stakes_after_keeps_tail(table, gs.drop_last());
        lemma_index_in_range(gs.last().guess);
        let i = gs.last().guess.spec_index() as int;
        assert(stakes_after(table, gs) == prev.update(i, (prev[i] + gs.last().amount) as u64));
        assert forall|i: int| 50 <= i < table.len() implies #[trigger] stakes_after(table, gs)[i]
            == table[i] by {
            assert(prev[i] == table[i]);
        }
    }
}

/// A commit keeps a well-formed wager record well formed, and leaves its
/// size equal to the stake table's sum in base units.
pub proof fn lemma_commit_keeps_wf(
    old_rec: LockedGuess,
    new_rec: LockedGuess,
    hp: Honeypot,
    gs: Seq<RouletteGuess>,
    vault_balance: u64,
    slot: u64,
    r: Result<u64, ProcessError>,
)
    requires
        committed(old_rec, new_rec, hp, gs, vault_balance, slot, r),
        old_rec.wf(),
        old_rec.size_matches(hp.tick_size),
    ensures
        new_rec.wf(),
        new_rec.size_matches(hp.tick_size),
{
    lemma_stakes_after_keeps_tail(empty_table(), gs);
}

/// A resolution keeps a well-formed wager record well formed, with its size
/// equal to the stake table's sum in base units.
pub proof fn lemma_resolve_keeps_wf(
    old_rec: LockedGuess,
    new_rec: LockedGuess,
    tick_size: u64,
    sample: u64,
    slot: u64,
    tolerance: u64,
    r: Result<u64, ProcessError>,
)
    requires
        resolved(old_rec, new_rec, tick_size, sample, slot, tolerance, r),
        old_rec.wf(),
        old_rec.size_matches(tick_size),
    ensures
        new_rec.wf(),
        new_rec.size_matches(tick_size),
{
    if r is Ok {
        lemma_table_sum_zero(new_rec.guesses@);
    }
}

} // verus!
