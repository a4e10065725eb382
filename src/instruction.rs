use crate::state::RouletteGuess;
use vstd::prelude::*;

verus! {

#[derive(Debug, Clone, Copy, PartialEq, Eq, Structural)]
pub struct SampleArgs {
    pub tolerance: u64,
}

#[derive(Debug, Clone, Copy, PartialEq, Eq, Structural)]
pub struct InitializeHoneypotArgs {
    pub tick_size: u64,
    pub max_amount: u64,
    pub minimum_bank_size: u64,
}

#[derive(Debug, Clone, Copy, PartialEq, Eq, Structural)]
pub struct WithdrawFromHoneypotArgs {
    pub amount_to_withdraw: u64,
}

#[derive(Debug, Clone)]
pub struct PlaceGuessArgs {
    pub guesses: Vec<RouletteGuess>,
}

#[derive(Debug, Clone, Copy, PartialEq, Eq, Structural)]
pub struct SpinArgs {
    pub tolerance: u64,
}

/// The program's instructions, one variant per operation.
#[derive(Debug, Clone)]
pub enum RandomInstruction {
    Initialize,
    Sample(SampleArgs),
    InitializeHoneypot(InitializeHoneypotArgs),
    WithdrawFromHoneypot(WithdrawFromHoneypotArgs),
    InitializeGuessAccount,
    PlaceGuesses(PlaceGuessArgs),
    Spin(SpinArgs),
    TryCancel,
}

} // verus!
