use vstd::prelude::*;

verus! {

/// Failures of the generic account checks.
#[derive(Debug, Clone, Copy, PartialEq, Eq, Structural)]
pub enum UtilError {
    PublicKeyMismatch,
    InvalidMintAuthority,
    UninitializedAccount,
    IncorrectOwner,
    PublicKeysShouldBeUnique,
    StatementFalse,
    NotRentExempt,
}

/// Failures of the game's own rules.
#[derive(Debug, Clone, Copy, PartialEq, Eq, Structural)]
pub enum RouletteError {
    /// A commitment is already outstanding.
    ActiveSpin,
    /// No commitment is outstanding.
    Inactive,
    NumericalOverflow,
    /// The stake exceeds the reserve's cap.
    AmountTooLarge,
    /// The resolution step is too early or too late.
    InvalidSlot,
    /// Resolution was bundled with other instructions.
    SuspiciousTransaction,
}

/// Every way an operation of the program can fail.
#[derive(Debug, Clone, Copy, PartialEq, Eq, Structural)]
pub enum ProcessError {
    Util(UtilError),
    Roulette(RouletteError),
    /// The vault holds no more than the reserve's floor.
    InsufficientFunds,
    /// A supplied address is not the one derived for it.
    InvalidArgument,
    /// The account to create already holds data.
    AccountAlreadyInitialized,
    /// A withdrawal lacks the owner's signature.
    MissingRequiredSignature,
    /// A record holds a stake outside the bet categories.
    InvalidAccountData,
}

} // verus!
