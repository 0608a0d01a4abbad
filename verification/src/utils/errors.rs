use vstd::prelude::*;

verus! {

/// The errors that the staking program's own rules raise.
#[derive(Clone, Copy, Debug, PartialEq, Eq, Structural)]
pub enum StakeProgramErrors {
    /// "Amount is zero"
    AmountZero,
    /// "Lockup period is less than minimum value"
    LockupPeriodLessThanMin,
    /// "Lockup period is bigger than max value"
    LockupPeriodBiggerThaMax,
    /// "Invalid pool owner"
    InvalidPoolOwner,
    /// "Invalid stake token"
    InvalidStakeToken,
    /// "Emission rate is zero"
    EmissionRateZero,
    /// "Reward distributor is already declared for this pool"
    RedeclarationOfRewardDistributor,
}

/// Every way an instruction of the program can be refused: one of the program's own
/// errors, or a failed check on the accounts handed to the instruction.
#[derive(Clone, Copy, Debug, PartialEq, Eq, Structural)]
pub enum StakingError {
    /// A rule of the program itself.
    Program(StakeProgramErrors),
    /// An account does not sit at the address that its seeds derive.
    ConstraintSeeds,
    /// A token account holds another mint than the one required.
    ConstraintTokenMint,
    /// A token account belongs to another authority than the one required.
    ConstraintTokenOwner,
    /// A token account is not the associated token account of its wallet and mint.
    ConstraintAssociated,
    /// A token account created on demand is not the associated token account.
    AccountNotAssociatedTokenAccount,
    /// The cluster's clock could not be read.
    ClockUnavailable,
    /// No bump seed gives an address off the curve for the seeds (the
    /// address derivation has no result).
    ProgramAddressNotFound,
}

} // verus!
