//! Error codes raised by the locker and by its reading of Raydium pools.
use vstd::prelude::*;

verus! {

/// Errors of the locker program itself.
#[derive(Clone, Copy, Debug, PartialEq, Eq, Structural)]
pub enum UncxLpError {
    CustomError,
    ZeroCopyDerializationFailed,
    InvalidPercentage,
    RaydiumError,
    InvalidTimeBoundError,
    ZeroAmountError,
    BlackListedCountryError,
    InvalidAccountError,
    MissingRequiredAccount,
    RelockUnlockDateInvalid,
    InvalidUnlockDateError,
    OwnerMismatchError,
    InsufficentLockBalanceForWithdrawalError,
    InvalidWithdrawAmount,
    LpStillLockedError,
    MissingLockerId,
    MissingWhitelistAccount,
    MissingReferralAccount,
    InsufficientReferralBalance,
    ConversionError,
    MathError,
    CountryCodeNotPresent,
    CountryCodeAlreadyExists,
    InvalidTokenMetadata,
    OpenBookAmmNotSupported,
    InvalidRaydiumV4Accounts,
}

/// Errors raised while reading a Raydium AMM pool.
#[derive(Clone, Copy, Debug, PartialEq, Eq, Structural)]
pub enum RaydiumAmmError {
    InvalidAmmAccountOwner,
    ExpectedAccount,
    InvalidStatus,
    InvalidFee,
    InvalidState,
    InvalidTargetAccountOwner,
    InvalidTargetOwner,
    CheckedSubOverflow,
    CalcPnlError,
    ConversionFailure,
}

/// Generic failures of the account framework that the program's checks raise.
#[derive(Clone, Copy, Debug, PartialEq, Eq, Structural)]
pub enum FrameworkError {
    /// An equality demanded between two values did not hold.
    RequireEqViolated,
    /// Two keys demanded to differ were equal.
    RequireKeysNeqViolated,
    /// An account constraint without its own error code failed.
    ConstraintRaw,
    /// An account is not at the address it is required to have.
    ConstraintAddress,
    /// Borsh decoding of an account's data failed.
    BorshIoError,
}

/// Any error an instruction of the locker can end with.
#[derive(Clone, Copy, Debug, PartialEq, Eq, Structural)]
pub enum LockerError {
    Uncx(UncxLpError),
    Raydium(RaydiumAmmError),
    Framework(FrameworkError),
}

} // verus!
