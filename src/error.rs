use vstd::prelude::*;

verus! {

/// Why an operation on a pool failed.
#[derive(Clone, Copy, Debug, PartialEq, Eq)]
pub enum AmmError {
    /// Account bytes do not have the expected layout or type discriminator.
    DecodeError,
    /// An account that an update needs is missing from the supplied bundle.
    AccountMissing,
    /// The swap bit of the pool status is clear, or the pool has not opened yet.
    NotTrading,
    /// No update has succeeded yet, or a vault balance is missing or frozen.
    StaleState,
    /// A vault holds less than the fees accrued against it.
    VaultAmountUnderflow,
    /// The input left after the transfer fee is zero.
    AmountTooLow,
    /// The curve computation overflowed or met an empty reserve.
    ArithmeticError,
    /// Token metadata needed to build a swap plan is absent.
    ConfigMissing,
    /// The account is not owned by a program whose pools this library prices.
    UnsupportedPool,
    /// The pool authority cannot be derived from its seed and bump.
    InvalidAuthority,
}

} // verus!
