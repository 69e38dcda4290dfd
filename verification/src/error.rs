//! The errors of the two programs. Each ends the operation that met it: the
//! record is left as it was and no transfer is ordered.

use vstd::prelude::*;

verus! {

/// Errors of the vesting engine and the staking ledger.
#[derive(Clone, Copy, Debug, PartialEq, Eq, Structural)]
pub enum EconomyError {
    /// The schedule's times are not ordered as start, cliff, end, or its
    /// asset is not the asset of the vault.
    InvalidSchedule,
    /// The vault presented is not the one derived for this schedule or pool.
    InvalidVault,
    /// The token account presented is not the beneficiary's account for the
    /// schedule's asset.
    InvalidTokenAccount,
    /// The caller is not the owner of the stake account.
    Unauthorized,
    /// Nothing has vested beyond what was already released.
    NoTokensToRelease,
    /// The stake account holds less than the amount asked for.
    InsufficientStake,
    /// A quantity left the range in which it is defined.
    ArithmeticError,
}

/// Errors of the marketplace escrow.
#[derive(Clone, Copy, Debug, PartialEq, Eq, Structural)]
pub enum MarketplaceError {
    /// The fee exceeds 10000 basis points.
    InvalidFee,
    /// The seller's token account does not hold exactly one unit of the
    /// asset on the seller's behalf.
    InvalidTokenAccount,
    /// The escrow vault presented is not the one derived for this asset.
    InvalidEscrow,
    /// The caller is not the seller of the listing.
    Unauthorized,
    /// The asset is not listed.
    NotListed,
    /// The listing's price is zero.
    InvalidPrice,
    /// A quantity left the range in which it is defined.
    ArithmeticError,
}

} // verus!
