//! The failures an operation can report.

use vstd::prelude::*;

verus! {

/// Every way an operation of this program can fail.
///
/// Authorization failures: [`MissingRequiredSignature`](FundraiserError::MissingRequiredSignature),
/// [`OwnershipMismatch`](FundraiserError::OwnershipMismatch).
/// State failures: [`AccountAlreadyInitialized`](FundraiserError::AccountAlreadyInitialized),
/// [`UninitializedAccount`](FundraiserError::UninitializedAccount).
/// Policy failures: [`TargetNotMet`](FundraiserError::TargetNotMet),
/// [`TargetMet`](FundraiserError::TargetMet),
/// [`FundraiserNotEnded`](FundraiserError::FundraiserNotEnded).
/// Data failures: [`InvalidInstructionData`](FundraiserError::InvalidInstructionData),
/// [`InvalidAccountData`](FundraiserError::InvalidAccountData).
/// Asset-ledger failures surfaced by a checked transfer:
/// [`MintMismatch`](FundraiserError::MintMismatch),
/// [`InsufficientFunds`](FundraiserError::InsufficientFunds),
/// [`ArithmeticOverflow`](FundraiserError::ArithmeticOverflow).
#[derive(Clone, Copy, Debug, PartialEq, Eq, Structural)]
pub enum FundraiserError {
    /// The instruction payload is missing, truncated, oversized, or carries an
    /// unknown operation tag.
    InvalidInstructionData,
    /// A supplied account does not have the shape the operation expects.
    InvalidAccountData,
    /// The authority that must approve the operation did not sign the call.
    MissingRequiredSignature,
    /// A record that must equal a given owner or authority does not.
    OwnershipMismatch,
    /// The campaign record already holds data.
    AccountAlreadyInitialized,
    /// A record that the operation reads was never initialized, or no longer
    /// exists.
    UninitializedAccount,
    /// A balance record names a different asset than the campaign raises, or
    /// the stated precision disagrees with the asset's issuance record.
    MintMismatch,
    /// The source balance record holds fewer units than the transfer moves.
    InsufficientFunds,
    /// A balance or counter update would exceed the machine range.
    ArithmeticOverflow,
    /// The pooled amount does not strictly exceed the target, so the payout
    /// cannot be claimed.
    TargetNotMet,
    /// The pooled custody balance already reached the target, so refunds are
    /// not available.
    TargetMet,
    /// The campaign deadline has not strictly passed.
    FundraiserNotEnded,
}

} // verus!
