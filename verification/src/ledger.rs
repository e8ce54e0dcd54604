//! An explicit model of the host ledger and of the asset ledger's records.
//!
//! Every operation of this program executes against records that the host
//! stores and serializes per record: a program record is an account with a
//! key, a native balance, an owning program and raw data bytes; an asset
//! balance is a record of the external asset ledger with a recorded asset,
//! a recorded owner and a unit balance. The operations here are the model
//! semantics of the host collaborator calls the program makes: allocate a
//! record, move asset units with a precision check, close a record.

use vstd::prelude::*;
use crate::error::FundraiserError;
use crate::pubkey::Pubkey;

verus! {

/// A host-stored record: key, native balance, owning program, data bytes,
/// and whether the holder of the key signed the current call.
pub struct Account {
    /// The address of this record.
    pub key: Pubkey,
    /// The native balance backing the record's storage.
    pub lamports: u64,
    /// The program that owns and may rewrite the record.
    pub owner: Pubkey,
    /// The record's raw bytes; an empty string means no record is
    /// allocated at this address.
    pub data: Vec<u8>,
    /// Whether the private key holder of `key` signed the call.
    pub is_signer: bool,
}

/// A balance record of the external asset ledger.
pub struct TokenAccount {
    /// The address of this record.
    pub key: Pubkey,
    /// The asset this record holds units of.
    pub mint: Pubkey,
    /// The authority that may move units out of this record.
    pub owner: Pubkey,
    /// The unit balance.
    pub amount: u64,
    /// The native balance backing the record's storage.
    pub lamports: u64,
    /// Whether the record exists on the asset ledger; a closed record is
    /// gone and every operation against it fails.
    pub initialized: bool,
}

/// An asset's issuance record, as far as the program reads it.
pub struct Mint {
    /// The address of the issuance record, naming the asset.
    pub key: Pubkey,
    /// The asset's decimal precision, which checked transfers validate.
    pub decimals: u8,
}

/// The verdict of a checked transfer: which failure it reports first, or
/// that it goes through. A checked transfer validates, in this order, that
/// both balance records exist, that both record exactly the named asset,
/// that the stated precision matches the issuance record, that the moving
/// authority is the source's recorded owner, that the source balance
/// suffices, and that the destination balance cannot overflow.
pub open spec fn transfer_checked_verdict(
    from: TokenAccount,
    to: TokenAccount,
    authority: Seq<u8>,
    mint: Mint,
    amount: u64,
    decimals: u8,
) -> Result<(), FundraiserError> {
    if !from.initialized || !to.initialized {
        Err(FundraiserError::UninitializedAccount)
    } else if from.mint@ != mint.key@ || to.mint@ != mint.key@ {
        Err(FundraiserError::MintMismatch)
    } else if decimals != mint.decimals {
        Err(FundraiserError::MintMismatch)
    } else if from.owner@ != authority {
        Err(FundraiserError::OwnershipMismatch)
    } else if amount > from.amount {
        Err(FundraiserError::InsufficientFunds)
    } else if to.amount + amount > u64::MAX {
        Err(FundraiserError::ArithmeticOverflow)
    } else {
        Ok(())
    }
}

/// Move `amount` units of the asset named by `mint` from one balance
/// record to another, validating the asset identity and precision first.
/// On any failure nothing changes.
pub fn transfer_checked(
    amount: u64,
    from: &mut TokenAccount,
    to: &mut TokenAccount,
    authority: &Pubkey,
    mint: &Mint,
    decimals: u8,
) -> (r: Result<(), FundraiserError>)
    ensures
        r == transfer_checked_verdict(*old(from), *old(to), authority@, *mint, amount, decimals),
        r is Ok ==> final(from).amount == old(from).amount - amount && final(to).amount == old(
            to,
        ).amount + amount,
        r is Ok ==> *final(from) == (TokenAccount { amount: final(from).amount, ..*old(from) })
            && *final(to) == (TokenAccount { amount: final(to).amount, ..*old(to) }),
        r is Err ==> *final(from) == *old(from) && *final(to) == *old(to),
{
    if !from.initialized || !to.initialized {
        return Err(FundraiserError::UninitializedAccount);
    }
    if !from.mint.eq_key(&mint.key) || !to.mint.eq_key(&mint.key) {
        return Err(FundraiserError::MintMismatch);
    }
    if decimals != mint.decimals {
        return Err(FundraiserError::MintMismatch);
    }
    if !from.owner.eq_key(authority) {
        return Err(FundraiserError::OwnershipMismatch);
    }
    if amount > from.amount {
        return Err(FundraiserError::InsufficientFunds);
    }
    if amount > u64::MAX - to.amount {
        return Err(FundraiserError::ArithmeticOverflow);
    }
    from.amount = from.amount - amount;
    to.amount = to.amount + amount;
    Ok(())
}

/// The verdict of allocating a fresh record: the address must hold no
/// record yet, the payer must afford the minimum persistent balance, and
/// the new record's backing balance must not overflow.
pub open spec fn create_record_verdict(
    payer: Account,
    new_record: Account,
    min_balance: u64,
) -> Result<(), FundraiserError> {
    if new_record.data.len() != 0 {
        Err(FundraiserError::AccountAlreadyInitialized)
    } else if min_balance > payer.lamports {
        Err(FundraiserError::InsufficientFunds)
    } else if new_record.lamports + min_balance > u64::MAX {
        Err(FundraiserError::ArithmeticOverflow)
    } else {
        Ok(())
    }
}

/// Allocate a record of `size` zero bytes at `new_record`, funded by the
/// payer with the minimum persistent balance and owned by `owner`. On any
/// failure nothing changes.
pub fn create_record(
    payer: &mut Account,
    new_record: &mut Account,
    size: usize,
    min_balance: u64,
    owner: &Pubkey,
) -> (r: Result<(), FundraiserError>)
    ensures
        r == create_record_verdict(*old(payer), *old(new_record), min_balance),
        r is Ok ==> *final(payer) == (Account {
            lamports: (old(payer).lamports - min_balance) as u64,
            ..*old(payer)
        }),
        r is Ok ==> *final(new_record) == (Account {
            lamports: (old(new_record).lamports + min_balance) as u64,
            owner: *owner,
            data: final(new_record).data,
            ..*old(new_record)
        }) && final(new_record).data@ == Seq::<u8>::new(size as nat, |i: int| 0u8),
        r is Err ==> *final(payer) == *old(payer) && *final(new_record) == *old(new_record),
{
    if new_record.data.len() != 0 {
        return Err(FundraiserError::AccountAlreadyInitialized);
    }
    if min_balance > payer.lamports {
        return Err(FundraiserError::InsufficientFunds);
    }
    if min_balance > u64::MAX - new_record.lamports {
        return Err(FundraiserError::ArithmeticOverflow);
    }
    payer.lamports = payer.lamports - min_balance;
    new_record.lamports = new_record.lamports + min_balance;
    new_record.owner = *owner;
    let mut zeroes: Vec<u8> = Vec::new();
    let mut i: usize = 0;
    while i < size
        invariant
            i <= size,
            zeroes@ =~= Seq::<u8>::new(i as nat, |j: int| 0u8),
        decreases size - i,
    {
        zeroes.push(0u8);
        i += 1;
    }
    new_record.data = zeroes;
    Ok(())
}

} // verus!
