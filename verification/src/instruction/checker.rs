//! Claim the payout: validate that the target was strictly exceeded, pay
//! the pooled custody out to the owner, and close the custody and campaign
//! records.

use vstd::prelude::*;
use crate::error::FundraiserError;
use crate::instruction::contribute::{contribute_verdict, CONTRIBUTE_IX_LEN};
use crate::instruction::refund::refund_verdict;
use crate::ledger::{transfer_checked, transfer_checked_verdict, Account, Mint, TokenAccount};
use crate::pubkey::program_id_spec;
use crate::state::fundraiser::{
    fundraiser_amount_to_raise, fundraiser_current_amount, fundraiser_is_initialized,
    fundraiser_maker, fundraiser_wf_bytes, Fundraiser,
};

verus! {

/// The verdict of the claim operation: the owner must have signed, the
/// campaign must be live, the tracked total must strictly exceed the
/// target, the claimed owner must be the campaign's recorded owner (the
/// signing proof is derived from the owner's identifier, so a different
/// owner cannot authorize the custody), the payout and the returned
/// storage balances must stay in machine range, and the checked transfer
/// out of custody must go through.
pub open spec fn checker_verdict(
    maker: Account,
    fundraiser: Account,
    vault: TokenAccount,
    maker_ata: TokenAccount,
    mint: Mint,
) -> Result<(), FundraiserError> {
    if !maker.is_signer {
        Err(FundraiserError::MissingRequiredSignature)
    } else if fundraiser.data@.len() == 0 {
        Err(FundraiserError::UninitializedAccount)
    } else if !fundraiser_wf_bytes(fundraiser.data@) {
        Err(FundraiserError::InvalidAccountData)
    } else if !fundraiser_is_initialized(fundraiser.data@) {
        Err(FundraiserError::UninitializedAccount)
    } else if fundraiser_current_amount(fundraiser.data@) <= fundraiser_amount_to_raise(
        fundraiser.data@,
    ) {
        Err(FundraiserError::TargetNotMet)
    } else if fundraiser_maker(fundraiser.data@) != maker.key@ {
        Err(FundraiserError::OwnershipMismatch)
    } else if maker_ata.amount + vault.amount > u64::MAX {
        Err(FundraiserError::ArithmeticOverflow)
    } else if maker.lamports + vault.lamports + fundraiser.lamports > u64::MAX {
        Err(FundraiserError::ArithmeticOverflow)
    } else {
        transfer_checked_verdict(
            vault,
            maker_ata,
            fundraiser.key@,
            mint,
            fundraiser_current_amount(fundraiser.data@),
            mint.decimals,
        )
    }
}

/// Claim the payout of a campaign that strictly exceeded its target.
///
/// The owner must have signed, the campaign must be live, and the tracked
/// total must be strictly greater than the target; equality is not
/// enough. On success the whole tracked total moves from custody to the
/// owner's balance record, custody is closed with its residual balance
/// returned to the owner, and the campaign record is deallocated with its
/// backing balance swept to the owner: the campaign and custody records
/// no longer exist, and every later operation against them fails. On any
/// failure nothing changes.
pub fn process_check_contribution(
    maker: &mut Account,
    mint_to_raise: &Mint,
    fundraiser: &mut Account,
    vault: &mut TokenAccount,
    maker_ata: &mut TokenAccount,
) -> (r: Result<(), FundraiserError>)
    ensures
        r == checker_verdict(
            *old(maker),
            *old(fundraiser),
            *old(vault),
            *old(maker_ata),
            *mint_to_raise,
        ),
        r is Ok ==> *final(maker) == (Account {
            lamports: (old(maker).lamports + old(vault).lamports + old(fundraiser).lamports) as u64,
            ..*old(maker)
        }),
        r is Ok ==> *final(maker_ata) == (TokenAccount {
            amount: (old(maker_ata).amount + old(vault).amount) as u64,
            ..*old(maker_ata)
        }),
        r is Ok ==> *final(vault) == (TokenAccount {
            amount: 0,
            lamports: 0,
            initialized: false,
            ..*old(vault)
        }),
        r is Ok ==> final(fundraiser).data@.len() == 0 && *final(fundraiser) == (Account {
            lamports: 0,
            data: final(fundraiser).data,
            ..*old(fundraiser)
        }),
        r is Err ==> *final(maker) == *old(maker) && *final(fundraiser) == *old(fundraiser)
            && *final(vault) == *old(vault) && *final(maker_ata) == *old(maker_ata),
{
    if !maker.is_signer {
        return Err(FundraiserError::MissingRequiredSignature);
    }
    if fundraiser.data.len() == 0 {
        return Err(FundraiserError::UninitializedAccount);
    }
    let f = match Fundraiser::decode(fundraiser.data.as_slice()) {
        Ok(f) => f,
        Err(e) => {
            return Err(e);
        },
    };
    if !f.is_initialized() {
        return Err(FundraiserError::UninitializedAccount);
    }
    if f.current_amount <= f.amount_to_raise {
        return Err(FundraiserError::TargetNotMet);
    }
    if !f.maker.eq_key(&maker.key) {
        return Err(FundraiserError::OwnershipMismatch);
    }
    if (maker_ata.amount as u128) + (vault.amount as u128) > (u64::MAX as u128) {
        return Err(FundraiserError::ArithmeticOverflow);
    }
    if (maker.lamports as u128) + (vault.lamports as u128) + (fundraiser.lamports as u128) > (
    u64::MAX as u128) {
        return Err(FundraiserError::ArithmeticOverflow);
    }
    match transfer_checked(
        f.current_amount,
        vault,
        maker_ata,
        &fundraiser.key,
        mint_to_raise,
        mint_to_raise.decimals,
    ) {
        Ok(()) => {},
        Err(e) => {
            return Err(e);
        },
    }
    // Close the custody record: the residual balance beyond the
    // transferred amount returns to the owner as the closure beneficiary.
    maker_ata.amount = maker_ata.amount + vault.amount;
    maker.lamports = maker.lamports + vault.lamports;
    vault.amount = 0;
    vault.lamports = 0;
    vault.initialized = false;
    // Close the campaign record: sweep its backing balance to the owner
    // and deallocate it.
    maker.lamports = maker.lamports + fundraiser.lamports;
    fundraiser.lamports = 0;
    fundraiser.data = Vec::new();
    Ok(())
}

/// The payout policy alone decides a valid claim: for a signed call
/// against a live campaign whose accounts line up, the claim succeeds
/// exactly when the tracked total strictly exceeds the target. A tracked
/// total merely equal to the target is not enough.
pub proof fn lemma_finalize_iff_target_exceeded(
    maker: Account,
    fundraiser: Account,
    vault: TokenAccount,
    maker_ata: TokenAccount,
    mint: Mint,
)
    requires
        maker.is_signer,
        fundraiser_wf_bytes(fundraiser.data@),
        fundraiser_is_initialized(fundraiser.data@),
        fundraiser_maker(fundraiser.data@) == maker.key@,
        maker_ata.amount + vault.amount <= u64::MAX,
        maker.lamports + vault.lamports + fundraiser.lamports <= u64::MAX,
        vault.initialized,
        maker_ata.initialized,
        vault.mint@ == mint.key@,
        maker_ata.mint@ == mint.key@,
        vault.owner@ == fundraiser.key@,
        fundraiser_current_amount(fundraiser.data@) <= vault.amount,
    ensures
        checker_verdict(maker, fundraiser, vault, maker_ata, mint) is Ok
            <==> fundraiser_current_amount(fundraiser.data@) > fundraiser_amount_to_raise(
            fundraiser.data@,
        ),
        fundraiser_current_amount(fundraiser.data@) <= fundraiser_amount_to_raise(fundraiser.data@)
            ==> checker_verdict(maker, fundraiser, vault, maker_ata, mint) == Result::<
            (),
            FundraiserError,
        >::Err(FundraiserError::TargetNotMet),
{
}

/// A claimed campaign is gone: once the campaign record holds no data,
/// every later operation against it — another deposit, another claim, a
/// refund — fails, and a signed, well-formed call fails exactly as
/// against a record that never existed.
pub proof fn lemma_closed_campaign_rejects_operations(
    contributor: Account,
    maker: Account,
    fundraiser: Account,
    contributor_acc: Account,
    contributor_ata: TokenAccount,
    vault: TokenAccount,
    maker_ata: TokenAccount,
    mint: Mint,
    min_balance: u64,
    data: Seq<u8>,
    now: i64,
)
    requires
        fundraiser.data@.len() == 0,
    ensures
        contribute_verdict(
            contributor,
            fundraiser,
            contributor_acc,
            contributor_ata,
            vault,
            mint,
            min_balance,
            data,
        ) is Err,
        checker_verdict(maker, fundraiser, vault, maker_ata, mint) is Err,
        refund_verdict(
            contributor,
            maker,
            fundraiser,
            contributor_acc,
            contributor_ata,
            vault,
            mint,
            now,
        ) is Err,
        contributor.is_signer && data.len() == CONTRIBUTE_IX_LEN ==> contribute_verdict(
            contributor,
            fundraiser,
            contributor_acc,
            contributor_ata,
            vault,
            mint,
            min_balance,
            data,
        ) == Result::<(), FundraiserError>::Err(FundraiserError::UninitializedAccount),
        maker.is_signer ==> checker_verdict(maker, fundraiser, vault, maker_ata, mint) == Result::<
            (),
            FundraiserError,
        >::Err(FundraiserError::UninitializedAccount),
        contributor.is_signer && vault.owner@ == fundraiser.key@ && contributor_ata.owner@
            == contributor.key@ && fundraiser.owner@ == program_id_spec() ==> refund_verdict(
            contributor,
            maker,
            fundraiser,
            contributor_acc,
            contributor_ata,
            vault,
            mint,
            now,
        ) == Result::<(), FundraiserError>::Err(FundraiserError::UninitializedAccount),
{
}

} // verus!
