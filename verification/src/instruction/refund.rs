//! Refund a contributor: after the deadline has passed with the custody
//! balance still below the target, pay a contributor's full recorded
//! deposit back and close their contribution record.

use vstd::prelude::*;
use vstd::arithmetic::div_mod::lemma_div_is_ordered;
use crate::error::FundraiserError;
use crate::ledger::{transfer_checked, transfer_checked_verdict, Account, Mint, TokenAccount};
use crate::pubkey::program_id_spec;
use crate::state::contributor::{
    contributor_amount, contributor_is_initialized, contributor_wf_bytes, Contributor,
};
use crate::state::fundraiser::{
    fundraiser_amount_to_raise, fundraiser_duration, fundraiser_is_initialized, fundraiser_maker,
    fundraiser_time_started, fundraiser_wf_bytes, Fundraiser,
};

verus! {

/// The seconds in one day, the unit of a campaign's duration.
pub const SECONDS_TO_DAYS: u64 = 86400;

/// Whether a campaign's deadline has strictly passed at time `now`: the
/// campaign's duration in days is strictly less than the whole days
/// elapsed since it was opened.
pub open spec fn deadline_passed(now: i64, time_started: i64, duration: u8) -> bool {
    duration < (now - time_started) / (SECONDS_TO_DAYS as int)
}

/// Decide the deadline policy: compare the whole days elapsed since
/// `time_started` against the campaign's duration.
pub fn deadline_has_passed(now: i64, time_started: i64, duration: u8) -> (r: bool)
    ensures
        r == deadline_passed(now, time_started, duration),
{
    if now <= time_started {
        proof {
            lemma_div_is_ordered(now - time_started, 0, SECONDS_TO_DAYS as int);
        }
        return false;
    }
    let elapsed: u128 = ((now as i128) - (time_started as i128)) as u128;
    let days: u128 = elapsed / (SECONDS_TO_DAYS as u128);
    (duration as u128) < days
}

/// The verdict of the refund operation: the contributor must have signed;
/// custody must be owned by the campaign, the destination by the
/// contributor, and the campaign record by this program; campaign and
/// contribution must both be live; the deadline must have strictly
/// passed; the live custody balance must still be below the target; the
/// claimed owner must be the campaign's recorded owner (the signing proof
/// is derived from the owner's identifier); the returned storage balance
/// must stay in machine range; and the checked transfer out of custody
/// must go through.
pub open spec fn refund_verdict(
    contributor: Account,
    maker: Account,
    fundraiser: Account,
    contributor_acc: Account,
    contributor_ata: TokenAccount,
    vault: TokenAccount,
    mint: Mint,
    now: i64,
) -> Result<(), FundraiserError> {
    if !contributor.is_signer {
        Err(FundraiserError::MissingRequiredSignature)
    } else if vault.owner@ != fundraiser.key@ {
        Err(FundraiserError::OwnershipMismatch)
    } else if contributor_ata.owner@ != contributor.key@ {
        Err(FundraiserError::OwnershipMismatch)
    } else if fundraiser.owner@ != program_id_spec() {
        Err(FundraiserError::OwnershipMismatch)
    } else if fundraiser.data@.len() == 0 {
        Err(FundraiserError::UninitializedAccount)
    } else if !fundraiser_wf_bytes(fundraiser.data@) {
        Err(FundraiserError::InvalidAccountData)
    } else if !fundraiser_is_initialized(fundraiser.data@) {
        Err(FundraiserError::UninitializedAccount)
    } else if contributor_acc.data@.len() == 0 {
        Err(FundraiserError::UninitializedAccount)
    } else if !contributor_wf_bytes(contributor_acc.data@) {
        Err(FundraiserError::InvalidAccountData)
    } else if !contributor_is_initialized(contributor_acc.data@) {
        Err(FundraiserError::UninitializedAccount)
    } else if !deadline_passed(
        now,
        fundraiser_time_started(fundraiser.data@),
        fundraiser_duration(fundraiser.data@),
    ) {
        Err(FundraiserError::FundraiserNotEnded)
    } else if vault.amount >= fundraiser_amount_to_raise(fundraiser.data@) {
        Err(FundraiserError::TargetMet)
    } else if fundraiser_maker(fundraiser.data@) != maker.key@ {
        Err(FundraiserError::OwnershipMismatch)
    } else if contributor.lamports + contributor_acc.lamports > u64::MAX {
        Err(FundraiserError::ArithmeticOverflow)
    } else {
        transfer_checked_verdict(
            vault,
            contributor_ata,
            fundraiser.key@,
            mint,
            contributor_amount(contributor_acc.data@),
            mint.decimals,
        )
    }
}

/// Refund one contributor of a failed campaign.
///
/// The contributor must have signed; the deadline must have strictly
/// passed and the live custody balance — read from the custody record
/// itself, not from the campaign's tracked total — must still be below
/// the target. On success the contributor's full recorded deposit moves
/// from custody back to their balance record, and the contribution record
/// is deallocated with its backing balance swept to the contributor: the
/// record no longer exists and replaying the refund fails. On any failure
/// nothing changes.
pub fn process_refund(
    contributor: &mut Account,
    maker: &Account,
    mint_to_raise: &Mint,
    fundraiser: &Account,
    contributor_acc: &mut Account,
    contributor_ata: &mut TokenAccount,
    vault: &mut TokenAccount,
    now: i64,
) -> (r: Result<(), FundraiserError>)
    ensures
        r == refund_verdict(
            *old(contributor),
            *maker,
            *fundraiser,
            *old(contributor_acc),
            *old(contributor_ata),
            *old(vault),
            *mint_to_raise,
            now,
        ),
        r is Ok ==> *final(vault) == (TokenAccount {
            amount: (old(vault).amount - contributor_amount(old(contributor_acc).data@)) as u64,
            ..*old(vault)
        }),
        r is Ok ==> *final(contributor_ata) == (TokenAccount {
            amount: (old(contributor_ata).amount + contributor_amount(
                old(contributor_acc).data@,
            )) as u64,
            ..*old(contributor_ata)
        }),
        r is Ok ==> *final(contributor) == (Account {
            lamports: (old(contributor).lamports + old(contributor_acc).lamports) as u64,
            ..*old(contributor)
        }),
        r is Ok ==> final(contributor_acc).data@.len() == 0 && *final(contributor_acc) == (Account {
            lamports: 0,
            data: final(contributor_acc).data,
            ..*old(contributor_acc)
        }),
        r is Err ==> *final(contributor) == *old(contributor) && *final(contributor_acc) == *old(
            contributor_acc,
        ) && *final(contributor_ata) == *old(contributor_ata) && *final(vault) == *old(vault),
{
    if !contributor.is_signer {
        return Err(FundraiserError::MissingRequiredSignature);
    }
    if !vault.owner.eq_key(&fundraiser.key) {
        return Err(FundraiserError::OwnershipMismatch);
    }
    if !contributor_ata.owner.eq_key(&contributor.key) {
        return Err(FundraiserError::OwnershipMismatch);
    }
    let pid = crate::program_id();
    if !fundraiser.owner.eq_key(&pid) {
        return Err(FundraiserError::OwnershipMismatch);
    }
    if fundraiser.data.len() == 0 {
        return Err(FundraiserError::UninitializedAccount);
    }
    let f = match Fundraiser::decode(fundraiser.data.as_slice()) {
        Ok(f) => f,
        Err(e) => {
            return Err(e);
        },
    };
    if !f.is_initialized() {
        return Err(FundraiserError::UninitializedAccount);
    }
    if contributor_acc.data.len() == 0 {
        return Err(FundraiserError::UninitializedAccount);
    }
    let rec = match Contributor::decode(contributor_acc.data.as_slice()) {
        Ok(c) => c,
        Err(e) => {
            return Err(e);
        },
    };
    if !rec.is_initialized() {
        return Err(FundraiserError::UninitializedAccount);
    }
    if !deadline_has_passed(now, f.time_started, f.duration) {
        return Err(FundraiserError::FundraiserNotEnded);
    }
    // The policy reads the live custody balance itself, not the
    // campaign's tracked total.
    if vault.amount >= f.amount_to_raise {
        return Err(FundraiserError::TargetMet);
    }
    if !f.maker.eq_key(&maker.key) {
        return Err(FundraiserError::OwnershipMismatch);
    }
    if (contributor.lamports as u128) + (contributor_acc.lamports as u128) > (u64::MAX as u128) {
        return Err(FundraiserError::ArithmeticOverflow);
    }
    match transfer_checked(
        rec.amount,
        vault,
        contributor_ata,
        &fundraiser.key,
        mint_to_raise,
        mint_to_raise.decimals,
    ) {
        Ok(()) => {},
        Err(e) => {
            return Err(e);
        },
    }
    // Close the contribution record: sweep its backing balance to the
    // contributor and deallocate it.
    contributor.lamports = contributor.lamports + contributor_acc.lamports;
    contributor_acc.lamports = 0;
    contributor_acc.data = Vec::new();
    Ok(())
}

/// The refund policy alone decides a valid refund: for a signed call
/// whose accounts line up against a live campaign and a live contribution
/// record, the refund succeeds exactly when the deadline has strictly
/// passed and the live custody balance is still below the target.
pub proof fn lemma_refund_iff_deadline_and_target_missed(
    contributor: Account,
    maker: Account,
    fundraiser: Account,
    contributor_acc: Account,
    contributor_ata: TokenAccount,
    vault: TokenAccount,
    mint: Mint,
    now: i64,
)
    requires
        contributor.is_signer,
        vault.owner@ == fundraiser.key@,
        contributor_ata.owner@ == contributor.key@,
        fundraiser.owner@ == program_id_spec(),
        fundraiser_wf_bytes(fundraiser.data@),
        fundraiser_is_initialized(fundraiser.data@),
        contributor_wf_bytes(contributor_acc.data@),
        contributor_is_initialized(contributor_acc.data@),
        fundraiser_maker(fundraiser.data@) == maker.key@,
        contributor.lamports + contributor_acc.lamports <= u64::MAX,
        vault.initialized,
        contributor_ata.initialized,
        vault.mint@ == mint.key@,
        contributor_ata.mint@ == mint.key@,
        contributor_amount(contributor_acc.data@) <= vault.amount,
        contributor_ata.amount + contributor_amount(contributor_acc.data@) <= u64::MAX,
    ensures
        refund_verdict(
            contributor,
            maker,
            fundraiser,
            contributor_acc,
            contributor_ata,
            vault,
            mint,
            now,
        ) is Ok <==> deadline_passed(
            now,
            fundraiser_time_started(fundraiser.data@),
            fundraiser_duration(fundraiser.data@),
        ) && vault.amount < fundraiser_amount_to_raise(fundraiser.data@),
{
}

/// A refunded contribution is gone: once the contribution record holds no
/// data, replaying the refund fails, and a signed call whose accounts
/// line up fails exactly as against a record that never existed.
pub proof fn lemma_refunded_contribution_rejects_replay(
    contributor: Account,
    maker: Account,
    fundraiser: Account,
    contributor_acc: Account,
    contributor_ata: TokenAccount,
    vault: TokenAccount,
    mint: Mint,
    now: i64,
)
    requires
        contributor_acc.data@.len() == 0,
    ensures
        refund_verdict(
            contributor,
            maker,
            fundraiser,
            contributor_acc,
            contributor_ata,
            vault,
            mint,
            now,
        ) is Err,
        contributor.is_signer && vault.owner@ == fundraiser.key@ && contributor_ata.owner@
            == contributor.key@ && fundraiser.owner@ == program_id_spec() && fundraiser_wf_bytes(
            fundraiser.data@,
        ) && fundraiser_is_initialized(fundraiser.data@) ==> refund_verdict(
            contributor,
            maker,
            fundraiser,
            contributor_acc,
            contributor_ata,
            vault,
            mint,
            now,
        ) == Result::<(), FundraiserError>::Err(FundraiserError::UninitializedAccount),
{
}

} // verus!
