//! Deposit into a campaign: create or grow the contribution record, move
//! the asset units into pooled custody, and grow the tracked total.

use vstd::prelude::*;
use vstd::bytes::{spec_u64_from_le_bytes, spec_u64_to_le_bytes};
use crate::codec::{push_u64_le, read_u64_le};
use crate::error::FundraiserError;
use crate::ledger::{
    create_record, create_record_verdict, transfer_checked, transfer_checked_verdict, Account,
    Mint, TokenAccount,
};
use crate::pubkey::program_id_spec;
use crate::state::contributor::{
    contributor_bytes, contributor_is_initialized, contributor_amount, contributor_wf_bytes,
    lemma_contributor_round_trip, Contributor, CONTRIBUTOR_LEN,
};
use crate::state::fundraiser::{
    fundraiser_current_amount, fundraiser_is_initialized, fundraiser_same_but_current,
    fundraiser_wf_bytes, lemma_fundraiser_round_trip, Fundraiser,
};

verus! {

/// The exact width of the contribute operation's payload.
pub const CONTRIBUTE_IX_LEN: usize = 10;

/// The payload of the contribute operation.
#[derive(Clone, Copy, Debug, PartialEq, Eq)]
pub struct ContributeIxData {
    /// The number of asset units to deposit.
    pub amount: u64,
    /// The derivation proof byte for the contribution address.
    pub contributor_bump: u8,
    /// The derivation proof byte for the campaign address.
    pub fundraiser_bump: u8,
}

/// The byte layout of the contribute payload: the amount little-endian,
/// then the contribution bump byte, then the campaign bump byte.
pub open spec fn contribute_ix_bytes(d: ContributeIxData) -> Seq<u8> {
    spec_u64_to_le_bytes(d.amount) + seq![d.contributor_bump] + seq![d.fundraiser_bump]
}

/// The amount field of a contribute payload.
pub open spec fn contribute_ix_amount(d: Seq<u8>) -> u64 {
    spec_u64_from_le_bytes(d.subrange(0, 8))
}

/// The contribution-bump field of a contribute payload.
pub open spec fn contribute_ix_contributor_bump(d: Seq<u8>) -> u8 {
    d[8]
}

/// The campaign-bump field of a contribute payload.
pub open spec fn contribute_ix_fundraiser_bump(d: Seq<u8>) -> u8 {
    d[9]
}

impl ContributeIxData {
    /// Serialize this payload into its fixed-width image.
    pub fn encode(&self) -> (r: Vec<u8>)
        ensures
            r@ == contribute_ix_bytes(*self),
            r@.len() == CONTRIBUTE_IX_LEN,
    {
        proof {
            vstd::bytes::lemma_auto_spec_u64_to_from_le_bytes();
        }
        let mut out: Vec<u8> = Vec::new();
        push_u64_le(&mut out, self.amount);
        out.push(self.contributor_bump);
        out.push(self.fundraiser_bump);
        proof {
            assert(out@ =~= contribute_ix_bytes(*self));
        }
        out
    }

    /// Deserialize a contribute payload, rejecting a byte string of any
    /// other width.
    pub fn parse(data: &[u8]) -> (r: Result<ContributeIxData, FundraiserError>)
        ensures
            r is Ok <==> data@.len() == CONTRIBUTE_IX_LEN,
            r matches Ok(d) ==> d.amount == contribute_ix_amount(data@) && d.contributor_bump
                == contribute_ix_contributor_bump(data@) && d.fundraiser_bump
                == contribute_ix_fundraiser_bump(data@),
            r is Err ==> r == Result::<ContributeIxData, FundraiserError>::Err(
                FundraiserError::InvalidInstructionData,
            ),
    {
        if data.len() != CONTRIBUTE_IX_LEN {
            return Err(FundraiserError::InvalidInstructionData);
        }
        Ok(
            ContributeIxData {
                amount: read_u64_le(data, 0),
                contributor_bump: data[8],
                fundraiser_bump: data[9],
            },
        )
    }
}

/// The cumulative deposit a successful contribution of `amount` leaves in
/// the contribution record whose image was `d`: the old amount plus the
/// new one for a live record, the new amount alone for a record that did
/// not exist or was never written.
pub open spec fn contribute_new_record_amount(d: Seq<u8>, amount: u64) -> int {
    if d.len() == 0 || !contributor_is_initialized(d) {
        amount as int
    } else {
        contributor_amount(d) + amount
    }
}

/// The verdict of the contribute operation: the contributor must have
/// signed, the payload must have the exact width, the campaign must be
/// live, both record updates must stay in machine range, a fresh
/// contribution record must be fundable, and the checked transfer into
/// custody must go through.
pub open spec fn contribute_verdict(
    contributor: Account,
    fundraiser: Account,
    contributor_acc: Account,
    contributor_ata: TokenAccount,
    vault: TokenAccount,
    mint: Mint,
    min_balance: u64,
    data: Seq<u8>,
) -> Result<(), FundraiserError> {
    if !contributor.is_signer {
        Err(FundraiserError::MissingRequiredSignature)
    } else if data.len() != CONTRIBUTE_IX_LEN {
        Err(FundraiserError::InvalidInstructionData)
    } else if fundraiser.data@.len() == 0 {
        Err(FundraiserError::UninitializedAccount)
    } else if !fundraiser_wf_bytes(fundraiser.data@) {
        Err(FundraiserError::InvalidAccountData)
    } else if !fundraiser_is_initialized(fundraiser.data@) {
        Err(FundraiserError::UninitializedAccount)
    } else if contributor_acc.data@.len() != 0 && !contributor_wf_bytes(contributor_acc.data@) {
        Err(FundraiserError::InvalidAccountData)
    } else if contribute_new_record_amount(contributor_acc.data@, contribute_ix_amount(data))
        > u64::MAX {
        Err(FundraiserError::ArithmeticOverflow)
    } else if fundraiser_current_amount(fundraiser.data@) + contribute_ix_amount(data)
        > u64::MAX {
        Err(FundraiserError::ArithmeticOverflow)
    } else {
        let alloc = if contributor_acc.data@.len() == 0 {
            create_record_verdict(contributor, contributor_acc, min_balance)
        } else {
            Ok(())
        };
        if alloc is Err {
            alloc
        } else {
            transfer_checked_verdict(
                contributor_ata,
                vault,
                contributor.key@,
                mint,
                contribute_ix_amount(data),
                mint.decimals,
            )
        }
    }
}

/// Deposit into a campaign.
///
/// The contributor must have signed and the campaign must be live; no cap
/// against the target is checked, so contributions may overshoot it. On
/// success the contribution record holds the contributor's cumulative
/// deposit (allocated and funded by the contributor on first use), the
/// deposited units have moved from the contributor's balance record into
/// pooled custody, and the campaign's tracked total has grown by exactly
/// the deposited amount. On any failure nothing changes.
pub fn process_contribute(
    contributor: &mut Account,
    mint_to_raise: &Mint,
    fundraiser: &mut Account,
    contributor_acc: &mut Account,
    contributor_ata: &mut TokenAccount,
    vault: &mut TokenAccount,
    min_balance: u64,
    data: &[u8],
) -> (r: Result<(), FundraiserError>)
    ensures
        r == contribute_verdict(
            *old(contributor),
            *old(fundraiser),
            *old(contributor_acc),
            *old(contributor_ata),
            *old(vault),
            *mint_to_raise,
            min_balance,
            data@,
        ),
        r is Ok ==> *final(contributor_ata) == (TokenAccount {
            amount: (old(contributor_ata).amount - contribute_ix_amount(data@)) as u64,
            ..*old(contributor_ata)
        }),
        r is Ok ==> *final(vault) == (TokenAccount {
            amount: (old(vault).amount + contribute_ix_amount(data@)) as u64,
            ..*old(vault)
        }),
        r is Ok ==> final(contributor_acc).data@ == contributor_bytes(
            Contributor {
                is_initialized: true,
                amount: contribute_new_record_amount(
                    old(contributor_acc).data@,
                    contribute_ix_amount(data@),
                ) as u64,
            },
        ),
        r is Ok ==> final(contributor_acc).key == old(contributor_acc).key && final(contributor_acc).is_signer == old(contributor_acc).is_signer,
        r is Ok && old(contributor_acc).data@.len() == 0 ==> final(contributor_acc).lamports == old(contributor_acc).lamports + min_balance && final(contributor_acc).owner@ == program_id_spec() && *final(contributor) == (Account {
            lamports: (old(contributor).lamports - min_balance) as u64,
            ..*old(contributor)
        }),
        r is Ok && old(contributor_acc).data@.len() != 0 ==> final(contributor_acc).lamports == old(contributor_acc).lamports && final(contributor_acc).owner == old(contributor_acc).owner && *final(contributor) == *old(contributor),
        r is Ok ==> fundraiser_same_but_current(
            old(fundraiser).data@,
            final(fundraiser).data@,
            (fundraiser_current_amount(old(fundraiser).data@) + contribute_ix_amount(data@)) as u64,
        ),
        r is Ok ==> *final(fundraiser) == (Account {
            data: final(fundraiser).data,
            ..*old(fundraiser)
        }),
        r is Err ==> *final(contributor) == *old(contributor) && *final(fundraiser) == *old(fundraiser) && *final(contributor_acc) == *old(contributor_acc) && *final(contributor_ata) == *old(contributor_ata) && *final(vault) == *old(vault),
{
    if !contributor.is_signer {
        return Err(FundraiserError::MissingRequiredSignature);
    }
    let ix = match ContributeIxData::parse(data) {
        Ok(ix) => ix,
        Err(e) => {
            return Err(e);
        },
    };
    if fundraiser.data.len() == 0 {
        return Err(FundraiserError::UninitializedAccount);
    }
    let f = match Fundraiser::decode(fundraiser.data.as_slice()) {
        Ok(f) => f,
        Err(e) => {
            return Err(e);
        },
    };
    if !f.is_initialized() {
        return Err(FundraiserError::UninitializedAccount);
    }
    let fresh = contributor_acc.data.len() == 0;
    let mut rec = Contributor::default();
    if !fresh {
        rec = match Contributor::decode(contributor_acc.data.as_slice()) {
            Ok(c) => c,
            Err(e) => {
                return Err(e);
            },
        };
    }
    let new_amount: u64;
    if !fresh && rec.is_initialized() {
        if ix.amount > u64::MAX - rec.amount {
            return Err(FundraiserError::ArithmeticOverflow);
        }
        new_amount = rec.amount + ix.amount;
    } else {
        new_amount = ix.amount;
    }
    if ix.amount > u64::MAX - f.current_amount {
        return Err(FundraiserError::ArithmeticOverflow);
    }
    if fresh {
        if min_balance > contributor.lamports {
            return Err(FundraiserError::InsufficientFunds);
        }
        if min_balance > u64::MAX - contributor_acc.lamports {
            return Err(FundraiserError::ArithmeticOverflow);
        }
    }
    match transfer_checked(
        ix.amount,
        contributor_ata,
        vault,
        &contributor.key,
        mint_to_raise,
        mint_to_raise.decimals,
    ) {
        Ok(()) => {},
        Err(e) => {
            return Err(e);
        },
    }
    if fresh {
        let pid = crate::program_id();
        match create_record(contributor, contributor_acc, CONTRIBUTOR_LEN, min_balance, &pid) {
            Ok(()) => {},
            Err(e) => {
                return Err(e);
            },
        }
    }
    rec.initialize(new_amount);
    contributor_acc.data = rec.encode();
    let mut updated = f;
    updated.current_amount = f.current_amount + ix.amount;
    fundraiser.data = updated.encode();
    proof {
        lemma_contributor_round_trip(rec);
        lemma_fundraiser_round_trip(updated);
    }
    Ok(())
}

} // verus!
