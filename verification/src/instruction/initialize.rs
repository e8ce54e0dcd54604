//! Open a campaign: allocate and write the campaign record.

use vstd::prelude::*;
use vstd::bytes::{spec_u64_from_le_bytes, spec_u64_to_le_bytes};
use crate::codec::{push_u64_le, read_u64_le};
use crate::error::FundraiserError;
use crate::ledger::{create_record, create_record_verdict, Account, Mint, TokenAccount};
use crate::pubkey::{program_id_spec, Pubkey};
use crate::state::fundraiser::{fundraiser_bytes, Fundraiser, FUNDRAISER_LEN};

verus! {

/// The exact width of the open operation's payload.
pub const INITIALIZE_IX_LEN: usize = 10;

/// The payload of the open operation.
#[derive(Clone, Copy, Debug, PartialEq, Eq)]
pub struct InitializeIxData {
    /// The target amount the campaign raises toward.
    pub amount: u64,
    /// The campaign's duration in days.
    pub duration: u8,
    /// The derivation proof byte for the campaign address.
    pub bump: u8,
}

/// The byte layout of the open payload: the target amount little-endian,
/// then the duration byte, then the bump byte.
pub open spec fn initialize_ix_bytes(d: InitializeIxData) -> Seq<u8> {
    spec_u64_to_le_bytes(d.amount) + seq![d.duration] + seq![d.bump]
}

/// The target-amount field of an open payload.
pub open spec fn initialize_ix_amount(d: Seq<u8>) -> u64 {
    spec_u64_from_le_bytes(d.subrange(0, 8))
}

/// The duration field of an open payload.
pub open spec fn initialize_ix_duration(d: Seq<u8>) -> u8 {
    d[8]
}

/// The bump field of an open payload.
pub open spec fn initialize_ix_bump(d: Seq<u8>) -> u8 {
    d[9]
}

impl InitializeIxData {
    /// Serialize this payload into its fixed-width image.
    pub fn encode(&self) -> (r: Vec<u8>)
        ensures
            r@ == initialize_ix_bytes(*self),
            r@.len() == INITIALIZE_IX_LEN,
    {
        proof {
            vstd::bytes::lemma_auto_spec_u64_to_from_le_bytes();
        }
        let mut out: Vec<u8> = Vec::new();
        push_u64_le(&mut out, self.amount);
        out.push(self.duration);
        out.push(self.bump);
        proof {
            assert(out@ =~= initialize_ix_bytes(*self));
        }
        out
    }

    /// Deserialize an open payload, rejecting a byte string of any other
    /// width.
    pub fn parse(data: &[u8]) -> (r: Result<InitializeIxData, FundraiserError>)
        ensures
            r is Ok <==> data@.len() == INITIALIZE_IX_LEN,
            r matches Ok(d) ==> d.amount == initialize_ix_amount(data@) && d.duration
                == initialize_ix_duration(data@) && d.bump == initialize_ix_bump(data@),
            r is Err ==> r == Result::<InitializeIxData, FundraiserError>::Err(
                FundraiserError::InvalidInstructionData,
            ),
    {
        if data.len() != INITIALIZE_IX_LEN {
            return Err(FundraiserError::InvalidInstructionData);
        }
        Ok(
            InitializeIxData {
                amount: read_u64_le(data, 0),
                duration: data[8],
                bump: data[9],
            },
        )
    }
}

/// The verdict of the open operation: the owner must have signed, the
/// campaign address must hold no data yet, the custody record's recorded
/// owner must equal the campaign address, the payload must have the exact
/// width, and the record allocation itself must go through.
pub open spec fn initialize_verdict(
    maker: Account,
    fundraiser: Account,
    vault: TokenAccount,
    min_balance: u64,
    data: Seq<u8>,
) -> Result<(), FundraiserError> {
    if !maker.is_signer {
        Err(FundraiserError::MissingRequiredSignature)
    } else if fundraiser.data@.len() != 0 {
        Err(FundraiserError::AccountAlreadyInitialized)
    } else if vault.owner@ != fundraiser.key@ {
        Err(FundraiserError::OwnershipMismatch)
    } else if data.len() != INITIALIZE_IX_LEN {
        Err(FundraiserError::InvalidInstructionData)
    } else {
        create_record_verdict(maker, fundraiser, min_balance)
    }
}

/// The campaign record that a successful open writes: every field from
/// the call, the tracked total zero, the opening time from the oracle.
pub open spec fn opened_fundraiser(maker: Pubkey, mint: Pubkey, data: Seq<u8>, now: i64) -> Fundraiser {
    Fundraiser {
        is_initialized: true,
        maker: maker,
        mint_to_raise: mint,
        amount_to_raise: initialize_ix_amount(data),
        current_amount: 0,
        time_started: now,
        duration: initialize_ix_duration(data),
        bump: initialize_ix_bump(data),
    }
}

/// Open a campaign.
///
/// `maker` must have signed; the campaign account must hold no data; the
/// custody record must already be owned by the campaign address (a
/// precondition enforced by the external custody service before the
/// call). On success the campaign record is allocated at the minimum
/// persistent balance, funded by the owner and owned by this program, and
/// holds every field of the payload with a zero tracked total and the
/// oracle's time `now`. On any failure nothing changes.
pub fn process_initialize(
    maker: &mut Account,
    mint_to_raise: &Mint,
    fundraiser: &mut Account,
    vault: &TokenAccount,
    min_balance: u64,
    now: i64,
    data: &[u8],
) -> (r: Result<(), FundraiserError>)
    ensures
        r == initialize_verdict(*old(maker), *old(fundraiser), *vault, min_balance, data@),
        r is Ok ==> *final(maker) == (Account {
            lamports: (old(maker).lamports - min_balance) as u64,
            ..*old(maker)
        }),
        r is Ok ==> final(fundraiser).data@ == fundraiser_bytes(
            opened_fundraiser(old(maker).key, mint_to_raise.key, data@, now),
        ),
        r is Ok ==> final(fundraiser).lamports == old(fundraiser).lamports + min_balance
            && final(fundraiser).owner@ == program_id_spec() && final(fundraiser).key == old(
            fundraiser,
        ).key && final(fundraiser).is_signer == old(fundraiser).is_signer,
        r is Err ==> *final(maker) == *old(maker) && *final(fundraiser) == *old(fundraiser),
{
    if !maker.is_signer {
        return Err(FundraiserError::MissingRequiredSignature);
    }
    if fundraiser.data.len() != 0 {
        return Err(FundraiserError::AccountAlreadyInitialized);
    }
    if !vault.owner.eq_key(&fundraiser.key) {
        return Err(FundraiserError::OwnershipMismatch);
    }
    let ix = match InitializeIxData::parse(data) {
        Ok(ix) => ix,
        Err(e) => {
            return Err(e);
        },
    };
    let pid = crate::program_id();
    match create_record(maker, fundraiser, FUNDRAISER_LEN, min_balance, &pid) {
        Ok(()) => {},
        Err(e) => {
            return Err(e);
        },
    }
    let mut state = Fundraiser::default();
    state.initialize(maker.key, mint_to_raise.key, ix.amount, ix.duration, ix.bump, now);
    fundraiser.data = state.encode();
    Ok(())
}

} // verus!
