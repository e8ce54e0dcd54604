//! The contribution record.

use vstd::prelude::*;
use vstd::bytes::{spec_u64_from_le_bytes, spec_u64_to_le_bytes};
use crate::codec::{bool_byte, push_pubkey, push_u64_le, read_u64_le};
use crate::error::FundraiserError;
use crate::pubkey::Pubkey;

verus! {

/// The exact width of an encoded contribution record: one flag byte and
/// one 8-byte counter.
pub const CONTRIBUTOR_LEN: usize = 9;

/// One contributor's stake in one campaign, stored at a deterministic
/// sub-identifier derived from the fixed seed tag, the campaign identifier,
/// the contributor identifier and the bump byte.
#[derive(Clone, Copy, Debug, PartialEq, Eq)]
pub struct Contributor {
    /// Whether this record was written by a successful contribution.
    pub is_initialized: bool,
    /// This contributor's cumulative deposit into the campaign.
    pub amount: u64,
}

/// The byte layout of a contribution record, field by field.
pub open spec fn contributor_bytes(c: Contributor) -> Seq<u8> {
    seq![bool_byte(c.is_initialized)] + spec_u64_to_le_bytes(c.amount)
}

/// Whether a byte string is an admissible contribution record image:
/// exactly the record width, with a valid flag byte.
pub open spec fn contributor_wf_bytes(d: Seq<u8>) -> bool {
    &&& d.len() == CONTRIBUTOR_LEN
    &&& (d[0] == 0 || d[0] == 1)
}

/// The flag field of an encoded contribution record.
pub open spec fn contributor_is_initialized(d: Seq<u8>) -> bool {
    d[0] == 1
}

/// The amount field of an encoded contribution record.
pub open spec fn contributor_amount(d: Seq<u8>) -> u64 {
    spec_u64_from_le_bytes(d.subrange(1, 9))
}

/// Whether a decoded record carries exactly the fields of its image.
pub open spec fn contributor_matches_bytes(c: Contributor, d: Seq<u8>) -> bool {
    &&& c.is_initialized == contributor_is_initialized(d)
    &&& c.amount == contributor_amount(d)
}

/// Encoding is faithful: the image of a record is admissible and every
/// field reads back as it was written.
pub proof fn lemma_contributor_round_trip(c: Contributor)
    ensures
        contributor_bytes(c).len() == CONTRIBUTOR_LEN,
        contributor_wf_bytes(contributor_bytes(c)),
        contributor_matches_bytes(c, contributor_bytes(c)),
{
    vstd::bytes::lemma_auto_spec_u64_to_from_le_bytes();
    let d = contributor_bytes(c);
    assert(d.subrange(1, 9) =~= spec_u64_to_le_bytes(c.amount));
}

/// The seed tag that opens every contribution derivation, the bytes of
/// the word `contributor`.
pub open spec fn contributor_seed_tag() -> Seq<u8> {
    seq![99u8, 111, 110, 116, 114, 105, 98, 117, 116, 111, 114]
}

impl Default for Contributor {
    /// An all-zero, uninitialized contribution record.
    fn default() -> (r: Contributor)
        ensures
            !r.is_initialized,
            r.amount == 0,
    {
        Contributor { is_initialized: false, amount: 0 }
    }
}

impl Contributor {
    /// Write a fresh contribution record holding `amount`.
    pub fn initialize(&mut self, amount: u64)
        ensures
            final(self).is_initialized,
            final(self).amount == amount,
    {
        self.is_initialized = true;
        self.amount = amount;
    }

    /// Whether this record was written by a successful contribution.
    pub fn is_initialized(&self) -> (r: bool)
        ensures
            r == self.is_initialized,
    {
        self.is_initialized
    }

    /// Serialize this record into its fixed-width image.
    pub fn encode(&self) -> (r: Vec<u8>)
        ensures
            r@ == contributor_bytes(*self),
            r@.len() == CONTRIBUTOR_LEN,
    {
        proof {
            vstd::bytes::lemma_auto_spec_u64_to_from_le_bytes();
        }
        let mut out: Vec<u8> = Vec::new();
        out.push(if self.is_initialized { 1 } else { 0 });
        push_u64_le(&mut out, self.amount);
        proof {
            assert(out@ =~= contributor_bytes(*self));
        }
        out
    }

    /// Deserialize a contribution record, rejecting a byte string that is
    /// truncated, oversized, or carries an invalid flag byte.
    pub fn decode(data: &[u8]) -> (r: Result<Contributor, FundraiserError>)
        ensures
            r is Ok <==> contributor_wf_bytes(data@),
            r matches Ok(c) ==> contributor_matches_bytes(c, data@),
            r is Err ==> r == Result::<Contributor, FundraiserError>::Err(
                FundraiserError::InvalidAccountData,
            ),
    {
        if data.len() != CONTRIBUTOR_LEN {
            return Err(FundraiserError::InvalidAccountData);
        }
        let flag = data[0];
        if flag > 1 {
            return Err(FundraiserError::InvalidAccountData);
        }
        let c = Contributor { is_initialized: flag == 1, amount: read_u64_le(data, 1) };
        Ok(c)
    }

    /// The seed values that form a contribution's signing proof: the fixed
    /// seed tag, the campaign identifier, the contributor identifier, and
    /// the bump byte.
    pub fn get_signer_seeds(fundraiser: &Pubkey, contributor: &Pubkey, bump: u8) -> (r: Vec<
        Vec<u8>,
    >)
        ensures
            r@.len() == 4,
            r@[0]@ == contributor_seed_tag(),
            r@[1]@ == fundraiser@,
            r@[2]@ == contributor@,
            r@[3]@ == seq![bump],
    {
        let tag: Vec<u8> = vec![99u8, 111, 110, 116, 114, 105, 98, 117, 116, 111, 114];
        let mut campaign_seed: Vec<u8> = Vec::new();
        push_pubkey(&mut campaign_seed, fundraiser);
        let mut contributor_seed: Vec<u8> = Vec::new();
        push_pubkey(&mut contributor_seed, contributor);
        let bump_bytes: Vec<u8> = vec![bump];
        proof {
            assert(tag@ =~= contributor_seed_tag());
            assert(bump_bytes@ =~= seq![bump]);
        }
        let mut r: Vec<Vec<u8>> = Vec::new();
        r.push(tag);
        r.push(campaign_seed);
        r.push(contributor_seed);
        r.push(bump_bytes);
        r
    }
}

} // verus!
