//! The campaign record.

use vstd::prelude::*;
use vstd::bytes::{spec_u64_from_le_bytes, spec_u64_to_le_bytes};
use crate::codec::{
    bool_byte, push_i64_le, push_pubkey, push_u64_le, read_i64_le, read_pubkey, read_u64_le,
    spec_i64_from_le_bytes, spec_i64_to_le_bytes,
};
use crate::error::FundraiserError;
use crate::pubkey::Pubkey;

verus! {

/// The exact width of an encoded campaign record: one flag byte, two
/// 32-byte identifiers, three 8-byte counters, and two trailing bytes.
pub const FUNDRAISER_LEN: usize = 91;

/// A fundraising campaign: one per owner, stored at a deterministic
/// sub-identifier derived from the fixed seed tag, the owner's identifier
/// and the bump byte.
#[derive(Clone, Copy, Debug, PartialEq, Eq)]
pub struct Fundraiser {
    /// Whether this record was written by a successful open operation.
    pub is_initialized: bool,
    /// The campaign owner, who alone may claim the payout.
    pub maker: Pubkey,
    /// The fungible asset being raised.
    pub mint_to_raise: Pubkey,
    /// The target amount; the payout unlocks only strictly above it.
    pub amount_to_raise: u64,
    /// The sum of all live contributions, tracked by the program.
    pub current_amount: u64,
    /// The time oracle's reading when the campaign was opened.
    pub time_started: i64,
    /// The campaign's duration in days.
    pub duration: u8,
    /// The derivation proof byte, stored so later operations can present
    /// the signing proof without re-deriving it.
    pub bump: u8,
}

/// The byte layout of a campaign record, field by field.
pub open spec fn fundraiser_bytes(f: Fundraiser) -> Seq<u8> {
    seq![bool_byte(f.is_initialized)] + f.maker@ + f.mint_to_raise@ + spec_u64_to_le_bytes(
        f.amount_to_raise,
    ) + spec_u64_to_le_bytes(f.current_amount) + spec_i64_to_le_bytes(f.time_started) + seq![
        f.duration,
    ] + seq![f.bump]
}

/// Whether a byte string is an admissible campaign record image: exactly
/// the record width, with a valid flag byte.
pub open spec fn fundraiser_wf_bytes(d: Seq<u8>) -> bool {
    &&& d.len() == FUNDRAISER_LEN
    &&& (d[0] == 0 || d[0] == 1)
}

/// The flag field of an encoded campaign record.
pub open spec fn fundraiser_is_initialized(d: Seq<u8>) -> bool {
    d[0] == 1
}

/// The owner field of an encoded campaign record.
pub open spec fn fundraiser_maker(d: Seq<u8>) -> Seq<u8> {
    d.subrange(1, 33)
}

/// The asset field of an encoded campaign record.
pub open spec fn fundraiser_mint(d: Seq<u8>) -> Seq<u8> {
    d.subrange(33, 65)
}

/// The target-amount field of an encoded campaign record.
pub open spec fn fundraiser_amount_to_raise(d: Seq<u8>) -> u64 {
    spec_u64_from_le_bytes(d.subrange(65, 73))
}

/// The tracked-total field of an encoded campaign record.
pub open spec fn fundraiser_current_amount(d: Seq<u8>) -> u64 {
    spec_u64_from_le_bytes(d.subrange(73, 81))
}

/// The opening-time field of an encoded campaign record.
pub open spec fn fundraiser_time_started(d: Seq<u8>) -> i64 {
    spec_i64_from_le_bytes(d.subrange(81, 89))
}

/// The duration field of an encoded campaign record, in days.
pub open spec fn fundraiser_duration(d: Seq<u8>) -> u8 {
    d[89]
}

/// The bump field of an encoded campaign record.
pub open spec fn fundraiser_bump(d: Seq<u8>) -> u8 {
    d[90]
}

/// Whether a decoded record carries exactly the fields of its image.
pub open spec fn fundraiser_matches_bytes(f: Fundraiser, d: Seq<u8>) -> bool {
    &&& f.is_initialized == fundraiser_is_initialized(d)
    &&& f.maker@ == fundraiser_maker(d)
    &&& f.mint_to_raise@ == fundraiser_mint(d)
    &&& f.amount_to_raise == fundraiser_amount_to_raise(d)
    &&& f.current_amount == fundraiser_current_amount(d)
    &&& f.time_started == fundraiser_time_started(d)
    &&& f.duration == fundraiser_duration(d)
    &&& f.bump == fundraiser_bump(d)
}

/// Encoding is faithful: the image of a record is admissible and every
/// field reads back as it was written.
pub proof fn lemma_fundraiser_round_trip(f: Fundraiser)
    ensures
        fundraiser_bytes(f).len() == FUNDRAISER_LEN,
        fundraiser_wf_bytes(fundraiser_bytes(f)),
        fundraiser_matches_bytes(f, fundraiser_bytes(f)),
{
    vstd::bytes::lemma_auto_spec_u64_to_from_le_bytes();
    crate::codec::lemma_i64_le_bytes_round_trip(f.time_started);
    let d = fundraiser_bytes(f);
    assert(d.subrange(1, 33) =~= f.maker@);
    assert(d.subrange(33, 65) =~= f.mint_to_raise@);
    assert(d.subrange(65, 73) =~= spec_u64_to_le_bytes(f.amount_to_raise));
    assert(d.subrange(73, 81) =~= spec_u64_to_le_bytes(f.current_amount));
    assert(d.subrange(81, 89) =~= spec_i64_to_le_bytes(f.time_started));
}

/// Whether image `d1` is an admissible campaign record that equals image
/// `d0` in every field except the tracked total, which is `new_current`.
pub open spec fn fundraiser_same_but_current(d0: Seq<u8>, d1: Seq<u8>, new_current: u64) -> bool {
    &&& fundraiser_wf_bytes(d1)
    &&& fundraiser_is_initialized(d1) == fundraiser_is_initialized(d0)
    &&& fundraiser_maker(d1) == fundraiser_maker(d0)
    &&& fundraiser_mint(d1) == fundraiser_mint(d0)
    &&& fundraiser_amount_to_raise(d1) == fundraiser_amount_to_raise(d0)
    &&& fundraiser_current_amount(d1) == new_current
    &&& fundraiser_time_started(d1) == fundraiser_time_started(d0)
    &&& fundraiser_duration(d1) == fundraiser_duration(d0)
    &&& fundraiser_bump(d1) == fundraiser_bump(d0)
}

/// The seed tag that opens every campaign derivation, the bytes of the
/// word `fundraiser`.
pub open spec fn fundraiser_seed_tag() -> Seq<u8> {
    seq![102u8, 117, 110, 100, 114, 97, 105, 115, 101, 114]
}

impl Default for Fundraiser {
    /// An all-zero, uninitialized campaign record.
    fn default() -> (r: Fundraiser)
        ensures
            !r.is_initialized,
            r.maker@ == Seq::<u8>::new(32, |i: int| 0u8),
            r.mint_to_raise@ == Seq::<u8>::new(32, |i: int| 0u8),
            r.amount_to_raise == 0,
            r.current_amount == 0,
            r.time_started == 0,
            r.duration == 0,
            r.bump == 0,
    {
        let zero = Pubkey::new([0u8; 32]);
        proof {
            assert(zero@ =~= Seq::<u8>::new(32, |i: int| 0u8));
        }
        Fundraiser {
            is_initialized: false,
            maker: zero,
            mint_to_raise: zero,
            amount_to_raise: 0,
            current_amount: 0,
            time_started: 0,
            duration: 0,
            bump: 0,
        }
    }
}

impl Fundraiser {
    /// Write every field of a freshly opened campaign: the tracked total
    /// starts at zero.
    pub fn initialize(
        &mut self,
        maker: Pubkey,
        mint_to_raise: Pubkey,
        amount_to_raise: u64,
        duration: u8,
        bump: u8,
        time_started: i64,
    )
        ensures
            final(self).is_initialized,
            final(self).maker == maker,
            final(self).mint_to_raise == mint_to_raise,
            final(self).amount_to_raise == amount_to_raise,
            final(self).current_amount == 0,
            final(self).time_started == time_started,
            final(self).duration == duration,
            final(self).bump == bump,
    {
        self.is_initialized = true;
        self.maker = maker;
        self.mint_to_raise = mint_to_raise;
        self.amount_to_raise = amount_to_raise;
        self.current_amount = 0;
        self.time_started = time_started;
        self.duration = duration;
        self.bump = bump;
    }

    /// Whether this record was written by a successful open operation.
    pub fn is_initialized(&self) -> (r: bool)
        ensures
            r == self.is_initialized,
    {
        self.is_initialized
    }

    /// Serialize this record into its fixed-width image.
    pub fn encode(&self) -> (r: Vec<u8>)
        ensures
            r@ == fundraiser_bytes(*self),
            r@.len() == FUNDRAISER_LEN,
    {
        proof {
            vstd::bytes::lemma_auto_spec_u64_to_from_le_bytes();
        }
        let mut out: Vec<u8> = Vec::new();
        out.push(if self.is_initialized { 1 } else { 0 });
        push_pubkey(&mut out, &self.maker);
        push_pubkey(&mut out, &self.mint_to_raise);
        push_u64_le(&mut out, self.amount_to_raise);
        push_u64_le(&mut out, self.current_amount);
        push_i64_le(&mut out, self.time_started);
        out.push(self.duration);
        out.push(self.bump);
        proof {
            assert(out@ =~= fundraiser_bytes(*self));
        }
        out
    }

    /// Deserialize a campaign record, rejecting a byte string that is
    /// truncated, oversized, or carries an invalid flag byte.
    pub fn decode(data: &[u8]) -> (r: Result<Fundraiser, FundraiserError>)
        ensures
            r is Ok <==> fundraiser_wf_bytes(data@),
            r matches Ok(f) ==> fundraiser_matches_bytes(f, data@),
            r is Err ==> r == Result::<Fundraiser, FundraiserError>::Err(
                FundraiserError::InvalidAccountData,
            ),
    {
        if data.len() != FUNDRAISER_LEN {
            return Err(FundraiserError::InvalidAccountData);
        }
        let flag = data[0];
        if flag > 1 {
            return Err(FundraiserError::InvalidAccountData);
        }
        let f = Fundraiser {
            is_initialized: flag == 1,
            maker: read_pubkey(data, 1),
            mint_to_raise: read_pubkey(data, 33),
            amount_to_raise: read_u64_le(data, 65),
            current_amount: read_u64_le(data, 73),
            time_started: read_i64_le(data, 81),
            duration: data[89],
            bump: data[90],
        };
        Ok(f)
    }

    /// The seed values that form the campaign's signing proof: the fixed
    /// seed tag, the owner's identifier, and the bump byte.
    pub fn get_signer_seeds(maker: &Pubkey, bump: u8) -> (r: Vec<Vec<u8>>)
        ensures
            r@.len() == 3,
            r@[0]@ == fundraiser_seed_tag(),
            r@[1]@ == maker@,
            r@[2]@ == seq![bump],
    {
        let tag: Vec<u8> = vec![102u8, 117, 110, 100, 114, 97, 105, 115, 101, 114];
        let mut maker_bytes: Vec<u8> = Vec::new();
        push_pubkey(&mut maker_bytes, maker);
        let bump_bytes: Vec<u8> = vec![bump];
        proof {
            assert(tag@ =~= fundraiser_seed_tag());
            assert(bump_bytes@ =~= seq![bump]);
        }
        let mut r: Vec<Vec<u8>> = Vec::new();
        r.push(tag);
        r.push(maker_bytes);
        r.push(bump_bytes);
        r
    }
}

} // verus!
