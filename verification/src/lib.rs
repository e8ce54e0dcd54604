//! A verified crowdfunding escrow ledger.
//!
//! A campaign owner opens a fundraising campaign with a target amount and a
//! duration; independent contributors deposit units of a fungible asset into a
//! pooled custody balance; the owner claims the pool once the target is
//! strictly exceeded; contributors reclaim their individual deposits if the
//! campaign misses its target by the deadline.
//!
//! The four operations — open, contribute, claim, refund — are verified
//! against an explicit model of the host ledger: accounts are plain records of
//! key, balance and data bytes, and the asset ledger's balance records are
//! plain structures. The thin adapter that runs these decisions against a real
//! chain runtime lives outside the library.

use vstd::prelude::*;

pub mod accounting;
pub mod codec;
pub mod error;
pub mod pubkey;
pub mod state;
pub mod ledger;
pub mod instruction;

verus! {

/// The identifier under which this program's records are stored.
pub fn program_id() -> (r: crate::pubkey::Pubkey)
    ensures
        r@ == crate::pubkey::program_id_spec(),
{
    crate::pubkey::Pubkey::new(
        [
            147u8, 137, 138, 215, 10, 246, 235, 125, 85, 225, 121, 87, 225, 47, 254, 67, 48, 247,
            151, 148, 197, 66, 204, 213, 129, 231, 207, 198, 65, 157, 197, 95,
        ],
    )
}

} // verus!
