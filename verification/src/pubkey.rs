//! Fixed-width account identifiers.

use vstd::prelude::*;

verus! {

/// A fixed-width public address naming an account or record on the host
/// ledger.
#[derive(Clone, Copy, Debug, PartialEq, Eq)]
pub struct Pubkey {
    pub bytes: [u8; 32],
}

impl View for Pubkey {
    type V = Seq<u8>;

    open spec fn view(&self) -> Seq<u8> {
        self.bytes@
    }
}

impl Pubkey {
    pub fn new(bytes: [u8; 32]) -> (r: Pubkey)
        ensures
            r@ == bytes@,
    {
        Pubkey { bytes }
    }

    /// Byte-for-byte equality of two identifiers.
    pub fn eq_key(&self, other: &Pubkey) -> (r: bool)
        ensures
            r == (self@ == other@),
    {
        let mut i: usize = 0;
        while i < 32
            invariant
                i <= 32,
                forall|j: int| 0 <= j < i ==> self.bytes[j] == other.bytes[j],
            decreases 32 - i,
        {
            if self.bytes[i] != other.bytes[i] {
                return false;
            }
            i += 1;
        }
        proof {
            assert(self@ =~= other@);
        }
        true
    }
}

/// The identifier of this program, as a byte sequence.
pub open spec fn program_id_spec() -> Seq<u8> {
    seq![
        147u8, 137, 138, 215, 10, 246, 235, 125, 85, 225, 121, 87, 225, 47, 254, 67, 48, 247, 151,
        148, 197, 66, 204, 213, 129, 231, 207, 198, 65, 157, 197, 95,
    ]
}

} // verus!
