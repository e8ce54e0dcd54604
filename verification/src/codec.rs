//! Byte-level helpers for the fixed-width record layouts.
//!
//! Every persistent record of this program is stored as a fixed-width byte
//! string with an explicit field order. These helpers append and extract the
//! primitive fields; the record modules state each record's exact layout on
//! top of them.

use vstd::prelude::*;
use vstd::bytes::{spec_u64_from_le_bytes, spec_u64_to_le_bytes, u64_from_le_bytes, u64_to_le_bytes};
use vstd::slice::slice_subrange;
use crate::pubkey::Pubkey;

verus! {

/// The byte that encodes a boolean flag field.
pub open spec fn bool_byte(b: bool) -> u8 {
    if b {
        1u8
    } else {
        0u8
    }
}

/// The little-endian image of a signed 64-bit field: the two's-complement
/// bit pattern, laid out as the matching unsigned value.
pub open spec fn spec_i64_to_le_bytes(x: i64) -> Seq<u8> {
    spec_u64_to_le_bytes(x as u64)
}

/// The signed 64-bit field read back from its little-endian image.
pub open spec fn spec_i64_from_le_bytes(s: Seq<u8>) -> i64 {
    spec_u64_from_le_bytes(s) as i64
}

/// Casting to the matching signed type and back preserves a 64-bit value,
/// so the two signed conversions above invert each other.
pub proof fn lemma_i64_le_bytes_round_trip(x: i64)
    ensures
        spec_i64_to_le_bytes(x).len() == 8,
        spec_i64_from_le_bytes(spec_i64_to_le_bytes(x)) == x,
{
    vstd::bytes::lemma_auto_spec_u64_to_from_le_bytes();
    assert(((x as u64) as i64) == x) by (bit_vector);
}

/// Append every byte of `src` to `out`.
pub fn push_bytes(out: &mut Vec<u8>, src: &[u8])
    ensures
        final(out)@ == old(out)@ + src@,
{
    let mut i: usize = 0;
    while i < src.len()
        invariant
            i <= src@.len(),
            out@ == old(out)@ + src@.subrange(0, i as int),
        decreases src@.len() - i,
    {
        out.push(src[i]);
        proof {
            assert(out@ =~= old(out)@ + src@.subrange(0, i + 1 as int));
        }
        i += 1;
    }
    proof {
        assert(src@.subrange(0, src@.len() as int) =~= src@);
    }
}

/// Append the little-endian image of an unsigned 64-bit field.
pub fn push_u64_le(out: &mut Vec<u8>, v: u64)
    ensures
        final(out)@ == old(out)@ + spec_u64_to_le_bytes(v),
{
    let bytes = u64_to_le_bytes(v);
    push_bytes(out, bytes.as_slice());
}

/// Append the little-endian image of a signed 64-bit field.
pub fn push_i64_le(out: &mut Vec<u8>, v: i64)
    ensures
        final(out)@ == old(out)@ + spec_i64_to_le_bytes(v),
{
    push_u64_le(out, v as u64);
}

/// Append the 32 bytes of an identifier.
pub fn push_pubkey(out: &mut Vec<u8>, k: &Pubkey)
    ensures
        final(out)@ == old(out)@ + k@,
{
    let mut i: usize = 0;
    while i < 32
        invariant
            i <= 32,
            out@ == old(out)@ + k@.subrange(0, i as int),
        decreases 32 - i,
    {
        out.push(k.bytes[i]);
        proof {
            assert(out@ =~= old(out)@ + k@.subrange(0, i + 1 as int));
        }
        i += 1;
    }
    proof {
        assert(k@.subrange(0, 32) =~= k@);
    }
}

/// Read an unsigned 64-bit field stored little-endian at `off`.
pub fn read_u64_le(data: &[u8], off: usize) -> (x: u64)
    requires
        off + 8 <= data@.len(),
    ensures
        x == spec_u64_from_le_bytes(data@.subrange(off as int, off + 8)),
{
    let n = data.len();
    assert(off + 8 <= n);
    u64_from_le_bytes(slice_subrange(data, off, off + 8))
}

/// Read a signed 64-bit field stored little-endian at `off`.
pub fn read_i64_le(data: &[u8], off: usize) -> (x: i64)
    requires
        off + 8 <= data@.len(),
    ensures
        x == spec_i64_from_le_bytes(data@.subrange(off as int, off + 8)),
{
    read_u64_le(data, off) as i64
}

/// Read the 32 bytes of an identifier stored at `off`.
pub fn read_pubkey(data: &[u8], off: usize) -> (k: Pubkey)
    requires
        off + 32 <= data@.len(),
    ensures
        k@ == data@.subrange(off as int, off + 32),
{
    let n = data.len();
    let mut bytes: [u8; 32] = [0u8; 32];
    let mut i: usize = 0;
    while i < 32
        invariant
            i <= 32,
            off + 32 <= n,
            n == data@.len(),
            bytes@.len() == 32,
            forall|j: int| 0 <= j < i ==> bytes@[j] == data@[off + j],
        decreases 32 - i,
    {
        bytes[i] = data[off + i];
        i += 1;
    }
    let k = Pubkey::new(bytes);
    proof {
        assert(k@ =~= data@.subrange(off as int, off + 32));
    }
    k
}

} // verus!
