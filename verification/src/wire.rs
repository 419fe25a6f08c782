//! Byte-level helpers shared by the instruction and record codecs: reading
//! fixed-width fields out of a slice and appending them to a buffer.

use vstd::prelude::*;
use vstd::bytes::{spec_u64_from_le_bytes, u64_from_le_bytes};
use vstd::slice::{slice_index_get, slice_subrange, slice_to_vec};

use crate::pubkey::Pubkey;

verus! {

/// A run of `n` zero bytes.
pub open spec fn zero_bytes(n: int) -> Seq<u8> {
    Seq::new(n as nat, |i| 0u8)
}

/// Appends all of `src` to `buf`.
pub fn push_bytes(buf: &mut Vec<u8>, src: &[u8])
    ensures
        final(buf)@ == old(buf)@ + src@,
{
    let mut i: usize = 0;
    while i < src.len()
        invariant
            i <= src@.len(),
            buf@ == old(buf)@ + src@.subrange(0, i as int),
        decreases src@.len() - i,
    {
        let b = *slice_index_get(src, i);
        buf.push(b);
        proof {
            assert(buf@ =~= old(buf)@ + src@.subrange(0, i + 1));
        }
        i += 1;
    }
    proof {
        assert(src@.subrange(0, src@.len() as int) =~= src@);
    }
}

/// Appends `n` zero bytes to `buf`.
pub fn push_zeros(buf: &mut Vec<u8>, n: usize)
    ensures
        final(buf)@ == old(buf)@ + zero_bytes(n as int),
{
    let mut i: usize = 0;
    while i < n
        invariant
            i <= n,
            buf@ == old(buf)@ + zero_bytes(i as int),
        decreases n - i,
    {
        buf.push(0u8);
        proof {
            assert(buf@ =~= old(buf)@ + zero_bytes(i + 1));
        }
        i += 1;
    }
}

/// Reads the byte at `off`.
pub fn read_byte_at(b: &[u8], off: usize) -> (r: u8)
    requires
        off < b@.len(),
    ensures
        r == b@[off as int],
{
    *slice_index_get(b, off)
}

/// Reads the little-endian 64-bit integer at `off`.
pub fn read_u64_at(b: &[u8], off: usize) -> (r: u64)
    requires
        off + 8 <= b@.len(),
    ensures
        r == spec_u64_from_le_bytes(b@.subrange(off as int, off as int + 8)),
{
    let _len: usize = b.len();
    u64_from_le_bytes(slice_subrange(b, off, off + 8))
}

/// Reads the 32-byte key at `off`.
pub fn read_key_at(b: &[u8], off: usize) -> (r: Pubkey)
    requires
        off + 32 <= b@.len(),
    ensures
        r@ == b@.subrange(off as int, off as int + 32),
        r.wf(),
{
    let _len: usize = b.len();
    Pubkey::new(slice_to_vec(slice_subrange(b, off, off + 32)))
}

} // verus!
