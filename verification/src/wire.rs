//! Little-endian byte marshalling helpers.
//!
//! Every native structure this crate exchanges with the virtualization
//! substrate is modelled as a little-endian byte payload.  The helpers here
//! read and write the scalar fields of those payloads at fixed offsets, and
//! their contracts tie each operation to the `vstd::bytes` specification
//! functions so that the codecs built on top can be proved invertible.

use vstd::bytes::*;
use vstd::prelude::*;
use vstd::slice::slice_subrange;

verus! {

/// A run of `n` zero bytes, used to model the padding and the unused tail
/// of a fixed-size union payload.
pub open spec fn zeros(n: nat) -> Seq<u8> {
    Seq::new(n, |_i: int| 0u8)
}

/// Appends `n` zero bytes to `buf`.
pub fn push_zeros(buf: &mut Vec<u8>, n: usize)
    requires
        old(buf)@.len() + n <= usize::MAX,
    ensures
        final(buf)@ == old(buf)@ + zeros(n as nat),
{
    let ghost base = buf@;
    let mut i: usize = 0;
    while i < n
        invariant
            i <= n,
            base.len() + n <= usize::MAX,
            buf@ == base + zeros(i as nat),
        decreases n - i,
    {
        buf.push(0u8);
        proof {
            assert(base + zeros((i + 1) as nat) =~= (base + zeros(i as nat)).push(0u8));
        }
        i = i + 1;
    }
}

/// Appends one byte to `buf`.
pub fn push_u8(buf: &mut Vec<u8>, x: u8)
    ensures
        final(buf)@ == old(buf)@ + seq![x],
{
    buf.push(x);
    proof {
        assert(buf@ =~= old(buf)@ + seq![x]);
    }
}

/// Appends the two little-endian bytes of `x` to `buf`.
pub fn push_u16(buf: &mut Vec<u8>, x: u16)
    ensures
        final(buf)@ == old(buf)@ + spec_u16_to_le_bytes(x),
{
    let mut tail = u16_to_le_bytes(x);
    buf.append(&mut tail);
}

/// Appends the four little-endian bytes of `x` to `buf`.
pub fn push_u32(buf: &mut Vec<u8>, x: u32)
    ensures
        final(buf)@ == old(buf)@ + spec_u32_to_le_bytes(x),
{
    let mut tail = u32_to_le_bytes(x);
    buf.append(&mut tail);
}

/// Appends the eight little-endian bytes of `x` to `buf`.
pub fn push_u64(buf: &mut Vec<u8>, x: u64)
    ensures
        final(buf)@ == old(buf)@ + spec_u64_to_le_bytes(x),
{
    let mut tail = u64_to_le_bytes(x);
    buf.append(&mut tail);
}

/// Appends the sixteen little-endian bytes of `x` to `buf`.
pub fn push_u128(buf: &mut Vec<u8>, x: u128)
    ensures
        final(buf)@ == old(buf)@ + spec_u128_to_le_bytes(x),
{
    let mut tail = u128_to_le_bytes(x);
    buf.append(&mut tail);
}

/// Reads the byte at offset `off` of `buf`.
pub fn read_u8(buf: &[u8], off: usize) -> (x: u8)
    requires
        off + 1 <= buf@.len(),
    ensures
        x == buf@[off as int],
{
    *vstd::slice::slice_index_get(buf, off)
}

/// Reads a little-endian `u16` at offset `off` of `buf`.
pub fn read_u16(buf: &[u8], off: usize) -> (x: u16)
    requires
        off + 2 <= buf@.len(),
    ensures
        x == spec_u16_from_le_bytes(buf@.subrange(off as int, off + 2)),
{
    let n = buf.len();
    u16_from_le_bytes(slice_subrange(buf, off, off + 2))
}

/// Reads a little-endian `u32` at offset `off` of `buf`.
pub fn read_u32(buf: &[u8], off: usize) -> (x: u32)
    requires
        off + 4 <= buf@.len(),
    ensures
        x == spec_u32_from_le_bytes(buf@.subrange(off as int, off + 4)),
{
    let n = buf.len();
    u32_from_le_bytes(slice_subrange(buf, off, off + 4))
}

/// Reads a little-endian `u64` at offset `off` of `buf`.
pub fn read_u64(buf: &[u8], off: usize) -> (x: u64)
    requires
        off + 8 <= buf@.len(),
    ensures
        x == spec_u64_from_le_bytes(buf@.subrange(off as int, off + 8)),
{
    let n = buf.len();
    u64_from_le_bytes(slice_subrange(buf, off, off + 8))
}

/// Reads a little-endian `u128` at offset `off` of `buf`.
pub fn read_u128(buf: &[u8], off: usize) -> (x: u128)
    requires
        off + 16 <= buf@.len(),
    ensures
        x == spec_u128_from_le_bytes(buf@.subrange(off as int, off + 16)),
{
    let n = buf.len();
    u128_from_le_bytes(slice_subrange(buf, off, off + 16))
}

/// Reads sixteen raw bytes at offset `off` of `buf`.
pub fn read_bytes16(buf: &[u8], off: usize) -> (r: [u8; 16])
    requires
        off + 16 <= buf@.len(),
    ensures
        r@ == buf@.subrange(off as int, off + 16),
{
    let n = buf.len();
    let r = [
        read_u8(buf, off),
        read_u8(buf, off + 1),
        read_u8(buf, off + 2),
        read_u8(buf, off + 3),
        read_u8(buf, off + 4),
        read_u8(buf, off + 5),
        read_u8(buf, off + 6),
        read_u8(buf, off + 7),
        read_u8(buf, off + 8),
        read_u8(buf, off + 9),
        read_u8(buf, off + 10),
        read_u8(buf, off + 11),
        read_u8(buf, off + 12),
        read_u8(buf, off + 13),
        read_u8(buf, off + 14),
        read_u8(buf, off + 15),
    ];
    proof {
        assert(r@ =~= buf@.subrange(off as int, off + 16));
    }
    r
}

/// Casting an `i32` through `u32` and back is the identity: the two
/// types share one 32-bit pattern.
pub proof fn lemma_i32_u32_round_trip(x: i32)
    by (bit_vector)
    ensures
        ((x as u32) as i32) == x,
{
}

/// The little-endian round-trip facts for every scalar width used by the
/// wire model, bundled so codec proofs can pull them in with one call.
pub proof fn lemma_le_round_trips()
    ensures
        forall|x: u16|
            {
                &&& (#[trigger] spec_u16_to_le_bytes(x)).len() == 2
                &&& spec_u16_from_le_bytes(spec_u16_to_le_bytes(x)) == x
            },
        forall|x: u32|
            {
                &&& (#[trigger] spec_u32_to_le_bytes(x)).len() == 4
                &&& spec_u32_from_le_bytes(spec_u32_to_le_bytes(x)) == x
            },
        forall|x: u64|
            {
                &&& (#[trigger] spec_u64_to_le_bytes(x)).len() == 8
                &&& spec_u64_from_le_bytes(spec_u64_to_le_bytes(x)) == x
            },
        forall|x: u128|
            {
                &&& (#[trigger] spec_u128_to_le_bytes(x)).len() == 16
                &&& spec_u128_from_le_bytes(spec_u128_to_le_bytes(x)) == x
            },
{
    lemma_auto_spec_u16_to_from_le_bytes();
    lemma_auto_spec_u32_to_from_le_bytes();
    lemma_auto_spec_u64_to_from_le_bytes();
    lemma_auto_spec_u128_to_from_le_bytes();
}

} // verus!
