//! Little-endian word reads and writes against byte buffers. Every register
//! and memory access of the machine at 8/16/32/64-bit width goes through
//! these, so their contracts pin the exact byte layout.

use vstd::prelude::*;

verus! {

/// The 16-bit little-endian word stored at `off`.
pub open spec fn le16(s: Seq<u8>, off: int) -> u16 {
    (s[off] as u16) | (s[off + 1] as u16) << 8
}

/// The 32-bit little-endian word stored at `off`.
pub open spec fn le32(s: Seq<u8>, off: int) -> u32 {
    (s[off] as u32) | (s[off + 1] as u32) << 8 | (s[off + 2] as u32) << 16 | (s[off + 3] as u32)
        << 24
}

/// The 64-bit little-endian word stored at `off`.
pub open spec fn le64(s: Seq<u8>, off: int) -> u64 {
    (s[off] as u64) | (s[off + 1] as u64) << 8 | (s[off + 2] as u64) << 16 | (s[off + 3] as u64)
        << 24 | (s[off + 4] as u64) << 32 | (s[off + 5] as u64) << 40 | (s[off + 6] as u64) << 48
        | (s[off + 7] as u64) << 56
}

/// Byte `i` of the little-endian encoding of `v`.
pub open spec fn le_byte(v: u64, i: int) -> u8 {
    (v >> (8 * i)) as u8
}

/// The buffer after storing `v` as eight little-endian bytes at `off`.
pub open spec fn store64(s: Seq<u8>, off: int, v: u64) -> Seq<u8> {
    s.update(off, le_byte(v, 0)).update(off + 1, le_byte(v, 1)).update(off + 2, le_byte(v, 2))
        .update(off + 3, le_byte(v, 3)).update(off + 4, le_byte(v, 4)).update(
        off + 5,
        le_byte(v, 5),
    ).update(off + 6, le_byte(v, 6)).update(off + 7, le_byte(v, 7))
}

/// Storing a word and reading it back yields the word, and no byte outside
/// the eight written ones changes.
pub proof fn lemma_store64_le64(s: Seq<u8>, off: int, v: u64)
    requires
        0 <= off,
        off + 8 <= s.len(),
    ensures
        le64(store64(s, off, v), off) == v,
        store64(s, off, v).len() == s.len(),
        forall|i: int| 0 <= i < s.len() && !(off <= i < off + 8) ==> store64(s, off, v)[i] == s[i],
{
    let t = store64(s, off, v);
    assert(t[off] == le_byte(v, 0));
    assert(t[off + 1] == le_byte(v, 1));
    assert(t[off + 2] == le_byte(v, 2));
    assert(t[off + 3] == le_byte(v, 3));
    assert(t[off + 4] == le_byte(v, 4));
    assert(t[off + 5] == le_byte(v, 5));
    assert(t[off + 6] == le_byte(v, 6));
    assert(t[off + 7] == le_byte(v, 7));
    lemma_le_bytes_roundtrip(v);
}

proof fn lemma_le_bytes_roundtrip(v: u64)
    by (bit_vector)
    ensures
        ((v >> 0) as u8 as u64) | ((v >> 8) as u8 as u64) << 8 | ((v >> 16) as u8 as u64) << 16 | (
        (v >> 24) as u8 as u64) << 24 | ((v >> 32) as u8 as u64) << 32 | ((v >> 40) as u8 as u64)
            << 40 | ((v >> 48) as u8 as u64) << 48 | ((v >> 56) as u8 as u64) << 56 == v,
{
}

/// Read the 64-bit little-endian word at `off`.
pub fn read_u64(buf: &Vec<u8>, off: usize) -> (v: u64)
    requires
        off + 8 <= buf@.len(),
    ensures
        v == le64(buf@, off as int),
{
    let l = buf.len();
    (buf[off] as u64) | (buf[off + 1] as u64) << 8u64 | (buf[off + 2] as u64) << 16u64 | (buf[off
        + 3] as u64) << 24u64 | (buf[off + 4] as u64) << 32u64 | (buf[off + 5] as u64) << 40u64 | (
    buf[off + 6] as u64) << 48u64 | (buf[off + 7] as u64) << 56u64
}

/// Read the 32-bit little-endian word at `off`.
pub fn read_u32(buf: &Vec<u8>, off: usize) -> (v: u32)
    requires
        off + 4 <= buf@.len(),
    ensures
        v == le32(buf@, off as int),
{
    let l = buf.len();
    (buf[off] as u32) | (buf[off + 1] as u32) << 8u32 | (buf[off + 2] as u32) << 16u32 | (buf[off
        + 3] as u32) << 24u32
}

/// Read the 16-bit little-endian word at `off`.
pub fn read_u16(buf: &Vec<u8>, off: usize) -> (v: u16)
    requires
        off + 2 <= buf@.len(),
    ensures
        v == le16(buf@, off as int),
{
    let l = buf.len();
    (buf[off] as u16) | (buf[off + 1] as u16) << 8u16
}

/// Read the byte at `off`.
pub fn read_u8(buf: &Vec<u8>, off: usize) -> (v: u8)
    requires
        off < buf@.len(),
    ensures
        v == buf@[off as int],
{
    buf[off]
}

/// Store `v` as eight little-endian bytes at `off`.
pub fn write_u64(buf: &mut Vec<u8>, off: usize, v: u64)
    requires
        off + 8 <= old(buf)@.len(),
    ensures
        final(buf)@ == store64(old(buf)@, off as int, v),
        final(buf)@.len() == old(buf)@.len(),
        le64(final(buf)@, off as int) == v,
{
    let l = buf.len();
    buf.set(off, v as u8);
    buf.set(off + 1, (v >> 8u64) as u8);
    buf.set(off + 2, (v >> 16u64) as u8);
    buf.set(off + 3, (v >> 24u64) as u8);
    buf.set(off + 4, (v >> 32u64) as u8);
    buf.set(off + 5, (v >> 40u64) as u8);
    buf.set(off + 6, (v >> 48u64) as u8);
    buf.set(off + 7, (v >> 56u64) as u8);
    proof {
        assert(le_byte(v, 0) == v as u8) by (bit_vector);
        lemma_store64_le64(old(buf)@, off as int, v);
    }
}

/// A copy of a byte buffer.
pub fn copy_bytes(a: &Vec<u8>) -> (r: Vec<u8>)
    ensures
        r@ == a@,
{
    let mut r: Vec<u8> = Vec::new();
    let mut i: usize = 0;
    while i < a.len()
        invariant
            i <= a@.len(),
            r@ =~= a@.take(i as int),
        decreases a@.len() - i,
    {
        r.push(a[i]);
        proof {
            assert(r@ =~= a@.take(i + 1));
        }
        i = i + 1;
    }
    proof {
        assert(a@.take(a@.len() as int) =~= a@);
    }
    r
}

} // verus!
