//! Little-endian field encoding shared by every kernel-facing record.
use vstd::prelude::*;

verus! {

/// The four bytes of `x`, least significant first.
pub open spec fn le32(x: u32) -> Seq<u8> {
    seq![x as u8, (x >> 8) as u8, (x >> 16) as u8, (x >> 24) as u8]
}

/// The eight bytes of `x`, least significant first.
pub open spec fn le64(x: u64) -> Seq<u8> {
    seq![
        x as u8,
        (x >> 8) as u8,
        (x >> 16) as u8,
        (x >> 24) as u8,
        (x >> 32) as u8,
        (x >> 40) as u8,
        (x >> 48) as u8,
        (x >> 56) as u8,
    ]
}

/// `n` zero bytes.
pub open spec fn zeros(n: nat) -> Seq<u8> {
    Seq::new(n, |_i: int| 0u8)
}

/// Appends one byte.
pub fn push_u8(out: &mut Vec<u8>, x: u8)
    ensures
        final(out)@ == old(out)@.push(x),
{
    out.push(x);
}

/// Appends the four little-endian bytes of `x`.
pub fn push_u32(out: &mut Vec<u8>, x: u32)
    ensures
        final(out)@ == old(out)@ + le32(x),
{
    out.push(x as u8);
    out.push((x >> 8) as u8);
    out.push((x >> 16) as u8);
    out.push((x >> 24) as u8);
    assert(out@ =~= old(out)@ + le32(x));
}

/// Appends the eight little-endian bytes of `x`.
pub fn push_u64(out: &mut Vec<u8>, x: u64)
    ensures
        final(out)@ == old(out)@ + le64(x),
{
    out.push(x as u8);
    out.push((x >> 8) as u8);
    out.push((x >> 16) as u8);
    out.push((x >> 24) as u8);
    out.push((x >> 32) as u8);
    out.push((x >> 40) as u8);
    out.push((x >> 48) as u8);
    out.push((x >> 56) as u8);
    assert(out@ =~= old(out)@ + le64(x));
}

/// Appends `bytes` as they are.
pub fn push_bytes(out: &mut Vec<u8>, bytes: &[u8])
    ensures
        final(out)@ == old(out)@ + bytes@,
{
    let mut i: usize = 0;
    while i < bytes.len()
        invariant
            0 <= i <= bytes@.len(),
            out@ == old(out)@ + bytes@.subrange(0, i as int),
        decreases bytes@.len() - i,
    {
        out.push(bytes[i]);
        i += 1;
        assert(out@ =~= old(out)@ + bytes@.subrange(0, i as int));
    }
    assert(bytes@.subrange(0, i as int) =~= bytes@);
}

/// Appends `n` zero bytes.
pub fn push_zeros(out: &mut Vec<u8>, n: usize)
    ensures
        final(out)@ == old(out)@ + zeros(n as nat),
{
    let mut i: usize = 0;
    while i < n
        invariant
            0 <= i <= n,
            out@ == old(out)@ + zeros(i as nat),
        decreases n - i,
    {
        out.push(0u8);
        i += 1;
        assert(out@ =~= old(out)@ + zeros(i as nat));
    }
}

/// The little-endian `u32` at offset `at`.
pub fn read_u32(b: &[u8], at: usize) -> (r: u32)
    requires
        at + 4 <= b@.len(),
    ensures
        le32(r) == b@.subrange(at as int, at + 4),
{
    let b0 = b[at];
    let b1 = b[at + 1];
    let b2 = b[at + 2];
    let b3 = b[at + 3];
    let r: u32 = (b0 as u32) | ((b1 as u32) << 8) | ((b2 as u32) << 16) | ((b3 as u32) << 24);
    assert(r as u8 == b0 && (r >> 8) as u8 == b1 && (r >> 16) as u8 == b2 && (r >> 24) as u8 == b3)
        by (bit_vector)
        requires
            r == (b0 as u32) | ((b1 as u32) << 8) | ((b2 as u32) << 16) | ((b3 as u32) << 24),
    ;
    assert(le32(r) =~= b@.subrange(at as int, at + 4));
    r
}

/// The little-endian `u64` at offset `at`.
pub fn read_u64(b: &[u8], at: usize) -> (r: u64)
    requires
        at + 8 <= b@.len(),
    ensures
        le64(r) == b@.subrange(at as int, at + 8),
{
    let lo = read_u32(b, at);
    assert(at + 8 <= b.len());
    let hi = read_u32(b, at + 4);
    let r: u64 = (lo as u64) | ((hi as u64) << 32);
    assert(r as u8 == lo as u8 && (r >> 8) as u8 == (lo >> 8) as u8 && (r >> 16) as u8 == (lo
        >> 16) as u8 && (r >> 24) as u8 == (lo >> 24) as u8 && (r >> 32) as u8 == hi as u8 && (r
        >> 40) as u8 == (hi >> 8) as u8 && (r >> 48) as u8 == (hi >> 16) as u8 && (r >> 56) as u8
        == (hi >> 24) as u8) by (bit_vector)
        requires
            r == (lo as u64) | ((hi as u64) << 32),
    ;
    assert(le32(lo) == b@.subrange(at as int, at + 4));
    assert(le32(hi) == b@.subrange(at + 4, at + 8));
    assert(le64(r) =~= b@.subrange(at as int, at + 8));
    r
}

/// Little-endian encodings determine the value they encode.
pub proof fn lemma_le32_injective(x: u32, y: u32)
    requires
        le32(x) == le32(y),
    ensures
        x == y,
{
    assert(le32(x)[0] == le32(y)[0] && le32(x)[1] == le32(y)[1] && le32(x)[2] == le32(y)[2]
        && le32(x)[3] == le32(y)[3]);
    assert(x as u8 == y as u8 && (x >> 8) as u8 == (y >> 8) as u8 && (x >> 16) as u8 == (y
        >> 16) as u8 && (x >> 24) as u8 == (y >> 24) as u8 ==> x == y) by (bit_vector);
}

/// Little-endian encodings determine the value they encode.
pub proof fn lemma_le64_injective(x: u64, y: u64)
    requires
        le64(x) == le64(y),
    ensures
        x == y,
{
    assert(le64(x)[0] == le64(y)[0] && le64(x)[1] == le64(y)[1] && le64(x)[2] == le64(y)[2]
        && le64(x)[3] == le64(y)[3] && le64(x)[4] == le64(y)[4] && le64(x)[5] == le64(y)[5]
        && le64(x)[6] == le64(y)[6] && le64(x)[7] == le64(y)[7]);
    assert(x as u8 == y as u8 && (x >> 8) as u8 == (y >> 8) as u8 && (x >> 16) as u8 == (y
        >> 16) as u8 && (x >> 24) as u8 == (y >> 24) as u8 && (x >> 32) as u8 == (y >> 32) as u8
        && (x >> 40) as u8 == (y >> 40) as u8 && (x >> 48) as u8 == (y >> 48) as u8 && (x >> 56)
        as u8 == (y >> 56) as u8 ==> x == y) by (bit_vector);
}

} // verus!
