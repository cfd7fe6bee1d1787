//! Little-endian integer fields of fixed-layout account buffers: spec-level
//! readers and writers over `Seq<u8>`, executable counterparts over `Vec<u8>`,
//! and the inverse lemmas that the codec round-trip proofs rest on.

use vstd::prelude::*;

verus! {

/// The `u32` stored little-endian in the four bytes of `s` starting at `i`.
pub open spec fn u32_at(s: Seq<u8>, i: int) -> u32 {
    (s[i] as u32) | (s[i + 1] as u32) << 8 | (s[i + 2] as u32) << 16 | (s[i + 3] as u32) << 24
}

/// The `u64` stored little-endian in the eight bytes of `s` starting at `i`.
pub open spec fn u64_at(s: Seq<u8>, i: int) -> u64 {
    (s[i] as u64) | (s[i + 1] as u64) << 8 | (s[i + 2] as u64) << 16 | (s[i + 3] as u64) << 24
        | (s[i + 4] as u64) << 32 | (s[i + 5] as u64) << 40 | (s[i + 6] as u64) << 48 | (s[i
        + 7] as u64) << 56
}

/// The four little-endian bytes of `x`.
pub open spec fn u32_bytes(x: u32) -> Seq<u8> {
    seq![
        (x & 0xff) as u8,
        ((x >> 8) & 0xff) as u8,
        ((x >> 16) & 0xff) as u8,
        ((x >> 24) & 0xff) as u8,
    ]
}

/// The eight little-endian bytes of `x`.
pub open spec fn u64_bytes(x: u64) -> Seq<u8> {
    seq![
        (x & 0xff) as u8,
        ((x >> 8) & 0xff) as u8,
        ((x >> 16) & 0xff) as u8,
        ((x >> 24) & 0xff) as u8,
        ((x >> 32) & 0xff) as u8,
        ((x >> 40) & 0xff) as u8,
        ((x >> 48) & 0xff) as u8,
        ((x >> 56) & 0xff) as u8,
    ]
}

/// Two adjacent subranges concatenate to the enclosing one.
pub proof fn lemma_subrange_glue(s: Seq<u8>, a: int, b: int, c: int)
    requires
        0 <= a <= b <= c <= s.len(),
    ensures
        s.subrange(a, b) + s.subrange(b, c) =~= s.subrange(a, c),
{
}

/// `u32_bytes` always yields four bytes.
pub broadcast proof fn lemma_u32_bytes_len(x: u32)
    ensures
        (#[trigger] u32_bytes(x)).len() == 4,
{
}

/// `u64_bytes` always yields eight bytes.
pub broadcast proof fn lemma_u64_bytes_len(x: u64)
    ensures
        (#[trigger] u64_bytes(x)).len() == 8,
{
}

/// Reading back the four bytes of `x` yields `x`.
pub proof fn lemma_u32_read_bytes(x: u32)
    ensures
        u32_at(u32_bytes(x), 0) == x,
{
    assert(((x & 0xff) as u8 as u32) | (((x >> 8) & 0xff) as u8 as u32) << 8 | (((x >> 16)
        & 0xff) as u8 as u32) << 16 | (((x >> 24) & 0xff) as u8 as u32) << 24 == x)
        by (bit_vector);
}

/// Writing back the `u32` read from four bytes yields the same bytes.
pub proof fn lemma_u32_write_read(s: Seq<u8>, i: int)
    requires
        0 <= i,
        i + 4 <= s.len(),
    ensures
        u32_bytes(u32_at(s, i)) =~= s.subrange(i, i + 4),
{
    let x = u32_at(s, i);
    let (b0, b1, b2, b3) = (s[i], s[i + 1], s[i + 2], s[i + 3]);
    assert((((b0 as u32) | (b1 as u32) << 8 | (b2 as u32) << 16 | (b3 as u32) << 24) & 0xff) as u8
        == b0 && ((((b0 as u32) | (b1 as u32) << 8 | (b2 as u32) << 16 | (b3 as u32) << 24) >> 8)
        & 0xff) as u8 == b1 && ((((b0 as u32) | (b1 as u32) << 8 | (b2 as u32) << 16 | (b3
        as u32) << 24) >> 16) & 0xff) as u8 == b2 && ((((b0 as u32) | (b1 as u32) << 8 | (b2
        as u32) << 16 | (b3 as u32) << 24) >> 24) & 0xff) as u8 == b3) by (bit_vector);
}

/// Reading back the eight bytes of `x` yields `x`.
pub proof fn lemma_u64_read_bytes(x: u64)
    ensures
        u64_at(u64_bytes(x), 0) == x,
{
    assert(((x & 0xff) as u8 as u64) | (((x >> 8) & 0xff) as u8 as u64) << 8 | (((x >> 16)
        & 0xff) as u8 as u64) << 16 | (((x >> 24) & 0xff) as u8 as u64) << 24 | (((x >> 32)
        & 0xff) as u8 as u64) << 32 | (((x >> 40) & 0xff) as u8 as u64) << 40 | (((x >> 48)
        & 0xff) as u8 as u64) << 48 | (((x >> 56) & 0xff) as u8 as u64) << 56 == x)
        by (bit_vector);
}

/// Writing back the `u64` read from eight bytes yields the same bytes.
pub proof fn lemma_u64_write_read(s: Seq<u8>, i: int)
    requires
        0 <= i,
        i + 8 <= s.len(),
    ensures
        u64_bytes(u64_at(s, i)) =~= s.subrange(i, i + 8),
{
    let x = u64_at(s, i);
    let (b0, b1, b2, b3) = (s[i], s[i + 1], s[i + 2], s[i + 3]);
    let (b4, b5, b6, b7) = (s[i + 4], s[i + 5], s[i + 6], s[i + 7]);
    assert(x == (b0 as u64) | (b1 as u64) << 8 | (b2 as u64) << 16 | (b3 as u64) << 24 | (b4
        as u64) << 32 | (b5 as u64) << 40 | (b6 as u64) << 48 | (b7 as u64) << 56);
    assert(((b0 as u64) | (b1 as u64) << 8 | (b2 as u64) << 16 | (b3 as u64) << 24 | (b4
        as u64) << 32 | (b5 as u64) << 40 | (b6 as u64) << 48 | (b7 as u64) << 56) & 0xff == b0
        as u64 && (((b0 as u64) | (b1 as u64) << 8 | (b2 as u64) << 16 | (b3 as u64) << 24 | (b4
        as u64) << 32 | (b5 as u64) << 40 | (b6 as u64) << 48 | (b7 as u64) << 56) >> 8) & 0xff
        == b1 as u64 && (((b0 as u64) | (b1 as u64) << 8 | (b2 as u64) << 16 | (b3 as u64) << 24
        | (b4 as u64) << 32 | (b5 as u64) << 40 | (b6 as u64) << 48 | (b7 as u64) << 56) >> 16)
        & 0xff == b2 as u64 && (((b0 as u64) | (b1 as u64) << 8 | (b2 as u64) << 16 | (b3
        as u64) << 24 | (b4 as u64) << 32 | (b5 as u64) << 40 | (b6 as u64) << 48 | (b7
        as u64) << 56) >> 24) & 0xff == b3 as u64) by (bit_vector);
    assert((((b0 as u64) | (b1 as u64) << 8 | (b2 as u64) << 16 | (b3 as u64) << 24 | (b4
        as u64) << 32 | (b5 as u64) << 40 | (b6 as u64) << 48 | (b7 as u64) << 56) >> 32) & 0xff
        == b4 as u64 && (((b0 as u64) | (b1 as u64) << 8 | (b2 as u64) << 16 | (b3 as u64) << 24
        | (b4 as u64) << 32 | (b5 as u64) << 40 | (b6 as u64) << 48 | (b7 as u64) << 56) >> 40)
        & 0xff == b5 as u64 && (((b0 as u64) | (b1 as u64) << 8 | (b2 as u64) << 16 | (b3
        as u64) << 24 | (b4 as u64) << 32 | (b5 as u64) << 40 | (b6 as u64) << 48 | (b7
        as u64) << 56) >> 48) & 0xff == b6 as u64 && (((b0 as u64) | (b1 as u64) << 8 | (b2
        as u64) << 16 | (b3 as u64) << 24 | (b4 as u64) << 32 | (b5 as u64) << 40 | (b6
        as u64) << 48 | (b7 as u64) << 56) >> 56) & 0xff == b7 as u64) by (bit_vector);
}

/// Reads the little-endian `u32` at `off`.
pub fn read_u32_le(b: &Vec<u8>, off: usize) -> (r: u32)
    requires
        off + 4 <= b@.len(),
    ensures
        r == u32_at(b@, off as int),
{
    let n: usize = b.len();
    (b[off] as u32) | (b[off + 1] as u32) << 8u32 | (b[off + 2] as u32) << 16u32 | (b[off
        + 3] as u32) << 24u32
}

/// Reads the little-endian `u64` at `off`.
pub fn read_u64_le(b: &Vec<u8>, off: usize) -> (r: u64)
    requires
        off + 8 <= b@.len(),
    ensures
        r == u64_at(b@, off as int),
{
    let n: usize = b.len();
    (b[off] as u64) | (b[off + 1] as u64) << 8u64 | (b[off + 2] as u64) << 16u64 | (b[off
        + 3] as u64) << 24u64 | (b[off + 4] as u64) << 32u64 | (b[off + 5] as u64) << 40u64 | (b[off
        + 6] as u64) << 48u64 | (b[off + 7] as u64) << 56u64
}

/// A `u32` read where the written bytes of `x` lie is `x`.
pub proof fn lemma_u32_at_of_bytes(s: Seq<u8>, i: int, x: u32)
    requires
        0 <= i,
        i + 4 <= s.len(),
        s.subrange(i, i + 4) =~= u32_bytes(x),
    ensures
        u32_at(s, i) == x,
{
    assert forall|k: int| 0 <= k < 4 implies s[i + k] == u32_bytes(x)[k] by {
        assert(s.subrange(i, i + 4)[k] == s[i + k]);
    }
    assert(u32_at(s, i) == u32_at(u32_bytes(x), 0));
    lemma_u32_read_bytes(x);
}

/// A `u64` read where the written bytes of `x` lie is `x`.
pub proof fn lemma_u64_at_of_bytes(s: Seq<u8>, i: int, x: u64)
    requires
        0 <= i,
        i + 8 <= s.len(),
        s.subrange(i, i + 8) =~= u64_bytes(x),
    ensures
        u64_at(s, i) == x,
{
    assert forall|k: int| 0 <= k < 8 implies s[i + k] == u64_bytes(x)[k] by {
        assert(s.subrange(i, i + 8)[k] == s[i + k]);
    }
    assert(u64_at(s, i) == u64_at(u64_bytes(x), 0));
    lemma_u64_read_bytes(x);
}

/// Casting a `u64` to `i64` and back yields the same bits, and conversely.
pub proof fn lemma_i64_cast_roundtrip(x: u64, y: i64)
    ensures
        (x as i64) as u64 == x,
        (y as u64) as i64 == y,
{
    assert((x as i64) as u64 == x) by (bit_vector);
    assert((y as u64) as i64 == y) by (bit_vector);
}

/// Reads the little-endian two's-complement `i64` at `off`.
pub fn read_i64_le(b: &Vec<u8>, off: usize) -> (r: i64)
    requires
        off + 8 <= b@.len(),
    ensures
        r == u64_at(b@, off as int) as i64,
{
    read_u64_le(b, off) as i64
}

/// Appends the eight little-endian two's-complement bytes of `x`.
pub fn push_i64_le(out: &mut Vec<u8>, x: i64)
    ensures
        final(out)@ =~= old(out)@ + u64_bytes(x as u64),
{
    push_u64_le(out, x as u64);
}

/// Appends the four little-endian bytes of `x`.
pub fn push_u32_le(out: &mut Vec<u8>, x: u32)
    ensures
        final(out)@ =~= old(out)@ + u32_bytes(x),
{
    out.push((x & 0xff) as u8);
    out.push(((x >> 8u32) & 0xff) as u8);
    out.push(((x >> 16u32) & 0xff) as u8);
    out.push(((x >> 24u32) & 0xff) as u8);
}

/// Appends the eight little-endian bytes of `x`.
pub fn push_u64_le(out: &mut Vec<u8>, x: u64)
    ensures
        final(out)@ =~= old(out)@ + u64_bytes(x),
{
    out.push((x & 0xff) as u8);
    out.push(((x >> 8u64) & 0xff) as u8);
    out.push(((x >> 16u64) & 0xff) as u8);
    out.push(((x >> 24u64) & 0xff) as u8);
    out.push(((x >> 32u64) & 0xff) as u8);
    out.push(((x >> 40u64) & 0xff) as u8);
    out.push(((x >> 48u64) & 0xff) as u8);
    out.push(((x >> 56u64) & 0xff) as u8);
}

} // verus!
