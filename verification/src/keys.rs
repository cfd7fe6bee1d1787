//! 32-byte ledger identifiers (account addresses, program ids, hashes) held as
//! four little-endian words, so that equality and decoding are plain values.

use vstd::prelude::*;

use crate::wire::{
    lemma_u64_read_bytes, lemma_u64_write_read, push_u64_le, read_u64_le, u64_at, u64_bytes,
};

verus! {

/// A 32-byte value (account address, program id, or hash), stored as four
/// little-endian 64-bit words.
#[derive(Clone, Copy, Debug, PartialEq, Eq, Structural)]
pub struct Bytes32 {
    pub w0: u64,
    pub w1: u64,
    pub w2: u64,
    pub w3: u64,
}

impl Bytes32 {
    /// The 32 bytes of this value, words in order, each little-endian.
    pub open spec fn bytes(self) -> Seq<u8> {
        u64_bytes(self.w0) + u64_bytes(self.w1) + u64_bytes(self.w2) + u64_bytes(self.w3)
    }

    /// Converts to the raw byte form used at the boundary with the ledger SDK.
    pub fn to_byte_vec(&self) -> (r: Vec<u8>)
        ensures
            r@ =~= self.bytes(),
    {
        let mut out: Vec<u8> = Vec::new();
        push_u64_le(&mut out, self.w0);
        push_u64_le(&mut out, self.w1);
        push_u64_le(&mut out, self.w2);
        push_u64_le(&mut out, self.w3);
        out
    }
}

/// `Bytes32::bytes` always yields 32 bytes.
pub broadcast proof fn lemma_bytes32_len(k: Bytes32)
    ensures
        (#[trigger] k.bytes()).len() == 32,
{
    crate::wire::lemma_u64_bytes_len(k.w0);
    crate::wire::lemma_u64_bytes_len(k.w1);
    crate::wire::lemma_u64_bytes_len(k.w2);
    crate::wire::lemma_u64_bytes_len(k.w3);
}

/// The `Bytes32` stored in the 32 bytes of `s` starting at `i`.
pub open spec fn bytes32_at(s: Seq<u8>, i: int) -> Bytes32 {
    Bytes32 {
        w0: u64_at(s, i),
        w1: u64_at(s, i + 8),
        w2: u64_at(s, i + 16),
        w3: u64_at(s, i + 24),
    }
}

/// Reads the `Bytes32` at `off`.
pub fn read_bytes32(b: &Vec<u8>, off: usize) -> (r: Bytes32)
    requires
        off + 32 <= b@.len(),
    ensures
        r == bytes32_at(b@, off as int),
{
    let n: usize = b.len();
    Bytes32 {
        w0: read_u64_le(b, off),
        w1: read_u64_le(b, off + 8),
        w2: read_u64_le(b, off + 16),
        w3: read_u64_le(b, off + 24),
    }
}

/// Appends the 32 bytes of `k`.
pub fn push_bytes32(out: &mut Vec<u8>, k: &Bytes32)
    ensures
        final(out)@ =~= old(out)@ + k.bytes(),
{
    push_u64_le(out, k.w0);
    push_u64_le(out, k.w1);
    push_u64_le(out, k.w2);
    push_u64_le(out, k.w3);
}

/// Reading back the 32 bytes of `k` yields `k`.
pub proof fn lemma_bytes32_read_bytes(k: Bytes32)
    ensures
        bytes32_at(k.bytes(), 0) == k,
{
    lemma_u64_read_bytes(k.w0);
    lemma_u64_read_bytes(k.w1);
    lemma_u64_read_bytes(k.w2);
    lemma_u64_read_bytes(k.w3);
    assert(k.bytes().subrange(0, 8) =~= u64_bytes(k.w0));
    assert(k.bytes().subrange(8, 16) =~= u64_bytes(k.w1));
    assert(k.bytes().subrange(16, 24) =~= u64_bytes(k.w2));
    assert(k.bytes().subrange(24, 32) =~= u64_bytes(k.w3));
    lemma_u64_write_read(k.bytes(), 0);
    lemma_u64_write_read(k.bytes(), 8);
    lemma_u64_write_read(k.bytes(), 16);
    lemma_u64_write_read(k.bytes(), 24);
}

/// Writing back the `Bytes32` read from 32 bytes yields the same bytes.
pub proof fn lemma_bytes32_write_read(s: Seq<u8>, i: int)
    requires
        0 <= i,
        i + 32 <= s.len(),
    ensures
        bytes32_at(s, i).bytes() =~= s.subrange(i, i + 32),
{
    lemma_u64_write_read(s, i);
    lemma_u64_write_read(s, i + 8);
    lemma_u64_write_read(s, i + 16);
    lemma_u64_write_read(s, i + 24);
    assert(bytes32_at(s, i).bytes() =~= s.subrange(i, i + 8) + s.subrange(i + 8, i + 16)
        + s.subrange(i + 16, i + 24) + s.subrange(i + 24, i + 32));
}

/// A `Bytes32` read where the written bytes of `k` lie is `k`.
pub proof fn lemma_bytes32_at_of_bytes(s: Seq<u8>, i: int, k: Bytes32)
    requires
        0 <= i,
        i + 32 <= s.len(),
        s.subrange(i, i + 32) =~= k.bytes(),
    ensures
        bytes32_at(s, i) == k,
{
    assert(s.subrange(i, i + 8) =~= k.bytes().subrange(0, 8));
    assert(s.subrange(i + 8, i + 16) =~= k.bytes().subrange(8, 16));
    assert(s.subrange(i + 16, i + 24) =~= k.bytes().subrange(16, 24));
    assert(s.subrange(i + 24, i + 32) =~= k.bytes().subrange(24, 32));
    assert(k.bytes().subrange(0, 8) =~= u64_bytes(k.w0));
    assert(k.bytes().subrange(8, 16) =~= u64_bytes(k.w1));
    assert(k.bytes().subrange(16, 24) =~= u64_bytes(k.w2));
    assert(k.bytes().subrange(24, 32) =~= u64_bytes(k.w3));
    crate::wire::lemma_u64_at_of_bytes(s, i, k.w0);
    crate::wire::lemma_u64_at_of_bytes(s, i + 8, k.w1);
    crate::wire::lemma_u64_at_of_bytes(s, i + 16, k.w2);
    crate::wire::lemma_u64_at_of_bytes(s, i + 24, k.w3);
}

/// The program id that owns every stake account
/// (the base58 address `Stake11111111111111111111111111111111111111`).
pub open spec fn spec_stake_program_id() -> Bytes32 {
    Bytes32 {
        w0: 0x2a54379117d8a106,
        w1: 0xb27a2afebd373498,
        w2: 0x2b72788a5c537f55,
        w3: 0xc09da468,
    }
}

/// Returns the stake program id.
pub fn stake_program_id() -> (k: Bytes32)
    ensures
        k == spec_stake_program_id(),
{
    Bytes32 {
        w0: 0x2a54379117d8a106,
        w1: 0xb27a2afebd373498,
        w2: 0x2b72788a5c537f55,
        w3: 0xc09da468,
    }
}

/// The sysvar address of the cluster stake-history table
/// (the base58 address `SysvarStakeHistory1111111111111111111111111`).
pub open spec fn spec_stake_history_sysvar_id() -> Bytes32 {
    Bytes32 {
        w0: 0xd084351917d5a706,
        w1: 0x20131d43b39bedfe,
        w2: 0x56b8571b2844e56b,
        w3: 0xf45f37c56c,
    }
}

/// Returns the stake-history sysvar address.
pub fn stake_history_sysvar_id() -> (k: Bytes32)
    ensures
        k == spec_stake_history_sysvar_id(),
{
    Bytes32 {
        w0: 0xd084351917d5a706,
        w1: 0x20131d43b39bedfe,
        w2: 0x56b8571b2844e56b,
        w3: 0xf45f37c56c,
    }
}

/// The sysvar address of the cluster clock
/// (the base58 address `SysvarC1ock11111111111111111111111111111111`).
pub open spec fn spec_clock_sysvar_id() -> Bytes32 {
    Bytes32 {
        w0: 0xc974c71817d5a706,
        w1: 0xb65e1d6998635628,
        w2: 0x5c6d4b9ba3b85e8b,
        w3: 0x215b5573,
    }
}

/// Returns the clock sysvar address.
pub fn clock_sysvar_id() -> (k: Bytes32)
    ensures
        k == spec_clock_sysvar_id(),
{
    Bytes32 {
        w0: 0xc974c71817d5a706,
        w1: 0xb65e1d6998635628,
        w2: 0x5c6d4b9ba3b85e8b,
        w3: 0x215b5573,
    }
}

} // verus!
