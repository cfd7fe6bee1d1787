//! Decoding of versioned, fixed-layout account buffers into typed domain
//! records, and the encoder for stake state. Every field is a little-endian
//! integer at a fixed offset; decoding is pure, total over well-formed input,
//! and rejects short buffers and unknown version tags.

use vstd::prelude::*;

use crate::keys::{bytes32_at, lemma_bytes32_read_bytes, lemma_bytes32_write_read, push_bytes32,
    read_bytes32};
use crate::state::{ClockView, DelegationState, HistoryEntry, LockupState, MetaState, NonceState,
    NonceView, StakeState};
use crate::wire::{lemma_i64_cast_roundtrip, lemma_u32_at_of_bytes, lemma_u32_read_bytes,
    lemma_u32_write_read, lemma_u64_at_of_bytes, lemma_u64_read_bytes, lemma_u64_write_read,
    push_i64_le, push_u32_le, push_u64_le, read_i64_le, read_u32_le, read_u64_le, u32_at,
    u32_bytes, u64_at, u64_bytes};

verus! {

/// Why a raw account buffer could not be decoded.
#[derive(Clone, Copy, Debug, PartialEq, Eq, Structural)]
pub enum DecodeError {
    /// The buffer ends before the record's fixed footprint.
    TooShort,
    /// The version tag at the start of the buffer names no known schema.
    BadVersion,
    /// The buffer claims more content than the caller's limit allows.
    BadLayout,
}

/// Serialized length of a stake account's `Initialized` form.
pub const STAKE_INITIALIZED_LEN: usize = 124;

/// Serialized length of a stake account's `Delegated` form.
pub const STAKE_DELEGATED_LEN: usize = 197;

/// Fixed size of every stake account's data, trailing padding included.
pub const STAKE_ACCOUNT_LEN: usize = 200;

/// Serialized length of an initialized durable-nonce account.
pub const NONCE_INITIALIZED_LEN: usize = 80;

/// Serialized length of the cluster clock sysvar.
pub const CLOCK_LEN: usize = 40;

/// The stake-account metadata stored in the 120 bytes of `s` starting at `i`.
pub open spec fn meta_at(s: Seq<u8>, i: int) -> MetaState {
    MetaState {
        rent_exempt_reserve: u64_at(s, i),
        authorized_staker: bytes32_at(s, i + 8),
        authorized_withdrawer: bytes32_at(s, i + 40),
        lockup: LockupState {
            unix_timestamp: u64_at(s, i + 72) as i64,
            epoch: u64_at(s, i + 80),
            custodian: bytes32_at(s, i + 88),
        },
    }
}

/// The delegation stored in the 64 bytes of `s` starting at `i`.
pub open spec fn delegation_at(s: Seq<u8>, i: int) -> DelegationState {
    DelegationState {
        voter: bytes32_at(s, i),
        stake_lamports: u64_at(s, i + 32),
        activation_epoch: u64_at(s, i + 40),
        deactivation_epoch: u64_at(s, i + 48),
        reserved: u64_at(s, i + 56),
    }
}

/// What decoding a stake-state buffer yields: the version tag picks the form,
/// and each form requires its fixed footprint. Bytes past the footprint are
/// padding and are ignored, as the wire format does.
pub open spec fn spec_decode_stake_state(s: Seq<u8>) -> Result<StakeState, DecodeError> {
    if s.len() < 4 {
        Err(DecodeError::TooShort)
    } else {
        let tag = u32_at(s, 0);
        if tag == 0 {
            Ok(StakeState::Uninitialized)
        } else if tag == 1 {
            if s.len() < STAKE_INITIALIZED_LEN {
                Err(DecodeError::TooShort)
            } else {
                Ok(StakeState::Initialized(meta_at(s, 4)))
            }
        } else if tag == 2 {
            if s.len() < STAKE_DELEGATED_LEN {
                Err(DecodeError::TooShort)
            } else {
                Ok(
                    StakeState::Delegated {
                        meta: meta_at(s, 4),
                        delegation: delegation_at(s, 124),
                        credits_observed: u64_at(s, 188),
                        flags: s[196],
                    },
                )
            }
        } else if tag == 3 {
            Ok(StakeState::RewardsPool)
        } else {
            Err(DecodeError::BadVersion)
        }
    }
}

/// Decodes a stake account's data buffer.
pub fn decode_stake_state(b: &Vec<u8>) -> (r: Result<StakeState, DecodeError>)
    ensures
        r == spec_decode_stake_state(b@),
{
    let n: usize = b.len();
    if n < 4 {
        return Err(DecodeError::TooShort);
    }
    let tag = read_u32_le(b, 0);
    if tag == 0 {
        Ok(StakeState::Uninitialized)
    } else if tag == 1 {
        if n < STAKE_INITIALIZED_LEN {
            Err(DecodeError::TooShort)
        } else {
            Ok(StakeState::Initialized(read_meta(b, 4)))
        }
    } else if tag == 2 {
        if n < STAKE_DELEGATED_LEN {
            Err(DecodeError::TooShort)
        } else {
            Ok(
                StakeState::Delegated {
                    meta: read_meta(b, 4),
                    delegation: read_delegation(b, 124),
                    credits_observed: read_u64_le(b, 188),
                    flags: b[196],
                },
            )
        }
    } else if tag == 3 {
        Ok(StakeState::RewardsPool)
    } else {
        Err(DecodeError::BadVersion)
    }
}

/// The 120 wire bytes of stake-account metadata.
pub open spec fn meta_bytes(m: MetaState) -> Seq<u8> {
    u64_bytes(m.rent_exempt_reserve) + m.authorized_staker.bytes()
        + m.authorized_withdrawer.bytes() + u64_bytes(m.lockup.unix_timestamp as u64) + u64_bytes(
        m.lockup.epoch,
    ) + m.lockup.custodian.bytes()
}

/// The 64 wire bytes of a delegation.
pub open spec fn delegation_bytes(d: DelegationState) -> Seq<u8> {
    d.voter.bytes() + u64_bytes(d.stake_lamports) + u64_bytes(d.activation_epoch) + u64_bytes(
        d.deactivation_epoch,
    ) + u64_bytes(d.reserved)
}

/// The wire encoding of a stake state: the version tag, then the form's
/// fields, with no trailing padding.
pub open spec fn spec_encode_stake_state(st: StakeState) -> Seq<u8> {
    match st {
        StakeState::Uninitialized => u32_bytes(0),
        StakeState::Initialized(m) => u32_bytes(1) + meta_bytes(m),
        StakeState::Delegated { meta, delegation, credits_observed, flags } => u32_bytes(2)
            + meta_bytes(meta) + delegation_bytes(delegation) + u64_bytes(credits_observed)
            + seq![flags],
        StakeState::RewardsPool => u32_bytes(3),
    }
}

/// The length of a stake state's wire encoding.
pub open spec fn spec_encoded_len(st: StakeState) -> int {
    match st {
        StakeState::Uninitialized => 4,
        StakeState::Initialized(_) => STAKE_INITIALIZED_LEN as int,
        StakeState::Delegated { .. } => STAKE_DELEGATED_LEN as int,
        StakeState::RewardsPool => 4,
    }
}

/// Encodes a stake state into its exact wire bytes (no trailing padding).
pub fn encode_stake_state(st: &StakeState) -> (r: Vec<u8>)
    ensures
        r@ =~= spec_encode_stake_state(*st),
        r@.len() == spec_encoded_len(*st),
{
    proof {
        broadcast use crate::wire::lemma_u32_bytes_len;
        broadcast use crate::wire::lemma_u64_bytes_len;
        broadcast use crate::keys::lemma_bytes32_len;

    }
    let mut out: Vec<u8> = Vec::new();
    match st {
        StakeState::Uninitialized => {
            push_u32_le(&mut out, 0);
            proof {
                assert(out@ =~= u32_bytes(0));
            }
        },
        StakeState::Initialized(m) => {
            push_u32_le(&mut out, 1);
            proof {
                assert(out@ =~= u32_bytes(1));
            }
            push_meta(&mut out, m);
            proof {
                assert(meta_bytes(*m).len() == 120);
            }
        },
        StakeState::Delegated { meta, delegation, credits_observed, flags } => {
            push_u32_le(&mut out, 2);
            proof {
                assert(out@ =~= u32_bytes(2));
            }
            push_meta(&mut out, meta);
            push_delegation(&mut out, delegation);
            push_u64_le(&mut out, *credits_observed);
            let ghost before = out@;
            out.push(*flags);
            proof {
                assert(meta_bytes(*meta).len() == 120);
                assert(delegation_bytes(*delegation).len() == 64);
                assert(out@ =~= before + seq![*flags]);
            }
        },
        StakeState::RewardsPool => {
            push_u32_le(&mut out, 3);
            proof {
                assert(out@ =~= u32_bytes(3));
            }
        },
    }
    out
}

/// Appends the 120 wire bytes of `m`.
fn push_meta(out: &mut Vec<u8>, m: &MetaState)
    ensures
        final(out)@ =~= old(out)@ + meta_bytes(*m),
{
    push_u64_le(out, m.rent_exempt_reserve);
    push_bytes32(out, &m.authorized_staker);
    push_bytes32(out, &m.authorized_withdrawer);
    push_i64_le(out, m.lockup.unix_timestamp);
    push_u64_le(out, m.lockup.epoch);
    push_bytes32(out, &m.lockup.custodian);
}

/// Appends the 64 wire bytes of `d`.
fn push_delegation(out: &mut Vec<u8>, d: &DelegationState)
    ensures
        final(out)@ =~= old(out)@ + delegation_bytes(*d),
{
    push_bytes32(out, &d.voter);
    push_u64_le(out, d.stake_lamports);
    push_u64_le(out, d.activation_epoch);
    push_u64_le(out, d.deactivation_epoch);
    push_u64_le(out, d.reserved);
}

/// Decoding the encoding of any stake state yields that state back, and the
/// encoding has the state's exact wire length.
pub proof fn lemma_stake_state_encode_then_decode(st: StakeState)
    ensures
        spec_decode_stake_state(spec_encode_stake_state(st)) == Ok::<
            StakeState,
            DecodeError,
        >(st),
        spec_encode_stake_state(st).len() == spec_encoded_len(st),
{
    match st {
        StakeState::Uninitialized => {
            broadcast use crate::wire::lemma_u32_bytes_len;

            lemma_u32_read_bytes(0);
        },
        StakeState::Initialized(m) => {
            lemma_encode_then_decode_initialized(m);
        },
        StakeState::Delegated { meta, delegation, credits_observed, flags } => {
            lemma_encode_then_decode_delegated(meta, delegation, credits_observed, flags);
        },
        StakeState::RewardsPool => {
            broadcast use crate::wire::lemma_u32_bytes_len;

            lemma_u32_read_bytes(3);
        },
    }
}

/// The `Initialized` case of the encode-then-decode round trip.
#[verifier::rlimit(60)]
proof fn lemma_encode_then_decode_initialized(m: MetaState)
    ensures
        spec_decode_stake_state(spec_encode_stake_state(StakeState::Initialized(m))) == Ok::<
            StakeState,
            DecodeError,
        >(StakeState::Initialized(m)),
        spec_encode_stake_state(StakeState::Initialized(m)).len() == STAKE_INITIALIZED_LEN,
{
    broadcast use crate::wire::lemma_u32_bytes_len;
    broadcast use crate::wire::lemma_u64_bytes_len;
    broadcast use crate::keys::lemma_bytes32_len;

    let e = spec_encode_stake_state(StakeState::Initialized(m));
    assert(meta_bytes(m).len() == 120);
    assert(e.subrange(0, 4) =~= u32_bytes(1));
    lemma_u32_at_of_bytes(e, 0, 1);
    assert(e.subrange(4, 124) =~= meta_bytes(m));
    lemma_meta_at_of_bytes(e, 4, m);
}

/// The `Delegated` case of the encode-then-decode round trip.
#[verifier::rlimit(60)]
proof fn lemma_encode_then_decode_delegated(
    meta: MetaState,
    delegation: DelegationState,
    credits_observed: u64,
    flags: u8,
)
    ensures
        spec_decode_stake_state(
            spec_encode_stake_state(
                StakeState::Delegated { meta, delegation, credits_observed, flags },
            ),
        ) == Ok::<StakeState, DecodeError>(
            StakeState::Delegated { meta, delegation, credits_observed, flags },
        ),
        spec_encode_stake_state(
            StakeState::Delegated { meta, delegation, credits_observed, flags },
        ).len() == STAKE_DELEGATED_LEN,
{
    broadcast use crate::wire::lemma_u32_bytes_len;
    broadcast use crate::wire::lemma_u64_bytes_len;
    broadcast use crate::keys::lemma_bytes32_len;

    let e = spec_encode_stake_state(
        StakeState::Delegated { meta, delegation, credits_observed, flags },
    );
    assert(meta_bytes(meta).len() == 120);
    assert(delegation_bytes(delegation).len() == 64);
    assert(e.subrange(0, 4) =~= u32_bytes(2));
    lemma_u32_at_of_bytes(e, 0, 2);
    assert(e.subrange(4, 124) =~= meta_bytes(meta));
    lemma_meta_at_of_bytes(e, 4, meta);
    assert(e.subrange(124, 188) =~= delegation_bytes(delegation));
    lemma_delegation_at_of_bytes(e, 124, delegation);
    assert(e.subrange(188, 196) =~= u64_bytes(credits_observed));
    lemma_u64_at_of_bytes(e, 188, credits_observed);
    assert(e[196] == flags);
}

/// Metadata read where the written bytes of `m` lie is `m`.
#[verifier::rlimit(60)]
proof fn lemma_meta_at_of_bytes(s: Seq<u8>, i: int, m: MetaState)
    requires
        0 <= i,
        i + 120 <= s.len(),
        s.subrange(i, i + 120) =~= meta_bytes(m),
    ensures
        meta_at(s, i) == m,
{
    broadcast use crate::wire::lemma_u64_bytes_len;
    broadcast use crate::keys::lemma_bytes32_len;

    let b = meta_bytes(m);
    assert(u64_at(b, 0) == u64_at(u64_bytes(m.rent_exempt_reserve), 0));
    lemma_u64_read_bytes(m.rent_exempt_reserve);
    assert(bytes32_at(b, 8) == bytes32_at(m.authorized_staker.bytes(), 0));
    lemma_bytes32_read_bytes(m.authorized_staker);
    assert(bytes32_at(b, 40) == bytes32_at(m.authorized_withdrawer.bytes(), 0));
    lemma_bytes32_read_bytes(m.authorized_withdrawer);
    assert(u64_at(b, 72) == u64_at(u64_bytes(m.lockup.unix_timestamp as u64), 0));
    lemma_u64_read_bytes(m.lockup.unix_timestamp as u64);
    lemma_i64_cast_roundtrip(0, m.lockup.unix_timestamp);
    assert(u64_at(b, 80) == u64_at(u64_bytes(m.lockup.epoch), 0));
    lemma_u64_read_bytes(m.lockup.epoch);
    assert(bytes32_at(b, 88) == bytes32_at(m.lockup.custodian.bytes(), 0));
    lemma_bytes32_read_bytes(m.lockup.custodian);
    assert(meta_at(b, 0) == m);
    assert(u64_at(s, i) == u64_at(b, 0));
    assert(bytes32_at(s, i + 8) == bytes32_at(b, 8));
    assert(bytes32_at(s, i + 40) == bytes32_at(b, 40));
    assert(u64_at(s, i + 72) == u64_at(b, 72));
    assert(u64_at(s, i + 80) == u64_at(b, 80));
    assert(bytes32_at(s, i + 88) == bytes32_at(b, 88));
}

/// A delegation read where the written bytes of `d` lie is `d`.
#[verifier::rlimit(60)]
proof fn lemma_delegation_at_of_bytes(s: Seq<u8>, i: int, d: DelegationState)
    requires
        0 <= i,
        i + 64 <= s.len(),
        s.subrange(i, i + 64) =~= delegation_bytes(d),
    ensures
        delegation_at(s, i) == d,
{
    broadcast use crate::wire::lemma_u64_bytes_len;
    broadcast use crate::keys::lemma_bytes32_len;

    let b = delegation_bytes(d);
    assert(bytes32_at(b, 0) == bytes32_at(d.voter.bytes(), 0));
    lemma_bytes32_read_bytes(d.voter);
    assert(u64_at(b, 32) == u64_at(u64_bytes(d.stake_lamports), 0));
    lemma_u64_read_bytes(d.stake_lamports);
    assert(u64_at(b, 40) == u64_at(u64_bytes(d.activation_epoch), 0));
    lemma_u64_read_bytes(d.activation_epoch);
    assert(u64_at(b, 48) == u64_at(u64_bytes(d.deactivation_epoch), 0));
    lemma_u64_read_bytes(d.deactivation_epoch);
    assert(u64_at(b, 56) == u64_at(u64_bytes(d.reserved), 0));
    lemma_u64_read_bytes(d.reserved);
    assert(delegation_at(b, 0) == d);
    assert(bytes32_at(s, i) == bytes32_at(b, 0));
    assert(u64_at(s, i + 32) == u64_at(b, 32));
    assert(u64_at(s, i + 40) == u64_at(b, 40));
    assert(u64_at(s, i + 48) == u64_at(b, 48));
    assert(u64_at(s, i + 56) == u64_at(b, 56));
}

/// Re-encoding the state decoded from a buffer of the exact wire length
/// yields that buffer back, byte for byte.
pub proof fn lemma_stake_state_decode_then_encode(s: Seq<u8>, st: StakeState)
    requires
        spec_decode_stake_state(s) == Ok::<StakeState, DecodeError>(st),
        s.len() == spec_encoded_len(st),
    ensures
        spec_encode_stake_state(st) =~= s,
{
    broadcast use crate::wire::lemma_u32_bytes_len;
    broadcast use crate::wire::lemma_u64_bytes_len;
    broadcast use crate::keys::lemma_bytes32_len;

    lemma_u32_write_read(s, 0);
    let tag = u32_at(s, 0);
    if tag == 1 {
        lemma_meta_bytes_of_at(s, 4);
        assert(spec_encode_stake_state(st) =~= u32_bytes(tag) + meta_bytes(meta_at(s, 4)));
    } else if tag == 2 {
        lemma_meta_bytes_of_at(s, 4);
        lemma_delegation_bytes_of_at(s, 124);
        lemma_u64_write_read(s, 188);
        assert(seq![s[196]] =~= s.subrange(196, 197));
    }
}

/// Written metadata bytes reproduce the buffer they were read from.
#[verifier::rlimit(100)]
proof fn lemma_meta_bytes_of_at(s: Seq<u8>, i: int)
    requires
        0 <= i,
        i + 120 <= s.len(),
    ensures
        meta_bytes(meta_at(s, i)) =~= s.subrange(i, i + 120),
{
    broadcast use crate::wire::lemma_u64_bytes_len;
    broadcast use crate::keys::lemma_bytes32_len;

    lemma_u64_write_read(s, i);
    lemma_bytes32_write_read(s, i + 8);
    lemma_bytes32_write_read(s, i + 40);
    lemma_u64_write_read(s, i + 72);
    lemma_i64_cast_roundtrip(u64_at(s, i + 72), 0);
    lemma_u64_write_read(s, i + 80);
    lemma_bytes32_write_read(s, i + 88);
    assert(u64_at(s, i + 72) as i64 as u64 == u64_at(s, i + 72));
    crate::wire::lemma_subrange_glue(s, i, i + 8, i + 40);
    crate::wire::lemma_subrange_glue(s, i, i + 40, i + 72);
    crate::wire::lemma_subrange_glue(s, i, i + 72, i + 80);
    crate::wire::lemma_subrange_glue(s, i, i + 80, i + 88);
    crate::wire::lemma_subrange_glue(s, i, i + 88, i + 120);
}

/// Written delegation bytes reproduce the buffer they were read from.
#[verifier::rlimit(30)]
proof fn lemma_delegation_bytes_of_at(s: Seq<u8>, i: int)
    requires
        0 <= i,
        i + 64 <= s.len(),
    ensures
        delegation_bytes(delegation_at(s, i)) =~= s.subrange(i, i + 64),
{
    broadcast use crate::wire::lemma_u64_bytes_len;
    broadcast use crate::keys::lemma_bytes32_len;

    lemma_bytes32_write_read(s, i);
    lemma_u64_write_read(s, i + 32);
    lemma_u64_write_read(s, i + 40);
    lemma_u64_write_read(s, i + 48);
    lemma_u64_write_read(s, i + 56);
    crate::wire::lemma_subrange_glue(s, i, i + 32, i + 40);
    crate::wire::lemma_subrange_glue(s, i, i + 40, i + 48);
    crate::wire::lemma_subrange_glue(s, i, i + 48, i + 56);
    crate::wire::lemma_subrange_glue(s, i, i + 56, i + 64);
}

/// Any buffer shorter than the version tag itself fails to decode as
/// too short.
pub proof fn lemma_stake_state_short_buffer(s: Seq<u8>)
    requires
        s.len() < 4,
    ensures
        spec_decode_stake_state(s) == Err::<StakeState, DecodeError>(DecodeError::TooShort),
{
}

/// What decoding the clock sysvar yields: the current epoch and the cluster's
/// wall-clock estimate, read from their fixed offsets.
pub open spec fn spec_decode_clock(s: Seq<u8>) -> Result<ClockView, DecodeError> {
    if s.len() < CLOCK_LEN {
        Err(DecodeError::TooShort)
    } else {
        Ok(ClockView { epoch: u64_at(s, 16), unix_timestamp: u64_at(s, 32) as i64 })
    }
}

/// Decodes the clock sysvar's data buffer.
pub fn decode_clock(b: &Vec<u8>) -> (r: Result<ClockView, DecodeError>)
    ensures
        r == spec_decode_clock(b@),
{
    let n: usize = b.len();
    if n < CLOCK_LEN {
        return Err(DecodeError::TooShort);
    }
    Ok(ClockView { epoch: read_u64_le(b, 16), unix_timestamp: read_i64_le(b, 32) })
}

/// One stake-history entry, stored as four consecutive words: the epoch, then
/// the effective, activating and deactivating stake of that epoch.
pub open spec fn history_entry_at(s: Seq<u8>, i: int) -> HistoryEntry {
    HistoryEntry {
        epoch: u64_at(s, i),
        effective: u64_at(s, i + 8),
        activating: u64_at(s, i + 16),
        deactivating: u64_at(s, i + 24),
    }
}

/// What decoding the stake-history sysvar yields: a leading entry count, then
/// that many 32-byte entries in storage order (epoch order). A count above
/// `limit` is rejected, so a corrupted or adversarial buffer cannot demand an
/// unbounded allocation.
pub open spec fn spec_decode_stake_history(s: Seq<u8>, limit: u64) -> Result<
    Seq<HistoryEntry>,
    DecodeError,
> {
    if s.len() < 8 {
        Err(DecodeError::TooShort)
    } else {
        let n = u64_at(s, 0);
        if n > limit {
            Err(DecodeError::BadLayout)
        } else if s.len() < 8 + 32 * (n as int) {
            Err(DecodeError::TooShort)
        } else {
            Ok(Seq::new(n as nat, |j: int| history_entry_at(s, 8 + 32 * j)))
        }
    }
}

/// Decodes the stake-history sysvar's data buffer, reading at most `limit`
/// entries.
pub fn decode_stake_history(b: &Vec<u8>, limit: u64) -> (r: Result<
    Vec<HistoryEntry>,
    DecodeError,
>)
    ensures
        match r {
            Ok(entries) => spec_decode_stake_history(b@, limit) == Ok::<
                Seq<HistoryEntry>,
                DecodeError,
            >(entries@),
            Err(e) => spec_decode_stake_history(b@, limit) == Err::<
                Seq<HistoryEntry>,
                DecodeError,
            >(e),
        },
{
    let n_bytes: usize = b.len();
    if n_bytes < 8 {
        return Err(DecodeError::TooShort);
    }
    let count = read_u64_le(b, 0);
    if count > limit {
        return Err(DecodeError::BadLayout);
    }
    let need: u64 = match count.checked_mul(32) {
        Some(m) => match m.checked_add(8) {
            Some(t) => t,
            None => {
                assert(8 + 32 * (count as int) > u64::MAX);
                return Err(DecodeError::TooShort);
            },
        },
        None => {
            assert(32 * (count as int) > u64::MAX) by (nonlinear_arith)
                requires
                    count as int * 32 > u64::MAX,
            ;
            return Err(DecodeError::TooShort);
        },
    };
    if (n_bytes as u64) < need {
        return Err(DecodeError::TooShort);
    }
    let ghost entries_spec = Seq::new(count as nat, |j: int| history_entry_at(b@, 8 + 32 * j));
    let count_usize = count as usize;
    let mut entries: Vec<HistoryEntry> = Vec::new();
    let mut j: usize = 0;
    while j < count_usize
        invariant
            count_usize == count,
            j <= count_usize,
            8 + 32 * (count as int) <= n_bytes == b@.len(),
            entries@ =~= entries_spec.take(j as int),
            entries_spec == Seq::new(count as nat, |j: int| history_entry_at(b@, 8 + 32 * j)),
        decreases count_usize - j,
    {
        let off: usize = 8 + 32 * j;
        let entry = HistoryEntry {
            epoch: read_u64_le(b, off),
            effective: read_u64_le(b, off + 8),
            activating: read_u64_le(b, off + 16),
            deactivating: read_u64_le(b, off + 24),
        };
        entries.push(entry);
        proof {
            assert(entry == entries_spec[j as int]);
            assert(entries@ =~= entries_spec.take(j as int + 1));
        }
        j = j + 1;
    }
    proof {
        assert(entries@ =~= entries_spec);
    }
    Ok(entries)
}

/// What decoding a durable-nonce account yields: a layout-version word, a
/// state word, and, for an initialized nonce, the authority, the nonce hash,
/// and the fee schedule.
pub open spec fn spec_decode_nonce(s: Seq<u8>) -> Result<NonceView, DecodeError> {
    if s.len() < 8 {
        Err(DecodeError::TooShort)
    } else {
        let version = u32_at(s, 0);
        let tag = u32_at(s, 4);
        if version > 1 {
            Err(DecodeError::BadVersion)
        } else if tag == 0 {
            Ok(NonceView { legacy: version == 0, state: NonceState::Uninitialized })
        } else if tag == 1 {
            if s.len() < NONCE_INITIALIZED_LEN {
                Err(DecodeError::TooShort)
            } else {
                Ok(
                    NonceView {
                        legacy: version == 0,
                        state: NonceState::Initialized {
                            authority: bytes32_at(s, 8),
                            nonce_hash: bytes32_at(s, 40),
                            lamports_per_signature: u64_at(s, 72),
                        },
                    },
                )
            }
        } else {
            Err(DecodeError::BadVersion)
        }
    }
}

/// Decodes a durable-nonce account's data buffer.
pub fn decode_nonce(b: &Vec<u8>) -> (r: Result<NonceView, DecodeError>)
    ensures
        r == spec_decode_nonce(b@),
{
    let n: usize = b.len();
    if n < 8 {
        return Err(DecodeError::TooShort);
    }
    let version = read_u32_le(b, 0);
    let tag = read_u32_le(b, 4);
    if version > 1 {
        Err(DecodeError::BadVersion)
    } else if tag == 0 {
        Ok(NonceView { legacy: version == 0, state: NonceState::Uninitialized })
    } else if tag == 1 {
        if n < NONCE_INITIALIZED_LEN {
            Err(DecodeError::TooShort)
        } else {
            Ok(
                NonceView {
                    legacy: version == 0,
                    state: NonceState::Initialized {
                        authority: read_bytes32(b, 8),
                        nonce_hash: read_bytes32(b, 40),
                        lamports_per_signature: read_u64_le(b, 72),
                    },
                },
            )
        }
    } else {
        Err(DecodeError::BadVersion)
    }
}

/// Reads the stake-account metadata at `off`.
fn read_meta(b: &Vec<u8>, off: usize) -> (m: MetaState)
    requires
        off + 120 <= b@.len(),
    ensures
        m == meta_at(b@, off as int),
{
    let n: usize = b.len();
    MetaState {
        rent_exempt_reserve: read_u64_le(b, off),
        authorized_staker: read_bytes32(b, off + 8),
        authorized_withdrawer: read_bytes32(b, off + 40),
        lockup: LockupState {
            unix_timestamp: read_i64_le(b, off + 72),
            epoch: read_u64_le(b, off + 80),
            custodian: read_bytes32(b, off + 88),
        },
    }
}

/// Reads the delegation at `off`.
fn read_delegation(b: &Vec<u8>, off: usize) -> (d: DelegationState)
    requires
        off + 64 <= b@.len(),
    ensures
        d == delegation_at(b@, off as int),
{
    let n: usize = b.len();
    DelegationState {
        voter: read_bytes32(b, off),
        stake_lamports: read_u64_le(b, off + 32),
        activation_epoch: read_u64_le(b, off + 40),
        deactivation_epoch: read_u64_le(b, off + 48),
        reserved: read_u64_le(b, off + 56),
    }
}

} // verus!
