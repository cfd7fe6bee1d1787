use scilla::codec::{
    decode_clock, decode_nonce, decode_stake_history, decode_stake_state, encode_stake_state,
    DecodeError, CLOCK_LEN, NONCE_INITIALIZED_LEN, STAKE_ACCOUNT_LEN, STAKE_DELEGATED_LEN,
    STAKE_INITIALIZED_LEN,
};
use scilla::keys::{clock_sysvar_id, stake_history_sysvar_id, stake_program_id, Bytes32};
use scilla::state::{
    DelegationState, LockupState, MetaState, NonceState, StakeState, EPOCH_SENTINEL,
};

fn key(seed: u64) -> Bytes32 {
    Bytes32 {
        w0: seed,
        w1: seed.wrapping_mul(3),
        w2: seed.wrapping_add(77),
        w3: seed ^ 0xdead_beef,
    }
}

fn sample_meta() -> MetaState {
    MetaState {
        rent_exempt_reserve: 2_282_880,
        authorized_staker: key(1),
        authorized_withdrawer: key(2),
        lockup: LockupState {
            unix_timestamp: -12345,
            epoch: 9,
            custodian: key(3),
        },
    }
}

fn sample_delegated() -> StakeState {
    StakeState::Delegated {
        meta: sample_meta(),
        delegation: DelegationState {
            voter: key(4),
            stake_lamports: 5_000_000_000,
            activation_epoch: 100,
            deactivation_epoch: EPOCH_SENTINEL,
            reserved: 0,
        },
        credits_observed: 4242,
        flags: 0,
    }
}

#[test]
fn stake_state_roundtrip_uninitialized() {
    let bytes = encode_stake_state(&StakeState::Uninitialized);
    assert_eq!(bytes.len(), 4);
    assert_eq!(decode_stake_state(&bytes), Ok(StakeState::Uninitialized));
    assert_eq!(encode_stake_state(&StakeState::Uninitialized), bytes);
}

#[test]
fn stake_state_roundtrip_initialized() {
    let state = StakeState::Initialized(sample_meta());
    let bytes = encode_stake_state(&state);
    assert_eq!(bytes.len(), STAKE_INITIALIZED_LEN);
    assert_eq!(decode_stake_state(&bytes), Ok(state));
    let reencoded = encode_stake_state(&decode_stake_state(&bytes).unwrap());
    assert_eq!(reencoded, bytes);
}

#[test]
fn stake_state_roundtrip_delegated() {
    let state = sample_delegated();
    let bytes = encode_stake_state(&state);
    assert_eq!(bytes.len(), STAKE_DELEGATED_LEN);
    assert_eq!(decode_stake_state(&bytes), Ok(state));
    let reencoded = encode_stake_state(&decode_stake_state(&bytes).unwrap());
    assert_eq!(reencoded, bytes);
}

#[test]
fn stake_state_roundtrip_rewards_pool() {
    let bytes = encode_stake_state(&StakeState::RewardsPool);
    assert_eq!(decode_stake_state(&bytes), Ok(StakeState::RewardsPool));
}

#[test]
fn stake_state_short_buffers_fail_too_short() {
    for n in 0..4 {
        let bytes = vec![0u8; n];
        assert_eq!(decode_stake_state(&bytes), Err(DecodeError::TooShort));
    }
    // An initialized tag with a truncated payload is also too short.
    let mut bytes = vec![0u8; 50];
    bytes[0] = 1;
    assert_eq!(decode_stake_state(&bytes), Err(DecodeError::TooShort));
    let mut bytes = vec![0u8; STAKE_INITIALIZED_LEN];
    bytes[0] = 2;
    assert_eq!(decode_stake_state(&bytes), Err(DecodeError::TooShort));
}

#[test]
fn stake_state_unknown_tag_fails_bad_version() {
    let mut bytes = vec![0u8; STAKE_ACCOUNT_LEN];
    bytes[0] = 4;
    assert_eq!(decode_stake_state(&bytes), Err(DecodeError::BadVersion));
}

#[test]
fn stake_state_ignores_trailing_padding() {
    // On-chain stake accounts are always 200 bytes; the bytes past the
    // variant's footprint are padding.
    let state = sample_delegated();
    let mut bytes = encode_stake_state(&state);
    bytes.resize(STAKE_ACCOUNT_LEN, 0);
    assert_eq!(decode_stake_state(&bytes), Ok(state));
}

fn to_sdk_pubkey(k: &Bytes32) -> solana_pubkey::Pubkey {
    solana_pubkey::Pubkey::try_from(k.to_byte_vec().as_slice()).unwrap()
}

#[allow(deprecated)]
fn sdk_stake_state() -> solana_stake_interface::state::StakeStateV2 {
    solana_stake_interface::state::StakeStateV2::Stake(
        solana_stake_interface::state::Meta {
            rent_exempt_reserve: 2_282_880,
            authorized: solana_stake_interface::state::Authorized {
                staker: to_sdk_pubkey(&key(1)),
                withdrawer: to_sdk_pubkey(&key(2)),
            },
            lockup: solana_stake_interface::state::Lockup {
                unix_timestamp: -12345,
                epoch: 9,
                custodian: to_sdk_pubkey(&key(3)),
            },
        },
        solana_stake_interface::state::Stake {
            delegation: solana_stake_interface::state::Delegation {
                voter_pubkey: to_sdk_pubkey(&key(4)),
                stake: 5_000_000_000,
                activation_epoch: 100,
                deactivation_epoch: u64::MAX,
                _reserved: [0; 8],
            },
            credits_observed: 4242,
        },
        solana_stake_interface::stake_flags::StakeFlags::empty(),
    )
}

#[test]
fn stake_state_decode_matches_ledger_wire_format() {
    let wire = bincode::serialize(&sdk_stake_state()).unwrap();
    assert_eq!(decode_stake_state(&wire), Ok(sample_delegated()));
}

#[test]
fn stake_state_encode_matches_ledger_wire_format() {
    let ours = encode_stake_state(&sample_delegated());
    let theirs = bincode::serialize(&sdk_stake_state()).unwrap();
    assert_eq!(ours, theirs);
    let parsed: solana_stake_interface::state::StakeStateV2 =
        bincode::deserialize(&ours).unwrap();
    assert_eq!(parsed, sdk_stake_state());
}

#[test]
fn program_and_sysvar_ids_match_the_sdk() {
    assert_eq!(
        stake_program_id().to_byte_vec(),
        solana_sdk_ids::stake::id().to_bytes().to_vec()
    );
    assert_eq!(
        stake_history_sysvar_id().to_byte_vec(),
        solana_sdk_ids::sysvar::stake_history::id().to_bytes().to_vec()
    );
    assert_eq!(
        clock_sysvar_id().to_byte_vec(),
        solana_sdk_ids::sysvar::clock::id().to_bytes().to_vec()
    );
}

#[test]
fn clock_decode_matches_ledger_wire_format() {
    let clock = solana_clock::Clock {
        slot: 7777,
        epoch_start_timestamp: 160000,
        epoch: 612,
        leader_schedule_epoch: 613,
        unix_timestamp: 1_700_000_001,
    };
    let wire = bincode::serialize(&clock).unwrap();
    assert_eq!(wire.len(), CLOCK_LEN);
    let view = decode_clock(&wire).unwrap();
    assert_eq!(view.epoch, 612);
    assert_eq!(view.unix_timestamp, 1_700_000_001);
}

#[test]
fn clock_too_short_fails() {
    assert_eq!(decode_clock(&vec![0u8; 39]), Err(DecodeError::TooShort));
}

#[test]
fn stake_history_decode_matches_ledger_wire_format() {
    let mut history = solana_stake_interface::stake_history::StakeHistory::default();
    history.add(
        300,
        solana_stake_interface::stake_history::StakeHistoryEntry {
            effective: 111,
            activating: 22,
            deactivating: 3,
        },
    );
    history.add(
        301,
        solana_stake_interface::stake_history::StakeHistoryEntry {
            effective: 222,
            activating: 0,
            deactivating: 9,
        },
    );
    let wire = bincode::serialize(&history).unwrap();
    let entries = decode_stake_history(&wire, 512).unwrap();
    assert_eq!(entries.len(), 2);
    // The sysvar keeps newest epochs first.
    assert_eq!(entries[0].epoch, 301);
    assert_eq!(entries[0].effective, 222);
    assert_eq!(entries[0].deactivating, 9);
    assert_eq!(entries[1].epoch, 300);
    assert_eq!(entries[1].effective, 111);
    assert_eq!(entries[1].activating, 22);
}

#[test]
fn stake_history_limit_rejects_oversized_counts() {
    let mut wire = vec![0u8; 8 + 32 * 3];
    wire[0] = 3;
    assert_eq!(decode_stake_history(&wire, 2), Err(DecodeError::BadLayout));
    assert_eq!(decode_stake_history(&wire, 3).unwrap().len(), 3);
}

#[test]
fn stake_history_truncated_entries_fail_too_short() {
    let mut wire = vec![0u8; 8 + 32 * 2 - 1];
    wire[0] = 2;
    assert_eq!(decode_stake_history(&wire, 16), Err(DecodeError::TooShort));
    assert_eq!(decode_stake_history(&vec![0u8; 7], 16), Err(DecodeError::TooShort));
}

#[test]
fn stake_history_empty_table_decodes_empty() {
    let wire = vec![0u8; 8];
    assert_eq!(decode_stake_history(&wire, 16).unwrap().len(), 0);
}

#[test]
fn nonce_decode_matches_ledger_wire_format() {
    let authority = to_sdk_pubkey(&key(9));
    let durable = solana_nonce::state::DurableNonce::from_blockhash(&solana_hash::Hash::new_from_array([7u8; 32]));
    let data = solana_nonce::state::Data::new(authority, durable, 5000);
    let versions = solana_nonce::versions::Versions::new(
        solana_nonce::state::State::Initialized(data.clone()),
    );
    let wire = bincode::serialize(&versions).unwrap();
    assert_eq!(wire.len(), NONCE_INITIALIZED_LEN);
    let view = decode_nonce(&wire).unwrap();
    assert!(!view.legacy);
    match view.state {
        NonceState::Initialized {
            authority: a,
            nonce_hash,
            lamports_per_signature,
        } => {
            assert_eq!(a.to_byte_vec(), authority.to_bytes().to_vec());
            assert_eq!(
                nonce_hash.to_byte_vec(),
                data.blockhash().to_bytes().to_vec()
            );
            assert_eq!(lamports_per_signature, 5000);
        }
        NonceState::Uninitialized => panic!("expected an initialized nonce"),
    }
}

#[test]
fn nonce_uninitialized_and_bad_version() {
    let versions = solana_nonce::versions::Versions::new(solana_nonce::state::State::Uninitialized);
    let wire = bincode::serialize(&versions).unwrap();
    let view = decode_nonce(&wire).unwrap();
    assert_eq!(view.state, NonceState::Uninitialized);
    assert!(!view.legacy);

    let mut bad = wire.clone();
    bad[0] = 9;
    assert_eq!(decode_nonce(&bad), Err(DecodeError::BadVersion));
    assert_eq!(decode_nonce(&vec![0u8; 7]), Err(DecodeError::TooShort));
}
