use scilla::codec::{encode_stake_state, DecodeError, STAKE_ACCOUNT_LEN};
use scilla::guard::{GuardRejection, VoteTarget};
use scilla::keys::{stake_program_id, Bytes32};
use scilla::menu::{AccountCommand, ConfigCommand, ProgramCommand, StakeCommand};
use scilla::ops::{
    plan_create, plan_deactivate, plan_delegate, plan_merge, plan_split, plan_withdraw, OpError,
};
use scilla::state::{
    AccountView, DelegationState, LockupState, MetaState, StakeState, EPOCH_SENTINEL,
};
use scilla::votes::{select_vote_account, VoteInfo};

fn key(seed: u64) -> Bytes32 {
    Bytes32 {
        w0: seed,
        w1: seed + 1,
        w2: seed + 2,
        w3: seed + 3,
    }
}

fn meta(staker: Bytes32, withdrawer: Bytes32) -> MetaState {
    MetaState {
        rent_exempt_reserve: 1_000_000,
        authorized_staker: staker,
        authorized_withdrawer: withdrawer,
        lockup: LockupState {
            unix_timestamp: 0,
            epoch: 0,
            custodian: key(99),
        },
    }
}

fn stake_account_view(state: &StakeState, lamports: u64) -> AccountView {
    let mut data = encode_stake_state(state);
    data.resize(STAKE_ACCOUNT_LEN, 0);
    AccountView {
        owner: stake_program_id(),
        lamports,
        data,
        executable: false,
        rent_epoch: 0,
    }
}

fn delegated(staker: Bytes32, withdrawer: Bytes32, deactivation_epoch: u64) -> StakeState {
    StakeState::Delegated {
        meta: meta(staker, withdrawer),
        delegation: DelegationState {
            voter: key(50),
            stake_lamports: 10_000,
            activation_epoch: 5,
            deactivation_epoch,
            reserved: 0,
        },
        credits_observed: 0,
        flags: 0,
    }
}

#[test]
fn plan_deactivate_end_to_end() {
    let staker = key(1);
    let account = stake_account_view(&delegated(staker, key(2), EPOCH_SENTINEL), 10_000);
    let (params, ix) = plan_deactivate(&account, &key(10), 42, &staker).unwrap();
    match params.new_state {
        StakeState::Delegated { delegation, .. } => {
            assert_eq!(delegation.deactivation_epoch, 42)
        }
        _ => panic!("deactivation must keep the delegated form"),
    }
    // The instruction is the stake program's deactivate: tag 5, no payload.
    assert_eq!(
        ix.program_id,
        solana_sdk_ids::stake::id()
    );
    assert_eq!(ix.data, vec![5, 0, 0, 0]);
    assert_eq!(ix.accounts.len(), 2);
    assert_eq!(
        ix.accounts[0].pubkey.to_bytes().to_vec(),
        key(10).to_byte_vec()
    );
}

#[test]
fn plan_deactivate_rejects_foreign_owner_and_garbage() {
    let staker = key(1);
    let mut account = stake_account_view(&delegated(staker, key(2), EPOCH_SENTINEL), 10_000);
    account.owner = key(66);
    assert_eq!(
        plan_deactivate(&account, &key(10), 42, &staker),
        Err(OpError::Guard(GuardRejection::WrongOwner))
    );
    let garbage = AccountView {
        owner: stake_program_id(),
        lamports: 1,
        data: vec![1, 0],
        executable: false,
        rent_epoch: 0,
    };
    assert_eq!(
        plan_deactivate(&garbage, &key(10), 42, &staker),
        Err(OpError::Decode(DecodeError::TooShort))
    );
}

#[test]
fn plan_withdraw_end_to_end() {
    let withdrawer = key(2);
    let account = stake_account_view(&delegated(key(1), withdrawer, 100), 10_000);
    let early = plan_withdraw(&account, &key(10), 100, &withdrawer, &key(11), 500);
    assert_eq!(
        early,
        Err(OpError::Guard(GuardRejection::CooldownNotElapsed { epochs_remaining: 0 }))
    );
    let (params, ix) = plan_withdraw(&account, &key(10), 101, &withdrawer, &key(11), 500).unwrap();
    assert_eq!(params.amount_lamports, 500);
    // The instruction is the stake program's withdraw: tag 4, then lamports.
    assert_eq!(ix.data[0..4], [4, 0, 0, 0]);
    assert_eq!(u64::from_le_bytes(ix.data[4..12].try_into().unwrap()), 500);
    assert_eq!(
        ix.accounts[1].pubkey.to_bytes().to_vec(),
        key(11).to_byte_vec()
    );
}

#[test]
fn plan_merge_end_to_end() {
    let authority = key(1);
    let destination = stake_account_view(&delegated(authority, key(2), EPOCH_SENTINEL), 10_000);
    let source = stake_account_view(&delegated(authority, key(2), EPOCH_SENTINEL), 5_000);
    let (params, ixs) = plan_merge(&key(10), &key(20), &destination, &source, &authority).unwrap();
    assert_eq!(params.destination, key(10));
    assert_eq!(ixs.len(), 1);
    // The merge instruction carries tag 7.
    assert_eq!(ixs[0].data, vec![7, 0, 0, 0]);
    assert_eq!(
        plan_merge(&key(10), &key(10), &destination, &source, &authority),
        Err(OpError::Guard(GuardRejection::DuplicateAccount))
    );
    let foreign_source = stake_account_view(&delegated(key(9), key(2), EPOCH_SENTINEL), 5_000);
    assert_eq!(
        plan_merge(&key(10), &key(20), &destination, &foreign_source, &authority),
        Err(OpError::Guard(GuardRejection::WrongAuthority))
    );
}

#[test]
fn plan_split_builds_three_instructions() {
    let (params, ixs) = plan_split(&key(10), &key(20), &key(1), 5_000, 1_000).unwrap();
    assert_eq!(params.amount_lamports, 5_000);
    assert_eq!(ixs.len(), 3);
    // The final instruction is the stake program's split: tag 3, lamports.
    let split_ix = &ixs[2];
    assert_eq!(split_ix.program_id, solana_sdk_ids::stake::id());
    assert_eq!(split_ix.data[0..4], [3, 0, 0, 0]);
    assert_eq!(
        u64::from_le_bytes(split_ix.data[4..12].try_into().unwrap()),
        5_000
    );
    assert_eq!(
        plan_split(&key(10), &key(20), &key(1), 999, 1_000),
        Err(OpError::Guard(GuardRejection::InsufficientAmount))
    );
}

#[test]
fn plan_create_builds_fund_and_initialize() {
    let lockup = LockupState {
        unix_timestamp: 7,
        epoch: 3,
        custodian: key(99),
    };
    let (params, ixs) =
        plan_create(&key(1), &key(10), &key(2), &key(3), &lockup, 100, 10, 110, &None).unwrap();
    assert_eq!(params.total_lamports, 110);
    assert_eq!(ixs.len(), 2);
    // The second instruction initializes the stake account: tag 0, then the
    // authorized keys and the lockup.
    let init = &ixs[1];
    assert_eq!(init.program_id, solana_sdk_ids::stake::id());
    assert_eq!(init.data[0..4], [0, 0, 0, 0]);
    assert_eq!(init.data[4..36].to_vec(), key(2).to_byte_vec());
    assert_eq!(init.data[36..68].to_vec(), key(3).to_byte_vec());
    assert_eq!(
        plan_create(&key(1), &key(10), &key(2), &key(3), &lockup, 100, 10, 109, &None),
        Err(OpError::Guard(GuardRejection::InsufficientAmount))
    );
}

#[test]
fn plan_delegate_end_to_end() {
    let target = Some(VoteTarget {
        activated_stake: 9,
        root_slot: 9_990,
    });
    let (params, ix) =
        plan_delegate(&key(10), &stake_program_id(), &key(1), &key(50), &target, 10_000).unwrap();
    assert_eq!(params.vote_account, key(50));
    // The delegate instruction carries tag 2 and names the vote account.
    assert_eq!(ix.data, vec![2, 0, 0, 0]);
    assert_eq!(
        ix.accounts[1].pubkey.to_bytes().to_vec(),
        key(50).to_byte_vec()
    );
    assert_eq!(
        plan_delegate(&key(10), &key(66), &key(1), &key(50), &target, 10_000),
        Err(OpError::Guard(GuardRejection::WrongOwner))
    );
}

fn vote_info(vote_key: Bytes32, activated_stake: u64) -> VoteInfo {
    VoteInfo {
        vote_key,
        node_key: key(77),
        activated_stake,
        root_slot: 500,
        last_vote: 600,
        commission: 5,
    }
}

#[test]
fn vote_account_resolution_prefers_current() {
    let current = vec![vote_info(key(1), 10), vote_info(key(2), 20)];
    let delinquent = vec![vote_info(key(2), 30), vote_info(key(3), 40)];
    let (found, is_current) = select_vote_account(&current, &delinquent, &key(2)).unwrap();
    assert!(is_current);
    assert_eq!(found.activated_stake, 20);
    let (found, is_current) = select_vote_account(&current, &delinquent, &key(3)).unwrap();
    assert!(!is_current);
    assert_eq!(found.activated_stake, 40);
    assert!(select_vote_account(&current, &delinquent, &key(9)).is_none());
}

#[test]
fn menu_labels() {
    assert_eq!(AccountCommand::Balance.description(), "Check SOL balance");
    assert_eq!(AccountCommand::GoBack.description(), "Go back");
    assert_eq!(
        ConfigCommand::Show.description(),
        "Display current Scilla configuration"
    );
    assert_eq!(
        StakeCommand::Deactivate.spinner_msg(),
        "Deactivating stake (cooldown starting)…"
    );
    assert_eq!(StakeCommand::Create.spinner_msg(), "Creating new stake account…");
    assert_eq!(StakeCommand::GoBack.spinner_msg(), "Going back…");
    assert_eq!(
        ProgramCommand::Deploy.spinner_msg(),
        "Deploying program via TPU..."
    );
    assert_eq!(ProgramCommand::GoBack.spinner_msg(), "");
}
