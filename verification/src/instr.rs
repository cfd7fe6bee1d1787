//! The boundary to the on-chain programs' instruction builders. Each wrapper
//! converts the library's plain key and amount values into the SDK's types and
//! calls one documented builder; the instructions and messages themselves are
//! opaque values carried to the transport.

use vstd::prelude::*;

use crate::keys::Bytes32;
use crate::state::LockupState;

verus! {

#[verifier::external_type_specification]
#[verifier::external_body]
pub struct ExPubkey(solana_pubkey::Pubkey);

#[verifier::external_type_specification]
#[verifier::external_body]
pub struct ExInstruction(solana_instruction::Instruction);

#[verifier::external_type_specification]
#[verifier::external_body]
pub struct ExInstructionError(solana_instruction_error::InstructionError);

#[verifier::external_type_specification]
#[verifier::external_body]
pub struct ExMessage(solana_message::Message);

/// Relies on Pubkey::try_from over a slice, which accepts every 32-byte
/// slice; `Bytes32::to_byte_vec` always yields 32 bytes.
#[verifier::external_body]
fn to_pubkey(k: &Bytes32) -> solana_pubkey::Pubkey {
    solana_pubkey::Pubkey::try_from(k.to_byte_vec().as_slice()).unwrap()
}

/// Relies on solana_stake_interface::instruction::deactivate_stake: one
/// instruction over the stake account and its staker.
#[verifier::external_body]
pub(crate) fn deactivate_ix(stake_account: &Bytes32, authority: &Bytes32) -> (r:
    solana_instruction::Instruction)
{
    solana_stake_interface::instruction::deactivate_stake(
        &to_pubkey(stake_account),
        &to_pubkey(authority),
    )
}

/// Relies on solana_stake_interface::instruction::withdraw (without a
/// custodian): one instruction moving `amount_lamports` to the recipient.
#[verifier::external_body]
pub(crate) fn withdraw_ix(
    stake_account: &Bytes32,
    withdrawer: &Bytes32,
    recipient: &Bytes32,
    amount_lamports: u64,
) -> (r: solana_instruction::Instruction) {
    let stake = to_pubkey(stake_account);
    let auth = to_pubkey(withdrawer);
    let to = to_pubkey(recipient);
    solana_stake_interface::instruction::withdraw(&stake, &auth, &to, amount_lamports, None)
}

/// Relies on solana_stake_interface::instruction::merge: its source returns
/// exactly one instruction.
#[verifier::external_body]
pub(crate) fn merge_ixs(destination: &Bytes32, source: &Bytes32, authority: &Bytes32) -> (r: Vec<
    solana_instruction::Instruction,
>)
    ensures
        r@.len() == 1,
{
    let dst = to_pubkey(destination);
    let src = to_pubkey(source);
    let auth = to_pubkey(authority);
    solana_stake_interface::instruction::merge(&dst, &src, &auth)
}

/// Relies on solana_stake_interface::instruction::split: its source returns
/// exactly three instructions (allocate, assign, split).
#[verifier::external_body]
pub(crate) fn split_ixs(
    stake_account: &Bytes32,
    authority: &Bytes32,
    amount_lamports: u64,
    split_account: &Bytes32,
) -> (r: Vec<solana_instruction::Instruction>)
    ensures
        r@.len() == 3,
{
    let stake = to_pubkey(stake_account);
    let auth = to_pubkey(authority);
    let split = to_pubkey(split_account);
    solana_stake_interface::instruction::split(&stake, &auth, amount_lamports, &split)
}

/// Relies on solana_stake_interface::instruction::delegate_stake: one
/// instruction over the stake account, its staker and the vote account.
#[verifier::external_body]
pub(crate) fn delegate_ix(
    stake_account: &Bytes32,
    authority: &Bytes32,
    vote_account: &Bytes32,
) -> (r: solana_instruction::Instruction) {
    let stake = to_pubkey(stake_account);
    let auth = to_pubkey(authority);
    let vote = to_pubkey(vote_account);
    solana_stake_interface::instruction::delegate_stake(&stake, &auth, &vote)
}

/// Relies on solana_stake_interface::instruction::create_account: its source
/// returns exactly two instructions (fund and create, then initialize).
#[verifier::external_body]
pub(crate) fn create_account_ixs(
    fee_payer: &Bytes32,
    stake_account: &Bytes32,
    staker: &Bytes32,
    withdrawer: &Bytes32,
    lockup: &LockupState,
    total_lamports: u64,
) -> (r: Vec<solana_instruction::Instruction>)
    ensures
        r@.len() == 2,
{
    let from = to_pubkey(fee_payer);
    let stake = to_pubkey(stake_account);
    let authorized = solana_stake_interface::state::Authorized {
        staker: to_pubkey(staker),
        withdrawer: to_pubkey(withdrawer),
    };
    let lockup = solana_stake_interface::state::Lockup {
        unix_timestamp: lockup.unix_timestamp,
        epoch: lockup.epoch,
        custodian: to_pubkey(&lockup.custodian),
    };
    solana_stake_interface::instruction::create_account(&from, &stake, &authorized, &lockup, total_lamports)
}

/// Relies on UpgradeableLoaderState::size_of_buffer: the 37-byte buffer
/// metadata plus the program length, saturating at the machine bound.
#[verifier::external_body]
pub(crate) fn buffer_space(program_len: usize) -> (r: usize)
    ensures
        r == if 37 + program_len <= usize::MAX {
            37 + program_len
        } else {
            usize::MAX as int
        },
{
    solana_loader_v3_interface::state::UpgradeableLoaderState::size_of_buffer(program_len)
}

/// Relies on UpgradeableLoaderState::size_of_programdata: the 45-byte program
/// data metadata plus the program length, saturating at the machine bound.
#[verifier::external_body]
pub(crate) fn programdata_space(program_len: usize) -> (r: usize)
    ensures
        r == if 45 + program_len <= usize::MAX {
            45 + program_len
        } else {
            usize::MAX as int
        },
{
    solana_loader_v3_interface::state::UpgradeableLoaderState::size_of_programdata(program_len)
}

/// Relies on solana_loader_v3_interface::instruction::create_buffer: its
/// source always returns `Ok` with exactly two instructions (fund and create,
/// then initialize the buffer).
#[verifier::external_body]
pub(crate) fn create_buffer_ixs(
    payer: &Bytes32,
    buffer_account: &Bytes32,
    authority: &Bytes32,
    lamports: u64,
    program_len: usize,
) -> (r: Result<Vec<solana_instruction::Instruction>, solana_instruction_error::InstructionError>)
    ensures
        r is Ok,
        r matches Ok(v) ==> v@.len() == 2,
{
    let payer = to_pubkey(payer);
    let buffer = to_pubkey(buffer_account);
    let auth = to_pubkey(authority);
    solana_loader_v3_interface::instruction::create_buffer(&payer, &buffer, &auth, lamports, program_len)
}

/// Relies on solana_loader_v3_interface::instruction::deploy_with_max_program_len:
/// its source always returns `Ok` with exactly two instructions (fund and
/// create the program account, then deploy from the buffer).
#[verifier::external_body]
pub(crate) fn deploy_ixs(
    payer: &Bytes32,
    program_account: &Bytes32,
    buffer_account: &Bytes32,
    upgrade_authority: &Bytes32,
    program_lamports: u64,
    max_data_len: usize,
) -> (r: Result<Vec<solana_instruction::Instruction>, solana_instruction_error::InstructionError>)
    ensures
        r is Ok,
        r matches Ok(v) ==> v@.len() == 2,
{
    let payer = to_pubkey(payer);
    let program = to_pubkey(program_account);
    let buffer = to_pubkey(buffer_account);
    let auth = to_pubkey(upgrade_authority);
    solana_loader_v3_interface::instruction::deploy_with_max_program_len(
        &payer,
        &program,
        &buffer,
        &auth,
        program_lamports,
        max_data_len,
    )
}

/// Relies on solana_loader_v3_interface::instruction::write and
/// Message::new_with_blockhash: one write instruction of `bytes` at `offset`
/// into the buffer account, compiled into a message paid by `payer` against
/// `blockhash`. The write instruction carries three account keys, so message
/// compilation cannot overflow its key counts.
#[verifier::external_body]
pub(crate) fn write_chunk_message(
    buffer_account: &Bytes32,
    authority: &Bytes32,
    payer: &Bytes32,
    offset: u32,
    bytes: &Vec<u8>,
    blockhash: &Bytes32,
) -> (r: solana_message::Message) {
    let hash = solana_hash::Hash::new_from_array(
        blockhash.to_byte_vec().as_slice().try_into().unwrap(),
    );
    let ix = solana_loader_v3_interface::instruction::write(
        &to_pubkey(buffer_account),
        &to_pubkey(authority),
        offset,
        bytes.clone(),
    );
    solana_message::Message::new_with_blockhash(&[ix], Some(&to_pubkey(payer)), &hash)
}

} // verus!
