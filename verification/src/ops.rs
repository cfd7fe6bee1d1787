//! Per-operation composition: decode the fetched state, run the lifecycle
//! guard, and build the ledger instructions. Each plan function is pure over
//! the values the caller fetched; the caller signs and submits what it
//! returns.

use vstd::prelude::*;

use crate::chunk::{chunk_program, spec_chunk_count, Chunk};
use crate::codec::{decode_stake_state, spec_decode_stake_state, DecodeError};
use crate::guard::{check_create, check_deactivate, check_delegate, check_merge, check_split,
    check_withdraw, spec_check_create, spec_check_deactivate, spec_check_delegate,
    spec_check_merge, spec_check_split, spec_check_withdraw, CreateParams, DeactivateParams,
    DelegateParams, GuardRejection, MergeParams, SplitParams, VoteTarget, WithdrawParams};
use crate::instr::{create_account_ixs, create_buffer_ixs, deactivate_ix, delegate_ix, deploy_ixs,
    merge_ixs, split_ixs, withdraw_ix, write_chunk_message};
use crate::keys::{spec_stake_program_id, stake_program_id, Bytes32};
use crate::state::{AccountView, LockupState};

verus! {

/// Why an operation could not be planned: the fetched account data did not
/// decode, or the lifecycle guard refused the transition.
#[derive(Clone, Copy, Debug, PartialEq, Eq, Structural)]
pub enum OpError {
    Decode(DecodeError),
    Guard(GuardRejection),
}

/// What planning a deactivation yields, over the fetched account's owner and
/// raw data: the account must belong to the stake program, decode, and pass
/// the deactivation guard.
pub open spec fn spec_plan_deactivate(
    owner: Bytes32,
    data: Seq<u8>,
    stake_account: Bytes32,
    current_epoch: u64,
    authority: Bytes32,
) -> Result<DeactivateParams, OpError> {
    if owner != spec_stake_program_id() {
        Err(OpError::Guard(GuardRejection::WrongOwner))
    } else {
        match spec_decode_stake_state(data) {
            Err(e) => Err(OpError::Decode(e)),
            Ok(state) => match spec_check_deactivate(
                stake_account,
                state,
                current_epoch,
                authority,
            ) {
                Err(g) => Err(OpError::Guard(g)),
                Ok(p) => Ok(p),
            },
        }
    }
}

/// Plans the deactivation of the stake account whose fetched snapshot is
/// `account`: decodes its state, runs the guard, and on success returns the
/// parameters together with the deactivate instruction.
pub fn plan_deactivate(
    account: &AccountView,
    stake_account: &Bytes32,
    current_epoch: u64,
    authority: &Bytes32,
) -> (r: Result<(DeactivateParams, solana_instruction::Instruction), OpError>)
    ensures
        match r {
            Ok(p) => spec_plan_deactivate(
                account.owner,
                account.data@,
                *stake_account,
                current_epoch,
                *authority,
            ) == Ok::<DeactivateParams, OpError>(p.0),
            Err(e) => spec_plan_deactivate(
                account.owner,
                account.data@,
                *stake_account,
                current_epoch,
                *authority,
            ) == Err::<DeactivateParams, OpError>(e),
        },
{
    if account.owner != stake_program_id() {
        return Err(OpError::Guard(GuardRejection::WrongOwner));
    }
    let state = match decode_stake_state(&account.data) {
        Ok(s) => s,
        Err(e) => {
            return Err(OpError::Decode(e));
        },
    };
    let params = match check_deactivate(stake_account, &state, current_epoch, authority) {
        Ok(p) => p,
        Err(g) => {
            return Err(OpError::Guard(g));
        },
    };
    let ix = deactivate_ix(&params.stake_account, &params.stake_authority);
    Ok((params, ix))
}

/// What planning a withdrawal yields, over the fetched account's owner, raw
/// data and balance.
pub open spec fn spec_plan_withdraw(
    owner: Bytes32,
    data: Seq<u8>,
    balance_lamports: u64,
    stake_account: Bytes32,
    current_epoch: u64,
    authority: Bytes32,
    recipient: Bytes32,
    amount_lamports: u64,
) -> Result<WithdrawParams, OpError> {
    if owner != spec_stake_program_id() {
        Err(OpError::Guard(GuardRejection::WrongOwner))
    } else {
        match spec_decode_stake_state(data) {
            Err(e) => Err(OpError::Decode(e)),
            Ok(state) => match spec_check_withdraw(
                stake_account,
                state,
                current_epoch,
                authority,
                recipient,
                amount_lamports,
                balance_lamports,
            ) {
                Err(g) => Err(OpError::Guard(g)),
                Ok(p) => Ok(p),
            },
        }
    }
}

/// Plans a withdrawal of `amount_lamports` from the stake account whose
/// fetched snapshot is `account`, to `recipient`.
pub fn plan_withdraw(
    account: &AccountView,
    stake_account: &Bytes32,
    current_epoch: u64,
    authority: &Bytes32,
    recipient: &Bytes32,
    amount_lamports: u64,
) -> (r: Result<(WithdrawParams, solana_instruction::Instruction), OpError>)
    ensures
        match r {
            Ok(p) => spec_plan_withdraw(
                account.owner,
                account.data@,
                account.lamports,
                *stake_account,
                current_epoch,
                *authority,
                *recipient,
                amount_lamports,
            ) == Ok::<WithdrawParams, OpError>(p.0),
            Err(e) => spec_plan_withdraw(
                account.owner,
                account.data@,
                account.lamports,
                *stake_account,
                current_epoch,
                *authority,
                *recipient,
                amount_lamports,
            ) == Err::<WithdrawParams, OpError>(e),
        },
{
    if account.owner != stake_program_id() {
        return Err(OpError::Guard(GuardRejection::WrongOwner));
    }
    let state = match decode_stake_state(&account.data) {
        Ok(s) => s,
        Err(e) => {
            return Err(OpError::Decode(e));
        },
    };
    let params = match check_withdraw(
        stake_account,
        &state,
        current_epoch,
        authority,
        recipient,
        amount_lamports,
        account.lamports,
    ) {
        Ok(p) => p,
        Err(g) => {
            return Err(OpError::Guard(g));
        },
    };
    let ix = withdraw_ix(
        &params.stake_account,
        &params.withdraw_authority,
        &params.recipient,
        params.amount_lamports,
    );
    Ok((params, ix))
}

/// What planning a merge yields: the two snapshots must be distinct accounts,
/// both must decode, and the pair must pass the merge guard.
pub open spec fn spec_plan_merge(
    destination: Bytes32,
    source: Bytes32,
    destination_data: Seq<u8>,
    source_data: Seq<u8>,
    authority: Bytes32,
) -> Result<MergeParams, OpError> {
    if destination == source {
        Err(OpError::Guard(GuardRejection::DuplicateAccount))
    } else {
        match spec_decode_stake_state(destination_data) {
            Err(e) => Err(OpError::Decode(e)),
            Ok(destination_state) => match spec_decode_stake_state(source_data) {
                Err(e) => Err(OpError::Decode(e)),
                Ok(source_state) => match spec_check_merge(
                    destination,
                    source,
                    destination_state,
                    source_state,
                    authority,
                ) {
                    Err(g) => Err(OpError::Guard(g)),
                    Ok(p) => Ok(p),
                },
            },
        }
    }
}

/// Plans merging the `source` stake account into `destination`, given both
/// fetched snapshots; on success returns the parameters and the merge
/// instructions.
pub fn plan_merge(
    destination: &Bytes32,
    source: &Bytes32,
    destination_account: &AccountView,
    source_account: &AccountView,
    authority: &Bytes32,
) -> (r: Result<(MergeParams, Vec<solana_instruction::Instruction>), OpError>)
    ensures
        match r {
            Ok(p) => spec_plan_merge(
                *destination,
                *source,
                destination_account.data@,
                source_account.data@,
                *authority,
            ) == Ok::<MergeParams, OpError>(p.0) && p.1@.len() == 1,
            Err(e) => spec_plan_merge(
                *destination,
                *source,
                destination_account.data@,
                source_account.data@,
                *authority,
            ) == Err::<MergeParams, OpError>(e),
        },
{
    if destination == source {
        return Err(OpError::Guard(GuardRejection::DuplicateAccount));
    }
    let destination_state = match decode_stake_state(&destination_account.data) {
        Ok(s) => s,
        Err(e) => {
            return Err(OpError::Decode(e));
        },
    };
    let source_state = match decode_stake_state(&source_account.data) {
        Ok(s) => s,
        Err(e) => {
            return Err(OpError::Decode(e));
        },
    };
    let params = match check_merge(
        destination,
        source,
        &destination_state,
        &source_state,
        authority,
    ) {
        Ok(p) => p,
        Err(g) => {
            return Err(OpError::Guard(g));
        },
    };
    let ixs = merge_ixs(&params.destination, &params.source, &params.stake_authority);
    Ok((params, ixs))
}

/// Plans splitting `amount_lamports` out of `stake_account` into
/// `split_account`; on success returns the parameters and the three split
/// instructions.
pub fn plan_split(
    stake_account: &Bytes32,
    split_account: &Bytes32,
    authority: &Bytes32,
    amount_lamports: u64,
    minimum_delegation: u64,
) -> (r: Result<(SplitParams, Vec<solana_instruction::Instruction>), OpError>)
    ensures
        match r {
            Ok(p) => spec_check_split(
                *stake_account,
                *split_account,
                *authority,
                amount_lamports,
                minimum_delegation,
            ) == Ok::<SplitParams, GuardRejection>(p.0) && p.1@.len() == 3,
            Err(e) => e matches OpError::Guard(g) && spec_check_split(
                *stake_account,
                *split_account,
                *authority,
                amount_lamports,
                minimum_delegation,
            ) == Err::<SplitParams, GuardRejection>(g),
        },
{
    let params = match check_split(
        stake_account,
        split_account,
        authority,
        amount_lamports,
        minimum_delegation,
    ) {
        Ok(p) => p,
        Err(g) => {
            return Err(OpError::Guard(g));
        },
    };
    let ixs = split_ixs(
        &params.stake_account,
        &params.stake_authority,
        params.amount_lamports,
        &params.split_account,
    );
    Ok((params, ixs))
}

/// Plans the creation of a new stake account; on success returns the
/// parameters and the two creation instructions.
pub fn plan_create(
    fee_payer: &Bytes32,
    stake_account: &Bytes32,
    staker: &Bytes32,
    withdrawer: &Bytes32,
    lockup: &LockupState,
    amount_lamports: u64,
    rent_exempt_minimum: u64,
    payer_balance: u64,
    existing_owner: &Option<Bytes32>,
) -> (r: Result<(CreateParams, Vec<solana_instruction::Instruction>), OpError>)
    ensures
        match r {
            Ok(p) => spec_check_create(
                *fee_payer,
                *stake_account,
                *staker,
                *withdrawer,
                amount_lamports,
                rent_exempt_minimum,
                payer_balance,
                *existing_owner,
            ) == Ok::<CreateParams, GuardRejection>(p.0) && p.1@.len() == 2,
            Err(e) => e matches OpError::Guard(g) && spec_check_create(
                *fee_payer,
                *stake_account,
                *staker,
                *withdrawer,
                amount_lamports,
                rent_exempt_minimum,
                payer_balance,
                *existing_owner,
            ) == Err::<CreateParams, GuardRejection>(g),
        },
{
    let params = match check_create(
        fee_payer,
        stake_account,
        staker,
        withdrawer,
        amount_lamports,
        rent_exempt_minimum,
        payer_balance,
        existing_owner,
    ) {
        Ok(p) => p,
        Err(g) => {
            return Err(OpError::Guard(g));
        },
    };
    let ixs = create_account_ixs(
        &params.fee_payer,
        &params.stake_account,
        &params.staker,
        &params.withdrawer,
        lockup,
        params.total_lamports,
    );
    Ok((params, ixs))
}

/// Plans delegating the stake account to a vote account; on success returns
/// the parameters and the delegate instruction.
pub fn plan_delegate(
    stake_account: &Bytes32,
    account_owner: &Bytes32,
    stake_authority: &Bytes32,
    vote_account: &Bytes32,
    target: &Option<VoteTarget>,
    current_slot: u64,
) -> (r: Result<(DelegateParams, solana_instruction::Instruction), OpError>)
    ensures
        match r {
            Ok(p) => spec_check_delegate(
                *stake_account,
                *account_owner,
                *stake_authority,
                *vote_account,
                *target,
                current_slot,
            ) == Ok::<DelegateParams, GuardRejection>(p.0),
            Err(e) => e matches OpError::Guard(g) && spec_check_delegate(
                *stake_account,
                *account_owner,
                *stake_authority,
                *vote_account,
                *target,
                current_slot,
            ) == Err::<DelegateParams, GuardRejection>(g),
        },
{
    let params = match check_delegate(
        stake_account,
        account_owner,
        stake_authority,
        vote_account,
        target,
        current_slot,
    ) {
        Ok(p) => p,
        Err(g) => {
            return Err(OpError::Guard(g));
        },
    };
    let ix = delegate_ix(&params.stake_account, &params.stake_authority, &params.vote_account);
    Ok((params, ix))
}

/// The ledger size of the buffer account that holds a `program_len`-byte
/// binary during upload: the loader's 37-byte buffer metadata, then the
/// program bytes.
pub fn buffer_account_size(program_len: usize) -> (r: usize)
    ensures
        r == if 37 + program_len <= usize::MAX {
            37 + program_len
        } else {
            usize::MAX as int
        },
{
    crate::instr::buffer_space(program_len)
}

/// The ledger size of the program-data account a deployed `program_len`-byte
/// binary ends up in: the loader's 45-byte program-data metadata, then the
/// program bytes.
pub fn programdata_account_size(program_len: usize) -> (r: usize)
    ensures
        r == if 45 + program_len <= usize::MAX {
            45 + program_len
        } else {
            usize::MAX as int
        },
{
    crate::instr::programdata_space(program_len)
}

/// The instructions that create and initialize the upload buffer account.
pub fn plan_create_buffer(
    payer: &Bytes32,
    buffer_account: &Bytes32,
    authority: &Bytes32,
    buffer_rent: u64,
    program_len: usize,
) -> (r: Vec<solana_instruction::Instruction>)
    ensures
        r@.len() == 2,
{
    match create_buffer_ixs(payer, buffer_account, authority, buffer_rent, program_len) {
        Ok(v) => v,
        // The builder's contract rules the error out; the arm only satisfies
        // the type.
        Err(_) => {
            proof {
                assert(false);
            }
            Vec::new()
        },
    }
}

/// The instructions that promote the written buffer into an executable
/// program account, issued only after every write chunk confirmed.
pub fn plan_deploy_finalize(
    payer: &Bytes32,
    program_account: &Bytes32,
    buffer_account: &Bytes32,
    upgrade_authority: &Bytes32,
    programdata_rent: u64,
    max_data_len: usize,
) -> (r: Vec<solana_instruction::Instruction>)
    ensures
        r@.len() == 2,
{
    match deploy_ixs(
        payer,
        program_account,
        buffer_account,
        upgrade_authority,
        programdata_rent,
        max_data_len,
    ) {
        Ok(v) => v,
        // The builder's contract rules the error out; the arm only satisfies
        // the type.
        Err(_) => {
            proof {
                assert(false);
            }
            Vec::new()
        },
    }
}

/// The chunked write plan for a program upload: the chunks of the binary and
/// one unsigned message per chunk, in chunk order.
pub struct WritePlan {
    pub chunks: Vec<Chunk>,
    pub messages: Vec<solana_message::Message>,
}

/// Splits `program` into chunks and builds one write message per chunk, each
/// against the same `blockhash` and fee payer. Chunk `i` covers the bytes of
/// `program` from offset `i * chunk_size` and its message is built from
/// exactly that chunk, so chunks may confirm in any order.
pub fn plan_buffer_writes(
    program: &Vec<u8>,
    chunk_size: usize,
    buffer_account: &Bytes32,
    authority: &Bytes32,
    payer: &Bytes32,
    blockhash: &Bytes32,
) -> (r: WritePlan)
    requires
        chunk_size > 0,
        program@.len() <= u32::MAX,
    ensures
        r.chunks@.len() == spec_chunk_count(program@.len() as int, chunk_size as int),
        r.messages@.len() == r.chunks@.len(),
        forall|i: int|
            0 <= i < r.chunks@.len() ==> (#[trigger] r.chunks@[i]).offset == i * (chunk_size
                as int),
        forall|i: int|
            0 <= i < r.chunks@.len() ==> (#[trigger] r.chunks@[i]).data@ =~= program@.subrange(
                i * (chunk_size as int),
                if (i + 1) * (chunk_size as int) <= program@.len() {
                    (i + 1) * (chunk_size as int)
                } else {
                    program@.len() as int
                },
            ),
{
    let chunks = chunk_program(program, chunk_size);
    let n = chunks.len();
    let mut messages: Vec<solana_message::Message> = Vec::new();
    let mut j: usize = 0;
    while j < n
        invariant
            j <= n == chunks@.len(),
            messages@.len() == j,
        decreases n - j,
    {
        let message = write_chunk_message(
            buffer_account,
            authority,
            payer,
            chunks[j].offset,
            &chunks[j].data,
            blockhash,
        );
        messages.push(message);
        j = j + 1;
    }
    WritePlan { chunks, messages }
}

} // verus!
