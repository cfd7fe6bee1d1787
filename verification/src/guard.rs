//! Pure lifecycle guards: given decoded state plus the epoch, slot and
//! authority context the caller already fetched, each guard decides whether a
//! requested stake transition is legal and computes the parameters the
//! transaction builder needs. No guard performs I/O of its own.

use vstd::prelude::*;

use crate::keys::{spec_stake_program_id, Bytes32};
use crate::state::{DelegationState, StakeState, EPOCH_SENTINEL};

verus! {

/// How far a vote account's root slot may trail the current slot before the
/// validator counts as delinquent.
pub const DELINQUENT_SLOT_DISTANCE: u64 = 128;

/// Why a requested lifecycle transition was refused.
#[derive(Clone, Copy, Debug, PartialEq, Eq, Structural)]
pub enum GuardRejection {
    /// The account is not owned by the stake program.
    WrongOwner,
    /// The caller is not the authority the account names for this operation.
    WrongAuthority,
    /// The account's current state does not admit this transition.
    WrongState,
    /// Deactivated stake whose cooldown has not elapsed; reports how many
    /// epochs remain until the deactivation epoch is passed.
    CooldownNotElapsed { epochs_remaining: u64 },
    /// The delegation target is unusable: it could not be resolved at all
    /// (`not_found`), it has no root slot (`no_root_slot`), or its root slot
    /// trails the current slot by more than the delinquency distance (both
    /// flags false).
    DelinquentTarget { not_found: bool, no_root_slot: bool },
    /// The amount is below a required minimum or above the available balance.
    InsufficientAmount,
    /// Two accounts that must differ are the same.
    DuplicateAccount,
    /// An account already exists at the address a new one would take.
    AlreadyExists,
}

/// Parameters of a legal deactivation: who signs, and the state the account
/// reaches once the deactivation lands.
#[derive(Clone, Copy, Debug, PartialEq, Eq, Structural)]
pub struct DeactivateParams {
    pub stake_account: Bytes32,
    pub stake_authority: Bytes32,
    pub new_state: StakeState,
}

/// What a legal deactivation yields: the delegation's deactivation epoch is
/// set to the current epoch, everything else is kept.
pub open spec fn spec_check_deactivate(
    stake_account: Bytes32,
    state: StakeState,
    current_epoch: u64,
    authority: Bytes32,
) -> Result<DeactivateParams, GuardRejection> {
    match state {
        StakeState::Delegated { meta, delegation, credits_observed, flags } => {
            if delegation.deactivation_epoch != EPOCH_SENTINEL {
                Err(GuardRejection::WrongState)
            } else if meta.authorized_staker != authority {
                Err(GuardRejection::WrongAuthority)
            } else {
                Ok(
                    DeactivateParams {
                        stake_account,
                        stake_authority: authority,
                        new_state: StakeState::Delegated {
                            meta,
                            delegation: DelegationState {
                                deactivation_epoch: current_epoch,
                                ..delegation
                            },
                            credits_observed,
                            flags,
                        },
                    },
                )
            }
        },
        _ => Err(GuardRejection::WrongState),
    }
}

/// Decides whether `authority` may deactivate the stake account in `state` at
/// `current_epoch`. Legal exactly on a delegated account that is not already
/// deactivating, when the caller is the authorized staker.
pub fn check_deactivate(
    stake_account: &Bytes32,
    state: &StakeState,
    current_epoch: u64,
    authority: &Bytes32,
) -> (r: Result<DeactivateParams, GuardRejection>)
    ensures
        r == spec_check_deactivate(*stake_account, *state, current_epoch, *authority),
{
    match state {
        StakeState::Delegated { meta, delegation, credits_observed, flags } => {
            if delegation.deactivation_epoch != EPOCH_SENTINEL {
                Err(GuardRejection::WrongState)
            } else if meta.authorized_staker != *authority {
                Err(GuardRejection::WrongAuthority)
            } else {
                Ok(
                    DeactivateParams {
                        stake_account: *stake_account,
                        stake_authority: *authority,
                        new_state: StakeState::Delegated {
                            meta: *meta,
                            delegation: DelegationState {
                                deactivation_epoch: current_epoch,
                                voter: delegation.voter,
                                stake_lamports: delegation.stake_lamports,
                                activation_epoch: delegation.activation_epoch,
                                reserved: delegation.reserved,
                            },
                            credits_observed: *credits_observed,
                            flags: *flags,
                        },
                    },
                )
            }
        },
        _ => Err(GuardRejection::WrongState),
    }
}

/// Deactivating a delegated, not-yet-deactivating account with the matching
/// authority succeeds and stamps the current epoch; deactivating the
/// resulting state again is refused as `WrongState`, whatever epoch or
/// authority the second attempt uses.
pub proof fn lemma_deactivate_not_repeatable(
    stake_account: Bytes32,
    state: StakeState,
    current_epoch: u64,
    authority: Bytes32,
    later_account: Bytes32,
    later_epoch: u64,
    later_authority: Bytes32,
    p: DeactivateParams,
)
    requires
        current_epoch != EPOCH_SENTINEL,
        spec_check_deactivate(stake_account, state, current_epoch, authority) == Ok::<
            DeactivateParams,
            GuardRejection,
        >(p),
    ensures
        p.new_state matches StakeState::Delegated { delegation, .. } && delegation.deactivation_epoch
            == current_epoch,
        spec_check_deactivate(later_account, p.new_state, later_epoch, later_authority) == Err::<
            DeactivateParams,
            GuardRejection,
        >(GuardRejection::WrongState),
{
}

/// Parameters of a legal withdrawal.
#[derive(Clone, Copy, Debug, PartialEq, Eq, Structural)]
pub struct WithdrawParams {
    pub stake_account: Bytes32,
    pub withdraw_authority: Bytes32,
    pub recipient: Bytes32,
    pub amount_lamports: u64,
}

/// What a legal withdrawal requires. For a delegated account: the caller is
/// the authorized withdrawer, deactivation was requested, and the current
/// epoch is strictly past the deactivation epoch (cooldown elapsed). For an
/// initialized account: only the withdrawer check. Uninitialized accounts and
/// rewards pools never admit withdrawal. In every legal state the requested
/// amount must not exceed the account balance.
pub open spec fn spec_check_withdraw(
    stake_account: Bytes32,
    state: StakeState,
    current_epoch: u64,
    authority: Bytes32,
    recipient: Bytes32,
    amount_lamports: u64,
    balance_lamports: u64,
) -> Result<WithdrawParams, GuardRejection> {
    let state_check: Result<(), GuardRejection> = match state {
        StakeState::Delegated { meta, delegation, .. } => {
            if meta.authorized_withdrawer != authority {
                Err(GuardRejection::WrongAuthority)
            } else if delegation.deactivation_epoch == EPOCH_SENTINEL {
                Err(GuardRejection::WrongState)
            } else if current_epoch <= delegation.deactivation_epoch {
                Err(
                    GuardRejection::CooldownNotElapsed {
                        epochs_remaining: (delegation.deactivation_epoch - current_epoch) as u64,
                    },
                )
            } else {
                Ok(())
            }
        },
        StakeState::Initialized(meta) => {
            if meta.authorized_withdrawer != authority {
                Err(GuardRejection::WrongAuthority)
            } else {
                Ok(())
            }
        },
        StakeState::Uninitialized => Err(GuardRejection::WrongState),
        StakeState::RewardsPool => Err(GuardRejection::WrongState),
    };
    match state_check {
        Err(e) => Err(e),
        Ok(_) => {
            if amount_lamports > balance_lamports {
                Err(GuardRejection::InsufficientAmount)
            } else {
                Ok(
                    WithdrawParams {
                        stake_account,
                        withdraw_authority: authority,
                        recipient,
                        amount_lamports,
                    },
                )
            }
        },
    }
}

/// Decides whether `authority` may withdraw `amount_lamports` from the stake
/// account in `state` at `current_epoch`.
pub fn check_withdraw(
    stake_account: &Bytes32,
    state: &StakeState,
    current_epoch: u64,
    authority: &Bytes32,
    recipient: &Bytes32,
    amount_lamports: u64,
    balance_lamports: u64,
) -> (r: Result<WithdrawParams, GuardRejection>)
    ensures
        r == spec_check_withdraw(
            *stake_account,
            *state,
            current_epoch,
            *authority,
            *recipient,
            amount_lamports,
            balance_lamports,
        ),
{
    match state {
        StakeState::Delegated { meta, delegation, .. } => {
            if meta.authorized_withdrawer != *authority {
                return Err(GuardRejection::WrongAuthority);
            }
            if delegation.deactivation_epoch == EPOCH_SENTINEL {
                return Err(GuardRejection::WrongState);
            }
            if current_epoch <= delegation.deactivation_epoch {
                return Err(
                    GuardRejection::CooldownNotElapsed {
                        epochs_remaining: delegation.deactivation_epoch - current_epoch,
                    },
                );
            }
        },
        StakeState::Initialized(meta) => {
            if meta.authorized_withdrawer != *authority {
                return Err(GuardRejection::WrongAuthority);
            }
        },
        StakeState::Uninitialized => {
            return Err(GuardRejection::WrongState);
        },
        StakeState::RewardsPool => {
            return Err(GuardRejection::WrongState);
        },
    }
    if amount_lamports > balance_lamports {
        return Err(GuardRejection::InsufficientAmount);
    }
    Ok(
        WithdrawParams {
            stake_account: *stake_account,
            withdraw_authority: *authority,
            recipient: *recipient,
            amount_lamports,
        },
    )
}

/// Withdrawal from a deactivating account is refused while the current epoch
/// has not passed the deactivation epoch (at equality, with zero epochs
/// remaining), and is owed one epoch later whenever the withdrawer matches
/// and the amount fits the balance.
pub proof fn lemma_withdraw_cooldown_boundary(
    stake_account: Bytes32,
    state: StakeState,
    authority: Bytes32,
    recipient: Bytes32,
    amount_lamports: u64,
    balance_lamports: u64,
    deactivation_epoch: u64,
)
    requires
        state matches StakeState::Delegated { meta, delegation, .. } && meta.authorized_withdrawer
            == authority && delegation.deactivation_epoch == deactivation_epoch,
        deactivation_epoch != EPOCH_SENTINEL,
        amount_lamports <= balance_lamports,
    ensures
        spec_check_withdraw(
            stake_account,
            state,
            deactivation_epoch,
            authority,
            recipient,
            amount_lamports,
            balance_lamports,
        ) == Err::<WithdrawParams, GuardRejection>(
            GuardRejection::CooldownNotElapsed { epochs_remaining: 0 },
        ),
        spec_check_withdraw(
            stake_account,
            state,
            (deactivation_epoch + 1) as u64,
            authority,
            recipient,
            amount_lamports,
            balance_lamports,
        ) == Ok::<WithdrawParams, GuardRejection>(
            WithdrawParams {
                stake_account,
                withdraw_authority: authority,
                recipient,
                amount_lamports,
            },
        ),
{
}

/// Parameters of a legal merge.
#[derive(Clone, Copy, Debug, PartialEq, Eq, Structural)]
pub struct MergeParams {
    pub destination: Bytes32,
    pub source: Bytes32,
    pub stake_authority: Bytes32,
}

/// Whether one side of a merge is in a mergeable state (initialized or
/// delegated).
pub open spec fn spec_mergeable(state: StakeState) -> bool {
    match state {
        StakeState::Initialized(_) => true,
        StakeState::Delegated { .. } => true,
        _ => false,
    }
}

/// What a legal merge requires: distinct accounts, both sides initialized or
/// delegated, the caller holding the source's stake authority, and a source
/// that is not mid-deactivation.
pub open spec fn spec_check_merge(
    destination: Bytes32,
    source: Bytes32,
    destination_state: StakeState,
    source_state: StakeState,
    authority: Bytes32,
) -> Result<MergeParams, GuardRejection> {
    if destination == source {
        Err(GuardRejection::DuplicateAccount)
    } else if !spec_mergeable(destination_state) {
        Err(GuardRejection::WrongState)
    } else {
        match source_state {
            StakeState::Initialized(meta) => {
                if meta.authorized_staker != authority {
                    Err(GuardRejection::WrongAuthority)
                } else {
                    Ok(MergeParams { destination, source, stake_authority: authority })
                }
            },
            StakeState::Delegated { meta, delegation, .. } => {
                if meta.authorized_staker != authority {
                    Err(GuardRejection::WrongAuthority)
                } else if delegation.deactivation_epoch != EPOCH_SENTINEL {
                    Err(GuardRejection::WrongState)
                } else {
                    Ok(MergeParams { destination, source, stake_authority: authority })
                }
            },
            _ => Err(GuardRejection::WrongState),
        }
    }
}

/// Decides whether `authority` may merge the `source` stake account into
/// `destination`.
pub fn check_merge(
    destination: &Bytes32,
    source: &Bytes32,
    destination_state: &StakeState,
    source_state: &StakeState,
    authority: &Bytes32,
) -> (r: Result<MergeParams, GuardRejection>)
    ensures
        r == spec_check_merge(
            *destination,
            *source,
            *destination_state,
            *source_state,
            *authority,
        ),
{
    if destination == source {
        return Err(GuardRejection::DuplicateAccount);
    }
    match destination_state {
        StakeState::Initialized(_) => {},
        StakeState::Delegated { .. } => {},
        _ => {
            return Err(GuardRejection::WrongState);
        },
    }
    match source_state {
        StakeState::Initialized(meta) => {
            if meta.authorized_staker != *authority {
                return Err(GuardRejection::WrongAuthority);
            }
        },
        StakeState::Delegated { meta, delegation, .. } => {
            if meta.authorized_staker != *authority {
                return Err(GuardRejection::WrongAuthority);
            }
            if delegation.deactivation_epoch != EPOCH_SENTINEL {
                return Err(GuardRejection::WrongState);
            }
        },
        _ => {
            return Err(GuardRejection::WrongState);
        },
    }
    Ok(MergeParams { destination: *destination, source: *source, stake_authority: *authority })
}

/// A merge whose source names a different authorized staker than the signing
/// authority is refused as `WrongAuthority`; a merge of an account with
/// itself is refused as `DuplicateAccount` before any state is examined.
pub proof fn lemma_merge_authority_and_duplicate(
    destination: Bytes32,
    source: Bytes32,
    destination_state: StakeState,
    source_state: StakeState,
    authority: Bytes32,
    any_destination_state: StakeState,
    any_source_state: StakeState,
)
    requires
        destination != source,
        spec_mergeable(destination_state),
        spec_mergeable(source_state),
        match source_state {
            StakeState::Initialized(meta) => meta.authorized_staker != authority,
            StakeState::Delegated { meta, .. } => meta.authorized_staker != authority,
            _ => false,
        },
    ensures
        spec_check_merge(destination, source, destination_state, source_state, authority) == Err::<
            MergeParams,
            GuardRejection,
        >(GuardRejection::WrongAuthority),
        spec_check_merge(source, source, any_destination_state, any_source_state, authority)
            == Err::<MergeParams, GuardRejection>(GuardRejection::DuplicateAccount),
{
}

/// Parameters of a legal split.
#[derive(Clone, Copy, Debug, PartialEq, Eq, Structural)]
pub struct SplitParams {
    pub stake_account: Bytes32,
    pub split_account: Bytes32,
    pub stake_authority: Bytes32,
    pub amount_lamports: u64,
}

/// What a legal split requires: distinct accounts and an amount at or above
/// the cluster's minimum stake delegation.
pub open spec fn spec_check_split(
    stake_account: Bytes32,
    split_account: Bytes32,
    authority: Bytes32,
    amount_lamports: u64,
    minimum_delegation: u64,
) -> Result<SplitParams, GuardRejection> {
    if stake_account == split_account {
        Err(GuardRejection::DuplicateAccount)
    } else if amount_lamports < minimum_delegation {
        Err(GuardRejection::InsufficientAmount)
    } else {
        Ok(SplitParams { stake_account, split_account, stake_authority: authority, amount_lamports })
    }
}

/// Decides whether `amount_lamports` may be split out of `stake_account` into
/// `split_account`, given the cluster's minimum stake delegation.
pub fn check_split(
    stake_account: &Bytes32,
    split_account: &Bytes32,
    authority: &Bytes32,
    amount_lamports: u64,
    minimum_delegation: u64,
) -> (r: Result<SplitParams, GuardRejection>)
    ensures
        r == spec_check_split(
            *stake_account,
            *split_account,
            *authority,
            amount_lamports,
            minimum_delegation,
        ),
{
    if stake_account == split_account {
        Err(GuardRejection::DuplicateAccount)
    } else if amount_lamports < minimum_delegation {
        Err(GuardRejection::InsufficientAmount)
    } else {
        Ok(
            SplitParams {
                stake_account: *stake_account,
                split_account: *split_account,
                stake_authority: *authority,
                amount_lamports,
            },
        )
    }
}

/// A split requesting fewer lamports than the minimum delegation is refused
/// as `InsufficientAmount`.
pub proof fn lemma_split_below_minimum(
    stake_account: Bytes32,
    split_account: Bytes32,
    authority: Bytes32,
    amount_lamports: u64,
    minimum_delegation: u64,
)
    requires
        stake_account != split_account,
        amount_lamports < minimum_delegation,
    ensures
        spec_check_split(stake_account, split_account, authority, amount_lamports, minimum_delegation)
            == Err::<SplitParams, GuardRejection>(GuardRejection::InsufficientAmount),
{
}

/// Parameters of a legal stake-account creation: the new account is funded
/// with the requested stake plus the rent-exempt reserve.
#[derive(Clone, Copy, Debug, PartialEq, Eq, Structural)]
pub struct CreateParams {
    pub fee_payer: Bytes32,
    pub stake_account: Bytes32,
    pub staker: Bytes32,
    pub withdrawer: Bytes32,
    pub total_lamports: u64,
}

/// What a legal creation requires: the fee payer can cover the stake amount
/// plus the rent-exempt minimum (an amount so large the sum leaves `u64` can
/// never be covered), the new address differs from the fee payer, and no
/// account exists there yet; an existing stake account and an existing
/// foreign account are told apart.
pub open spec fn spec_check_create(
    fee_payer: Bytes32,
    stake_account: Bytes32,
    staker: Bytes32,
    withdrawer: Bytes32,
    amount_lamports: u64,
    rent_exempt_minimum: u64,
    payer_balance: u64,
    existing_owner: Option<Bytes32>,
) -> Result<CreateParams, GuardRejection> {
    if payer_balance < amount_lamports + rent_exempt_minimum {
        Err(GuardRejection::InsufficientAmount)
    } else if stake_account == fee_payer {
        Err(GuardRejection::DuplicateAccount)
    } else {
        match existing_owner {
            Some(owner) => {
                if owner == spec_stake_program_id() {
                    Err(GuardRejection::AlreadyExists)
                } else {
                    Err(GuardRejection::WrongOwner)
                }
            },
            None => Ok(
                CreateParams {
                    fee_payer,
                    stake_account,
                    staker,
                    withdrawer,
                    total_lamports: (amount_lamports + rent_exempt_minimum) as u64,
                },
            ),
        }
    }
}

/// Decides whether a new stake account may be created at `stake_account`,
/// funded by `fee_payer` with `amount_lamports` plus the rent-exempt minimum.
/// `existing_owner` is the owner of whatever account already sits at that
/// address, if one does.
pub fn check_create(
    fee_payer: &Bytes32,
    stake_account: &Bytes32,
    staker: &Bytes32,
    withdrawer: &Bytes32,
    amount_lamports: u64,
    rent_exempt_minimum: u64,
    payer_balance: u64,
    existing_owner: &Option<Bytes32>,
) -> (r: Result<CreateParams, GuardRejection>)
    ensures
        r == spec_check_create(
            *fee_payer,
            *stake_account,
            *staker,
            *withdrawer,
            amount_lamports,
            rent_exempt_minimum,
            payer_balance,
            *existing_owner,
        ),
{
    let total = match amount_lamports.checked_add(rent_exempt_minimum) {
        Some(t) => t,
        None => {
            return Err(GuardRejection::InsufficientAmount);
        },
    };
    if payer_balance < total {
        return Err(GuardRejection::InsufficientAmount);
    }
    if stake_account == fee_payer {
        return Err(GuardRejection::DuplicateAccount);
    }
    match existing_owner {
        Some(owner) => {
            if *owner == crate::keys::stake_program_id() {
                Err(GuardRejection::AlreadyExists)
            } else {
                Err(GuardRejection::WrongOwner)
            }
        },
        None => Ok(
            CreateParams {
                fee_payer: *fee_payer,
                stake_account: *stake_account,
                staker: *staker,
                withdrawer: *withdrawer,
                total_lamports: total,
            },
        ),
    }
}

/// Parameters of a legal delegation.
#[derive(Clone, Copy, Debug, PartialEq, Eq, Structural)]
pub struct DelegateParams {
    pub stake_account: Bytes32,
    pub stake_authority: Bytes32,
    pub vote_account: Bytes32,
}

/// What the caller learned about the delegation target from the validator
/// listing: its activated stake and its root slot.
#[derive(Clone, Copy, Debug, PartialEq, Eq, Structural)]
pub struct VoteTarget {
    pub activated_stake: u64,
    pub root_slot: u64,
}

/// What a legal delegation requires: the stake account is owned by the stake
/// program, and the vote account resolves and is not delinquent. A target is
/// acceptable when its root slot is within `DELINQUENT_SLOT_DISTANCE` of the
/// current slot or it has no activated stake at all; otherwise a zero root
/// slot is reported as "no root slot" and any other stale root slot as
/// delinquency.
pub open spec fn spec_check_delegate(
    stake_account: Bytes32,
    account_owner: Bytes32,
    stake_authority: Bytes32,
    vote_account: Bytes32,
    target: Option<VoteTarget>,
    current_slot: u64,
) -> Result<DelegateParams, GuardRejection> {
    if account_owner != spec_stake_program_id() {
        Err(GuardRejection::WrongOwner)
    } else {
        match target {
            None => Err(GuardRejection::DelinquentTarget { not_found: true, no_root_slot: false }),
            Some(t) => {
                let min_root_slot = if current_slot >= DELINQUENT_SLOT_DISTANCE {
                    (current_slot - DELINQUENT_SLOT_DISTANCE) as u64
                } else {
                    0u64
                };
                if t.root_slot >= min_root_slot || t.activated_stake == 0 {
                    Ok(DelegateParams { stake_account, stake_authority, vote_account })
                } else if t.root_slot == 0 {
                    Err(
                        GuardRejection::DelinquentTarget {
                            not_found: false,
                            no_root_slot: true,
                        },
                    )
                } else {
                    Err(
                        GuardRejection::DelinquentTarget {
                            not_found: false,
                            no_root_slot: false,
                        },
                    )
                }
            },
        }
    }
}

/// Decides whether stake may be delegated from `stake_account` to
/// `vote_account`, given the account's owner, the resolved target (if any),
/// and the current slot.
pub fn check_delegate(
    stake_account: &Bytes32,
    account_owner: &Bytes32,
    stake_authority: &Bytes32,
    vote_account: &Bytes32,
    target: &Option<VoteTarget>,
    current_slot: u64,
) -> (r: Result<DelegateParams, GuardRejection>)
    ensures
        r == spec_check_delegate(
            *stake_account,
            *account_owner,
            *stake_authority,
            *vote_account,
            *target,
            current_slot,
        ),
{
    if *account_owner != crate::keys::stake_program_id() {
        return Err(GuardRejection::WrongOwner);
    }
    match target {
        None => Err(GuardRejection::DelinquentTarget { not_found: true, no_root_slot: false }),
        Some(t) => {
            let min_root_slot = if current_slot >= DELINQUENT_SLOT_DISTANCE {
                current_slot - DELINQUENT_SLOT_DISTANCE
            } else {
                0
            };
            if t.root_slot >= min_root_slot || t.activated_stake == 0 {
                Ok(
                    DelegateParams {
                        stake_account: *stake_account,
                        stake_authority: *stake_authority,
                        vote_account: *vote_account,
                    },
                )
            } else if t.root_slot == 0 {
                Err(GuardRejection::DelinquentTarget { not_found: false, no_root_slot: true })
            } else {
                Err(GuardRejection::DelinquentTarget { not_found: false, no_root_slot: false })
            }
        },
    }
}

} // verus!
