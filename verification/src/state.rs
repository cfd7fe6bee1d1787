//! Typed domain records decoded from raw ledger account buffers: the stake
//! account state machine, the cluster clock, the stake-history table, and
//! durable-nonce state, together with the account snapshot they come from.

use vstd::prelude::*;

use crate::keys::Bytes32;

verus! {

/// The epoch value that marks "never": an activation epoch of `EPOCH_SENTINEL`
/// means the stake was never activated; a deactivation epoch of
/// `EPOCH_SENTINEL` means deactivation was never requested.
pub const EPOCH_SENTINEL: u64 = u64::MAX;

/// Withdrawal constraints on a stake account: until `unix_timestamp` and
/// `epoch` have both passed, only the custodian may move the funds.
#[derive(Clone, Copy, Debug, PartialEq, Eq, Structural)]
pub struct LockupState {
    pub unix_timestamp: i64,
    pub epoch: u64,
    pub custodian: Bytes32,
}

/// The metadata every initialized stake account carries.
#[derive(Clone, Copy, Debug, PartialEq, Eq, Structural)]
pub struct MetaState {
    pub rent_exempt_reserve: u64,
    pub authorized_staker: Bytes32,
    pub authorized_withdrawer: Bytes32,
    pub lockup: LockupState,
}

/// An active delegation of stake to a vote account. The `reserved` word holds
/// the eight bytes after the deactivation epoch verbatim: the on-chain layout
/// keeps them for compatibility, and re-encoding must reproduce them.
#[derive(Clone, Copy, Debug, PartialEq, Eq, Structural)]
pub struct DelegationState {
    pub voter: Bytes32,
    pub stake_lamports: u64,
    pub activation_epoch: u64,
    pub deactivation_epoch: u64,
    pub reserved: u64,
}

/// The decoded state of a stake account. `credits_observed` and `flags`
/// complete the fixed on-chain layout of the delegated form; the lifecycle
/// guards read only the meta and the delegation.
#[derive(Clone, Copy, Debug, PartialEq, Eq, Structural)]
pub enum StakeState {
    Uninitialized,
    Initialized(MetaState),
    Delegated {
        meta: MetaState,
        delegation: DelegationState,
        credits_observed: u64,
        flags: u8,
    },
    RewardsPool,
}

/// The cluster clock, read fresh from the clock sysvar for every operation.
#[derive(Clone, Copy, Debug, PartialEq, Eq, Structural)]
pub struct ClockView {
    pub epoch: u64,
    pub unix_timestamp: i64,
}

/// One entry of the cluster stake-history table.
#[derive(Clone, Copy, Debug, PartialEq, Eq, Structural)]
pub struct HistoryEntry {
    pub epoch: u64,
    pub effective: u64,
    pub activating: u64,
    pub deactivating: u64,
}

/// The decoded state of a durable-nonce account.
#[derive(Clone, Copy, Debug, PartialEq, Eq, Structural)]
pub enum NonceState {
    Uninitialized,
    Initialized {
        authority: Bytes32,
        nonce_hash: Bytes32,
        lamports_per_signature: u64,
    },
}

/// A decoded durable-nonce account, with the layout version it was stored
/// under: `legacy` is true for the first wire version, false for the current
/// one (whose nonce hashes live in a separate domain).
#[derive(Clone, Copy, Debug, PartialEq, Eq, Structural)]
pub struct NonceView {
    pub legacy: bool,
    pub state: NonceState,
}

/// A point-in-time snapshot of one ledger account, as the transport hands it
/// over. Never mutated locally: every re-read is a fresh fetch.
#[derive(Clone, Debug)]
pub struct AccountView {
    pub owner: Bytes32,
    pub lamports: u64,
    pub data: Vec<u8>,
    pub executable: bool,
    pub rent_epoch: u64,
}

} // verus!
