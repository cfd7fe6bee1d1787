//! Resolving a vote account among the cluster's current and delinquent
//! validators, as the validator listing returns them.

use vstd::prelude::*;

use crate::keys::Bytes32;

verus! {

/// One validator's vote account, as reported by the cluster.
#[derive(Clone, Copy, Debug, PartialEq, Eq, Structural)]
pub struct VoteInfo {
    pub vote_key: Bytes32,
    pub node_key: Bytes32,
    pub activated_stake: u64,
    pub root_slot: u64,
    pub last_vote: u64,
    pub commission: u8,
}

/// Whether `list` holds an entry for `key`.
pub open spec fn spec_has_vote_key(list: Seq<VoteInfo>, key: Bytes32) -> bool {
    exists|i: int| 0 <= i < list.len() && (#[trigger] list[i]).vote_key == key
}

/// Whether `v` is the first entry of `list` carrying `key`.
pub open spec fn spec_first_with_key(list: Seq<VoteInfo>, key: Bytes32, v: VoteInfo) -> bool {
    exists|i: int|
        0 <= i < list.len() && (#[trigger] list[i]) == v && v.vote_key == key && (forall|h: int|
            0 <= h < i ==> (#[trigger] list[h]).vote_key != key)
}

/// Finds the first entry of `list` whose vote key is `key`.
fn find_vote_account(list: &Vec<VoteInfo>, key: &Bytes32) -> (r: Option<VoteInfo>)
    ensures
        match r {
            Some(v) => spec_first_with_key(list@, *key, v),
            None => !spec_has_vote_key(list@, *key),
        },
{
    let n = list.len();
    let mut j: usize = 0;
    while j < n
        invariant
            j <= n == list@.len(),
            forall|h: int| 0 <= h < j ==> (#[trigger] list@[h]).vote_key != key,
        decreases n - j,
    {
        if list[j].vote_key == *key {
            return Some(list[j]);
        }
        j = j + 1;
    }
    None
}

/// Resolves `key` among the current validators first, then the delinquent
/// ones. Returns the first matching entry and whether it was found among the
/// current set.
pub fn select_vote_account(
    current: &Vec<VoteInfo>,
    delinquent: &Vec<VoteInfo>,
    key: &Bytes32,
) -> (r: Option<(VoteInfo, bool)>)
    ensures
        match r {
            Some(pair) => {
                if pair.1 {
                    spec_first_with_key(current@, *key, pair.0)
                } else {
                    !spec_has_vote_key(current@, *key) && spec_first_with_key(
                        delinquent@,
                        *key,
                        pair.0,
                    )
                }
            },
            None => !spec_has_vote_key(current@, *key) && !spec_has_vote_key(delinquent@, *key),
        },
{
    match find_vote_account(current, key) {
        Some(v) => Some((v, true)),
        None => {
            match find_vote_account(delinquent, key) {
                Some(v) => Some((v, false)),
                None => None,
            }
        },
    }
}

} // verus!
