//! Tracking a bulk submission: one status per chunk, advanced by the events
//! the transport reports (confirmed, expired, failed). A chunk whose
//! blockhash expired is resubmitted up to `MAX_RESUBMISSIONS` times; past the
//! bound it is a terminal failure. The batch as a whole succeeds only when
//! every chunk confirmed — the engine never drops a failed chunk silently.

use vstd::prelude::*;

verus! {

/// How many times one chunk may be re-signed and resubmitted after its
/// blockhash expired, matching the cluster's observed retry policy.
pub const MAX_RESUBMISSIONS: u64 = 5;

/// Where one chunk of a bulk submission stands.
#[derive(Clone, Copy, Debug, PartialEq, Eq, Structural)]
pub enum ChunkStatus {
    /// Still in flight; counts how many resubmissions it has used.
    Pending { resubmissions: u64 },
    /// The ledger confirmed the chunk's transaction.
    Confirmed,
    /// Terminal failure: rejected by the ledger, or expired past the
    /// resubmission bound.
    Failed,
}

/// Whether a status is terminal (no further event is expected for it).
pub open spec fn spec_is_terminal(c: ChunkStatus) -> bool {
    match c {
        ChunkStatus::Pending { .. } => false,
        ChunkStatus::Confirmed => true,
        ChunkStatus::Failed => true,
    }
}

/// Whether every chunk has reached a terminal status.
pub open spec fn spec_all_terminal(s: Seq<ChunkStatus>) -> bool {
    forall|i: int| 0 <= i < s.len() ==> spec_is_terminal(#[trigger] s[i])
}

/// How many chunks ended in terminal failure.
pub open spec fn spec_failure_count(s: Seq<ChunkStatus>) -> int
    decreases s.len(),
{
    if s.len() == 0 {
        0
    } else {
        spec_failure_count(s.drop_last()) + if s.last() is Failed {
            1int
        } else {
            0int
        }
    }
}

/// What an expiry does to one status: a pending chunk with resubmissions left
/// is queued again with its counter raised; one at the bound fails; terminal
/// statuses are unchanged.
pub open spec fn spec_after_expiry(s: Seq<ChunkStatus>, i: int) -> Seq<ChunkStatus> {
    match s[i] {
        ChunkStatus::Pending { resubmissions } => {
            if resubmissions < MAX_RESUBMISSIONS {
                s.update(i, ChunkStatus::Pending { resubmissions: (resubmissions + 1) as u64 })
            } else {
                s.update(i, ChunkStatus::Failed)
            }
        },
        _ => s,
    }
}

/// What a confirmation does to one status: a pending chunk confirms; terminal
/// statuses are unchanged.
pub open spec fn spec_after_confirmation(s: Seq<ChunkStatus>, i: int) -> Seq<ChunkStatus> {
    match s[i] {
        ChunkStatus::Pending { .. } => s.update(i, ChunkStatus::Confirmed),
        _ => s,
    }
}

/// The per-chunk progress of one bulk submission.
pub struct BulkDelivery {
    statuses: Vec<ChunkStatus>,
}

impl BulkDelivery {
    /// The statuses, chunk by chunk.
    pub closed spec fn view(&self) -> Seq<ChunkStatus> {
        self.statuses@
    }

    /// Starts tracking `chunk_count` chunks, none submitted yet.
    pub fn new(chunk_count: usize) -> (r: Self)
        ensures
            r@.len() == chunk_count,
            forall|i: int|
                0 <= i < chunk_count ==> #[trigger] r@[i] == (ChunkStatus::Pending {
                    resubmissions: 0u64,
                }),
    {
        let mut statuses: Vec<ChunkStatus> = Vec::new();
        let mut j: usize = 0;
        while j < chunk_count
            invariant
                j <= chunk_count,
                statuses@.len() == j,
                forall|i: int|
                    0 <= i < j ==> #[trigger] statuses@[i] == (ChunkStatus::Pending {
                        resubmissions: 0u64,
                    }),
            decreases chunk_count - j,
        {
            statuses.push(ChunkStatus::Pending { resubmissions: 0 });
            j = j + 1;
        }
        BulkDelivery { statuses }
    }

    /// How many chunks this delivery tracks.
    pub fn chunk_count(&self) -> (n: usize)
        ensures
            n == self@.len(),
    {
        self.statuses.len()
    }

    /// The status of chunk `i`.
    pub fn status(&self, i: usize) -> (c: ChunkStatus)
        requires
            i < self@.len(),
        ensures
            c == self@[i as int],
    {
        self.statuses[i]
    }

    /// Records that chunk `i` confirmed.
    pub fn record_confirmed(&mut self, i: usize)
        requires
            i < old(self)@.len(),
            old(self)@[i as int] is Pending,
        ensures
            final(self)@ =~= spec_after_confirmation(old(self)@, i as int),
            final(self)@ =~= old(self)@.update(i as int, ChunkStatus::Confirmed),
    {
        self.statuses.set(i, ChunkStatus::Confirmed);
    }

    /// Records that chunk `i` failed terminally (the ledger rejected it).
    pub fn record_failed(&mut self, i: usize)
        requires
            i < old(self)@.len(),
            old(self)@[i as int] is Pending,
        ensures
            final(self)@ =~= old(self)@.update(i as int, ChunkStatus::Failed),
    {
        self.statuses.set(i, ChunkStatus::Failed);
    }

    /// Records that chunk `i`'s blockhash expired before confirmation.
    /// Returns whether the chunk is to be re-signed and resubmitted; when the
    /// resubmission bound is exhausted, the chunk fails instead.
    pub fn record_expired(&mut self, i: usize) -> (resubmit: bool)
        requires
            i < old(self)@.len(),
            old(self)@[i as int] is Pending,
        ensures
            final(self)@ =~= spec_after_expiry(old(self)@, i as int),
            resubmit == (old(self)@[i as int] matches ChunkStatus::Pending { resubmissions }
                && resubmissions < MAX_RESUBMISSIONS),
    {
        match self.statuses[i] {
            ChunkStatus::Pending { resubmissions } => {
                if resubmissions < MAX_RESUBMISSIONS {
                    self.statuses.set(
                        i,
                        ChunkStatus::Pending { resubmissions: resubmissions + 1 },
                    );
                    true
                } else {
                    self.statuses.set(i, ChunkStatus::Failed);
                    false
                }
            },
            _ => {
                false
            },
        }
    }

    /// Whether every chunk has reached a terminal status.
    pub fn is_complete(&self) -> (r: bool)
        ensures
            r == spec_all_terminal(self@),
    {
        let n = self.statuses.len();
        let mut j: usize = 0;
        while j < n
            invariant
                j <= n == self@.len(),
                forall|i: int| 0 <= i < j ==> spec_is_terminal(#[trigger] self@[i]),
            decreases n - j,
        {
            match self.statuses[j] {
                ChunkStatus::Pending { .. } => {
                    return false;
                },
                _ => {},
            }
            j = j + 1;
        }
        true
    }

    /// How many chunks ended in terminal failure.
    pub fn failure_count(&self) -> (n: u64)
        ensures
            n == spec_failure_count(self@),
    {
        let len = self.statuses.len();
        let mut count: u64 = 0;
        let mut j: usize = 0;
        while j < len
            invariant
                j <= len == self@.len(),
                count <= j,
                count == spec_failure_count(self@.take(j as int)),
            decreases len - j,
        {
            proof {
                assert(self@.take(j as int + 1).drop_last() =~= self@.take(j as int));
                assert(self@.take(j as int + 1).last() == self@[j as int]);
            }
            match self.statuses[j] {
                ChunkStatus::Failed => {
                    count = count + 1;
                },
                _ => {},
            }
            j = j + 1;
        }
        proof {
            assert(self@.take(len as int) =~= self@);
        }
        count
    }

    /// The batch outcome once every chunk is terminal: success exactly when
    /// zero chunks failed, otherwise the count of irrecoverable failures.
    pub fn batch_result(&self) -> (r: Result<(), u64>)
        requires
            spec_all_terminal(self@),
        ensures
            match r {
                Ok(_) => spec_failure_count(self@) == 0,
                Err(n) => n == spec_failure_count(self@) && n > 0,
            },
    {
        let failures = self.failure_count();
        if failures == 0 {
            Ok(())
        } else {
            Err(failures)
        }
    }
}

/// Updating one chunk's status moves the failure count by exactly the change
/// at that chunk.
pub proof fn lemma_failure_count_update(s: Seq<ChunkStatus>, i: int, c: ChunkStatus)
    requires
        0 <= i < s.len(),
    ensures
        spec_failure_count(s.update(i, c)) == spec_failure_count(s) + (if c is Failed {
            1int
        } else {
            0int
        }) - (if s[i] is Failed {
            1int
        } else {
            0int
        }),
    decreases s.len(),
{
    let t = s.update(i, c);
    if i == s.len() - 1 {
        assert(t.drop_last() =~= s.drop_last());
    } else {
        assert(t.drop_last() =~= s.drop_last().update(i, c));
        lemma_failure_count_update(s.drop_last(), i, c);
    }
}

/// A sequence with no failed chunk has failure count zero.
pub proof fn lemma_no_failures(s: Seq<ChunkStatus>)
    requires
        forall|i: int| 0 <= i < s.len() ==> !(#[trigger] s[i] is Failed),
    ensures
        spec_failure_count(s) == 0,
    decreases s.len(),
{
    if s.len() > 0 {
        lemma_no_failures(s.drop_last());
    }
}

/// A chunk that expires with resubmissions left stays pending, and its later
/// confirmation still completes the batch: when every other chunk already
/// confirmed, the batch reports success with zero failures.
pub proof fn lemma_expiry_then_confirmation_succeeds(s: Seq<ChunkStatus>, k: int, r: u64)
    requires
        0 <= k < s.len(),
        s[k] == (ChunkStatus::Pending { resubmissions: r }),
        r < MAX_RESUBMISSIONS,
        forall|j: int| 0 <= j < s.len() && j != k ==> #[trigger] s[j] == ChunkStatus::Confirmed,
    ensures
        spec_after_expiry(s, k)[k] == (ChunkStatus::Pending { resubmissions: (r + 1) as u64 }),
        spec_all_terminal(spec_after_confirmation(spec_after_expiry(s, k), k)),
        spec_failure_count(spec_after_confirmation(spec_after_expiry(s, k), k)) == 0,
{
    let s1 = spec_after_expiry(s, k);
    let s2 = spec_after_confirmation(s1, k);
    assert(s2 =~= s.update(k, ChunkStatus::Pending { resubmissions: (r + 1) as u64 }).update(
        k,
        ChunkStatus::Confirmed,
    ));
    assert(forall|i: int| 0 <= i < s2.len() ==> !(#[trigger] s2[i] is Failed));
    lemma_no_failures(s2);
}

/// A chunk that expires past the resubmission bound is the batch's one
/// failure: with every other chunk confirmed, one more expiry on a chunk that
/// has used all its resubmissions leaves a complete batch reporting exactly
/// one failure.
pub proof fn lemma_exhausted_chunk_single_failure(s: Seq<ChunkStatus>, k: int)
    requires
        0 <= k < s.len(),
        s[k] == (ChunkStatus::Pending { resubmissions: MAX_RESUBMISSIONS }),
        forall|j: int| 0 <= j < s.len() && j != k ==> #[trigger] s[j] == ChunkStatus::Confirmed,
    ensures
        spec_after_expiry(s, k)[k] == ChunkStatus::Failed,
        spec_all_terminal(spec_after_expiry(s, k)),
        spec_failure_count(spec_after_expiry(s, k)) == 1,
{
    let s1 = spec_after_expiry(s, k);
    assert(s1 =~= s.update(k, ChunkStatus::Failed));
    lemma_failure_count_update(s, k, ChunkStatus::Failed);
    assert(forall|i: int| 0 <= i < s.len() ==> !(#[trigger] s[i] is Failed));
    lemma_no_failures(s);
}

/// Expiring `MAX_RESUBMISSIONS` times in a row leaves a chunk still pending
/// (each expiry consumed one resubmission); the next expiry fails it. So a
/// chunk that expires once and confirms on resubmission succeeds, while one
/// that keeps expiring fails exactly when the bound is exhausted.
pub proof fn lemma_expiry_budget(s: Seq<ChunkStatus>, k: int)
    requires
        0 <= k < s.len(),
        s[k] == (ChunkStatus::Pending { resubmissions: 0u64 }),
        MAX_RESUBMISSIONS == 5,
    ensures
        ({
            let s5 = spec_after_expiry(
                spec_after_expiry(
                    spec_after_expiry(spec_after_expiry(spec_after_expiry(s, k), k), k),
                    k,
                ),
                k,
            );
            s5[k] == (ChunkStatus::Pending { resubmissions: MAX_RESUBMISSIONS })
                && spec_after_expiry(s5, k)[k] == ChunkStatus::Failed
        }),
{
    let s1 = spec_after_expiry(s, k);
    let s2 = spec_after_expiry(s1, k);
    let s3 = spec_after_expiry(s2, k);
    let s4 = spec_after_expiry(s3, k);
    let s5 = spec_after_expiry(s4, k);
    assert(s1[k] == (ChunkStatus::Pending { resubmissions: 1u64 }));
    assert(s2[k] == (ChunkStatus::Pending { resubmissions: 2u64 }));
    assert(s3[k] == (ChunkStatus::Pending { resubmissions: 3u64 }));
    assert(s4[k] == (ChunkStatus::Pending { resubmissions: 4u64 }));
    assert(s5[k] == (ChunkStatus::Pending { resubmissions: 5u64 }));
}

} // verus!
