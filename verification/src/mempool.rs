//! Mempool panel: the live-feed aggregator fed by the push subscription and
//! the snapshot fetched from the node on each refresh cycle.
//!
//! The aggregator owns the running state of the feed: how many transactions
//! were seen, how many were rejected and for which reason, and the most
//! recent incoming transactions. The subscription worker is its sole
//! writer; the poll path only reads consistent copies.

use vstd::prelude::*;

use crate::arith::{lemma_elem_le_sum, lemma_sum_update_inc, saturating_inc, sum_of};
use crate::history::{fifo_push, BoundedHistory};
use crate::text::{shorten_hex, spec_shorten_hex};
use ckb_jsonrpc_types::PoolTransactionReject;

verus! {

/// How many characters of a transaction hash are kept in front of the
/// ellipsis in the latest-transactions list.
pub const TX_HASH_KEEP_PREFIX: usize = 10;

/// How many characters of a transaction hash are kept after the ellipsis in
/// the latest-transactions list.
pub const TX_HASH_KEEP_SUFFIX: usize = 11;

/// Capacity of the latest-incoming-transactions history.
pub const LATEST_TX_CAPACITY: usize = 20;

/// How many rejection categories the node protocol distinguishes.
pub const REJECT_REASON_COUNT: usize = 12;

/// Why the node rejected a pool transaction, as one of the finite set of
/// categories the protocol distinguishes.
#[derive(Clone, Copy, PartialEq, Eq, Structural, Debug)]
pub enum RejectReason {
    LowFeeRate,
    ExceededMaximumAncestorsCount,
    ExceededTransactionSizeLimit,
    Full,
    Duplicated,
    Malformed,
    DeclaredWrongCycles,
    Resolve,
    Verification,
    Expiry,
    RbfRejected,
    Invalidated,
}

impl RejectReason {
    /// The position of this category in the counter table.
    pub open spec fn spec_category_index(self) -> int {
        match self {
            RejectReason::LowFeeRate => 0,
            RejectReason::ExceededMaximumAncestorsCount => 1,
            RejectReason::ExceededTransactionSizeLimit => 2,
            RejectReason::Full => 3,
            RejectReason::Duplicated => 4,
            RejectReason::Malformed => 5,
            RejectReason::DeclaredWrongCycles => 6,
            RejectReason::Resolve => 7,
            RejectReason::Verification => 8,
            RejectReason::Expiry => 9,
            RejectReason::RbfRejected => 10,
            RejectReason::Invalidated => 11,
        }
    }

    /// The position of this category in the counter table.
    pub fn category_index(self) -> (r: usize)
        ensures
            r == self.spec_category_index(),
            r < REJECT_REASON_COUNT,
    {
        match self {
            RejectReason::LowFeeRate => 0,
            RejectReason::ExceededMaximumAncestorsCount => 1,
            RejectReason::ExceededTransactionSizeLimit => 2,
            RejectReason::Full => 3,
            RejectReason::Duplicated => 4,
            RejectReason::Malformed => 5,
            RejectReason::DeclaredWrongCycles => 6,
            RejectReason::Resolve => 7,
            RejectReason::Verification => 8,
            RejectReason::Expiry => 9,
            RejectReason::RbfRejected => 10,
            RejectReason::Invalidated => 11,
        }
    }

    /// The operator-facing description of this category.
    pub open spec fn spec_reason_text(self) -> Seq<char> {
        match self {
            RejectReason::LowFeeRate => "Transaction fee lower than config"@,
            RejectReason::ExceededMaximumAncestorsCount => "Transaction exceeded maximum ancestors count limit"@,
            RejectReason::ExceededTransactionSizeLimit => "Transaction exceeded maximum size limit"@,
            RejectReason::Full => "Transaction are replaced because the pool is full"@,
            RejectReason::Duplicated => "Transaction already exists in transaction_pool"@,
            RejectReason::Malformed => "Malformed transaction"@,
            RejectReason::DeclaredWrongCycles => "Declared wrong cycles"@,
            RejectReason::Resolve => "Resolve failed"@,
            RejectReason::Verification => "Verification failed"@,
            RejectReason::Expiry => "Transaction expired"@,
            RejectReason::RbfRejected => "RBF rejected"@,
            RejectReason::Invalidated => "Invalidated rejected"@,
        }
    }

    /// The operator-facing description of this category.
    pub fn reason_text(self) -> (r: &'static str)
        ensures
            r@ == self.spec_reason_text(),
    {
        match self {
            RejectReason::LowFeeRate => "Transaction fee lower than config",
            RejectReason::ExceededMaximumAncestorsCount => "Transaction exceeded maximum ancestors count limit",
            RejectReason::ExceededTransactionSizeLimit => "Transaction exceeded maximum size limit",
            RejectReason::Full => "Transaction are replaced because the pool is full",
            RejectReason::Duplicated => "Transaction already exists in transaction_pool",
            RejectReason::Malformed => "Malformed transaction",
            RejectReason::DeclaredWrongCycles => "Declared wrong cycles",
            RejectReason::Resolve => "Resolve failed",
            RejectReason::Verification => "Verification failed",
            RejectReason::Expiry => "Transaction expired",
            RejectReason::RbfRejected => "RBF rejected",
            RejectReason::Invalidated => "Invalidated rejected",
        }
    }

    /// All categories, ordered by their position in the counter table.
    pub fn all() -> (r: Vec<RejectReason>)
        ensures
            r@.len() == REJECT_REASON_COUNT,
            forall|i: int|
                0 <= i < r@.len() ==> #[trigger] r@[i].spec_category_index() == i,
    {
        let mut out: Vec<RejectReason> = Vec::new();
        out.push(RejectReason::LowFeeRate);
        out.push(RejectReason::ExceededMaximumAncestorsCount);
        out.push(RejectReason::ExceededTransactionSizeLimit);
        out.push(RejectReason::Full);
        out.push(RejectReason::Duplicated);
        out.push(RejectReason::Malformed);
        out.push(RejectReason::DeclaredWrongCycles);
        out.push(RejectReason::Resolve);
        out.push(RejectReason::Verification);
        out.push(RejectReason::Expiry);
        out.push(RejectReason::RbfRejected);
        out.push(RejectReason::Invalidated);
        out
    }
}

#[verifier::external_type_specification]
#[verifier::external_body]
pub struct ExPoolTransactionReject(PoolTransactionReject);

/// Relies on `ckb_jsonrpc_types::PoolTransactionReject`: the body only
/// tells its twelve variants apart, dropping the description each carries.
#[verifier::external_body]
fn classify_reject(reject: &PoolTransactionReject) -> RejectReason {
    match reject {
        PoolTransactionReject::LowFeeRate(_) => RejectReason::LowFeeRate,
        PoolTransactionReject::ExceededMaximumAncestorsCount(_) => RejectReason::ExceededMaximumAncestorsCount,
        PoolTransactionReject::ExceededTransactionSizeLimit(_) => RejectReason::ExceededTransactionSizeLimit,
        PoolTransactionReject::Full(_) => RejectReason::Full,
        PoolTransactionReject::Duplicated(_) => RejectReason::Duplicated,
        PoolTransactionReject::Malformed(_) => RejectReason::Malformed,
        PoolTransactionReject::DeclaredWrongCycles(_) => RejectReason::DeclaredWrongCycles,
        PoolTransactionReject::Resolve(_) => RejectReason::Resolve,
        PoolTransactionReject::Verification(_) => RejectReason::Verification,
        PoolTransactionReject::Expiry(_) => RejectReason::Expiry,
        PoolTransactionReject::RBFRejected(_) => RejectReason::RbfRejected,
        PoolTransactionReject::Invalidated(_) => RejectReason::Invalidated,
    }
}

/// One incoming transaction as retained in the latest-transactions list.
#[derive(Clone, Debug)]
pub struct LatestIncomingTx {
    /// Shortened hexadecimal hash, for display.
    pub tx_hash: String,
    /// When the transaction entered the pool, in milliseconds.
    pub time_ms: u64,
    /// Serialized size of the transaction.
    pub size_in_bytes: u64,
    /// Fee per kilobyte, in shannons.
    pub fee_rate: u64,
}

/// The abstract value of a retained transaction.
pub struct LatestIncomingTxView {
    pub tx_hash: Seq<char>,
    pub time_ms: u64,
    pub size_in_bytes: u64,
    pub fee_rate: u64,
}

impl View for LatestIncomingTx {
    type V = LatestIncomingTxView;

    open spec fn view(&self) -> LatestIncomingTxView {
        LatestIncomingTxView {
            tx_hash: self.tx_hash@,
            time_ms: self.time_ms,
            size_in_bytes: self.size_in_bytes,
            fee_rate: self.fee_rate,
        }
    }
}

impl LatestIncomingTx {
    /// A copy whose abstract value is the same.
    pub fn duplicate(&self) -> (r: Self)
        ensures
            r@ == self@,
    {
        LatestIncomingTx {
            tx_hash: self.tx_hash.clone(),
            time_ms: self.time_ms,
            size_in_bytes: self.size_in_bytes,
            fee_rate: self.fee_rate,
        }
    }
}

/// Running state of the mempool feed: counters and the bounded history of
/// the most recent incoming transactions.
#[derive(Debug)]
pub struct MempoolFeed {
    total_seen: u64,
    total_rejected: u64,
    reject_counts: Vec<u64>,
    latest_txs: BoundedHistory<LatestIncomingTx>,
}

/// A consistent copy of the feed state, taken in one step: every field
/// reflects the same instant of the running state.
#[derive(Debug)]
pub struct MempoolFeedSnapshot {
    /// How many new transactions the feed has delivered.
    pub total_seen: u64,
    /// How many rejections the feed has delivered.
    pub total_rejected: u64,
    /// Rejections by category, indexed by the category's position.
    pub reject_counts: Vec<u64>,
    /// The most recent incoming transactions, oldest first.
    pub latest_txs: Vec<LatestIncomingTx>,
}

impl MempoolFeed {
    /// How many new transactions the feed has delivered.
    pub closed spec fn spec_total_seen(&self) -> u64 {
        self.total_seen
    }

    /// How many rejections the feed has delivered (while the counter had
    /// room).
    pub closed spec fn spec_total_rejected(&self) -> u64 {
        self.total_rejected
    }

    /// The rejection counters, indexed by category position.
    pub closed spec fn counts(&self) -> Seq<u64> {
        self.reject_counts@
    }

    /// The retained latest transactions, oldest first.
    pub closed spec fn txs(&self) -> Seq<LatestIncomingTxView> {
        self.latest_txs@.map_values(|e: LatestIncomingTx| e@)
    }

    /// The invariant of the feed state: one counter per category, the total
    /// equal to the sum of the counters, and the history within capacity.
    pub closed spec fn well_formed(&self) -> bool {
        &&& self.counts().len() == REJECT_REASON_COUNT
        &&& self.spec_total_rejected() as int == sum_of(self.counts())
        &&& self.latest_txs.well_formed()
        &&& self.latest_txs.spec_capacity() == LATEST_TX_CAPACITY
    }

    /// A fresh feed: nothing seen, nothing rejected.
    pub fn new() -> (r: Self)
        ensures
            r.well_formed(),
            r.spec_total_seen() == 0,
            r.spec_total_rejected() == 0,
            r.counts() =~= Seq::new(REJECT_REASON_COUNT as nat, |_j: int| 0u64),
            r.txs() =~= Seq::<LatestIncomingTxView>::empty(),
    {
        let mut counts: Vec<u64> = Vec::new();
        let mut i: usize = 0;
        while i < REJECT_REASON_COUNT
            invariant
                i <= REJECT_REASON_COUNT,
                counts@ =~= Seq::new(i as nat, |_j: int| 0u64),
                sum_of(counts@) == 0,
            decreases REJECT_REASON_COUNT - i,
        {
            let ghost before = counts@;
            counts.push(0);
            proof {
                assert(counts@.drop_last() =~= before);
                assert(counts@ =~= Seq::new((i + 1) as nat, |_j: int| 0u64));
            }
            i += 1;
        }
        MempoolFeed {
            total_seen: 0,
            total_rejected: 0,
            reject_counts: counts,
            latest_txs: BoundedHistory::new(LATEST_TX_CAPACITY),
        }
    }

    /// What one rejection event does to the feed state: the category's
    /// counter and the total both step by one while the total has room; at
    /// the ceiling the event is no longer counted. Nothing else moves.
    pub open spec fn rejected_transition(pre: Self, post: Self, reason: RejectReason) -> bool {
        let i = reason.spec_category_index();
        &&& (pre.spec_total_rejected() < u64::MAX ==> {
            &&& post.counts() == pre.counts().update(i, (pre.counts()[i] + 1) as u64)
            &&& post.spec_total_rejected() == pre.spec_total_rejected() + 1
        })
        &&& (pre.spec_total_rejected() == u64::MAX ==> {
            &&& post.counts() == pre.counts()
            &&& post.spec_total_rejected() == pre.spec_total_rejected()
        })
        &&& post.spec_total_seen() == pre.spec_total_seen()
        &&& post.txs() == pre.txs()
    }

    /// Counts one rejection of the given category.
    pub fn apply_rejected(&mut self, reason: RejectReason)
        requires
            old(self).well_formed(),
        ensures
            final(self).well_formed(),
            Self::rejected_transition(*old(self), *final(self), reason),
    {
        let i = reason.category_index();
        if self.total_rejected < u64::MAX {
            proof {
                lemma_elem_le_sum(self.reject_counts@, i as int);
            }
            let c = self.reject_counts[i];
            self.reject_counts[i] = c + 1;
            proof {
                lemma_sum_update_inc(old(self).reject_counts@, i as int);
            }
            self.total_rejected = self.total_rejected + 1;
        }
    }

    /// Counts one rejection event as it came from the subscription,
    /// classifying it first. Some category's counter steps; which one is
    /// decided by the event.
    pub fn apply_reject_event(&mut self, reject: &PoolTransactionReject)
        requires
            old(self).well_formed(),
        ensures
            final(self).well_formed(),
            exists|reason: RejectReason|
                Self::rejected_transition(*old(self), *final(self), reason),
    {
        let reason = classify_reject(reject);
        self.apply_rejected(reason);
    }

    /// What one new-transaction event does to the feed state: the
    /// transaction joins the bounded history with its hash shortened and its
    /// fee rate in shannons per kilobyte, and the seen-counter steps by one.
    /// An event whose size is zero, or whose fee is too large for the rate
    /// to be computed, is malformed: it is skipped and nothing moves.
    pub open spec fn new_tx_transition(
        pre: Self,
        post: Self,
        tx_hash: Seq<char>,
        timestamp_ms: u64,
        size: u64,
        fee: u64,
    ) -> bool {
        let valid = size >= 1 && fee * 1000 <= u64::MAX;
        &&& (valid ==> {
            &&& post.txs() == fifo_push(
                pre.txs(),
                LATEST_TX_CAPACITY as nat,
                LatestIncomingTxView {
                    tx_hash: spec_shorten_hex(
                        tx_hash,
                        TX_HASH_KEEP_PREFIX as int,
                        TX_HASH_KEEP_SUFFIX as int,
                    ),
                    time_ms: timestamp_ms,
                    size_in_bytes: size,
                    fee_rate: (fee as int * 1000 / size as int) as u64,
                },
            )
            &&& post.spec_total_seen() == saturating_inc(pre.spec_total_seen())
        })
        &&& (!valid ==> {
            &&& post.txs() == pre.txs()
            &&& post.spec_total_seen() == pre.spec_total_seen()
        })
        &&& post.counts() == pre.counts()
        &&& post.spec_total_rejected() == pre.spec_total_rejected()
    }

    /// Takes one new-transaction event from the subscription into the
    /// running state.
    pub fn apply_new_tx(&mut self, tx_hash: &str, timestamp_ms: u64, size: u64, fee: u64)
        requires
            old(self).well_formed(),
            tx_hash.is_ascii(),
        ensures
            final(self).well_formed(),
            Self::new_tx_transition(
                *old(self),
                *final(self),
                tx_hash@,
                timestamp_ms,
                size,
                fee,
            ),
    {
        if size == 0 || fee > u64::MAX / 1000 {
            return;
        }
        let entry = LatestIncomingTx {
            tx_hash: shorten_hex(tx_hash, TX_HASH_KEEP_PREFIX, TX_HASH_KEEP_SUFFIX),
            time_ms: timestamp_ms,
            size_in_bytes: size,
            fee_rate: fee * 1000 / size,
        };
        let ghost pre_txs = self.txs();
        let ghost v = entry@;
        self.latest_txs.push(entry);
        proof {
            assert(self.txs() =~= fifo_push(pre_txs, LATEST_TX_CAPACITY as nat, v));
        }
        if self.total_seen < u64::MAX {
            self.total_seen = self.total_seen + 1;
        }
    }

    /// The rejection rate in basis points: zero while nothing was seen,
    /// otherwise rejections per ten thousand seen, capped at the counter
    /// ceiling. Never a division by zero.
    pub fn rejection_rate_bp(&self) -> (r: u64)
        ensures
            self.spec_total_seen() == 0 ==> r == 0,
            self.spec_total_seen() > 0 ==> r as int == {
                let exact = self.spec_total_rejected() * 10000 / self.spec_total_seen() as int;
                if exact <= u64::MAX {
                    exact
                } else {
                    u64::MAX as int
                }
            },
    {
        if self.total_seen == 0 {
            return 0;
        }
        let wide = self.total_rejected as u128 * 10000u128 / self.total_seen as u128;
        if wide <= u64::MAX as u128 {
            wide as u64
        } else {
            u64::MAX
        }
    }

    /// A consistent copy of the whole feed state: every field of the
    /// snapshot equals the corresponding part of the state as it stands at
    /// this call, so no snapshot mixes two states.
    pub fn read_snapshot(&self) -> (r: MempoolFeedSnapshot)
        ensures
            r.total_seen == self.spec_total_seen(),
            r.total_rejected == self.spec_total_rejected(),
            r.reject_counts@ == self.counts(),
            r.latest_txs@.map_values(|e: LatestIncomingTx| e@) == self.txs(),
    {
        let mut counts: Vec<u64> = Vec::new();
        let mut i: usize = 0;
        while i < self.reject_counts.len()
            invariant
                i <= self.reject_counts.len(),
                counts@ =~= self.reject_counts@.take(i as int),
            decreases self.reject_counts.len() - i,
        {
            counts.push(self.reject_counts[i]);
            i += 1;
            proof {
                assert(counts@ =~= self.reject_counts@.take(i as int));
            }
        }
        proof {
            assert(self.reject_counts@.take(self.reject_counts@.len() as int)
                =~= self.reject_counts@);
        }
        let src = self.latest_txs.as_slice();
        let mut latest: Vec<LatestIncomingTx> = Vec::new();
        let mut j: usize = 0;
        while j < src.len()
            invariant
                j <= src.len(),
                src@ == self.latest_txs@,
                latest@.len() == j,
                forall|k: int| 0 <= k < j ==> #[trigger] latest@[k]@ == src@[k]@,
            decreases src.len() - j,
        {
            latest.push(src[j].duplicate());
            j += 1;
        }
        proof {
            assert(latest@.map_values(|e: LatestIncomingTx| e@) =~= self.txs());
        }
        MempoolFeedSnapshot {
            total_seen: self.total_seen,
            total_rejected: self.total_rejected,
            reject_counts: counts,
            latest_txs: latest,
        }
    }

    /// The rejection counter of one category.
    pub fn count_for(&self, reason: RejectReason) -> (r: u64)
        requires
            self.well_formed(),
        ensures
            r == self.counts()[reason.spec_category_index()],
    {
        let i = reason.category_index();
        self.reject_counts[i]
    }
}

/// Pool totals read from the node's overview endpoint.
#[derive(Clone, Copy, PartialEq, Eq, Structural, Debug)]
pub struct GetOverviewOfMempoolDashboardData {
    /// Serialized size of everything in the pool, in bytes.
    pub total_pool_size_in_bytes: u64,
    /// Transactions waiting to be proposed.
    pub pending_tx: u64,
    /// Transactions proposed but not yet committed.
    pub proposed_tx: u64,
    /// Transactions being committed.
    pub committing_tx: u64,
}

impl GetOverviewOfMempoolDashboardData {
    /// How many transactions the pool holds over all three stages, saturating
    /// at the counter ceiling.
    pub fn total_txs(&self) -> (r: u64)
        ensures
            r as int == {
                let exact = self.pending_tx + self.proposed_tx + self.committing_tx;
                if exact <= u64::MAX {
                    exact
                } else {
                    u64::MAX as int
                }
            },
    {
        let wide = self.pending_tx as u128 + self.proposed_tx as u128
            + self.committing_tx as u128;
        if wide <= u64::MAX as u128 {
            wide as u64
        } else {
            u64::MAX
        }
    }
}

/// Immutable snapshot of the mempool panel, produced once per refresh cycle
/// and superseded wholesale by the next one.
#[derive(Clone, Debug)]
pub struct MempoolDashboardData {
    /// Mean fee rate reported by the node, in shannons per kilobyte, when
    /// the node has statistics.
    pub avg_fee_rate: Option<u64>,
    /// Transactions entering per second. Not derived from any feed yet.
    pub tx_in: usize,
    /// Transactions leaving per second. Not derived from any feed yet.
    pub tx_out: usize,
    /// Average block time of the current epoch, absent on its first block.
    pub average_block_time_ms: Option<u64>,
    /// Pool totals, when the overview endpoint is available.
    pub overview_data: Option<GetOverviewOfMempoolDashboardData>,
    /// Whether the fetch path should ask the overview endpoint at all.
    pub enable_fetch_overview: bool,
}

impl MempoolDashboardData {
    /// Assembles the panel snapshot from the raw values one refresh cycle
    /// fetched.
    pub fn from_raw(
        avg_fee_rate: Option<u64>,
        average_block_time_ms: Option<u64>,
        overview_data: Option<GetOverviewOfMempoolDashboardData>,
        enable_fetch_overview: bool,
    ) -> (r: Self)
        ensures
            r.avg_fee_rate == avg_fee_rate,
            r.average_block_time_ms == average_block_time_ms,
            r.overview_data == overview_data,
            r.enable_fetch_overview == enable_fetch_overview,
            r.tx_in == 0,
            r.tx_out == 0,
    {
        MempoolDashboardData {
            avg_fee_rate,
            tx_in: 0,
            tx_out: 0,
            average_block_time_ms,
            overview_data,
            enable_fetch_overview,
        }
    }

    /// Sets whether the fetch path should ask the overview endpoint.
    pub fn set_enable_overview_data(&mut self, flag: bool)
        ensures
            final(self).enable_fetch_overview == flag,
            final(self).avg_fee_rate == old(self).avg_fee_rate,
            final(self).average_block_time_ms == old(self).average_block_time_ms,
            final(self).overview_data == old(self).overview_data,
            final(self).tx_in == old(self).tx_in,
            final(self).tx_out == old(self).tx_out,
    {
        self.enable_fetch_overview = flag;
    }
}

/// Columns of the rejection table.
#[derive(Clone, Copy, PartialEq, Eq, Hash, Debug)]
pub enum RejectionColumn {
    Reason,
    Count,
}

/// Columns of the latest-incoming-transactions table.
#[derive(Clone, Copy, PartialEq, Eq, Hash, Debug)]
pub enum LatestIncomingTxColumn {
    TxHash,
    Time,
    SizeInBytes,
    FeeRate,
}

} // verus!
