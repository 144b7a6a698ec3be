use ckb_jsonrpc_types::PoolTransactionReject;
use ckb_node_monitor::errors::FetchError;
use ckb_node_monitor::mempool::{
    GetOverviewOfMempoolDashboardData, MempoolDashboardData, MempoolFeed, RejectReason,
};

#[test]
fn fresh_feed_has_nothing_counted() {
    let feed = MempoolFeed::new();
    let snap = feed.read_snapshot();
    assert_eq!(snap.total_seen, 0);
    assert_eq!(snap.total_rejected, 0);
    assert_eq!(snap.reject_counts, vec![0u64; 12]);
    assert!(snap.latest_txs.is_empty());
    assert_eq!(feed.rejection_rate_bp(), 0);
}

#[test]
fn rejection_rate_is_zero_without_traffic() {
    // Even with rejections on the books, a zero seen-counter must yield a
    // zero rate rather than a division by zero.
    let mut feed = MempoolFeed::new();
    feed.apply_rejected(RejectReason::Full);
    assert_eq!(feed.rejection_rate_bp(), 0);
}

#[test]
fn rejection_rate_in_basis_points() {
    let mut feed = MempoolFeed::new();
    for i in 0..4u64 {
        feed.apply_new_tx("0xabcdef", 1_000 + i, 200, 400);
    }
    feed.apply_rejected(RejectReason::LowFeeRate);
    feed.apply_rejected(RejectReason::Full);
    assert_eq!(feed.rejection_rate_bp(), 5_000);
}

#[test]
fn rejected_totals_track_the_category_counters() {
    let mut feed = MempoolFeed::new();
    feed.apply_rejected(RejectReason::Full);
    feed.apply_rejected(RejectReason::Full);
    feed.apply_rejected(RejectReason::Malformed);
    assert_eq!(feed.count_for(RejectReason::Full), 2);
    assert_eq!(feed.count_for(RejectReason::Malformed), 1);
    assert_eq!(feed.count_for(RejectReason::Expiry), 0);
    assert_eq!(feed.read_snapshot().total_rejected, 3);
}

#[test]
fn reject_events_from_the_node_are_classified() {
    let mut feed = MempoolFeed::new();
    feed.apply_reject_event(&PoolTransactionReject::Full("pool is full".to_string()));
    feed.apply_reject_event(&PoolTransactionReject::Duplicated("seen".to_string()));
    feed.apply_reject_event(&PoolTransactionReject::Full("again".to_string()));
    assert_eq!(feed.count_for(RejectReason::Full), 2);
    assert_eq!(feed.count_for(RejectReason::Duplicated), 1);
    assert_eq!(feed.count_for(RejectReason::LowFeeRate), 0);
    assert_eq!(feed.read_snapshot().total_rejected, 3);
}

#[test]
fn latest_txs_keep_the_last_twenty() {
    let mut feed = MempoolFeed::new();
    for i in 0..25u64 {
        feed.apply_new_tx("0xffff", i, 100, 100);
    }
    let snap = feed.read_snapshot();
    assert_eq!(snap.total_seen, 25);
    assert_eq!(snap.latest_txs.len(), 20);
    assert_eq!(snap.latest_txs[0].time_ms, 5);
    assert_eq!(snap.latest_txs[19].time_ms, 24);
}

#[test]
fn new_tx_records_rate_and_shortened_hash() {
    let mut feed = MempoolFeed::new();
    feed.apply_new_tx(
        "0x6357953dbec4d4ec2cdfdba345e1b0bca26ee6bb921bbe4b52e77d8a4e636357",
        1_700_000_000_000,
        250,
        500,
    );
    let snap = feed.read_snapshot();
    assert_eq!(snap.latest_txs.len(), 1);
    let tx = &snap.latest_txs[0];
    assert_eq!(tx.fee_rate, 2_000);
    assert_eq!(tx.size_in_bytes, 250);
    assert_eq!(tx.time_ms, 1_700_000_000_000);
    assert_eq!(tx.tx_hash, "0x6357953d...d8a4e636357");
}

#[test]
fn zero_sized_tx_event_is_skipped_as_malformed() {
    let mut feed = MempoolFeed::new();
    feed.apply_new_tx("0xabc", 1, 0, 500);
    let snap = feed.read_snapshot();
    assert_eq!(snap.total_seen, 0);
    assert!(snap.latest_txs.is_empty());
}

#[test]
fn snapshots_never_show_a_half_applied_update() {
    // Many interleaved event batches; after every single event the
    // snapshot is internally consistent (the rejection total equals the
    // sum of the category counters) and at the end the counters equal
    // exactly the number of events applied.
    let mut feed = MempoolFeed::new();
    let reasons = RejectReason::all();
    let batches = 10usize;
    let per_batch = 100usize;
    for b in 0..batches {
        for i in 0..per_batch {
            feed.apply_new_tx("0xfeed", (b * per_batch + i) as u64, 100, 100);
            feed.apply_rejected(reasons[(b + i) % reasons.len()]);
            let snap = feed.read_snapshot();
            let sum: u64 = snap.reject_counts.iter().sum();
            assert_eq!(snap.total_rejected, sum);
        }
    }
    let snap = feed.read_snapshot();
    assert_eq!(snap.total_seen, (batches * per_batch) as u64);
    assert_eq!(snap.total_rejected, (batches * per_batch) as u64);
}

#[test]
fn reason_texts_match_the_operator_wording() {
    assert_eq!(
        RejectReason::LowFeeRate.reason_text(),
        "Transaction fee lower than config"
    );
    assert_eq!(RejectReason::Malformed.reason_text(), "Malformed transaction");
    assert_eq!(RejectReason::RbfRejected.reason_text(), "RBF rejected");
}

#[test]
fn all_reasons_enumerate_the_counter_table() {
    let all = RejectReason::all();
    assert_eq!(all.len(), 12);
    for (i, reason) in all.iter().enumerate() {
        assert_eq!(reason.category_index(), i);
    }
}

#[test]
fn pool_overview_totals_sum_the_three_stages() {
    let data = GetOverviewOfMempoolDashboardData {
        total_pool_size_in_bytes: 4_096,
        pending_tx: 1,
        proposed_tx: 2,
        committing_tx: 3,
    };
    assert_eq!(data.total_txs(), 6);
}

#[test]
fn pool_overview_totals_saturate() {
    let data = GetOverviewOfMempoolDashboardData {
        total_pool_size_in_bytes: 0,
        pending_tx: u64::MAX,
        proposed_tx: 1,
        committing_tx: 0,
    };
    assert_eq!(data.total_txs(), u64::MAX);
}

#[test]
fn mempool_snapshot_carries_the_raw_values() {
    let overview = GetOverviewOfMempoolDashboardData {
        total_pool_size_in_bytes: 10,
        pending_tx: 1,
        proposed_tx: 2,
        committing_tx: 3,
    };
    let mut snap = MempoolDashboardData::from_raw(Some(1_234), Some(8_000), Some(overview), true);
    assert_eq!(snap.avg_fee_rate, Some(1_234));
    assert_eq!(snap.average_block_time_ms, Some(8_000));
    assert_eq!(snap.tx_in, 0);
    assert_eq!(snap.tx_out, 0);
    assert!(snap.enable_fetch_overview);
    snap.set_enable_overview_data(false);
    assert!(!snap.enable_fetch_overview);
    assert_eq!(snap.avg_fee_rate, Some(1_234));
}

#[test]
fn fetch_errors_carry_their_description() {
    let t = FetchError::Transport("connection refused".to_string());
    let p = FetchError::Protocol("unexpected response".to_string());
    assert_eq!(t.message(), "connection refused");
    assert_eq!(p.message(), "unexpected response");
    assert!(t.is_transport());
    assert!(!p.is_transport());
}
