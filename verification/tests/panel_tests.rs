use ckb_node_monitor::blockchain::{
    build_script_items, BlockchainDashboardData, ChainFeed, GetOverviewOfBlockchainDasboardState,
    GetOverviewOfBlockchainDashboardData, RunningExtrema, ScriptType,
};
use ckb_node_monitor::epoch::{epoch_timing, pack_epoch};
use ckb_node_monitor::general::GeneralDashboardData;
use ckb_node_monitor::overview::{
    sum_disk_space, sum_network_totals, sync_eta_secs, sync_progress_percent, transfer_speed_bps,
    GetOverviewOfOverviewDashboardData, OverviewDashboardData, OverviewDashboardState,
    SystemReading,
};
use ckb_node_monitor::peers::{PeerDirection, PeerInfo, PeersDashboardData};

fn reading(cpu: u64, disk_read: u64, net_recv: u64) -> SystemReading {
    SystemReading {
        cpu_permille: cpu,
        total_disk_read_bytes: disk_read,
        total_disk_written_bytes: 0,
        total_network_sent_bytes: 0,
        total_network_received_bytes: net_recv,
        ram_total: 16_000,
        ram_used: 8_000,
        disk_total: 1_000_000,
        disk_used: 400_000,
        difficulty: "3.1e21".to_string(),
        hash_rate: "1.2e17".to_string(),
    }
}

#[test]
fn chain_feed_keeps_the_last_ten_blocks() {
    let mut feed = ChainFeed::new();
    for n in 1..=12u64 {
        feed.apply_block(n, format!("0xhash{n}"), n * 1_000);
    }
    let blocks = feed.read_blocks();
    assert_eq!(blocks.len(), 10);
    assert_eq!(blocks[0].block_number, 3);
    assert_eq!(blocks[9].block_number, 12);
    assert_eq!(blocks[9].block_hash, "0xhash12");
    assert_eq!(blocks[9].time_ms, 12_000);
}

#[test]
fn running_extrema_are_monotonic() {
    let mut e = RunningExtrema::new();
    e.observe(5);
    e.observe(3);
    e.observe(9);
    e.observe(4);
    assert_eq!(e.max_seen, 9);
    assert_eq!(e.min_seen, 3);
}

#[test]
fn cell_statistics_track_values_extrema_and_trends() {
    let mut stats = GetOverviewOfBlockchainDasboardState::new();
    stats.observe_overview(100, 2_000);
    stats.observe_overview(150, 1_500);
    stats.observe_overview(120, 1_800);
    assert_eq!(stats.live_cells, 120);
    assert_eq!(stats.occupied_capacity, 1_800);
    assert_eq!(stats.live_cells_extrema.max_seen, 150);
    assert_eq!(stats.live_cells_extrema.min_seen, 100);
    assert_eq!(stats.occupied_capacity_extrema.max_seen, 2_000);
    assert_eq!(stats.occupied_capacity_extrema.min_seen, 1_500);
    assert_eq!(stats.live_cells_samples(), vec![100, 150, 120]);
    assert_eq!(stats.occupied_capacity_samples(), vec![2_000, 1_500, 1_800]);
}

#[test]
fn script_table_lists_the_configured_scripts_in_order() {
    let items = build_script_items(
        Some("0xaaaa".to_string()),
        Some("0xbbbb".to_string()),
        "0xcccc".to_string(),
        "0xdddd".to_string(),
    );
    assert_eq!(items.len(), 4);
    assert_eq!(items[0].name, "secp256k1_blake160_sighash_all");
    assert_eq!(items[1].name, "secp256k1_blake160_multisig_all");
    assert_eq!(items[2].name, "dao");
    assert_eq!(items[3].name, "type_id");
    assert!(matches!(items[0].script_type, ScriptType::Lock));
    assert!(matches!(items[3].script_type, ScriptType::Type));
    assert!(items.iter().all(|i| i.integrity_error.is_none()));
    assert_eq!(items[2].code_hash, "0xcccc");
}

#[test]
fn script_table_skips_absent_lock_scripts() {
    let items = build_script_items(None, None, "0xcccc".to_string(), "0xdddd".to_string());
    assert_eq!(items.len(), 2);
    assert_eq!(items[0].name, "dao");
    assert_eq!(items[1].name, "type_id");
}

#[test]
fn blockchain_snapshot_decodes_the_tip() {
    let field = pack_epoch(11_000, 5, 100);
    let timing = epoch_timing(1_000_000, 990_000, 5, 100);
    let snap = BlockchainDashboardData::from_raw(
        field,
        1_000,
        timing,
        Some(GetOverviewOfBlockchainDashboardData {
            difficulty: "100".to_string(),
            hash_rate: "200".to_string(),
        }),
        None,
        None,
        "0xcccc".to_string(),
        "0xdddd".to_string(),
        true,
    );
    assert_eq!(snap.epoch, 11_000);
    assert_eq!(snap.epoch_block, 5);
    assert_eq!(snap.epoch_block_count, 100);
    assert_eq!(snap.average_block_time_ms, Some(2_000));
    assert_eq!(snap.estimated_epoch_time_ms, Some(190_000));
    assert_eq!(snap.block_height, 1_000);
    assert_eq!(snap.algorithm, "Eaglesong");
    assert_eq!(snap.scripts.len(), 2);
}

#[test]
fn general_snapshot_names_the_network() {
    let g = GeneralDashboardData::from_raw("ckb", Some("0.120.0".to_string()), true);
    assert_eq!(g.network_name, "[Meepo Mainnet]");
    assert_eq!(g.version.as_deref(), Some("0.120.0"));
    let g = GeneralDashboardData::from_raw("ckb_testnet", None, false);
    assert_eq!(g.network_name, "[Mirana Testnet]");
    assert_eq!(g.version, None);
    let g = GeneralDashboardData::from_raw("ckb_dev", None, false);
    assert_eq!(g.network_name, "[ckb_dev]");
}

#[test]
fn peers_snapshot_counts_directions() {
    let raw = vec![
        PeerInfo {
            node_id: "QmPeerA".to_string(),
            is_outbound: true,
            best_known_header_number: Some(500),
        },
        PeerInfo {
            node_id: "QmPeerB".to_string(),
            is_outbound: false,
            best_known_header_number: None,
        },
        PeerInfo {
            node_id: "QmPeerC".to_string(),
            is_outbound: true,
            best_known_header_number: Some(710),
        },
    ];
    let snap = PeersDashboardData::from_raw(raw);
    assert_eq!(snap.connections_out, 2);
    assert_eq!(snap.connections_in, 1);
    assert_eq!(snap.peers.len(), 3);
    assert_eq!(snap.peers[0].peer_id, "QmPeerA");
    assert!(matches!(snap.peers[1].direction, PeerDirection::In));
    assert_eq!(snap.peers[2].block_height, Some(710));
    assert_eq!(snap.peers[0].latency, 123);
    assert!(snap.peers[0].warning.is_none());
    assert!(snap.publicly_reachable());
}

#[test]
fn peers_without_inbound_are_not_reachable() {
    let raw = vec![PeerInfo {
        node_id: "QmPeerA".to_string(),
        is_outbound: true,
        best_known_header_number: None,
    }];
    let snap = PeersDashboardData::from_raw(raw);
    assert!(!snap.publicly_reachable());
}

#[test]
fn average_latency_handles_an_empty_peer_list() {
    let snap = PeersDashboardData::from_raw(Vec::new());
    assert_eq!(snap.average_latency(), 0);
}

#[test]
fn average_latency_is_the_mean() {
    let raw = vec![
        PeerInfo { node_id: "a".to_string(), is_outbound: true, best_known_header_number: None },
        PeerInfo { node_id: "b".to_string(), is_outbound: false, best_known_header_number: None },
    ];
    let snap = PeersDashboardData::from_raw(raw);
    // Both rows carry the placeholder latency, so the mean is that value.
    assert_eq!(snap.average_latency(), 123);
}

#[test]
fn network_totals_sum_over_devices() {
    assert_eq!(sum_network_totals(&vec![(1, 2), (3, 4), (10, 20)]), (14, 26));
    assert_eq!(sum_network_totals(&vec![]), (0, 0));
    assert_eq!(sum_network_totals(&vec![(u64::MAX, 0), (5, 1)]), (u64::MAX, 1));
}

#[test]
fn disk_space_sums_and_tolerates_inconsistent_reports() {
    // Two disks: (total, available). Used space is the difference.
    assert_eq!(sum_disk_space(&vec![(100, 40), (50, 10)]), (150, 100));
    // A report with more available than total contributes no used space.
    assert_eq!(sum_disk_space(&vec![(100, 40), (10, 50)]), (110, 60));
}

#[test]
fn transfer_speed_never_divides_by_zero() {
    assert_eq!(transfer_speed_bps(1_000, 1_000), 1_000);
    assert_eq!(transfer_speed_bps(2_048, 2_000), 1_024);
    assert_eq!(transfer_speed_bps(0, 0), 0);
    // A zero elapsed time counts as one millisecond.
    assert_eq!(transfer_speed_bps(5, 0), 5_000);
}

#[test]
fn sync_eta_covers_the_three_cases() {
    assert_eq!(sync_eta_secs(200, 200, 10, 1_000), 0);
    assert_eq!(sync_eta_secs(300, 200, 10, 1_000), 0);
    assert_eq!(sync_eta_secs(100, 200, 0, 1_000), u64::MAX);
    // 100 blocks missing at 10 blocks per second.
    assert_eq!(sync_eta_secs(100, 200, 10, 1_000), 10);
    // Rounded up: 99 blocks missing at 10 blocks per second.
    assert_eq!(sync_eta_secs(101, 200, 10, 1_000), 10);
}

#[test]
fn sync_progress_is_clamped_and_never_divides_by_zero() {
    assert_eq!(sync_progress_percent(0, 0), 0);
    assert_eq!(sync_progress_percent(5, 0), 0);
    assert_eq!(sync_progress_percent(0, 200), 0);
    assert_eq!(sync_progress_percent(50, 200), 25);
    assert_eq!(sync_progress_percent(199, 200), 99);
    assert_eq!(sync_progress_percent(200, 200), 100);
    assert_eq!(sync_progress_percent(300, 200), 100);
}

#[test]
fn overview_state_tracks_speeds_over_ticks() {
    let mut state = OverviewDashboardState::new(0, Some(reading(100, 1_000, 10_000)));
    assert_eq!(state.current_block, 0);
    assert_eq!(state.total_block, 1);
    assert_eq!(state.estimated_time_left_secs, 100);
    state.update_state(1_000, 50, 150, Some(reading(250, 3_048, 11_024)));
    assert_eq!(state.last_update_ms, 1_000);
    assert_eq!(state.current_block, 50);
    assert_eq!(state.total_block, 150);
    // 100 blocks missing after a tick that advanced 50 blocks in a second.
    assert_eq!(state.estimated_time_left_secs, 2);
    let data = state.overview_data.as_ref().unwrap();
    assert_eq!(data.disk_read_speed_bps, 2_048);
    assert_eq!(data.network_receive_speed_bps, 1_024);
    assert_eq!(data.cpu_permille, 250);
    assert_eq!(data.cpu_history.as_slice(), &[250]);
    assert_eq!(data.difficulty, "3.1e21");
}

#[test]
fn overview_state_without_endpoint_keeps_no_system_figures() {
    let mut state = OverviewDashboardState::new(0, None);
    assert!(state.overview_data.is_none());
    state.update_state(1_000, 10, 20, None);
    assert!(state.overview_data.is_none());
    assert_eq!(state.current_block, 10);
}

#[test]
fn overview_snapshot_counts_peer_directions() {
    let field = pack_epoch(11_000, 0, 100);
    let snap = OverviewDashboardData::from_raw(
        &vec![true, false, true, true],
        Some(999),
        field,
        epoch_timing(1_000, 1_000, 0, 100),
        Some(GetOverviewOfOverviewDashboardData {
            tx_pending: 1,
            tx_proposed: 2,
            tx_committing: 3,
            tx_rejected: 4,
            total_pool_size_in_bytes: 5,
        }),
        true,
    );
    assert_eq!(snap.outbound_peers, 3);
    assert_eq!(snap.inbound_peers, 1);
    assert_eq!(snap.average_latency, -1);
    assert_eq!(snap.epoch, 11_000);
    // First block of the epoch: no average exists yet.
    assert_eq!(snap.average_block_time_ms, None);
    assert_eq!(snap.estimated_epoch_time_ms, None);
    assert_eq!(snap.overview_data.unwrap().total_txs(), 6);
}
