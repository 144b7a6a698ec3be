use ckb_node_monitor::epoch::{
    epoch_start_height, epoch_timing, extract_epoch, pack_epoch, EpochTiming,
};

#[test]
fn extract_epoch_decodes_bit_ranges() {
    let field: u64 = 5_000 | (42 << 24) | (1_800 << 40);
    assert_eq!(extract_epoch(field), (5_000, 42, 1_800));
}

#[test]
fn extract_epoch_of_zero_is_zero() {
    assert_eq!(extract_epoch(0), (0, 0, 0));
}

#[test]
fn pack_then_extract_round_trips() {
    let cases = [
        (0u64, 0u64, 0u64),
        (7, 42, 1_000),
        (0xff_ffff, 0xffff, 0xffff),
        (1, 0, 0xffff),
    ];
    for (e, b, n) in cases {
        assert_eq!(extract_epoch(pack_epoch(e, b, n)), (e, b, n));
    }
}

#[test]
fn extract_ignores_bits_above_the_three_ranges() {
    let field = pack_epoch(9, 8, 7) | (0xff << 56);
    assert_eq!(extract_epoch(field), (9, 8, 7));
}

#[test]
fn epoch_timing_example_scenario() {
    // Tip at height 1000 with epoch position (5, 100), tip timestamp
    // 1,000,000 ms, epoch start header at height 995 with 990,000 ms.
    assert_eq!(epoch_start_height(1_000, 5), Some(995));
    let timing = epoch_timing(1_000_000, 990_000, 5, 100).unwrap();
    assert_eq!(
        timing,
        EpochTiming { average_block_time_ms: 2_000, estimated_epoch_time_ms: 190_000 }
    );
}

#[test]
fn epoch_timing_is_absent_on_first_block_of_epoch() {
    assert_eq!(epoch_timing(1_000_000, 1_000_000, 0, 100), None);
}

#[test]
fn epoch_timing_on_last_block_leaves_nothing_estimated() {
    let timing = epoch_timing(2_000, 1_000, 100, 100).unwrap();
    assert_eq!(timing.average_block_time_ms, 10);
    assert_eq!(timing.estimated_epoch_time_ms, 0);
}

#[test]
fn epoch_start_height_is_absent_when_position_exceeds_height() {
    assert_eq!(epoch_start_height(3, 7), None);
    assert_eq!(epoch_start_height(7, 7), Some(0));
}
