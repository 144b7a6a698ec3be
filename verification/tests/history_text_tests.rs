use ckb_node_monitor::history::BoundedHistory;
use ckb_node_monitor::text::{network_display_name, shorten_hex};

#[test]
fn bounded_history_keeps_the_last_pushes() {
    let mut h: BoundedHistory<u32> = BoundedHistory::new(3);
    for x in 1..=5u32 {
        h.push(x);
        assert!(h.len() <= 3);
    }
    assert_eq!(h.as_slice(), &[3, 4, 5]);
}

#[test]
fn bounded_history_under_capacity_keeps_everything_in_order() {
    let mut h: BoundedHistory<u32> = BoundedHistory::new(10);
    for x in [4u32, 9, 2] {
        h.push(x);
    }
    assert_eq!(h.as_slice(), &[4, 9, 2]);
    assert_eq!(h.len(), 3);
    assert_eq!(h.capacity(), 10);
}

#[test]
fn bounded_history_to_vec_matches_slice() {
    let mut h: BoundedHistory<u64> = BoundedHistory::new(2);
    h.push(10);
    h.push(20);
    h.push(30);
    assert_eq!(h.to_vec(), vec![20, 30]);
    assert_eq!(h.as_slice(), &[20, 30]);
}

#[test]
fn shorten_hex_keeps_marker_and_edges() {
    assert_eq!(shorten_hex("0x1234567890abcdef", 5, 5), "0x123...bcdef");
}

#[test]
fn shorten_hex_adds_marker_when_missing() {
    assert_eq!(shorten_hex("1234567890abcdef", 4, 4), "0x1234...cdef");
}

#[test]
fn shorten_hex_returns_short_text_unchanged() {
    assert_eq!(shorten_hex("abc", 5, 5), "abc");
    assert_eq!(shorten_hex("", 5, 5), "");
}

#[test]
fn network_display_name_knows_both_chains() {
    assert_eq!(network_display_name("ckb"), "[Meepo Mainnet]");
    assert_eq!(network_display_name("ckb_testnet"), "[Mirana Testnet]");
    assert_eq!(network_display_name("ckb_dev"), "[ckb_dev]");
}
