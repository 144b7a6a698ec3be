use ckb_node_monitor::chart::bar_level;
use ckb_node_monitor::errors::FetchError;
use ckb_node_monitor::logs::{
    FilterLogOption, LogCategory, LogsDashboardState, LogsItem, TUIEvent,
};
use ckb_node_monitor::pager::{next_page_action, prev_page_action, PageSwitch};
use ckb_node_monitor::scheduler::{
    fetch_plan, PanelKind, PollScheduler, RefreshBundle, SchedulerCommand,
};
use ckb_node_monitor::source::SnapshotSource;
use ckb_node_monitor::supervisor::{
    FeedConnection, SubscriptionSupervisor, WorkerAction, WorkerEvent,
};

fn line(category: LogCategory, message: &str) -> LogsItem {
    LogsItem {
        time_ms: 0,
        category,
        source: "node".to_string(),
        message: message.to_string(),
    }
}

#[test]
fn scheduler_runs_one_cycle_at_a_time() {
    let mut s = PollScheduler::new();
    assert!(!s.is_busy());
    let plan = s.begin_cycle(&SchedulerCommand::Tick, 0).unwrap();
    assert!(s.is_busy());
    assert_eq!(plan.panels, vec![PanelKind::Overview]);
    assert!(!plan.notify_ui);
    // A storm of commands while the cycle runs: every one is dropped.
    for _ in 0..100 {
        assert!(s
            .begin_cycle(&SchedulerCommand::ManualRefresh { notify_ui: true }, 0)
            .is_none());
        assert!(s.begin_cycle(&SchedulerCommand::Tick, 0).is_none());
        assert!(s.is_busy());
    }
    s.finish_cycle();
    assert!(!s.is_busy());
    let plan = s
        .begin_cycle(&SchedulerCommand::ManualRefresh { notify_ui: true }, 3)
        .unwrap();
    assert_eq!(plan.panels, vec![PanelKind::Peers]);
    assert!(plan.notify_ui);
}

#[test]
fn fetch_plan_follows_the_active_tab() {
    assert_eq!(fetch_plan(0), vec![PanelKind::Overview]);
    assert_eq!(fetch_plan(1), vec![PanelKind::Blockchain]);
    assert_eq!(fetch_plan(2), vec![PanelKind::Mempool]);
    assert_eq!(fetch_plan(3), vec![PanelKind::Peers]);
    assert!(fetch_plan(4).is_empty());
    assert!(fetch_plan(99).is_empty());
}

#[test]
fn panels_update_only_when_visible() {
    assert!(PanelKind::Mempool.should_update(2));
    assert!(!PanelKind::Mempool.should_update(1));
    assert_eq!(PanelKind::Logs.tab_index(), 4);
}

#[test]
fn bundle_reports_failures_alongside_successes() {
    let bundle = RefreshBundle {
        overview: Some(Err(FetchError::Transport("overview down".to_string()))),
        blockchain: None,
        mempool: Some(Err(FetchError::Protocol("bad mempool reply".to_string()))),
        peers: None,
        notify_ui: false,
    };
    assert_eq!(bundle.error_messages(), vec!["overview down", "bad mempool reply"]);
}

#[test]
fn failed_fetch_never_corrupts_the_retained_snapshot() {
    let mut source: SnapshotSource<u64> = SnapshotSource::new();
    assert_eq!(source.retained(), &None);
    // First fetch succeeds: the snapshot is retained wholesale.
    assert!(source.commit(Ok(41)).is_none());
    assert_eq!(source.retained(), &Some(41));
    // The next fetch fails: the error is reported and the previously
    // retained snapshot stands untouched.
    let err = source
        .commit(Err(FetchError::Transport("node unreachable".to_string())))
        .unwrap();
    assert_eq!(err.message(), "node unreachable");
    assert_eq!(source.retained(), &Some(41));
    // A later success replaces it again: swap, not patch.
    assert!(source.commit(Ok(42)).is_none());
    assert_eq!(source.retained(), &Some(42));
}

#[test]
fn supervisor_connects_only_with_an_address() {
    let s = SubscriptionSupervisor::new(true);
    assert_eq!(s.connection, FeedConnection::Connected);
    assert!(!s.stop_requested);
    let s = SubscriptionSupervisor::new(false);
    assert_eq!(s.connection, FeedConnection::Disconnected);
}

#[test]
fn worker_applies_events_and_skips_malformed_ones() {
    let s = SubscriptionSupervisor::new(true);
    assert_eq!(s.worker_step(WorkerEvent::StreamEvent), WorkerAction::Apply);
    assert_eq!(s.worker_step(WorkerEvent::MalformedEvent), WorkerAction::Skip);
    assert_eq!(s.worker_step(WorkerEvent::CancelReceived), WorkerAction::Exit);
}

#[test]
fn stop_halts_the_worker_within_one_wait() {
    let mut s = SubscriptionSupervisor::new(true);
    s.stop();
    // Whatever the next wait comes back with, the worker exits and never
    // applies another event.
    assert_eq!(s.worker_step(WorkerEvent::StreamEvent), WorkerAction::Exit);
    assert_eq!(s.worker_step(WorkerEvent::MalformedEvent), WorkerAction::Exit);
    assert_eq!(s.worker_step(WorkerEvent::CancelReceived), WorkerAction::Exit);
}

#[test]
fn logs_start_empty_and_count_by_category() {
    let mut state = LogsDashboardState::new();
    assert_eq!(state.count_by_category(), (0, 0, 0));
    state.apply_line(line(LogCategory::Info, "started"));
    state.apply_line(line(LogCategory::Error, "broke"));
    state.apply_line(line(LogCategory::Info, "recovered"));
    assert_eq!(state.count_by_category(), (2, 0, 1));
}

#[test]
fn log_filter_keeps_only_the_picked_category() {
    let mut state = LogsDashboardState::new();
    state.apply_line(line(LogCategory::Info, "one"));
    state.apply_line(line(LogCategory::Error, "two"));
    state.apply_line(line(LogCategory::Warn, "three"));
    state.apply_line(line(LogCategory::Error, "four"));
    assert_eq!(state.filtered_logs().len(), 4);
    state.accept_event(&TUIEvent::FilterLogEvent(FilterLogOption::Error));
    let shown: Vec<String> = state.filtered_logs().into_iter().map(|l| l.message).collect();
    assert_eq!(shown, vec!["two", "four"]);
    state.accept_event(&TUIEvent::OpenConsensusModal);
    assert_eq!(state.filtered_logs().len(), 2);
    state.accept_event(&TUIEvent::FilterLogEvent(FilterLogOption::All));
    assert_eq!(state.filtered_logs().len(), 4);
}

#[test]
fn demonstration_lines_are_stamped_and_categorized() {
    let mut state = LogsDashboardState::new();
    for _ in 0..5 {
        state.update_state();
    }
    let lines = state.filtered_logs();
    assert_eq!(lines.len(), 5);
    for l in &lines {
        assert_eq!(l.source, "Test Source");
        assert_eq!(l.message, "Test Log");
        assert!(l.time_ms > 0);
    }
    let (info, warn, error) = state.count_by_category();
    assert_eq!(info + warn + error, 5);
}

#[test]
fn bar_levels_cover_the_scale() {
    assert_eq!(bar_level(0, 8), 0);
    assert_eq!(bar_level(1, 8), 1);
    assert_eq!(bar_level(3, 8), 3);
    assert_eq!(bar_level(8, 8), 8);
    // The smallest positive sample still shows one eighth.
    assert_eq!(bar_level(1, 1_000), 1);
    assert_eq!(bar_level(500, 1_000), 4);
}

#[test]
fn pager_steps_back_until_the_first_page() {
    assert_eq!(prev_page_action(0), PageSwitch::AtFirstPage);
    assert_eq!(prev_page_action(3), PageSwitch::ShowPage(2));
}

#[test]
fn pager_steps_forward_and_fetches_at_the_edge() {
    assert_eq!(next_page_action(0, 3, false), PageSwitch::ShowPage(1));
    assert_eq!(next_page_action(2, 3, false), PageSwitch::FetchNext);
    assert_eq!(next_page_action(2, 3, true), PageSwitch::NoMoreData);
}
