//! Ledgers: what is saved, merged, pruned and recovered.

use copy_daemon::domain::OrderSide;
use copy_daemon::ledger::{
    CopyLedgerEntry, CopyLedgerStatus, CopyPersistenceSnapshot,
    copy_live_daemon_persistence_snapshot_for_save,
    copy_live_daemon_prune_snapshot_against_reconciliations,
};
use copy_daemon::merge::{
    copy_live_daemon_apply_closed_reduces_to_open_entries,
    copy_live_daemon_closed_reduce_entry_consumes_open, copy_live_daemon_ledger_entry_identity,
    copy_live_daemon_merge_persistence_snapshots,
    copy_live_daemon_merge_persistence_snapshots_for_save,
};
use copy_daemon::options::CopyLiveDaemonSupervisorOptions;
use copy_daemon::reconcile::{
    CopyBoundedLiveWindowPositionSummary, CopyBoundedLiveWindowReconcile,
    copy_live_daemon_reconcile_healthy_for_mode,
    copy_live_daemon_reconciliations_ready_for_reduce_only, unreadable_reconcile,
};
use copy_daemon::recovery::{
    CopyShadowHistoryEntry, copy_live_daemon_recent_shadow_entries_for_recovery,
    copy_live_daemon_reconcile_health_detail_for_snapshot,
    copy_live_daemon_reconciliations_healthy_for_snapshot,
    copy_live_daemon_recover_open_ledger_from_live_positions,
    copy_live_daemon_unmapped_position_keys, is_shadow_sibling_name, newest_siblings,
};

/// An amount in dollars as a fixed-point number.
fn usd(x: f64) -> i64 {
    (x * 1e9).round() as i64
}

fn now_ms() -> u64 {
    1_781_745_839_800
}

/// Every supported market.
fn all_markets() -> Vec<String> {
    ["hl_perp", "xyz_perp", "spot", "cash_perp"]
        .iter()
        .map(|market| market.to_string())
        .collect()
}

fn follow_position_options() -> CopyLiveDaemonSupervisorOptions {
    CopyLiveDaemonSupervisorOptions {
        leaders: Vec::new(),
        account_ids: vec!["addr_a".to_string()],
        local_account_id: Some("addr_a".to_string()),
        markets: all_markets(),
        coin: "xyz:XYZ100".to_string(),
        side: OrderSide::Buy,
        persistence_path: "unused-follow-position-options.json".to_string(),
        shadow_history_path: "unused-follow-position-options.jsonl".to_string(),
        leader_notional_usd: usd(120.0),
        leader_size: usd(1.0),
        live_gate: true,
        allow_live_submit: true,
        confirm_mainnet_live: false,
        submit: true,
        hold_positions_after_submit: true,
        cleanup_max_slippage_bps: usd(50.0),
        duration_secs: 60,
        max_events: 1000,
        max_live_orders: 1,
        max_total_notional_usd: usd(50.0),
        max_total_fees_usd: usd(0.10),
        max_slippage_bps: usd(50.0),
        environment: None,
        ws_url: None,
    }
}

fn empty_snapshot() -> CopyPersistenceSnapshot {
    CopyPersistenceSnapshot::new(now_ms(), Vec::new(), Vec::new())
}

/// A ledger entry of an open copied position.
fn entry(account_id: &str, coin: &str, side: OrderSide, remaining: f64) -> CopyLedgerEntry {
    CopyLedgerEntry {
        local_account_id: account_id.to_string(),
        leader_id: "leader_a".to_string(),
        leader_group: "leader_a".to_string(),
        signal_id: format!("sig-{coin}"),
        coin: coin.to_string(),
        local_side: side,
        order_cloid: Some("44444444-4444-5444-8444-444444444444".to_string()),
        order_oid: Some(1001),
        submitted_at_ms: Some(now_ms()),
        filled_at_ms: Some(now_ms()),
        planned_notional_usd: usd(remaining),
        pending_notional_usd: 0,
        filled_notional_usd: usd(remaining),
        remaining_notional_usd: usd(remaining),
        status: CopyLedgerStatus::Open,
    }
}

#[test]
fn copy_live_daemon_persistence_save_drops_unsubmitted_pending_opens() {
    let pending_open = CopyLedgerEntry {
        local_account_id: "addr_a".to_string(),
        leader_id: "leader_a".to_string(),
        leader_group: "leader_a".to_string(),
        signal_id: "sig-shadow-only-open".to_string(),
        coin: "xyz:JPY".to_string(),
        local_side: OrderSide::Buy,
        order_cloid: None,
        order_oid: None,
        submitted_at_ms: None,
        filled_at_ms: None,
        planned_notional_usd: usd(20.0),
        pending_notional_usd: usd(20.0),
        filled_notional_usd: usd(0.0),
        remaining_notional_usd: usd(0.0),
        status: CopyLedgerStatus::PendingOpen,
    };
    let pending_reduce = CopyLedgerEntry {
        status: CopyLedgerStatus::PendingReduce,
        signal_id: "sig-pending-reduce".to_string(),
        pending_notional_usd: usd(7.4),
        remaining_notional_usd: usd(7.4),
        ..pending_open.clone()
    };
    let submitted_open = CopyLedgerEntry {
        signal_id: "sig-submitted-open".to_string(),
        order_cloid: Some("11111111-1111-5111-8111-111111111111".to_string()),
        submitted_at_ms: Some(now_ms()),
        ..pending_open.clone()
    };
    let snapshot = CopyPersistenceSnapshot {
        schema_version: 1,
        saved_at_ms: now_ms(),
        seen_event_keys: vec!["seen-a".to_string()],
        ledger_entries: vec![pending_open, pending_reduce, submitted_open],
    };

    let filtered = copy_live_daemon_persistence_snapshot_for_save(snapshot);

    assert_eq!(filtered.seen_event_keys, vec!["seen-a"]);
    assert_eq!(filtered.ledger_entries.len(), 2);
    assert!(
        filtered
            .ledger_entries
            .iter()
            .all(|entry| entry.signal_id != "sig-shadow-only-open")
    );
    assert!(
        filtered
            .ledger_entries
            .iter()
            .any(|entry| entry.signal_id == "sig-pending-reduce")
    );
    assert!(
        filtered
            .ledger_entries
            .iter()
            .any(|entry| entry.signal_id == "sig-submitted-open")
    );
}

#[test]
fn copy_live_daemon_persistence_merge_preserves_existing_open_entries() {
    let existing_open = CopyLedgerEntry {
        local_account_id: "addr_a".to_string(),
        leader_id: "leader_a".to_string(),
        leader_group: "leader_a".to_string(),
        signal_id: "sig-existing-jpy".to_string(),
        coin: "xyz:JPY".to_string(),
        local_side: OrderSide::Buy,
        order_cloid: Some("11111111-1111-5111-8111-111111111111".to_string()),
        order_oid: Some(1001),
        submitted_at_ms: Some(now_ms()),
        filled_at_ms: Some(now_ms()),
        planned_notional_usd: usd(50.0),
        pending_notional_usd: usd(0.0),
        filled_notional_usd: usd(41.7),
        remaining_notional_usd: usd(41.7),
        status: CopyLedgerStatus::Open,
    };
    let incoming_open = CopyLedgerEntry {
        signal_id: "sig-new-natgas".to_string(),
        coin: "xyz:NATGAS".to_string(),
        local_side: OrderSide::Sell,
        order_cloid: Some("22222222-2222-5222-8222-222222222222".to_string()),
        order_oid: Some(1002),
        filled_notional_usd: usd(0.32),
        remaining_notional_usd: usd(0.32),
        ..existing_open.clone()
    };
    let unsubmitted_pending = CopyLedgerEntry {
        signal_id: "sig-shadow-only".to_string(),
        coin: "xyz:NATGAS".to_string(),
        order_cloid: None,
        order_oid: None,
        submitted_at_ms: None,
        filled_at_ms: None,
        pending_notional_usd: usd(50.0),
        status: CopyLedgerStatus::PendingOpen,
        ..existing_open.clone()
    };
    let existing = CopyPersistenceSnapshot {
        schema_version: 1,
        saved_at_ms: now_ms(),
        seen_event_keys: vec!["seen-existing".to_string()],
        ledger_entries: vec![existing_open],
    };
    let incoming = CopyPersistenceSnapshot {
        schema_version: 1,
        saved_at_ms: now_ms(),
        seen_event_keys: vec!["seen-new".to_string()],
        ledger_entries: vec![incoming_open, unsubmitted_pending],
    };

    let merged = copy_live_daemon_merge_persistence_snapshots_for_save(existing, incoming, now_ms());

    assert_eq!(merged.seen_event_keys, vec!["seen-existing", "seen-new"]);
    assert_eq!(merged.ledger_entries.len(), 2);
    assert!(
        merged
            .ledger_entries
            .iter()
            .any(|entry| entry.signal_id == "sig-existing-jpy")
    );
    assert!(
        merged
            .ledger_entries
            .iter()
            .any(|entry| entry.signal_id == "sig-new-natgas")
    );
    assert!(
        merged
            .ledger_entries
            .iter()
            .all(|entry| entry.signal_id != "sig-shadow-only")
    );
}

#[test]
fn copy_live_daemon_persistence_merge_replaces_pending_reduce_with_closed_submission() {
    let pending_reduce = CopyLedgerEntry {
        local_account_id: "addr_a".to_string(),
        leader_id: "leader_a".to_string(),
        leader_group: "leader_a".to_string(),
        signal_id: "sig-close".to_string(),
        coin: "xyz:SKHX".to_string(),
        local_side: OrderSide::Buy,
        order_cloid: None,
        order_oid: None,
        submitted_at_ms: None,
        filled_at_ms: None,
        planned_notional_usd: usd(49.0),
        pending_notional_usd: usd(49.0),
        filled_notional_usd: usd(0.0),
        remaining_notional_usd: usd(49.0),
        status: CopyLedgerStatus::PendingReduce,
    };
    let closed_reduce = CopyLedgerEntry {
        order_cloid: Some("77777777-7777-5777-8777-777777777777".to_string()),
        order_oid: Some(7001),
        submitted_at_ms: Some(now_ms()),
        filled_at_ms: Some(now_ms()),
        pending_notional_usd: usd(0.0),
        filled_notional_usd: usd(48.9),
        remaining_notional_usd: usd(0.0),
        status: CopyLedgerStatus::Closed,
        ..pending_reduce.clone()
    };
    let existing = CopyPersistenceSnapshot {
        schema_version: 1,
        saved_at_ms: now_ms(),
        seen_event_keys: vec!["seen-a".to_string()],
        ledger_entries: vec![pending_reduce],
    };
    let incoming = CopyPersistenceSnapshot {
        schema_version: 1,
        saved_at_ms: now_ms(),
        seen_event_keys: vec!["seen-b".to_string()],
        ledger_entries: vec![closed_reduce],
    };

    let merged = copy_live_daemon_merge_persistence_snapshots_for_save(existing, incoming, now_ms());

    assert_eq!(merged.ledger_entries.len(), 1);
    let entry = &merged.ledger_entries[0];
    assert_eq!(entry.signal_id, "sig-close");
    assert_eq!(
        entry.status,
        CopyLedgerStatus::Closed
    );
    assert_eq!(entry.order_oid, Some(7001));
    assert_eq!(entry.remaining_notional_usd, usd(0.0));
}

#[test]
fn copy_live_daemon_persistence_merge_closed_reduce_consumes_open_entry() {
    let open_entry = CopyLedgerEntry {
        local_account_id: "addr_a".to_string(),
        leader_id: "leader_a".to_string(),
        leader_group: "leader_a".to_string(),
        signal_id: "sig-open".to_string(),
        coin: "xyz:SKHX".to_string(),
        local_side: OrderSide::Buy,
        order_cloid: Some("11111111-1111-5111-8111-111111111111".to_string()),
        order_oid: Some(9001),
        submitted_at_ms: Some(now_ms()),
        filled_at_ms: Some(now_ms()),
        planned_notional_usd: usd(50.0),
        pending_notional_usd: usd(0.0),
        filled_notional_usd: usd(49.0941),
        remaining_notional_usd: usd(49.0941),
        status: CopyLedgerStatus::Open,
    };
    let closed_reduce = CopyLedgerEntry {
        signal_id: "sig-close-close-123".to_string(),
        order_cloid: Some("22222222-2222-5222-8222-222222222222".to_string()),
        order_oid: Some(9002),
        planned_notional_usd: usd(49.0941),
        pending_notional_usd: usd(0.0),
        filled_notional_usd: usd(49.0622),
        remaining_notional_usd: usd(0.0),
        status: CopyLedgerStatus::Closed,
        ..open_entry.clone()
    };
    let existing = CopyPersistenceSnapshot {
        schema_version: 1,
        saved_at_ms: now_ms(),
        seen_event_keys: Vec::new(),
        ledger_entries: vec![open_entry],
    };
    let incoming = CopyPersistenceSnapshot {
        schema_version: 1,
        saved_at_ms: now_ms(),
        seen_event_keys: Vec::new(),
        ledger_entries: vec![closed_reduce],
    };

    let merged = copy_live_daemon_merge_persistence_snapshots_for_save(existing, incoming, now_ms());

    let open = merged
        .ledger_entries
        .iter()
        .find(|entry| entry.signal_id == "sig-open")
        .expect("open entry");
    assert_eq!(
        open.status,
        CopyLedgerStatus::Closed
    );
    assert_eq!(open.remaining_notional_usd, usd(0.0));
    let close = merged
        .ledger_entries
        .iter()
        .find(|entry| entry.signal_id == "sig-close-close-123")
        .expect("closed reduce entry");
    assert_eq!(
        close.status,
        CopyLedgerStatus::Closed
    );
}

#[test]
fn copy_live_daemon_prunes_stale_ledger_entries_without_live_position() {
    let stale_open = CopyLedgerEntry {
        local_account_id: "addr_a".to_string(),
        leader_id: "leader_a".to_string(),
        leader_group: "leader_a".to_string(),
        signal_id: "sig-stale-gbp-open".to_string(),
        coin: "xyz:GBP".to_string(),
        local_side: OrderSide::Buy,
        order_cloid: Some("11111111-1111-5111-8111-111111111111".to_string()),
        order_oid: Some(9001),
        submitted_at_ms: Some(now_ms()),
        filled_at_ms: Some(now_ms()),
        planned_notional_usd: usd(50.0),
        pending_notional_usd: usd(0.0),
        filled_notional_usd: usd(49.3025),
        remaining_notional_usd: usd(0.0814),
        status: CopyLedgerStatus::Open,
    };
    let stale_reduce = CopyLedgerEntry {
        signal_id: "sig-stale-gbp-reduce".to_string(),
        order_cloid: None,
        order_oid: None,
        submitted_at_ms: None,
        filled_at_ms: None,
        planned_notional_usd: usd(0.0814),
        pending_notional_usd: usd(0.0814),
        filled_notional_usd: usd(0.0),
        remaining_notional_usd: usd(0.0814),
        status: CopyLedgerStatus::PendingReduce,
        ..stale_open.clone()
    };
    let live_jpy = CopyLedgerEntry {
        signal_id: "sig-live-jpy-open".to_string(),
        coin: "xyz:JPY".to_string(),
        remaining_notional_usd: usd(49.0),
        ..stale_open.clone()
    };
    let snapshot = CopyPersistenceSnapshot {
        schema_version: 1,
        saved_at_ms: now_ms(),
        seen_event_keys: vec!["seen-gbp".to_string()],
        ledger_entries: vec![stale_open, stale_reduce, live_jpy],
    };
    let reconciliations = vec![CopyBoundedLiveWindowReconcile {
        account_id: "addr_a".to_string(),
        ok: false,
        open_order_count: Some(0),
        asset_positions: Some(1),
        position_summaries: vec![CopyBoundedLiveWindowPositionSummary {
            coin: "xyz:JPY".to_string(),
            szi: "0.62".to_string(),
            position_value: Some("99.9254".to_string()),
        }],
        account_value: Some("42.5".to_string()),
        withdrawable: Some("13.1".to_string()),
        total_ntl_pos: Some("99.9".to_string()),
        total_margin_used: Some("19.9".to_string()),
        error: None,
    }];

    let pruned = copy_live_daemon_prune_snapshot_against_reconciliations(
        snapshot,
        &reconciliations,
    );

    assert_eq!(pruned.seen_event_keys, vec!["seen-gbp"]);
    assert_eq!(pruned.ledger_entries.len(), 1);
    assert_eq!(pruned.ledger_entries[0].signal_id, "sig-live-jpy-open");
}

#[test]
fn copy_live_daemon_prune_keeps_snapshot_when_reconcile_unreadable() {
    let entry = CopyLedgerEntry {
        local_account_id: "addr_a".to_string(),
        leader_id: "leader_a".to_string(),
        leader_group: "leader_a".to_string(),
        signal_id: "sig-open".to_string(),
        coin: "xyz:GBP".to_string(),
        local_side: OrderSide::Buy,
        order_cloid: Some("11111111-1111-5111-8111-111111111111".to_string()),
        order_oid: Some(9001),
        submitted_at_ms: Some(now_ms()),
        filled_at_ms: Some(now_ms()),
        planned_notional_usd: usd(50.0),
        pending_notional_usd: usd(0.0),
        filled_notional_usd: usd(49.3025),
        remaining_notional_usd: usd(49.3025),
        status: CopyLedgerStatus::Open,
    };
    let snapshot = CopyPersistenceSnapshot {
        schema_version: 1,
        saved_at_ms: now_ms(),
        seen_event_keys: Vec::new(),
        ledger_entries: vec![entry],
    };
    let reconciliations = vec![CopyBoundedLiveWindowReconcile {
        account_id: "addr_a".to_string(),
        ok: false,
        open_order_count: None,
        asset_positions: None,
        position_summaries: Vec::new(),
        account_value: None,
        withdrawable: None,
        total_ntl_pos: None,
        total_margin_used: None,
        error: Some("network timeout".to_string()),
    }];

    let pruned = copy_live_daemon_prune_snapshot_against_reconciliations(
        snapshot,
        &reconciliations,
    );

    assert_eq!(pruned.ledger_entries.len(), 1);
    assert_eq!(pruned.ledger_entries[0].signal_id, "sig-open");
}

#[test]
fn copy_live_daemon_follow_position_health_fails_on_unmapped_live_position() {
    let mut options = follow_position_options();
    options.max_total_notional_usd = usd(1_000.0);
    let snapshot = CopyPersistenceSnapshot {
        schema_version: 1,
        saved_at_ms: now_ms(),
        seen_event_keys: Vec::new(),
        ledger_entries: Vec::new(),
    };
    let reconciliations = vec![CopyBoundedLiveWindowReconcile {
        account_id: "addr_a".to_string(),
        ok: false,
        open_order_count: Some(0),
        asset_positions: Some(1),
        position_summaries: vec![CopyBoundedLiveWindowPositionSummary {
            coin: "xyz:GOLD".to_string(),
            szi: "0.085".to_string(),
            position_value: Some("349.996".to_string()),
        }],
        account_value: Some("158.0".to_string()),
        withdrawable: Some("0.2".to_string()),
        total_ntl_pos: Some("349.996".to_string()),
        total_margin_used: Some("35.0".to_string()),
        error: None,
    }];

    assert!(
        !copy_live_daemon_reconciliations_healthy_for_snapshot(
            &options,
            &reconciliations,
            &snapshot
        )
    );
    let detail = copy_live_daemon_reconcile_health_detail_for_snapshot(
        &options,
        &reconciliations,
        &snapshot,
    );
    assert!(detail.contains("unmanaged live position"));
    assert!(detail.contains("addr_a:xyz:GOLD:buy"));
}

#[test]
fn copy_live_daemon_follow_position_health_ignores_unmapped_dust() {
    let mut options = follow_position_options();
    options.max_total_notional_usd = usd(1_000.0);
    let snapshot = CopyPersistenceSnapshot {
        schema_version: 1,
        saved_at_ms: now_ms(),
        seen_event_keys: Vec::new(),
        ledger_entries: Vec::new(),
    };
    let reconciliations = vec![CopyBoundedLiveWindowReconcile {
        account_id: "addr_a".to_string(),
        ok: false,
        open_order_count: Some(0),
        asset_positions: Some(1),
        position_summaries: vec![CopyBoundedLiveWindowPositionSummary {
            coin: "xyz:BE".to_string(),
            szi: "-0.01".to_string(),
            position_value: Some("3.2677".to_string()),
        }],
        account_value: Some("158.0".to_string()),
        withdrawable: Some("0.2".to_string()),
        total_ntl_pos: Some("3.2677".to_string()),
        total_margin_used: Some("0.3".to_string()),
        error: None,
    }];

    assert!(
        copy_live_daemon_reconciliations_healthy_for_snapshot(
            &options,
            &reconciliations,
            &snapshot
        )
    );
    let detail = copy_live_daemon_reconcile_health_detail_for_snapshot(
        &options,
        &reconciliations,
        &snapshot,
    );
    assert!(!detail.contains("unmanaged live position"));
}

/// A recorded decision to copy an opening trade.
fn would_copy(
    occurred_at_ms: u64,
    leader: (&str, &str),
    account_id: Option<&str>,
    coin: &str,
    signal_id: &str,
    notional_usd: f64,
) -> CopyShadowHistoryEntry {
    CopyShadowHistoryEntry {
        occurred_at_ms,
        status: "would_copy".to_string(),
        leader_id: leader.0.to_string(),
        leader_address: leader.1.to_string(),
        local_account_id: account_id.map(|id| id.to_string()),
        coin: coin.to_string(),
        signal_id: Some(signal_id.to_string()),
        side: Some(OrderSide::Buy),
        reduce_only: Some(false),
        notional_usd: Some(usd(notional_usd)),
    }
}

/// An account that holds one long position.
fn holds(account_id: &str, coin: &str, szi: &str, value: &str) -> CopyBoundedLiveWindowReconcile {
    CopyBoundedLiveWindowReconcile {
        account_id: account_id.to_string(),
        ok: false,
        open_order_count: Some(0),
        asset_positions: Some(1),
        position_summaries: vec![CopyBoundedLiveWindowPositionSummary {
            coin: coin.to_string(),
            szi: szi.to_string(),
            position_value: Some(value.to_string()),
        }],
        account_value: None,
        withdrawable: None,
        total_ntl_pos: Some(value.to_string()),
        total_margin_used: Some("35.0".to_string()),
        error: None,
    }
}

const LEADER_5: (&str, &str) = ("leader_5", "0xd8c5228c515db3043dfa0c8cd6f22450ee9a99b0");
const LEADER_4: (&str, &str) = ("leader_4", "0x9dead8fffcbf130e7658f672d2c081d91178d617");

#[test]
fn copy_live_daemon_recovers_open_ledger_from_live_position_and_shadow() {
    let history = vec![would_copy(12345, LEADER_5, None, "xyz:GOLD", "sig-gold", 350.0)];
    let reconciliations = vec![holds("addr_a", "xyz:GOLD", "0.085", "349.996")];
    let mut options = follow_position_options();
    options.leaders = vec!["leader_5=0xd8c5228c515db3043dfa0c8cd6f22450ee9a99b0".to_string()];
    options.markets = vec!["xyz_perp".to_string()];
    options.max_total_notional_usd = usd(3000.0);

    let recovered = copy_live_daemon_recover_open_ledger_from_live_positions(
        empty_snapshot(),
        &reconciliations,
        &options,
        &history,
    );

    assert_eq!(recovered.ledger_entries.len(), 1);
    let entry = &recovered.ledger_entries[0];
    assert_eq!(entry.signal_id, "sig-gold");
    assert_eq!(entry.leader_id, "leader_5");
    assert_eq!(entry.coin, "xyz:GOLD");
    assert_eq!(entry.local_side, OrderSide::Buy);
    assert_eq!(entry.status, CopyLedgerStatus::Open);
    assert_eq!(entry.remaining_notional_usd, usd(349.996));
}

#[test]
fn copy_live_daemon_recovers_open_ledger_for_all_selected_accounts() {
    let history = vec![
        would_copy(12345, LEADER_4, None, "xyz:SP500", "sig-sp500", 110.0),
        would_copy(12346, LEADER_5, None, "xyz:GOLD", "sig-gold", 350.0),
    ];
    let reconciliations = vec![
        holds("addr_a", "xyz:GOLD", "0.085", "349.996"),
        holds("addr_b", "xyz:SP500", "0.015", "110.748"),
    ];
    let mut options = follow_position_options();
    options.account_ids = vec!["addr_a".to_string(), "addr_b".to_string()];
    options.local_account_id = Some("addr_a".to_string());

    let recovered = copy_live_daemon_recover_open_ledger_from_live_positions(
        empty_snapshot(),
        &reconciliations,
        &options,
        &history,
    );

    assert_eq!(recovered.ledger_entries.len(), 2);
    assert!(
        recovered
            .ledger_entries
            .iter()
            .any(|entry| { entry.local_account_id == "addr_a" && entry.coin == "xyz:GOLD" })
    );
    assert!(
        recovered
            .ledger_entries
            .iter()
            .any(|entry| { entry.local_account_id == "addr_b" && entry.coin == "xyz:SP500" })
    );
}

#[test]
fn copy_live_daemon_recovers_open_ledger_from_historical_shadow_files() {
    assert!(is_shadow_sibling_name("persistent-live-soak-20260624-075143-shadow.jsonl"));
    assert!(is_shadow_sibling_name("persistent-live-soak-current-shadow.jsonl"));
    assert!(!is_shadow_sibling_name("persistent-live-soak-20260624.json"));
    let from_files = vec![would_copy(
        12345,
        LEADER_5,
        Some("addr_a"),
        "xyz:GOLD",
        "sig-gold",
        350.0,
    )];
    let history = copy_live_daemon_recent_shadow_entries_for_recovery(&from_files, 5_000);
    let reconciliations = vec![holds("addr_a", "xyz:GOLD", "0.085", "347.582")];
    let mut options = follow_position_options();
    options.account_ids = vec!["addr_a".to_string(), "addr_b".to_string()];

    let recovered = copy_live_daemon_recover_open_ledger_from_live_positions(
        empty_snapshot(),
        &reconciliations,
        &options,
        &history,
    );

    assert_eq!(recovered.ledger_entries.len(), 1);
    assert_eq!(recovered.ledger_entries[0].local_account_id, "addr_a");
    assert_eq!(recovered.ledger_entries[0].coin, "xyz:GOLD");
    assert_eq!(recovered.ledger_entries[0].remaining_notional_usd, usd(347.582));
}

#[test]
fn the_newest_records_come_first() {
    let entries = vec![
        would_copy(10, LEADER_5, None, "xyz:GOLD", "old", 1.0),
        would_copy(30, LEADER_5, None, "xyz:GOLD", "new", 1.0),
        would_copy(20, LEADER_5, None, "xyz:GOLD", "mid", 1.0),
    ];
    let recent = copy_live_daemon_recent_shadow_entries_for_recovery(&entries, 2);
    assert_eq!(recent.len(), 2);
    assert_eq!(recent[0].signal_id.as_deref(), Some("new"));
    assert_eq!(recent[1].signal_id.as_deref(), Some("mid"));
    assert_eq!(newest_siblings(&vec![5, 9, 7]), vec![1, 2, 0]);
}

#[test]
fn a_recovery_without_records_changes_nothing() {
    let reconciliations = vec![holds("addr_a", "xyz:GOLD", "0.085", "349.996")];
    let recovered = copy_live_daemon_recover_open_ledger_from_live_positions(
        empty_snapshot(),
        &reconciliations,
        &follow_position_options(),
        &Vec::new(),
    );
    assert!(recovered.ledger_entries.is_empty());
    assert_eq!(
        copy_live_daemon_unmapped_position_keys(&recovered, &reconciliations).len(),
        1
    );
}

#[test]
fn reductions_are_spread_over_open_entries() {
    let mut first = entry("addr_a", "xyz:GBP", OrderSide::Buy, 20.0);
    first.signal_id = "one".to_string();
    let mut second = entry("addr_a", "xyz:GBP", OrderSide::Buy, 30.0);
    second.signal_id = "two".to_string();
    let mut close = entry("addr_a", "xyz:GBP", OrderSide::Buy, 0.0);
    close.signal_id = "three-close-1".to_string();
    close.status = CopyLedgerStatus::Closed;
    close.planned_notional_usd = usd(25.0);
    close.filled_notional_usd = usd(25.0);
    let mut entries = vec![first, second, close];
    assert!(copy_live_daemon_closed_reduce_entry_consumes_open(&entries[2]));
    copy_live_daemon_apply_closed_reduces_to_open_entries(&mut entries);
    let left: i64 = entries
        .iter()
        .filter(|entry| entry.status == CopyLedgerStatus::Open)
        .map(|entry| entry.remaining_notional_usd)
        .sum();
    assert_eq!(left, usd(25.0));
}

#[test]
fn merging_the_same_ledger_again_adds_nothing() {
    let snapshot = CopyPersistenceSnapshot::new(
        now_ms(),
        vec!["b".to_string(), "a".to_string(), "b".to_string()],
        vec![
            entry("addr_a", "xyz:GBP", OrderSide::Buy, 20.0),
            entry("addr_a", "xyz:JPY", OrderSide::Sell, 30.0),
        ],
    );
    let merged =
        copy_live_daemon_merge_persistence_snapshots(snapshot.copied(), snapshot.copied(), 5);
    assert_eq!(merged.saved_at_ms, 5);
    assert_eq!(merged.seen_event_keys, vec!["a".to_string(), "b".to_string()]);
    assert_eq!(merged.ledger_entries.len(), 2);
    assert_ne!(
        copy_live_daemon_ledger_entry_identity(&merged.ledger_entries[0]),
        copy_live_daemon_ledger_entry_identity(&merged.ledger_entries[1])
    );
}

#[test]
fn saving_twice_is_saving_once() {
    let mut planned = entry("addr_a", "xyz:GBP", OrderSide::Buy, 20.0);
    planned.status = CopyLedgerStatus::PendingOpen;
    planned.order_cloid = Some(" ".to_string());
    planned.order_oid = None;
    planned.submitted_at_ms = None;
    let open = entry("addr_a", "xyz:JPY", OrderSide::Buy, 30.0);
    let once = copy_live_daemon_persistence_snapshot_for_save(CopyPersistenceSnapshot::new(
        1,
        Vec::new(),
        vec![planned, open],
    ));
    assert_eq!(once.ledger_entries.len(), 1);
    let twice = copy_live_daemon_persistence_snapshot_for_save(once.copied());
    assert_eq!(twice.ledger_entries.len(), 1);
    assert_eq!(twice.ledger_entries[0].coin, "xyz:JPY");
}

#[test]
fn without_a_closing_order_nothing_is_reduced() {
    let mut entries = vec![
        entry("addr_a", "xyz:GBP", OrderSide::Buy, 20.0),
        entry("addr_b", "xyz:GBP", OrderSide::Buy, 30.0),
    ];
    copy_live_daemon_apply_closed_reduces_to_open_entries(&mut entries);
    assert_eq!(entries[0].remaining_notional_usd, usd(20.0));
    assert_eq!(entries[1].remaining_notional_usd, usd(30.0));
}

#[test]
fn recovered_positions_are_known() {
    let history = vec![would_copy(12345, LEADER_5, None, "xyz:GOLD", "sig-gold", 350.0)];
    let reconciliations = vec![
        holds("addr_a", "xyz:GOLD", "0.085", "349.996"),
        holds("addr_z", "xyz:GOLD", "0.085", "349.996"),
    ];
    let recovered = copy_live_daemon_recover_open_ledger_from_live_positions(
        empty_snapshot(),
        &reconciliations,
        &follow_position_options(),
        &history,
    );
    let unknown = copy_live_daemon_unmapped_position_keys(&recovered, &reconciliations);
    assert_eq!(unknown.len(), 1);
    assert!(unknown[0].contains("addr_z"));
}

#[test]
fn the_smallest_position_keeps_its_entry() {
    let reconciliations = vec![holds("addr_a", "xyz:GOLD", "0.0000000000010000001", "350.0")];
    let unknown = copy_live_daemon_unmapped_position_keys(&empty_snapshot(), &reconciliations);
    assert_eq!(unknown, vec!["addr_a:xyz:GOLD:buy".to_string()]);
    let known = CopyPersistenceSnapshot::new(
        now_ms(),
        Vec::new(),
        vec![entry("addr_a", "xyz:GOLD", OrderSide::Buy, 350.0)],
    );
    let pruned = copy_live_daemon_prune_snapshot_against_reconciliations(known, &reconciliations);
    assert_eq!(pruned.ledger_entries.len(), 1);
    assert!(copy_live_daemon_unmapped_position_keys(&pruned, &reconciliations).is_empty());
    let flat = vec![holds("addr_a", "xyz:GOLD", "0.000000000001", "350.0")];
    let pruned = copy_live_daemon_prune_snapshot_against_reconciliations(pruned, &flat);
    assert!(pruned.ledger_entries.is_empty());
}

#[test]
fn a_recovered_entry_is_worth_its_position() {
    let history = vec![would_copy(12345, LEADER_5, None, "xyz:GOLD", "sig-gold", 350.0)];
    let recovered = |value: &str| {
        copy_live_daemon_recover_open_ledger_from_live_positions(
            empty_snapshot(),
            &vec![holds("addr_a", "xyz:GOLD", "0.085", value)],
            &follow_position_options(),
            &history,
        )
        .ledger_entries[0]
            .remaining_notional_usd
    };
    assert_eq!(recovered("349.996"), usd(349.996));
    assert_eq!(recovered("0.0000000005"), 1);
    assert_eq!(recovered("0.0"), usd(350.0));
    assert_eq!(recovered("inf"), usd(350.0));
}

#[test]
fn an_unreadable_account_is_never_healthy() {
    let options = follow_position_options();
    let unreadable = unreadable_reconcile("addr_a", "timed out".to_string());
    assert!(!copy_live_daemon_reconcile_healthy_for_mode(&options, &unreadable));
    let held = holds("addr_a", "xyz:GOLD", "0.01", "40.0");
    assert!(copy_live_daemon_reconcile_healthy_for_mode(&options, &held));
    assert!(copy_live_daemon_reconciliations_ready_for_reduce_only(&vec![held]));
    let mut unlimited = follow_position_options();
    unlimited.max_total_notional_usd = i64::MAX;
    let large = holds("addr_a", "xyz:GOLD", "0.01", "9223372036.854775807");
    assert!(copy_live_daemon_reconcile_healthy_for_mode(&unlimited, &large));
    for beyond in ["9223372036.854777", "1e25", "inf", "-Infinity"] {
        let beyond = holds("addr_a", "xyz:GOLD", "0.01", beyond);
        assert!(!copy_live_daemon_reconcile_healthy_for_mode(&unlimited, &beyond));
    }
}

#[test]
fn closing_orders_are_not_counted_twice() {
    let mut closing = entry("addr_a", "xyz:GBP", OrderSide::Buy, 5.0);
    closing.signal_id = "sig-close-1".to_string();
    closing.status = CopyLedgerStatus::Closed;
    let mut entries = vec![entry("addr_a", "xyz:GBP", OrderSide::Buy, 20.0), closing];
    copy_live_daemon_apply_closed_reduces_to_open_entries(&mut entries);
    assert_eq!(entries[0].remaining_notional_usd, usd(15.0));
    copy_live_daemon_apply_closed_reduces_to_open_entries(&mut entries);
    assert_eq!(entries[0].remaining_notional_usd, usd(15.0));
    assert_eq!(entries[0].status, CopyLedgerStatus::Open);
}
