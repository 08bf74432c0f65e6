//! Fitting plans to margins, exposures and minimum sizes.

use copy_daemon::contract::copy_live_daemon_submit_plan_contract;
use copy_daemon::domain::OrderSide;
use copy_daemon::follow::{
    copy_live_daemon_executable_refs_for_snapshot,
    copy_live_daemon_prepare_refs_for_follow_position_limits,
};
use copy_daemon::ledger::{
    CopyLedgerEntry, CopyLedgerStatus, CopyPersistenceSnapshot, HYPERLIQUID_MIN_ORDER_NOTIONAL_USD,
};
use copy_daemon::margin::{
    copy_live_daemon_open_margin_check, copy_live_daemon_open_margin_requirements,
    copy_live_daemon_resize_open_refs_for_margin,
};
use copy_daemon::options::CopyLiveDaemonSupervisorOptions;
use copy_daemon::partition::{estimated_fees, partition_copy_live_daemon_would_submit_refs};
use copy_daemon::plan::{CopyExecutionCanaryWouldSubmit, CopyLiveDaemonWouldSubmitRef};
use copy_daemon::reconcile::CopyBoundedLiveWindowReconcile;

/// A sum of amounts in dollars.
fn sum_usd(x: f64) -> i128 {
    i128::from(usd(x))
}

/// An amount in dollars as a fixed-point number.
fn usd(x: f64) -> i64 {
    (x * 1e9).round() as i64
}

fn now_ms() -> u64 {
    1_781_745_839_800
}

/// Every supported market.
fn all_markets() -> Vec<String> {
    ["hl_perp", "xyz_perp", "spot", "cash_perp"]
        .iter()
        .map(|market| market.to_string())
        .collect()
}

fn follow_position_options() -> CopyLiveDaemonSupervisorOptions {
    CopyLiveDaemonSupervisorOptions {
        leaders: Vec::new(),
        account_ids: vec!["addr_a".to_string()],
        local_account_id: Some("addr_a".to_string()),
        markets: all_markets(),
        coin: "xyz:XYZ100".to_string(),
        side: OrderSide::Buy,
        persistence_path: "unused-follow-position-options.json".to_string(),
        shadow_history_path: "unused-follow-position-options.jsonl".to_string(),
        leader_notional_usd: usd(120.0),
        leader_size: usd(1.0),
        live_gate: true,
        allow_live_submit: true,
        confirm_mainnet_live: false,
        submit: true,
        hold_positions_after_submit: true,
        cleanup_max_slippage_bps: usd(50.0),
        duration_secs: 60,
        max_events: 1000,
        max_live_orders: 1,
        max_total_notional_usd: usd(50.0),
        max_total_fees_usd: usd(0.10),
        max_slippage_bps: usd(50.0),
        environment: None,
        ws_url: None,
    }
}

/// An account without orders or positions.
fn flat_account(account_id: &str) -> CopyBoundedLiveWindowReconcile {
    CopyBoundedLiveWindowReconcile {
        account_id: account_id.to_string(),
        ok: true,
        open_order_count: Some(0),
        asset_positions: Some(0),
        position_summaries: Vec::new(),
        account_value: Some("100.0".to_string()),
        withdrawable: Some("100.0".to_string()),
        total_ntl_pos: Some("0.0".to_string()),
        total_margin_used: Some("0.0".to_string()),
        error: None,
    }
}

/// A plan for one order.
fn plan(account_id: &str, coin: &str, notional_usd: f64, reduce_only: bool, cloid: &str) -> CopyLiveDaemonWouldSubmitRef {
    CopyLiveDaemonWouldSubmitRef {
        record_index: 0,
        signal_id: format!("sig-{cloid}"),
        leader_id: "leader_a".to_string(),
        leader_address: "0x00000000000000000000000000000000000000aa".to_string(),
        order: CopyExecutionCanaryWouldSubmit {
            account_id: account_id.to_string(),
            worker_id: format!("worker-{account_id}"),
            coin: coin.to_string(),
            side: OrderSide::Buy,
            notional_usd: usd(notional_usd),
            reduce_only,
            cloid: cloid.to_string(),
        },
    }
}

fn empty_snapshot() -> CopyPersistenceSnapshot {
    CopyPersistenceSnapshot::new(now_ms(), Vec::new(), Vec::new())
}

#[test]
fn copy_live_daemon_margin_resize_shrinks_open_ref_before_cap_partition() {
    let refs = vec![
        CopyLiveDaemonWouldSubmitRef {
            record_index: 0,
            signal_id: "sig-open-low-margin".to_string(),
            leader_id: "leader_a".to_string(),
            leader_address: "0x00000000000000000000000000000000000000aa".to_string(),
            order: CopyExecutionCanaryWouldSubmit {
                account_id: "addr_a".to_string(),
                worker_id: "worker-addr_a".to_string(),
                coin: "xyz:XYZ100".to_string(),
                side: OrderSide::Sell,
                notional_usd: usd(50.0),
                reduce_only: false,
                cloid: "00000000-0000-0000-0000-000000000101".to_string(),
            },
        },
        CopyLiveDaemonWouldSubmitRef {
            record_index: 1,
            signal_id: "sig-open-second".to_string(),
            leader_id: "leader_b".to_string(),
            leader_address: "0x00000000000000000000000000000000000000bb".to_string(),
            order: CopyExecutionCanaryWouldSubmit {
                account_id: "addr_a".to_string(),
                worker_id: "worker-addr_a".to_string(),
                coin: "xyz:GBP".to_string(),
                side: OrderSide::Buy,
                notional_usd: usd(50.0),
                reduce_only: false,
                cloid: "00000000-0000-0000-0000-000000000102".to_string(),
            },
        },
    ];
    let reconciliations = vec![CopyBoundedLiveWindowReconcile {
        account_id: "addr_a".to_string(),
        ok: true,
        open_order_count: Some(0),
        asset_positions: Some(0),
        position_summaries: Vec::new(),
        account_value: Some("20.0".to_string()),
        withdrawable: Some("3.267497".to_string()),
        total_ntl_pos: Some("0.0".to_string()),
        total_margin_used: Some("0.0".to_string()),
        error: None,
    }];

    let (prepared, suppressed) =
        copy_live_daemon_resize_open_refs_for_margin(&refs, &reconciliations);

    assert_eq!(prepared.len(), 1);
    assert_eq!(suppressed.len(), 1);
    assert_eq!(
        suppressed[0].reason_code,
        "COPY_DAEMON_MARGIN_RESIZED_BELOW_MIN"
    );
    assert_eq!(prepared[0].signal_id, "sig-open-low-margin");
    let expected_resized_notional = usd(3.267497 / ((1.0 + 0.10) / 10.0 + 0.001));
    assert!(
        (prepared[0].order.notional_usd - expected_resized_notional).abs() < usd(0.0001),
        "{prepared:#?}"
    );
}

#[test]
fn copy_live_daemon_margin_resize_below_min_does_not_consume_live_order_slot() {
    let options = follow_position_options();
    let refs = vec![
        CopyLiveDaemonWouldSubmitRef {
            record_index: 0,
            signal_id: "sig-too-small".to_string(),
            leader_id: "leader_a".to_string(),
            leader_address: "0x00000000000000000000000000000000000000aa".to_string(),
            order: CopyExecutionCanaryWouldSubmit {
                account_id: "addr_a".to_string(),
                worker_id: "worker-addr_a".to_string(),
                coin: "xyz:XYZ100".to_string(),
                side: OrderSide::Sell,
                notional_usd: usd(50.0),
                reduce_only: false,
                cloid: "00000000-0000-0000-0000-000000000111".to_string(),
            },
        },
        CopyLiveDaemonWouldSubmitRef {
            record_index: 1,
            signal_id: "sig-other-account".to_string(),
            leader_id: "leader_b".to_string(),
            leader_address: "0x00000000000000000000000000000000000000bb".to_string(),
            order: CopyExecutionCanaryWouldSubmit {
                account_id: "addr_b".to_string(),
                worker_id: "worker-addr_b".to_string(),
                coin: "xyz:GBP".to_string(),
                side: OrderSide::Buy,
                notional_usd: usd(12.0),
                reduce_only: false,
                cloid: "00000000-0000-0000-0000-000000000112".to_string(),
            },
        },
    ];
    let reconciliations = vec![
        CopyBoundedLiveWindowReconcile {
            account_id: "addr_a".to_string(),
            ok: true,
            open_order_count: Some(0),
            asset_positions: Some(0),
            position_summaries: Vec::new(),
            account_value: Some("2.0".to_string()),
            withdrawable: Some("1.0".to_string()),
            total_ntl_pos: Some("0.0".to_string()),
            total_margin_used: Some("0.0".to_string()),
            error: None,
        },
        CopyBoundedLiveWindowReconcile {
            account_id: "addr_b".to_string(),
            ok: true,
            open_order_count: Some(0),
            asset_positions: Some(0),
            position_summaries: Vec::new(),
            account_value: Some("20.0".to_string()),
            withdrawable: Some("20.0".to_string()),
            total_ntl_pos: Some("0.0".to_string()),
            total_margin_used: Some("0.0".to_string()),
            error: None,
        },
    ];

    let (margin_prepared, mut margin_suppressed) =
        copy_live_daemon_resize_open_refs_for_margin(&refs, &reconciliations);
    let (executable, mut cap_suppressed) =
        partition_copy_live_daemon_would_submit_refs(&margin_prepared, &options);
    margin_suppressed.append(&mut cap_suppressed);

    assert_eq!(executable.len(), 1);
    assert_eq!(executable[0].signal_id, "sig-other-account");
    assert_eq!(margin_suppressed.len(), 1);
    assert_eq!(
        margin_suppressed[0].reason_code,
        "COPY_DAEMON_MARGIN_RESIZED_BELOW_MIN"
    );
}

#[test]
fn copy_live_daemon_live_constraints_resize_before_account_exposure_cap() {
    let mut options = follow_position_options();
    options.max_total_notional_usd = usd(3_000.0);
    options.max_total_fees_usd = usd(1.0);
    let persistence = CopyPersistenceSnapshot {
        schema_version: 1,
        saved_at_ms: now_ms(),
        seen_event_keys: Vec::new(),
        ledger_entries: vec![CopyLedgerEntry {
            local_account_id: "addr_a".to_string(),
            leader_id: "leader_a".to_string(),
            leader_group: "leader_a".to_string(),
            signal_id: "sig-existing-open".to_string(),
            coin: "xyz:MU".to_string(),
            local_side: OrderSide::Buy,
            order_cloid: Some("existing-cloid".to_string()),
            order_oid: Some(123),
            submitted_at_ms: Some(now_ms()),
            filled_at_ms: Some(now_ms()),
            planned_notional_usd: usd(2_905.0),
            pending_notional_usd: usd(0.0),
            filled_notional_usd: usd(2_905.0),
            remaining_notional_usd: usd(2_905.0),
            status: CopyLedgerStatus::Open,
        }],
    };
    let refs = vec![CopyLiveDaemonWouldSubmitRef {
        record_index: 0,
        signal_id: "sig-resizable-open".to_string(),
        leader_id: "leader_a".to_string(),
        leader_address: "0x00000000000000000000000000000000000000aa".to_string(),
        order: CopyExecutionCanaryWouldSubmit {
            account_id: "addr_a".to_string(),
            worker_id: "worker-addr_a".to_string(),
            coin: "xyz:MU".to_string(),
            side: OrderSide::Buy,
            notional_usd: usd(350.0),
            reduce_only: false,
            cloid: "00000000-0000-0000-0000-000000000131".to_string(),
        },
    }];
    let reconciliations = vec![CopyBoundedLiveWindowReconcile {
        account_id: "addr_a".to_string(),
        ok: true,
        open_order_count: Some(0),
        asset_positions: Some(1),
        position_summaries: Vec::new(),
        account_value: Some("200.0".to_string()),
        withdrawable: Some("10.0".to_string()),
        total_ntl_pos: Some("1030.0".to_string()),
        total_margin_used: Some("103.0".to_string()),
        error: None,
    }];

    let (executable, suppressed) = copy_live_daemon_executable_refs_for_snapshot(
        &refs,
        &options,
        &persistence,
        &reconciliations,
    );

    assert!(suppressed.is_empty(), "{suppressed:#?}");
    assert_eq!(executable.len(), 1);
    assert_eq!(executable[0].signal_id, "sig-resizable-open");
    assert!(executable[0].order.notional_usd < usd(350.0));
    assert!(
        executable[0].order.notional_usd > HYPERLIQUID_MIN_ORDER_NOTIONAL_USD
    );
}

#[test]
fn copy_live_daemon_live_total_exposure_overrides_stale_symbol_ledger_for_open_cap() {
    let mut options = follow_position_options();
    options.max_total_notional_usd = usd(3_000.0);
    let persistence = CopyPersistenceSnapshot {
        schema_version: 1,
        saved_at_ms: now_ms(),
        seen_event_keys: Vec::new(),
        ledger_entries: vec![CopyLedgerEntry {
            local_account_id: "addr_a".to_string(),
            leader_id: "leader_a".to_string(),
            leader_group: "leader_a".to_string(),
            signal_id: "sig-stale-mu-open".to_string(),
            coin: "xyz:MU".to_string(),
            local_side: OrderSide::Buy,
            order_cloid: Some("stale-cloid".to_string()),
            order_oid: Some(123),
            submitted_at_ms: Some(now_ms()),
            filled_at_ms: Some(now_ms()),
            planned_notional_usd: usd(2_939.0),
            pending_notional_usd: usd(0.0),
            filled_notional_usd: usd(2_939.0),
            remaining_notional_usd: usd(2_939.0),
            status: CopyLedgerStatus::Open,
        }],
    };
    let open_ref = CopyLiveDaemonWouldSubmitRef {
        record_index: 0,
        signal_id: "sig-new-mu-open".to_string(),
        leader_id: "leader_a".to_string(),
        leader_address: "0x00000000000000000000000000000000000000aa".to_string(),
        order: CopyExecutionCanaryWouldSubmit {
            account_id: "addr_a".to_string(),
            worker_id: "worker-addr_a".to_string(),
            coin: "xyz:MU".to_string(),
            side: OrderSide::Buy,
            notional_usd: usd(133.0),
            reduce_only: false,
            cloid: "00000000-0000-0000-0000-000000000132".to_string(),
        },
    };
    let reconciliations = vec![CopyBoundedLiveWindowReconcile {
        account_id: "addr_a".to_string(),
        ok: true,
        open_order_count: Some(0),
        asset_positions: Some(3),
        position_summaries: Vec::new(),
        account_value: Some("139.0".to_string()),
        withdrawable: Some("14.7".to_string()),
        total_ntl_pos: Some("1024.5".to_string()),
        total_margin_used: Some("124.8".to_string()),
        error: None,
    }];

    let (prepared, suppressed) = copy_live_daemon_prepare_refs_for_follow_position_limits(
        &vec![open_ref],
        &options,
        &persistence,
        &reconciliations,
    );

    assert!(suppressed.is_empty(), "{suppressed:#?}");
    assert_eq!(prepared.len(), 1);
    assert_eq!(prepared[0].signal_id, "sig-new-mu-open");
}

#[test]
fn copy_live_daemon_margin_resize_leaves_reduce_only_refs_untouched() {
    let refs = vec![CopyLiveDaemonWouldSubmitRef {
        record_index: 0,
        signal_id: "sig-close".to_string(),
        leader_id: "leader_a".to_string(),
        leader_address: "0x00000000000000000000000000000000000000aa".to_string(),
        order: CopyExecutionCanaryWouldSubmit {
            account_id: "addr_a".to_string(),
            worker_id: "worker-addr_a".to_string(),
            coin: "xyz:GBP".to_string(),
            side: OrderSide::Sell,
            notional_usd: usd(50.0),
            reduce_only: true,
            cloid: "00000000-0000-0000-0000-000000000121".to_string(),
        },
    }];
    let reconciliations = vec![CopyBoundedLiveWindowReconcile {
        account_id: "addr_a".to_string(),
        ok: true,
        open_order_count: Some(0),
        asset_positions: Some(1),
        position_summaries: Vec::new(),
        account_value: Some("1.0".to_string()),
        withdrawable: Some("0.0".to_string()),
        total_ntl_pos: Some("50.0".to_string()),
        total_margin_used: Some("1.0".to_string()),
        error: None,
    }];

    let (prepared, suppressed) =
        copy_live_daemon_resize_open_refs_for_margin(&refs, &reconciliations);

    assert_eq!(prepared.len(), 1);
    assert!(suppressed.is_empty(), "{suppressed:#?}");
    assert!(prepared[0].order.reduce_only);
    assert_eq!(prepared[0].order.notional_usd, usd(50.0));
}

#[test]
fn copy_live_daemon_reduce_refs_wait_until_pending_min_notional_accumulates() {
    let pending_entry = CopyLedgerEntry {
        local_account_id: "addr_a".to_string(),
        leader_id: "leader_a".to_string(),
        leader_group: "leader_a".to_string(),
        signal_id: "sig-prior-reduce".to_string(),
        coin: "xyz:GBP".to_string(),
        local_side: OrderSide::Buy,
        order_cloid: None,
        order_oid: None,
        submitted_at_ms: None,
        filled_at_ms: None,
        planned_notional_usd: usd(7.4),
        pending_notional_usd: usd(7.4),
        filled_notional_usd: usd(0.0),
        remaining_notional_usd: usd(7.4),
        status: CopyLedgerStatus::PendingReduce,
    };
    let persistence = CopyPersistenceSnapshot {
        schema_version: 1,
        saved_at_ms: now_ms(),
        seen_event_keys: Vec::new(),
        ledger_entries: vec![pending_entry],
    };
    let reduce_ref = CopyLiveDaemonWouldSubmitRef {
        record_index: 0,
        signal_id: "sig-next-reduce".to_string(),
        leader_id: "leader_a".to_string(),
        leader_address: "0x00000000000000000000000000000000000000aa".to_string(),
        order: CopyExecutionCanaryWouldSubmit {
            account_id: "addr_a".to_string(),
            worker_id: "worker-addr_a".to_string(),
            coin: "xyz:GBP".to_string(),
            side: OrderSide::Sell,
            notional_usd: usd(2.7),
            reduce_only: true,
            cloid: "33333333-3333-5333-8333-333333333333".to_string(),
        },
    };

    let (prepared, suppressed) = copy_live_daemon_prepare_refs_for_follow_position_limits(
        &vec![reduce_ref],
        &follow_position_options(),
        &persistence,
        &vec![],
    );

    assert!(suppressed.is_empty(), "{suppressed:#?}");
    assert_eq!(prepared.len(), 1);
    assert!((prepared[0].order.notional_usd - usd(10.1)).abs() <= 1);
}

#[test]
fn copy_live_daemon_reduce_refs_suppress_below_accumulated_min_notional() {
    let persistence = CopyPersistenceSnapshot {
        schema_version: 1,
        saved_at_ms: now_ms(),
        seen_event_keys: Vec::new(),
        ledger_entries: Vec::new(),
    };
    let reduce_ref = CopyLiveDaemonWouldSubmitRef {
        record_index: 0,
        signal_id: "sig-small-reduce".to_string(),
        leader_id: "leader_a".to_string(),
        leader_address: "0x00000000000000000000000000000000000000aa".to_string(),
        order: CopyExecutionCanaryWouldSubmit {
            account_id: "addr_a".to_string(),
            worker_id: "worker-addr_a".to_string(),
            coin: "xyz:GBP".to_string(),
            side: OrderSide::Sell,
            notional_usd: usd(7.4),
            reduce_only: true,
            cloid: "44444444-4444-5444-8444-444444444444".to_string(),
        },
    };

    let (prepared, suppressed) = copy_live_daemon_prepare_refs_for_follow_position_limits(
        &vec![reduce_ref],
        &follow_position_options(),
        &persistence,
        &vec![],
    );

    assert!(prepared.is_empty());
    assert_eq!(suppressed.len(), 1);
    assert_eq!(
        suppressed[0].reason_code,
        "COPY_DAEMON_PENDING_REDUCE_BELOW_MIN_NOTIONAL"
    );
}

#[test]
fn copy_live_daemon_follow_position_allows_different_symbol_under_symbol_cap() {
    let open_entry = CopyLedgerEntry {
        local_account_id: "addr_a".to_string(),
        leader_id: "leader_a".to_string(),
        leader_group: "leader_a".to_string(),
        signal_id: "sig-open".to_string(),
        coin: "xyz:GBP".to_string(),
        local_side: OrderSide::Buy,
        order_cloid: None,
        order_oid: None,
        submitted_at_ms: None,
        filled_at_ms: None,
        planned_notional_usd: usd(41.7),
        pending_notional_usd: usd(0.0),
        filled_notional_usd: usd(41.7),
        remaining_notional_usd: usd(41.7),
        status: CopyLedgerStatus::Open,
    };
    let persistence = CopyPersistenceSnapshot {
        schema_version: 1,
        saved_at_ms: now_ms(),
        seen_event_keys: Vec::new(),
        ledger_entries: vec![open_entry],
    };
    let open_ref = CopyLiveDaemonWouldSubmitRef {
        record_index: 0,
        signal_id: "sig-next-open".to_string(),
        leader_id: "leader_a".to_string(),
        leader_address: "0x00000000000000000000000000000000000000aa".to_string(),
        order: CopyExecutionCanaryWouldSubmit {
            account_id: "addr_a".to_string(),
            worker_id: "worker-addr_a".to_string(),
            coin: "xyz:JPY".to_string(),
            side: OrderSide::Buy,
            notional_usd: usd(34.3),
            reduce_only: false,
            cloid: "55555555-5555-5555-8555-555555555555".to_string(),
        },
    };

    let (prepared, suppressed) = copy_live_daemon_prepare_refs_for_follow_position_limits(
        &vec![open_ref],
        &follow_position_options(),
        &persistence,
        &vec![],
    );

    assert!(suppressed.is_empty(), "{suppressed:#?}");
    assert_eq!(prepared.len(), 1);
}

#[test]
fn copy_live_daemon_follow_position_suppresses_same_symbol_above_cap() {
    let open_entry = CopyLedgerEntry {
        local_account_id: "addr_a".to_string(),
        leader_id: "leader_a".to_string(),
        leader_group: "leader_a".to_string(),
        signal_id: "sig-open".to_string(),
        coin: "xyz:JPY".to_string(),
        local_side: OrderSide::Buy,
        order_cloid: None,
        order_oid: Some(123),
        submitted_at_ms: Some(now_ms()),
        filled_at_ms: Some(now_ms()),
        planned_notional_usd: usd(41.7),
        pending_notional_usd: usd(0.0),
        filled_notional_usd: usd(41.7),
        remaining_notional_usd: usd(41.7),
        status: CopyLedgerStatus::Open,
    };
    let persistence = CopyPersistenceSnapshot {
        schema_version: 1,
        saved_at_ms: now_ms(),
        seen_event_keys: Vec::new(),
        ledger_entries: vec![open_entry],
    };
    let open_ref = CopyLiveDaemonWouldSubmitRef {
        record_index: 0,
        signal_id: "sig-next-open".to_string(),
        leader_id: "leader_a".to_string(),
        leader_address: "0x00000000000000000000000000000000000000aa".to_string(),
        order: CopyExecutionCanaryWouldSubmit {
            account_id: "addr_a".to_string(),
            worker_id: "worker-addr_a".to_string(),
            coin: "xyz:JPY".to_string(),
            side: OrderSide::Buy,
            notional_usd: usd(34.3),
            reduce_only: false,
            cloid: "55555555-5555-5555-8555-555555555555".to_string(),
        },
    };

    let (prepared, suppressed) = copy_live_daemon_prepare_refs_for_follow_position_limits(
        &vec![open_ref],
        &follow_position_options(),
        &persistence,
        &vec![],
    );

    assert!(prepared.is_empty());
    assert_eq!(suppressed.len(), 1);
    assert_eq!(
        suppressed[0].reason_code,
        "COPY_DAEMON_MAX_ACCOUNT_EXPOSURE"
    );
}

#[test]
fn copy_live_daemon_follow_position_ignores_unsubmitted_pending_open_exposure() {
    let pending_entry = CopyLedgerEntry {
        local_account_id: "addr_a".to_string(),
        leader_id: "leader_a".to_string(),
        leader_group: "leader_a".to_string(),
        signal_id: "sig-shadow-only-open".to_string(),
        coin: "xyz:GBP".to_string(),
        local_side: OrderSide::Buy,
        order_cloid: None,
        order_oid: None,
        submitted_at_ms: None,
        filled_at_ms: None,
        planned_notional_usd: usd(50.0),
        pending_notional_usd: usd(50.0),
        filled_notional_usd: usd(0.0),
        remaining_notional_usd: usd(0.0),
        status: CopyLedgerStatus::PendingOpen,
    };
    let persistence = CopyPersistenceSnapshot {
        schema_version: 1,
        saved_at_ms: now_ms(),
        seen_event_keys: Vec::new(),
        ledger_entries: vec![pending_entry],
    };
    let open_ref = CopyLiveDaemonWouldSubmitRef {
        record_index: 0,
        signal_id: "sig-next-open".to_string(),
        leader_id: "leader_a".to_string(),
        leader_address: "0x00000000000000000000000000000000000000aa".to_string(),
        order: CopyExecutionCanaryWouldSubmit {
            account_id: "addr_a".to_string(),
            worker_id: "worker-addr_a".to_string(),
            coin: "xyz:JPY".to_string(),
            side: OrderSide::Buy,
            notional_usd: usd(50.0),
            reduce_only: false,
            cloid: "55555555-5555-5555-8555-555555555555".to_string(),
        },
    };

    let (prepared, suppressed) = copy_live_daemon_prepare_refs_for_follow_position_limits(
        &vec![open_ref],
        &follow_position_options(),
        &persistence,
        &vec![],
    );

    assert!(suppressed.is_empty(), "{suppressed:#?}");
    assert_eq!(prepared.len(), 1);
}

#[test]
fn copy_live_daemon_follow_position_ignores_current_round_ref_in_snapshot() {
    let current_signal = "sig-current-open";
    let pending_entry = CopyLedgerEntry {
        local_account_id: "addr_a".to_string(),
        leader_id: "leader_a".to_string(),
        leader_group: "leader_a".to_string(),
        signal_id: current_signal.to_string(),
        coin: "xyz:JPY".to_string(),
        local_side: OrderSide::Buy,
        order_cloid: None,
        order_oid: None,
        submitted_at_ms: None,
        filled_at_ms: None,
        planned_notional_usd: usd(50.0),
        pending_notional_usd: usd(50.0),
        filled_notional_usd: usd(0.0),
        remaining_notional_usd: usd(0.0),
        status: CopyLedgerStatus::PendingOpen,
    };
    let persistence = CopyPersistenceSnapshot {
        schema_version: 1,
        saved_at_ms: now_ms(),
        seen_event_keys: Vec::new(),
        ledger_entries: vec![pending_entry],
    };
    let open_ref = CopyLiveDaemonWouldSubmitRef {
        record_index: 0,
        signal_id: current_signal.to_string(),
        leader_id: "leader_a".to_string(),
        leader_address: "0x00000000000000000000000000000000000000aa".to_string(),
        order: CopyExecutionCanaryWouldSubmit {
            account_id: "addr_a".to_string(),
            worker_id: "worker-addr_a".to_string(),
            coin: "xyz:JPY".to_string(),
            side: OrderSide::Buy,
            notional_usd: usd(50.0),
            reduce_only: false,
            cloid: "66666666-6666-5666-8666-666666666666".to_string(),
        },
    };

    let (prepared, suppressed) = copy_live_daemon_prepare_refs_for_follow_position_limits(
        &vec![open_ref],
        &follow_position_options(),
        &persistence,
        &vec![],
    );

    assert!(suppressed.is_empty(), "{suppressed:#?}");
    assert_eq!(prepared.len(), 1);
}

#[test]
fn copy_live_daemon_margin_resize_accounts_for_fee_buffer() {
    let mut options = follow_position_options();
    options.max_total_notional_usd = usd(1000.0);
    options.max_total_fees_usd = usd(1.0);
    let refs = vec![CopyLiveDaemonWouldSubmitRef {
        record_index: 2,
        signal_id: "sig-tight-margin-open".to_string(),
        leader_id: "leader_a".to_string(),
        leader_address: "0x00000000000000000000000000000000000000aa".to_string(),
        order: CopyExecutionCanaryWouldSubmit {
            account_id: "addr_a".to_string(),
            worker_id: "worker-addr_a".to_string(),
            coin: "xyz:SILVER".to_string(),
            side: OrderSide::Sell,
            notional_usd: usd(350.0),
            reduce_only: false,
            cloid: "88888888-8888-5888-8888-888888888888".to_string(),
        },
    }];
    let reconciliations = vec![CopyBoundedLiveWindowReconcile {
        account_id: "addr_a".to_string(),
        ok: true,
        open_order_count: Some(0),
        asset_positions: Some(0),
        position_summaries: Vec::new(),
        account_value: Some("50".to_string()),
        withdrawable: Some("14.275086".to_string()),
        total_ntl_pos: Some("0".to_string()),
        total_margin_used: Some("0".to_string()),
        error: None,
    }];
    let (prepared, suppressed) =
        copy_live_daemon_resize_open_refs_for_margin(&refs, &reconciliations);

    assert!(suppressed.is_empty(), "{suppressed:#?}");
    assert_eq!(prepared.len(), 1);
    assert!(prepared[0].order.notional_usd < refs[0].order.notional_usd);
    let planned_notional = i128::from(prepared[0].order.notional_usd);
    let contract = copy_live_daemon_submit_plan_contract(
        &options,
        &prepared,
        &vec![],
        planned_notional,
        estimated_fees(planned_notional),
        &reconciliations,
    );
    assert!(
        contract.ok,
        "resized plan should satisfy final margin contract: {:#?}",
        contract.checks
    );
}

#[test]
fn margin_requirements_are_added_up_by_account() {
    let refs = vec![
        plan("addr_a", "xyz:GBP", 10.0, false, "one"),
        plan("addr_b", "xyz:GBP", 20.0, false, "two"),
        plan("addr_a", "xyz:JPY", 30.0, false, "three"),
        plan("addr_a", "xyz:JPY", 30.0, true, "close"),
    ];
    let required = copy_live_daemon_open_margin_requirements(&refs);
    assert_eq!(required.len(), 2);
    assert_eq!(required[0].account_id, "addr_a");
    assert_eq!(required[0].required, sum_usd(40.0 * 0.111));
    assert_eq!(required[1].required, sum_usd(20.0 * 0.111));

    let rich = vec![flat_account("addr_a"), flat_account("addr_b")];
    assert!(copy_live_daemon_open_margin_check(&refs, &rich).ok);
    let mut poor = flat_account("addr_b");
    poor.withdrawable = Some("2.21".to_string());
    let check = copy_live_daemon_open_margin_check(&refs, &vec![flat_account("addr_a"), poor]);
    assert!(!check.ok, "{check:?}");
}

#[test]
fn margins_are_compared_to_a_trillionth() {
    let mut opening = plan("addr_a", "xyz:GBP", 20.0, false, "one");
    opening.order.notional_usd = 20_000_000_001;
    let refs = vec![opening];
    let with = |withdrawable: &str| {
        let mut account = flat_account("addr_a");
        account.withdrawable = Some(withdrawable.to_string());
        vec![account]
    };
    let enough = with("2.2199999991115");
    assert!(copy_live_daemon_open_margin_check(&refs, &enough).ok);
    let (kept, _) = copy_live_daemon_resize_open_refs_for_margin(&refs, &enough);
    assert_eq!(kept[0].order.notional_usd, 20_000_000_001);
    let short = with("2.2199999991105");
    let check = copy_live_daemon_open_margin_check(&refs, &short);
    assert!(!check.ok);
    assert!(
        check
            .detail
            .ends_with("addr_a withdrawable=2.220000 < required_open_margin=2.220000"),
        "{check:?}"
    );
    let (kept, suppressed) = copy_live_daemon_resize_open_refs_for_margin(&refs, &short);
    assert!(suppressed.is_empty());
    assert_eq!(kept[0].order.notional_usd, 19_999_999_991);
    assert!(!copy_live_daemon_open_margin_check(&refs, &with("-1.0")).ok);
    assert!(copy_live_daemon_open_margin_check(&refs, &with("inf")).ok);
}

#[test]
fn a_trace_of_exposure_counts_against_the_cap() {
    let options = follow_position_options();
    let refs = vec![plan("addr_a", "xyz:GBP", 50.0, false, "one")];
    let prepared = |total_ntl_pos: &str| {
        let mut account = flat_account("addr_a");
        account.total_ntl_pos = Some(total_ntl_pos.to_string());
        copy_live_daemon_prepare_refs_for_follow_position_limits(
            &refs,
            &options,
            &empty_snapshot(),
            &vec![account],
        )
    };
    assert_eq!(options.max_total_notional_usd, usd(50.0));
    assert_eq!(prepared(" 0.000000001 ").0.len(), 1);
    let (kept, suppressed) = prepared("0.0000000015");
    assert!(kept.is_empty());
    assert_eq!(suppressed.len(), 1);
    assert_eq!(prepared("inf").0.len(), prepared("n/a").0.len());
}

#[test]
fn reductions_add_up_until_they_can_be_sent() {
    let options = follow_position_options();
    let refs = vec![
        plan("addr_a", "xyz:GBP", 4.0, true, "one"),
        plan("addr_a", "xyz:GBP", 4.0, true, "two"),
        plan("addr_a", "xyz:GBP", 4.0, true, "three"),
        plan("addr_a", "xyz:GBP", 4.0, true, "four"),
    ];
    let (prepared, suppressed) = copy_live_daemon_prepare_refs_for_follow_position_limits(
        &refs,
        &options,
        &empty_snapshot(),
        &Vec::new(),
    );
    assert_eq!(prepared.len(), 1);
    assert_eq!(prepared[0].order.cloid, "three");
    assert_eq!(prepared[0].order.notional_usd, usd(12.0));
    assert_eq!(suppressed.len(), 3);
}
