//! Plans: collecting them, splitting them under the caps, and what is still pending.

use copy_daemon::domain::OrderSide;
use copy_daemon::options::CopyLiveDaemonSupervisorOptions;
use copy_daemon::partition::{
    estimated_fees, partition_copy_live_daemon_would_submit_orders,
    partition_copy_live_daemon_would_submit_refs,
};
use copy_daemon::plan::{
    CopyExecutionCanaryWouldSubmit, CopyLiveDaemonSuppressedWouldSubmitRef,
    CopyLiveDaemonWouldSubmitRef, append_unique_copy_daemon_would_submit_orders,
    append_unique_copy_daemon_would_submit_refs, copy_live_daemon_open_fanout_group_key,
    copy_live_daemon_open_notional_usd_from_orders, copy_live_daemon_open_notional_usd_from_refs,
    copy_live_daemon_order_refs_to_orders, copy_live_daemon_pending_plan_refs,
    copy_live_daemon_pending_suppressed_refs, copy_live_daemon_signal_id_without_timestamp,
};

/// A sum of amounts in dollars.
fn sum_usd(x: f64) -> i128 {
    i128::from(usd(x))
}

/// Fees in dollars.
fn fees_usd(x: f64) -> i128 {
    (x * 1e12).round() as i128
}

/// An amount in dollars as a fixed-point number.
fn usd(x: f64) -> i64 {
    (x * 1e9).round() as i64
}

/// Every supported market.
fn all_markets() -> Vec<String> {
    ["hl_perp", "xyz_perp", "spot", "cash_perp"]
        .iter()
        .map(|market| market.to_string())
        .collect()
}

fn follow_position_options() -> CopyLiveDaemonSupervisorOptions {
    CopyLiveDaemonSupervisorOptions {
        leaders: Vec::new(),
        account_ids: vec!["addr_a".to_string()],
        local_account_id: Some("addr_a".to_string()),
        markets: all_markets(),
        coin: "xyz:XYZ100".to_string(),
        side: OrderSide::Buy,
        persistence_path: "unused-follow-position-options.json".to_string(),
        shadow_history_path: "unused-follow-position-options.jsonl".to_string(),
        leader_notional_usd: usd(120.0),
        leader_size: usd(1.0),
        live_gate: true,
        allow_live_submit: true,
        confirm_mainnet_live: false,
        submit: true,
        hold_positions_after_submit: true,
        cleanup_max_slippage_bps: usd(50.0),
        duration_secs: 60,
        max_events: 1000,
        max_live_orders: 1,
        max_total_notional_usd: usd(50.0),
        max_total_fees_usd: usd(0.10),
        max_slippage_bps: usd(50.0),
        environment: None,
        ws_url: None,
    }
}

/// A plan for one order.
fn plan(account_id: &str, coin: &str, notional_usd: f64, reduce_only: bool, cloid: &str) -> CopyLiveDaemonWouldSubmitRef {
    CopyLiveDaemonWouldSubmitRef {
        record_index: 0,
        signal_id: format!("sig-{cloid}"),
        leader_id: "leader_a".to_string(),
        leader_address: "0x00000000000000000000000000000000000000aa".to_string(),
        order: CopyExecutionCanaryWouldSubmit {
            account_id: account_id.to_string(),
            worker_id: format!("worker-{account_id}"),
            coin: coin.to_string(),
            side: OrderSide::Buy,
            notional_usd: usd(notional_usd),
            reduce_only,
            cloid: cloid.to_string(),
        },
    }
}

#[test]
fn copy_live_daemon_supervisor_appends_would_submit_plans_once() {
    let mut plans = vec![CopyExecutionCanaryWouldSubmit {
        account_id: "addr_a".to_string(),
        worker_id: "worker-addr_a".to_string(),
        coin: "xyz:XYZ100".to_string(),
        side: OrderSide::Buy,
        notional_usd: usd(12.0),
        reduce_only: false,
        cloid: "00000000-0000-0000-0000-000000000001".to_string(),
    }];

    append_unique_copy_daemon_would_submit_orders(
        &mut plans,
        vec![
            CopyExecutionCanaryWouldSubmit {
                account_id: "addr_a".to_string(),
                worker_id: "worker-addr_a".to_string(),
                coin: "xyz:XYZ100".to_string(),
                side: OrderSide::Buy,
                notional_usd: usd(12.0),
                reduce_only: false,
                cloid: "00000000-0000-0000-0000-000000000001".to_string(),
            },
            CopyExecutionCanaryWouldSubmit {
                account_id: "addr_a".to_string(),
                worker_id: "worker-addr_a".to_string(),
                coin: "xyz:XYZ100".to_string(),
                side: OrderSide::Sell,
                notional_usd: usd(10.0),
                reduce_only: true,
                cloid: "00000000-0000-0000-0000-000000000002".to_string(),
            },
        ],
    );

    assert_eq!(plans.len(), 2);
    assert_eq!(plans[1].cloid, "00000000-0000-0000-0000-000000000002");
}

#[test]
fn copy_live_daemon_partition_suppresses_candidates_over_live_order_cap() {
    let options = CopyLiveDaemonSupervisorOptions {
        leaders: Vec::new(),
        account_ids: vec!["addr_a".to_string()],
        local_account_id: Some("addr_a".to_string()),
        markets: all_markets(),
        coin: "xyz:XYZ100".to_string(),
        side: OrderSide::Buy,
        persistence_path: "unused-daemon-partition.json".to_string(),
        shadow_history_path: "unused-daemon-partition.jsonl".to_string(),
        leader_notional_usd: usd(120.0),
        leader_size: usd(1.0),
        live_gate: true,
        allow_live_submit: true,
        confirm_mainnet_live: false,
        submit: false,
        hold_positions_after_submit: false,
        cleanup_max_slippage_bps: usd(50.0),
        duration_secs: 900,
        max_events: 1000,
        max_live_orders: 1,
        max_total_notional_usd: usd(50.0),
        max_total_fees_usd: usd(0.10),
        max_slippage_bps: usd(50.0),
        environment: None,
        ws_url: None,
    };
    let orders = vec![
        CopyExecutionCanaryWouldSubmit {
            account_id: "addr_a".to_string(),
            worker_id: "worker-addr_a".to_string(),
            coin: "xyz:NATGAS".to_string(),
            side: OrderSide::Sell,
            notional_usd: usd(12.0),
            reduce_only: false,
            cloid: "00000000-0000-0000-0000-000000000001".to_string(),
        },
        CopyExecutionCanaryWouldSubmit {
            account_id: "addr_a".to_string(),
            worker_id: "worker-addr_a".to_string(),
            coin: "xyz:SPCX".to_string(),
            side: OrderSide::Sell,
            notional_usd: usd(12.0),
            reduce_only: false,
            cloid: "00000000-0000-0000-0000-000000000002".to_string(),
        },
    ];

    let (executable, suppressed) =
        partition_copy_live_daemon_would_submit_orders(&orders, &options);

    assert_eq!(executable.len(), 1);
    assert_eq!(executable[0].coin, "xyz:NATGAS");
    assert_eq!(suppressed.len(), 1);
    assert_eq!(suppressed[0].order.coin, "xyz:SPCX");
    assert_eq!(suppressed[0].reason_code, "COPY_DAEMON_MAX_LIVE_ORDERS");
}

#[test]
fn copy_live_daemon_ref_partition_keeps_only_executable_refs_under_cap() {
    let options = CopyLiveDaemonSupervisorOptions {
        leaders: Vec::new(),
        account_ids: vec!["addr_a".to_string()],
        local_account_id: Some("addr_a".to_string()),
        markets: all_markets(),
        coin: "xyz:XYZ100".to_string(),
        side: OrderSide::Buy,
        persistence_path: "unused-daemon-ref-partition.json".to_string(),
        shadow_history_path: "unused-daemon-ref-partition.jsonl".to_string(),
        leader_notional_usd: usd(120.0),
        leader_size: usd(1.0),
        live_gate: true,
        allow_live_submit: true,
        confirm_mainnet_live: false,
        submit: false,
        hold_positions_after_submit: false,
        cleanup_max_slippage_bps: usd(50.0),
        duration_secs: 900,
        max_events: 1000,
        max_live_orders: 1,
        max_total_notional_usd: usd(50.0),
        max_total_fees_usd: usd(0.10),
        max_slippage_bps: usd(50.0),
        environment: None,
        ws_url: None,
    };
    let refs = vec![
        CopyLiveDaemonWouldSubmitRef {
            record_index: 3,
            signal_id: "sig-natgas".to_string(),
            leader_id: "leader_a".to_string(),
            leader_address: "0x00000000000000000000000000000000000000aa".to_string(),
            order: CopyExecutionCanaryWouldSubmit {
                account_id: "addr_a".to_string(),
                worker_id: "worker-addr_a".to_string(),
                coin: "xyz:NATGAS".to_string(),
                side: OrderSide::Sell,
                notional_usd: usd(12.0),
                reduce_only: false,
                cloid: "00000000-0000-0000-0000-000000000001".to_string(),
            },
        },
        CopyLiveDaemonWouldSubmitRef {
            record_index: 4,
            signal_id: "sig-spcx".to_string(),
            leader_id: "leader_b".to_string(),
            leader_address: "0x00000000000000000000000000000000000000bb".to_string(),
            order: CopyExecutionCanaryWouldSubmit {
                account_id: "addr_a".to_string(),
                worker_id: "worker-addr_a".to_string(),
                coin: "xyz:SPCX".to_string(),
                side: OrderSide::Sell,
                notional_usd: usd(12.0),
                reduce_only: false,
                cloid: "00000000-0000-0000-0000-000000000002".to_string(),
            },
        },
    ];

    let (executable, suppressed) =
        partition_copy_live_daemon_would_submit_refs(&refs, &options);

    assert_eq!(executable.len(), 1);
    assert_eq!(executable[0].signal_id, "sig-natgas");
    assert_eq!(executable[0].record_index, 3);
    assert_eq!(suppressed.len(), 1);
    assert_eq!(suppressed[0].plan.signal_id, "sig-spcx");
    assert_eq!(suppressed[0].plan.record_index, 4);
    assert_eq!(suppressed[0].reason_code, "COPY_DAEMON_MAX_LIVE_ORDERS");
}

#[test]
fn copy_live_daemon_ref_partition_keeps_multi_account_fanout_together_under_cap() {
    let options = CopyLiveDaemonSupervisorOptions {
        leaders: Vec::new(),
        account_ids: vec!["addr_a".to_string(), "addr_b".to_string()],
        local_account_id: Some("addr_a".to_string()),
        markets: all_markets(),
        coin: "xyz:XYZ100".to_string(),
        side: OrderSide::Buy,
        persistence_path: "unused-daemon-fanout-partition.json".to_string(),
        shadow_history_path: "unused-daemon-fanout-partition.jsonl".to_string(),
        leader_notional_usd: usd(120.0),
        leader_size: usd(1.0),
        live_gate: true,
        allow_live_submit: true,
        confirm_mainnet_live: false,
        submit: false,
        hold_positions_after_submit: true,
        cleanup_max_slippage_bps: usd(50.0),
        duration_secs: 900,
        max_events: 1000,
        max_live_orders: 2,
        max_total_notional_usd: usd(1000.0),
        max_total_fees_usd: usd(1.0),
        max_slippage_bps: usd(50.0),
        environment: None,
        ws_url: None,
    };
    let refs = vec![
        CopyLiveDaemonWouldSubmitRef {
            record_index: 0,
            signal_id: "copy-leader_a-event-one-IncreaseLong-open-1001".to_string(),
            leader_id: "leader_a".to_string(),
            leader_address: "0x00000000000000000000000000000000000000aa".to_string(),
            order: CopyExecutionCanaryWouldSubmit {
                account_id: "addr_a".to_string(),
                worker_id: "worker-addr_a".to_string(),
                coin: "xyz:JPY".to_string(),
                side: OrderSide::Buy,
                notional_usd: usd(120.0),
                reduce_only: false,
                cloid: "00000000-0000-0000-0000-000000000021".to_string(),
            },
        },
        CopyLiveDaemonWouldSubmitRef {
            record_index: 1,
            signal_id: "copy-leader_a-event-two-IncreaseLong-open-1002".to_string(),
            leader_id: "leader_a".to_string(),
            leader_address: "0x00000000000000000000000000000000000000aa".to_string(),
            order: CopyExecutionCanaryWouldSubmit {
                account_id: "addr_a".to_string(),
                worker_id: "worker-addr_a".to_string(),
                coin: "xyz:JPY".to_string(),
                side: OrderSide::Buy,
                notional_usd: usd(120.0),
                reduce_only: false,
                cloid: "00000000-0000-0000-0000-000000000022".to_string(),
            },
        },
        CopyLiveDaemonWouldSubmitRef {
            record_index: 2,
            signal_id: "copy-leader_a-event-one-IncreaseLong-open-2001".to_string(),
            leader_id: "leader_a".to_string(),
            leader_address: "0x00000000000000000000000000000000000000aa".to_string(),
            order: CopyExecutionCanaryWouldSubmit {
                account_id: "addr_b".to_string(),
                worker_id: "worker-addr_b".to_string(),
                coin: "xyz:JPY".to_string(),
                side: OrderSide::Buy,
                notional_usd: usd(120.0),
                reduce_only: false,
                cloid: "00000000-0000-0000-0000-000000000023".to_string(),
            },
        },
        CopyLiveDaemonWouldSubmitRef {
            record_index: 3,
            signal_id: "copy-leader_a-event-two-IncreaseLong-open-2002".to_string(),
            leader_id: "leader_a".to_string(),
            leader_address: "0x00000000000000000000000000000000000000aa".to_string(),
            order: CopyExecutionCanaryWouldSubmit {
                account_id: "addr_b".to_string(),
                worker_id: "worker-addr_b".to_string(),
                coin: "xyz:JPY".to_string(),
                side: OrderSide::Buy,
                notional_usd: usd(120.0),
                reduce_only: false,
                cloid: "00000000-0000-0000-0000-000000000024".to_string(),
            },
        },
    ];

    let (executable, suppressed) =
        partition_copy_live_daemon_would_submit_refs(&refs, &options);

    assert_eq!(executable.len(), 2);
    assert_eq!(
        executable
            .iter()
            .map(|plan| plan.order.account_id.as_str())
            .collect::<Vec<_>>(),
        vec!["addr_a", "addr_b"]
    );
    assert!(
        executable
            .iter()
            .all(|plan| plan.signal_id.contains("event-one"))
    );
    assert_eq!(suppressed.len(), 2);
    assert!(
        suppressed
            .iter()
            .all(|suppressed| suppressed.plan.signal_id.contains("event-two"))
    );
    assert!(
        suppressed
            .iter()
            .all(|suppressed| suppressed.reason_code == "COPY_DAEMON_MAX_LIVE_ORDERS")
    );
}

#[test]
fn copy_live_daemon_ref_partition_does_not_suppress_reduce_only_close_by_open_order_cap() {
    let options = CopyLiveDaemonSupervisorOptions {
        leaders: Vec::new(),
        account_ids: vec!["addr_a".to_string()],
        local_account_id: Some("addr_a".to_string()),
        markets: all_markets(),
        coin: "xyz:XYZ100".to_string(),
        side: OrderSide::Buy,
        persistence_path: "unused-daemon-close-cap.json".to_string(),
        shadow_history_path: "unused-daemon-close-cap.jsonl".to_string(),
        leader_notional_usd: usd(120.0),
        leader_size: usd(1.0),
        live_gate: true,
        allow_live_submit: true,
        confirm_mainnet_live: false,
        submit: false,
        hold_positions_after_submit: false,
        cleanup_max_slippage_bps: usd(50.0),
        duration_secs: 900,
        max_events: 1000,
        max_live_orders: 1,
        max_total_notional_usd: usd(50.0),
        max_total_fees_usd: usd(0.10),
        max_slippage_bps: usd(50.0),
        environment: None,
        ws_url: None,
    };
    let refs = vec![
        CopyLiveDaemonWouldSubmitRef {
            record_index: 0,
            signal_id: "sig-open-1".to_string(),
            leader_id: "leader_a".to_string(),
            leader_address: "0x00000000000000000000000000000000000000aa".to_string(),
            order: CopyExecutionCanaryWouldSubmit {
                account_id: "addr_a".to_string(),
                worker_id: "worker-addr_a".to_string(),
                coin: "xyz:SP500".to_string(),
                side: OrderSide::Buy,
                notional_usd: usd(12.0),
                reduce_only: false,
                cloid: "00000000-0000-0000-0000-000000000001".to_string(),
            },
        },
        CopyLiveDaemonWouldSubmitRef {
            record_index: 1,
            signal_id: "sig-close-1".to_string(),
            leader_id: "leader_a".to_string(),
            leader_address: "0x00000000000000000000000000000000000000aa".to_string(),
            order: CopyExecutionCanaryWouldSubmit {
                account_id: "addr_a".to_string(),
                worker_id: "worker-addr_a".to_string(),
                coin: "xyz:SP500".to_string(),
                side: OrderSide::Sell,
                notional_usd: usd(12.0),
                reduce_only: true,
                cloid: "00000000-0000-0000-0000-000000000002".to_string(),
            },
        },
        CopyLiveDaemonWouldSubmitRef {
            record_index: 2,
            signal_id: "sig-open-2".to_string(),
            leader_id: "leader_b".to_string(),
            leader_address: "0x00000000000000000000000000000000000000bb".to_string(),
            order: CopyExecutionCanaryWouldSubmit {
                account_id: "addr_a".to_string(),
                worker_id: "worker-addr_a".to_string(),
                coin: "xyz:XYZ100".to_string(),
                side: OrderSide::Buy,
                notional_usd: usd(12.0),
                reduce_only: false,
                cloid: "00000000-0000-0000-0000-000000000003".to_string(),
            },
        },
    ];

    let (executable, suppressed) =
        partition_copy_live_daemon_would_submit_refs(&refs, &options);

    assert_eq!(executable.len(), 2);
    assert_eq!(executable[0].signal_id, "sig-open-1");
    assert_eq!(executable[1].signal_id, "sig-close-1");
    assert!(executable[1].order.reduce_only);
    assert_eq!(suppressed.len(), 1);
    assert_eq!(suppressed[0].plan.signal_id, "sig-open-2");
    assert_eq!(suppressed[0].reason_code, "COPY_DAEMON_MAX_LIVE_ORDERS");
}

#[test]
fn copy_live_daemon_ref_partition_does_not_charge_reduce_only_against_open_budget() {
    let options = CopyLiveDaemonSupervisorOptions {
        leaders: Vec::new(),
        account_ids: vec!["addr_a".to_string()],
        local_account_id: Some("addr_a".to_string()),
        markets: all_markets(),
        coin: "xyz:XYZ100".to_string(),
        side: OrderSide::Buy,
        persistence_path: "unused-daemon-close-budget.json".to_string(),
        shadow_history_path: "unused-daemon-close-budget.jsonl".to_string(),
        leader_notional_usd: usd(120.0),
        leader_size: usd(1.0),
        live_gate: true,
        allow_live_submit: true,
        confirm_mainnet_live: false,
        submit: false,
        hold_positions_after_submit: true,
        cleanup_max_slippage_bps: usd(50.0),
        duration_secs: 900,
        max_events: 1000,
        max_live_orders: 2,
        max_total_notional_usd: usd(12.0),
        max_total_fees_usd: usd(0.012),
        max_slippage_bps: usd(50.0),
        environment: None,
        ws_url: None,
    };
    let refs = vec![
        CopyLiveDaemonWouldSubmitRef {
            record_index: 0,
            signal_id: "sig-open".to_string(),
            leader_id: "leader_a".to_string(),
            leader_address: "0x00000000000000000000000000000000000000aa".to_string(),
            order: CopyExecutionCanaryWouldSubmit {
                account_id: "addr_a".to_string(),
                worker_id: "worker-addr_a".to_string(),
                coin: "xyz:SP500".to_string(),
                side: OrderSide::Buy,
                notional_usd: usd(12.0),
                reduce_only: false,
                cloid: "00000000-0000-0000-0000-000000000011".to_string(),
            },
        },
        CopyLiveDaemonWouldSubmitRef {
            record_index: 1,
            signal_id: "sig-close-large".to_string(),
            leader_id: "leader_a".to_string(),
            leader_address: "0x00000000000000000000000000000000000000aa".to_string(),
            order: CopyExecutionCanaryWouldSubmit {
                account_id: "addr_a".to_string(),
                worker_id: "worker-addr_a".to_string(),
                coin: "xyz:SP500".to_string(),
                side: OrderSide::Sell,
                notional_usd: usd(500.0),
                reduce_only: true,
                cloid: "00000000-0000-0000-0000-000000000012".to_string(),
            },
        },
        CopyLiveDaemonWouldSubmitRef {
            record_index: 2,
            signal_id: "sig-open-extra".to_string(),
            leader_id: "leader_b".to_string(),
            leader_address: "0x00000000000000000000000000000000000000bb".to_string(),
            order: CopyExecutionCanaryWouldSubmit {
                account_id: "addr_a".to_string(),
                worker_id: "worker-addr_a".to_string(),
                coin: "xyz:XYZ100".to_string(),
                side: OrderSide::Buy,
                notional_usd: usd(1.0),
                reduce_only: false,
                cloid: "00000000-0000-0000-0000-000000000013".to_string(),
            },
        },
    ];

    let (executable, suppressed) =
        partition_copy_live_daemon_would_submit_refs(&refs, &options);

    assert_eq!(
        executable
            .iter()
            .map(|plan| plan.signal_id.as_str())
            .collect::<Vec<_>>(),
        vec!["sig-open", "sig-close-large"]
    );
    assert!(executable[1].order.reduce_only);
    assert_eq!(suppressed.len(), 1);
    assert_eq!(suppressed[0].plan.signal_id, "sig-open-extra");
    assert_eq!(suppressed[0].reason_code, "COPY_DAEMON_MAX_TOTAL_NOTIONAL");
}

#[test]
fn copy_live_daemon_market_scope_keeps_unselected_market_exit_only() {
    let mut options = CopyLiveDaemonSupervisorOptions {
        leaders: Vec::new(),
        account_ids: vec!["addr_a".to_string()],
        local_account_id: Some("addr_a".to_string()),
        markets: vec!["xyz_perp".to_string()],
        coin: "xyz:XYZ100".to_string(),
        side: OrderSide::Buy,
        persistence_path: "unused-market-scope.json".to_string(),
        shadow_history_path: "unused-market-scope.jsonl".to_string(),
        leader_notional_usd: usd(120.0),
        leader_size: usd(1.0),
        live_gate: true,
        allow_live_submit: true,
        confirm_mainnet_live: true,
        submit: true,
        hold_positions_after_submit: true,
        cleanup_max_slippage_bps: usd(50.0),
        duration_secs: 900,
        max_events: 1000,
        max_live_orders: 10,
        max_total_notional_usd: usd(500.0),
        max_total_fees_usd: usd(1.0),
        max_slippage_bps: usd(50.0),
        environment: Some("mainnet".to_string()),
        ws_url: None,
    };
    let open_hl_ref = CopyLiveDaemonWouldSubmitRef {
        record_index: 0,
        signal_id: "sig-hl-open".to_string(),
        leader_id: "leader_a".to_string(),
        leader_address: "0x00000000000000000000000000000000000000aa".to_string(),
        order: CopyExecutionCanaryWouldSubmit {
            account_id: "addr_a".to_string(),
            worker_id: "worker-addr_a".to_string(),
            coin: "BTC".to_string(),
            side: OrderSide::Buy,
            notional_usd: usd(50.0),
            reduce_only: false,
            cloid: "00000000-0000-0000-0000-000000000101".to_string(),
        },
    };
    let mut reduce_hl_ref = open_hl_ref.clone();
    reduce_hl_ref.signal_id = "sig-hl-close".to_string();
    reduce_hl_ref.order.reduce_only = true;
    reduce_hl_ref.order.side = OrderSide::Sell;
    reduce_hl_ref.order.cloid = "00000000-0000-0000-0000-000000000102".to_string();

    let (executable, suppressed) = partition_copy_live_daemon_would_submit_refs(
        &vec![open_hl_ref.clone(), reduce_hl_ref],
        &options,
    );
    assert_eq!(executable.len(), 1);
    assert!(executable[0].order.reduce_only);
    assert_eq!(suppressed.len(), 1);
    assert_eq!(suppressed[0].reason_code, "COPY_DAEMON_MARKET_EXIT_ONLY");

    options.markets.push("hl_perp".to_string());
    let (executable, suppressed) =
        partition_copy_live_daemon_would_submit_refs(&vec![open_hl_ref], &options);
    assert_eq!(executable.len(), 1);
    assert!(suppressed.is_empty());
}

#[test]
fn copy_live_daemon_supervisor_appends_would_submit_refs_once() {
    let mut refs = vec![CopyLiveDaemonWouldSubmitRef {
        record_index: 0,
        signal_id: "sig-1".to_string(),
        leader_id: "leader_a".to_string(),
        leader_address: "0x00000000000000000000000000000000000000aa".to_string(),
        order: CopyExecutionCanaryWouldSubmit {
            account_id: "addr_a".to_string(),
            worker_id: "worker-addr_a".to_string(),
            coin: "xyz:XYZ100".to_string(),
            side: OrderSide::Buy,
            notional_usd: usd(12.0),
            reduce_only: false,
            cloid: "00000000-0000-0000-0000-000000000001".to_string(),
        },
    }];

    let duplicate = refs[0].clone();
    append_unique_copy_daemon_would_submit_refs(
        &mut refs,
        vec![
            duplicate,
            CopyLiveDaemonWouldSubmitRef {
                record_index: 1,
                signal_id: "sig-2".to_string(),
                leader_id: "leader_b".to_string(),
                leader_address: "0x00000000000000000000000000000000000000bb".to_string(),
                order: CopyExecutionCanaryWouldSubmit {
                    account_id: "addr_a".to_string(),
                    worker_id: "worker-addr_a".to_string(),
                    coin: "xyz:XYZ100".to_string(),
                    side: OrderSide::Sell,
                    notional_usd: usd(10.0),
                    reduce_only: true,
                    cloid: "00000000-0000-0000-0000-000000000002".to_string(),
                },
            },
        ],
    );

    assert_eq!(refs.len(), 2);
    assert_eq!(refs[1].signal_id, "sig-2");
}

#[test]
fn copy_live_daemon_pending_plan_refs_excludes_already_submitted_cloids() {
    let submitted = CopyLiveDaemonWouldSubmitRef {
        record_index: 0,
        signal_id: "sig-submitted".to_string(),
        leader_id: "leader_a".to_string(),
        leader_address: "0x00000000000000000000000000000000000000aa".to_string(),
        order: CopyExecutionCanaryWouldSubmit {
            account_id: "addr_a".to_string(),
            worker_id: "worker-addr_a".to_string(),
            coin: "xyz:XYZ100".to_string(),
            side: OrderSide::Buy,
            notional_usd: usd(12.0),
            reduce_only: false,
            cloid: "00000000-0000-0000-0000-000000000001".to_string(),
        },
    };
    let pending = CopyLiveDaemonWouldSubmitRef {
        record_index: 1,
        signal_id: "sig-pending".to_string(),
        leader_id: "leader_a".to_string(),
        leader_address: "0x00000000000000000000000000000000000000aa".to_string(),
        order: CopyExecutionCanaryWouldSubmit {
            account_id: "addr_b".to_string(),
            worker_id: "worker-addr_b".to_string(),
            coin: "xyz:XYZ100".to_string(),
            side: OrderSide::Buy,
            notional_usd: usd(12.0),
            reduce_only: false,
            cloid: "00000000-0000-0000-0000-000000000002".to_string(),
        },
    };
    let mut submitted_cloids = Vec::new();
    submitted_cloids.push(submitted.order.cloid.clone());

    let refs = copy_live_daemon_pending_plan_refs(&vec![submitted, pending], &submitted_cloids);

    assert_eq!(refs.len(), 1);
    assert_eq!(refs[0].signal_id, "sig-pending");
    assert_eq!(refs[0].order.account_id, "addr_b");
}

#[test]
fn copy_live_daemon_pending_suppressed_refs_excludes_already_submitted_cloids() {
    let submitted = CopyLiveDaemonWouldSubmitRef {
        record_index: 0,
        signal_id: "sig-submitted".to_string(),
        leader_id: "leader_a".to_string(),
        leader_address: "0x00000000000000000000000000000000000000aa".to_string(),
        order: CopyExecutionCanaryWouldSubmit {
            account_id: "addr_a".to_string(),
            worker_id: "worker-addr_a".to_string(),
            coin: "xyz:XYZ100".to_string(),
            side: OrderSide::Buy,
            notional_usd: usd(12.0),
            reduce_only: false,
            cloid: "00000000-0000-0000-0000-000000000001".to_string(),
        },
    };
    let pending = CopyLiveDaemonWouldSubmitRef {
        record_index: 1,
        signal_id: "sig-pending".to_string(),
        leader_id: "leader_a".to_string(),
        leader_address: "0x00000000000000000000000000000000000000aa".to_string(),
        order: CopyExecutionCanaryWouldSubmit {
            account_id: "addr_b".to_string(),
            worker_id: "worker-addr_b".to_string(),
            coin: "xyz:XYZ100".to_string(),
            side: OrderSide::Buy,
            notional_usd: usd(12.0),
            reduce_only: false,
            cloid: "00000000-0000-0000-0000-000000000002".to_string(),
        },
    };
    let refs = vec![
        CopyLiveDaemonSuppressedWouldSubmitRef {
            plan: submitted.clone(),
            reason_code: "COPY_DAEMON_MARGIN_RESIZED_BELOW_MIN".to_string(),
            message: "submitted cloid should not remain suppressed".to_string(),
        },
        CopyLiveDaemonSuppressedWouldSubmitRef {
            plan: pending.clone(),
            reason_code: "COPY_DAEMON_MARGIN_RESIZED_BELOW_MIN".to_string(),
            message: "pending cloid remains suppressed".to_string(),
        },
    ];
    let mut submitted_cloids = Vec::new();
    submitted_cloids.push(submitted.order.cloid.clone());

    let refs = copy_live_daemon_pending_suppressed_refs(&refs, &submitted_cloids);

    assert_eq!(refs.len(), 1);
    assert_eq!(refs[0].plan.signal_id, "sig-pending");
    assert_eq!(refs[0].plan.order.account_id, "addr_b");
}

#[test]
fn a_split_stays_under_every_cap() {
    let mut options = follow_position_options();
    options.max_live_orders = 10;
    options.max_total_notional_usd = usd(50.0);
    options.max_total_fees_usd = usd(0.10);
    let refs = vec![
        plan("addr_a", "xyz:GBP", 30.0, false, "one"),
        plan("addr_a", "xyz:JPY", 30.0, false, "two"),
        plan("addr_a", "xyz:EUR", 20.0, false, "three"),
        plan("addr_a", "xyz:EUR", 500.0, true, "close"),
    ];
    let (executable, suppressed) = partition_copy_live_daemon_would_submit_refs(&refs, &options);
    let names: Vec<&str> = executable.iter().map(|plan| plan.order.cloid.as_str()).collect();
    assert_eq!(names, vec!["one", "three", "close"]);
    assert_eq!(suppressed.len(), 1);
    assert_eq!(suppressed[0].plan.order.cloid, "two");
    assert_eq!(copy_live_daemon_open_notional_usd_from_refs(&executable), sum_usd(50.0));
    assert_eq!(
        copy_live_daemon_open_notional_usd_from_orders(&copy_live_daemon_order_refs_to_orders(
            &executable
        )),
        sum_usd(50.0)
    );
}

#[test]
fn fees_are_estimated_in_thousandths() {
    assert_eq!(estimated_fees(sum_usd(12.0)), fees_usd(0.012));
    assert_eq!(estimated_fees(1), 1);
    assert_eq!(estimated_fees(0), 0);
}

#[test]
fn signal_ids_lose_their_timestamp() {
    assert_eq!(
        copy_live_daemon_signal_id_without_timestamp("copy-leader-event-open-1001"),
        "copy-leader-event-open"
    );
    assert_eq!(copy_live_daemon_signal_id_without_timestamp("sig-open"), "sig-open");
    let mut a = plan("addr_a", "xyz:GBP", 30.0, false, "one");
    a.signal_id = "event-one-1001".to_string();
    let mut b = plan("addr_b", "xyz:GBP", 30.0, false, "two");
    b.signal_id = "event-one-2002".to_string();
    assert_eq!(
        copy_live_daemon_open_fanout_group_key(&a),
        copy_live_daemon_open_fanout_group_key(&b)
    );
}
