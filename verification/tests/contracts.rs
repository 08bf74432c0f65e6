//! The contracts on a plan and on its evidence.

use copy_daemon::acceptance::{
    AcceptanceFindings, CopyLiveDaemonAcceptanceReport, CopyLiveDaemonRestartProbe,
    run_copy_live_daemon_acceptance,
};
use copy_daemon::config::{
    AccountConfig, AppConfig, AppSection, GlobalRiskSection, HyperliquidSection, ManualOpsSection,
    ProcessSection, RiskSection,
};
use copy_daemon::contract::{
    copy_live_daemon_submit_evidence_contract, copy_live_daemon_submit_plan_contract,
    copy_live_daemon_suppress_refs_rejected_by_submit_contract,
};
use copy_daemon::dispatch::{
    LiveSubmitNext, LiveSubmitOutcome, ReadySubmitNext, copy_live_daemon_persistent_live_submit,
    live_submit_next, live_submit_with_positions,
};
use copy_daemon::domain::OrderSide;
use copy_daemon::ledger::CopyPersistenceSnapshot;
use copy_daemon::options::{CopyLiveDaemonAcceptanceOptions, CopyLiveDaemonSupervisorOptions};
use copy_daemon::partition::estimated_fees;
use copy_daemon::plan::{
    CopyExecutionCanaryWouldSubmit, CopyLiveDaemonSuppressedWouldSubmitRef,
    CopyLiveDaemonWouldSubmitRef, copy_live_daemon_open_notional_usd_from_refs,
};
use copy_daemon::reconcile::CopyBoundedLiveWindowReconcile;

/// A sum of amounts in dollars.
fn sum_usd(x: f64) -> i128 {
    i128::from(usd(x))
}

/// Fees in dollars.
fn fees_usd(x: f64) -> i128 {
    (x * 1e12).round() as i128
}

/// An amount in dollars as a fixed-point number.
fn usd(x: f64) -> i64 {
    (x * 1e9).round() as i64
}

fn now_ms() -> u64 {
    1_781_745_839_800
}

/// Every supported market.
fn all_markets() -> Vec<String> {
    ["hl_perp", "xyz_perp", "spot", "cash_perp"]
        .iter()
        .map(|market| market.to_string())
        .collect()
}

fn test_account(account_id: &str, address: &str, copy_ratio: f64) -> AccountConfig {
    AccountConfig {
        account_id: account_id.to_string(),
        address: address.to_string(),
        enabled: true,
        worker_enabled: true,
        copy_ratio: usd(copy_ratio),
        max_order_notional_usd: usd(100.0),
    }
}

fn test_config() -> AppConfig {
    AppConfig {
        app: AppSection { environment: "testnet".to_string(), dry_run: true },
        hyperliquid: HyperliquidSection {
            dex: "xyz".to_string(),
            ws_url: "wss://api.hyperliquid.xyz/ws".to_string(),
        },
        process: ProcessSection { signal_ttl_ms: 3000 },
        manual_ops: ManualOpsSection {
            manual_live_enabled: false,
            mainnet_live_enabled: false,
            max_manual_order_notional_usd: usd(25.0),
        },
        risk: RiskSection {
            global: GlobalRiskSection { allow_reduce_only_when_killed: true },
        },
        accounts: vec![
            test_account("addr_a", "0x0000000000000000000000000000000000000001", 0.10),
            test_account("addr_b", "0x0000000000000000000000000000000000000002", 0.05),
        ],
        copy_blocked_symbols: Vec::new(),
    }
}

fn follow_position_options() -> CopyLiveDaemonSupervisorOptions {
    CopyLiveDaemonSupervisorOptions {
        leaders: Vec::new(),
        account_ids: vec!["addr_a".to_string()],
        local_account_id: Some("addr_a".to_string()),
        markets: all_markets(),
        coin: "xyz:XYZ100".to_string(),
        side: OrderSide::Buy,
        persistence_path: "unused-follow-position-options.json".to_string(),
        shadow_history_path: "unused-follow-position-options.jsonl".to_string(),
        leader_notional_usd: usd(120.0),
        leader_size: usd(1.0),
        live_gate: true,
        allow_live_submit: true,
        confirm_mainnet_live: false,
        submit: true,
        hold_positions_after_submit: true,
        cleanup_max_slippage_bps: usd(50.0),
        duration_secs: 60,
        max_events: 1000,
        max_live_orders: 1,
        max_total_notional_usd: usd(50.0),
        max_total_fees_usd: usd(0.10),
        max_slippage_bps: usd(50.0),
        environment: None,
        ws_url: None,
    }
}

/// An account without orders or positions.
fn flat_account(account_id: &str) -> CopyBoundedLiveWindowReconcile {
    CopyBoundedLiveWindowReconcile {
        account_id: account_id.to_string(),
        ok: true,
        open_order_count: Some(0),
        asset_positions: Some(0),
        position_summaries: Vec::new(),
        account_value: Some("100.0".to_string()),
        withdrawable: Some("100.0".to_string()),
        total_ntl_pos: Some("0.0".to_string()),
        total_margin_used: Some("0.0".to_string()),
        error: None,
    }
}

/// A plan for one order.
fn plan(account_id: &str, coin: &str, notional_usd: f64, reduce_only: bool, cloid: &str) -> CopyLiveDaemonWouldSubmitRef {
    CopyLiveDaemonWouldSubmitRef {
        record_index: 0,
        signal_id: format!("sig-{cloid}"),
        leader_id: "leader_a".to_string(),
        leader_address: "0x00000000000000000000000000000000000000aa".to_string(),
        order: CopyExecutionCanaryWouldSubmit {
            account_id: account_id.to_string(),
            worker_id: format!("worker-{account_id}"),
            coin: coin.to_string(),
            side: OrderSide::Buy,
            notional_usd: usd(notional_usd),
            reduce_only,
            cloid: cloid.to_string(),
        },
    }
}

/// A restart probe that behaved: one signal, none on replay, one when fresh.
fn probe() -> CopyLiveDaemonRestartProbe {
    CopyLiveDaemonRestartProbe {
        event_id: "probe".to_string(),
        first_emit_count: 1,
        replay_emit_count: 0,
        fresh_after_restart_emit_count: 1,
        saved_seen_event_keys: 1,
        loaded_seen_event_keys: 1,
    }
}

/// The order that a trial plans for an account.
fn would_submit(account_id: &str, notional_usd: f64) -> CopyExecutionCanaryWouldSubmit {
    CopyExecutionCanaryWouldSubmit {
        account_id: account_id.to_string(),
        worker_id: format!("worker-{account_id}"),
        coin: "xyz:XYZ100".to_string(),
        side: OrderSide::Buy,
        notional_usd: usd(notional_usd),
        reduce_only: false,
        cloid: format!("00000000-0000-0000-0000-{account_id}"),
    }
}

fn findings(orders: Vec<CopyExecutionCanaryWouldSubmit>) -> AcceptanceFindings {
    AcceptanceFindings {
        restart_probe: probe(),
        persistence_seen_keys: 0,
        persistence_ledger_entries: 0,
        would_submit_orders: orders,
    }
}

fn empty_snapshot() -> CopyPersistenceSnapshot {
    CopyPersistenceSnapshot::new(now_ms(), Vec::new(), Vec::new())
}

#[test]
fn copy_live_daemon_submit_plan_contract_allows_only_executable_refs() {
    let options = CopyLiveDaemonSupervisorOptions {
        leaders: Vec::new(),
        account_ids: vec!["addr_a".to_string()],
        local_account_id: Some("addr_a".to_string()),
        markets: all_markets(),
        coin: "xyz:XYZ100".to_string(),
        side: OrderSide::Buy,
        persistence_path: "unused-submit-plan-contract.json".to_string(),
        shadow_history_path: "unused-submit-plan-contract.jsonl".to_string(),
        leader_notional_usd: usd(120.0),
        leader_size: usd(1.0),
        live_gate: true,
        allow_live_submit: true,
        confirm_mainnet_live: false,
        submit: false,
        hold_positions_after_submit: false,
        cleanup_max_slippage_bps: usd(50.0),
        duration_secs: 900,
        max_events: 1000,
        max_live_orders: 1,
        max_total_notional_usd: usd(50.0),
        max_total_fees_usd: usd(0.10),
        max_slippage_bps: usd(50.0),
        environment: None,
        ws_url: None,
    };
    let executable_refs = vec![
        CopyLiveDaemonWouldSubmitRef {
            record_index: 0,
            signal_id: "sig-open".to_string(),
            leader_id: "leader_a".to_string(),
            leader_address: "0x00000000000000000000000000000000000000aa".to_string(),
            order: CopyExecutionCanaryWouldSubmit {
                account_id: "addr_a".to_string(),
                worker_id: "worker-addr_a".to_string(),
                coin: "xyz:SP500".to_string(),
                side: OrderSide::Buy,
                notional_usd: usd(12.0),
                reduce_only: false,
                cloid: "00000000-0000-0000-0000-000000000001".to_string(),
            },
        },
        CopyLiveDaemonWouldSubmitRef {
            record_index: 1,
            signal_id: "sig-close".to_string(),
            leader_id: "leader_a".to_string(),
            leader_address: "0x00000000000000000000000000000000000000aa".to_string(),
            order: CopyExecutionCanaryWouldSubmit {
                account_id: "addr_a".to_string(),
                worker_id: "worker-addr_a".to_string(),
                coin: "xyz:SP500".to_string(),
                side: OrderSide::Sell,
                notional_usd: usd(12.0),
                reduce_only: true,
                cloid: "00000000-0000-0000-0000-000000000002".to_string(),
            },
        },
    ];
    let suppressed_refs = vec![CopyLiveDaemonSuppressedWouldSubmitRef {
        plan: CopyLiveDaemonWouldSubmitRef {
            record_index: 2,
            signal_id: "sig-suppressed".to_string(),
            leader_id: "leader_b".to_string(),
            leader_address: "0x00000000000000000000000000000000000000bb".to_string(),
            order: CopyExecutionCanaryWouldSubmit {
                account_id: "addr_a".to_string(),
                worker_id: "worker-addr_a".to_string(),
                coin: "xyz:XYZ100".to_string(),
                side: OrderSide::Buy,
                notional_usd: usd(12.0),
                reduce_only: false,
                cloid: "00000000-0000-0000-0000-000000000003".to_string(),
            },
        },
        reason_code: "COPY_DAEMON_MAX_LIVE_ORDERS".to_string(),
        message: "observation only".to_string(),
    }];
    let flat = vec![CopyBoundedLiveWindowReconcile {
        account_id: "addr_a".to_string(),
        ok: true,
        open_order_count: Some(0),
        asset_positions: Some(0),
        position_summaries: Vec::new(),
        account_value: Some("100.0".to_string()),
        withdrawable: Some("100.0".to_string()),
        total_ntl_pos: Some("0.0".to_string()),
        total_margin_used: Some("0.0".to_string()),
        error: None,
    }];

    let contract = copy_live_daemon_submit_plan_contract(
        &options,
        &executable_refs,
        &suppressed_refs,
        sum_usd(24.0),
        fees_usd(0.024),
        &flat,
    );

    assert!(contract.ok, "{contract:#?}");
    assert_eq!(contract.executable_plan_count, 2);
    assert_eq!(contract.suppressed_plan_count, 1);
    assert_eq!(contract.executable_open_plan_count, 1);
    assert_eq!(contract.executable_reduce_only_plan_count, 1);
    assert!(
        contract
            .checks
            .iter()
            .any(|check| { check.name == "suppressed_refs_excluded_from_submit" && check.ok })
    );
}

#[test]
fn copy_live_daemon_submit_evidence_contract_counts_open_orders_not_reduce_only_closes() {
    let acceptance = CopyLiveDaemonAcceptanceReport {
        ok: true,
        mode: "copy_live_daemon_acceptance_live_gate".to_string(),
        environment: "mainnet".to_string(),
        live_requested: true,
        live_submit_allowed: true,
        confirm_mainnet_live: true,
        max_duration_secs: 300,
        max_live_orders: 1,
        max_total_notional_usd: usd(50.0),
        max_total_fees_usd: usd(0.10),
        max_slippage_bps: usd(50.0),
        require_cleanup_after_submit: true,
        require_flat_reconcile_after_submit: true,
        target_accounts: vec!["addr_a".to_string()],
        leaders: Vec::new(),
        checks: Vec::new(),
        persistence_path: "unused".to_string(),
        shadow_history_path: "unused".to_string(),
        persistence_seen_keys_before: 0,
        persistence_ledger_entries_before: 0,
        restart_dedupe_probe: CopyLiveDaemonRestartProbe {
            event_id: "unused".to_string(),
            first_emit_count: 1,
            replay_emit_count: 0,
            fresh_after_restart_emit_count: 1,
            saved_seen_event_keys: 1,
            loaded_seen_event_keys: 1,
        },
        shadow_records_written: 0,
        approved_shadow_records: 0,
        would_submit_orders: Vec::new(),
        next_actions: Vec::new(),
    };
    let options = CopyLiveDaemonSupervisorOptions {
        leaders: Vec::new(),
        account_ids: vec!["addr_a".to_string()],
        local_account_id: Some("addr_a".to_string()),
        markets: all_markets(),
        coin: "xyz:XYZ100".to_string(),
        side: OrderSide::Buy,
        persistence_path: "unused-evidence-open-count.json".to_string(),
        shadow_history_path: "unused-evidence-open-count.jsonl".to_string(),
        leader_notional_usd: usd(120.0),
        leader_size: usd(1.0),
        live_gate: true,
        allow_live_submit: true,
        confirm_mainnet_live: true,
        submit: false,
        hold_positions_after_submit: false,
        cleanup_max_slippage_bps: usd(50.0),
        duration_secs: 300,
        max_events: 1000,
        max_live_orders: 1,
        max_total_notional_usd: usd(50.0),
        max_total_fees_usd: usd(0.10),
        max_slippage_bps: usd(50.0),
        environment: Some("mainnet".to_string()),
        ws_url: None,
    };
    let orders = vec![
        CopyExecutionCanaryWouldSubmit {
            account_id: "addr_a".to_string(),
            worker_id: "worker-addr_a".to_string(),
            coin: "xyz:SP500".to_string(),
            side: OrderSide::Buy,
            notional_usd: usd(12.0),
            reduce_only: false,
            cloid: "00000000-0000-0000-0000-000000000001".to_string(),
        },
        CopyExecutionCanaryWouldSubmit {
            account_id: "addr_a".to_string(),
            worker_id: "worker-addr_a".to_string(),
            coin: "xyz:SP500".to_string(),
            side: OrderSide::Sell,
            notional_usd: usd(12.0),
            reduce_only: true,
            cloid: "00000000-0000-0000-0000-000000000002".to_string(),
        },
    ];
    let flat = vec![CopyBoundedLiveWindowReconcile {
        account_id: "addr_a".to_string(),
        ok: true,
        open_order_count: Some(0),
        asset_positions: Some(0),
        position_summaries: Vec::new(),
        account_value: Some("100.0".to_string()),
        withdrawable: Some("100.0".to_string()),
        total_ntl_pos: Some("0.0".to_string()),
        total_margin_used: Some("0.0".to_string()),
        error: None,
    }];

    let contract = copy_live_daemon_submit_evidence_contract(
        &options,
        &acceptance,
        &orders,
        sum_usd(24.0),
        fees_usd(0.024),
        &flat,
        None,
    );

    let bounded = contract
        .checks
        .iter()
        .find(|check| check.name == "bounded_live_orders")
        .expect("bounded_live_orders check");
    assert!(bounded.ok, "{bounded:#?}");
    assert!(bounded.detail.contains("1 planned open/increase"));
    assert!(bounded.detail.contains("1 reduce-only close"));
}

#[test]
fn copy_live_daemon_submit_plan_contract_rejects_suppressed_ref_overlap() {
    let options = CopyLiveDaemonSupervisorOptions {
        leaders: Vec::new(),
        account_ids: vec!["addr_a".to_string()],
        local_account_id: Some("addr_a".to_string()),
        markets: all_markets(),
        coin: "xyz:XYZ100".to_string(),
        side: OrderSide::Buy,
        persistence_path: "unused-submit-plan-overlap.json".to_string(),
        shadow_history_path: "unused-submit-plan-overlap.jsonl".to_string(),
        leader_notional_usd: usd(120.0),
        leader_size: usd(1.0),
        live_gate: true,
        allow_live_submit: true,
        confirm_mainnet_live: false,
        submit: false,
        hold_positions_after_submit: false,
        cleanup_max_slippage_bps: usd(50.0),
        duration_secs: 900,
        max_events: 1000,
        max_live_orders: 1,
        max_total_notional_usd: usd(50.0),
        max_total_fees_usd: usd(0.10),
        max_slippage_bps: usd(50.0),
        environment: None,
        ws_url: None,
    };
    let plan = CopyLiveDaemonWouldSubmitRef {
        record_index: 0,
        signal_id: "sig-overlap".to_string(),
        leader_id: "leader_a".to_string(),
        leader_address: "0x00000000000000000000000000000000000000aa".to_string(),
        order: CopyExecutionCanaryWouldSubmit {
            account_id: "addr_a".to_string(),
            worker_id: "worker-addr_a".to_string(),
            coin: "xyz:SP500".to_string(),
            side: OrderSide::Buy,
            notional_usd: usd(12.0),
            reduce_only: false,
            cloid: "00000000-0000-0000-0000-000000000001".to_string(),
        },
    };
    let flat = vec![CopyBoundedLiveWindowReconcile {
        account_id: "addr_a".to_string(),
        ok: true,
        open_order_count: Some(0),
        asset_positions: Some(0),
        position_summaries: Vec::new(),
        account_value: Some("100.0".to_string()),
        withdrawable: Some("100.0".to_string()),
        total_ntl_pos: Some("0.0".to_string()),
        total_margin_used: Some("0.0".to_string()),
        error: None,
    }];

    let contract = copy_live_daemon_submit_plan_contract(
        &options,
        &vec![plan.clone()],
        &vec![CopyLiveDaemonSuppressedWouldSubmitRef {
            plan,
            reason_code: "COPY_DAEMON_MAX_LIVE_ORDERS".to_string(),
            message: "should not overlap".to_string(),
        }],
        sum_usd(12.0),
        fees_usd(0.012),
        &flat,
    );

    assert!(!contract.ok, "{contract:#?}");
    assert!(
        contract
            .checks
            .iter()
            .any(|check| { check.name == "suppressed_refs_excluded_from_submit" && !check.ok })
    );
}

#[test]
fn copy_live_daemon_submit_plan_contract_rejects_account_exposure_over_cap() {
    let options = CopyLiveDaemonSupervisorOptions {
        leaders: Vec::new(),
        account_ids: vec!["addr_a".to_string()],
        local_account_id: Some("addr_a".to_string()),
        markets: all_markets(),
        coin: "xyz:XYZ100".to_string(),
        side: OrderSide::Buy,
        persistence_path: "unused-submit-plan-exposure.json".to_string(),
        shadow_history_path: "unused-submit-plan-exposure.jsonl".to_string(),
        leader_notional_usd: usd(120.0),
        leader_size: usd(1.0),
        live_gate: true,
        allow_live_submit: true,
        confirm_mainnet_live: true,
        submit: true,
        hold_positions_after_submit: true,
        cleanup_max_slippage_bps: usd(50.0),
        duration_secs: 900,
        max_events: 1000,
        max_live_orders: 1,
        max_total_notional_usd: usd(50.0),
        max_total_fees_usd: usd(0.10),
        max_slippage_bps: usd(50.0),
        environment: Some("mainnet".to_string()),
        ws_url: None,
    };
    let open_ref = CopyLiveDaemonWouldSubmitRef {
        record_index: 0,
        signal_id: "sig-open-over-exposure".to_string(),
        leader_id: "leader_a".to_string(),
        leader_address: "0x00000000000000000000000000000000000000aa".to_string(),
        order: CopyExecutionCanaryWouldSubmit {
            account_id: "addr_a".to_string(),
            worker_id: "worker-addr_a".to_string(),
            coin: "xyz:SP500".to_string(),
            side: OrderSide::Buy,
            notional_usd: usd(50.0),
            reduce_only: false,
            cloid: "00000000-0000-0000-0000-000000000011".to_string(),
        },
    };
    let held_position = vec![CopyBoundedLiveWindowReconcile {
        account_id: "addr_a".to_string(),
        ok: false,
        open_order_count: Some(0),
        asset_positions: Some(2),
        position_summaries: Vec::new(),
        account_value: Some("100.0".to_string()),
        withdrawable: Some("100.0".to_string()),
        total_ntl_pos: Some("42.0".to_string()),
        total_margin_used: Some("2.14".to_string()),
        error: None,
    }];

    let contract = copy_live_daemon_submit_plan_contract(
        &options,
        &vec![open_ref],
        &vec![],
        sum_usd(50.0),
        fees_usd(0.05),
        &held_position,
    );

    assert!(!contract.ok, "{contract:#?}");
    assert!(
        contract
            .checks
            .iter()
            .any(|check| { check.name == "bounded_account_total_exposure" && !check.ok }),
        "{contract:#?}"
    );
}

#[test]
fn copy_live_daemon_submit_plan_contract_allows_reduce_only_over_exposure() {
    let options = CopyLiveDaemonSupervisorOptions {
        leaders: Vec::new(),
        account_ids: vec!["addr_a".to_string()],
        local_account_id: Some("addr_a".to_string()),
        markets: all_markets(),
        coin: "xyz:XYZ100".to_string(),
        side: OrderSide::Sell,
        persistence_path: "unused-submit-plan-reduce-exposure.json".to_string(),
        shadow_history_path: "unused-submit-plan-reduce-exposure.jsonl".to_string(),
        leader_notional_usd: usd(120.0),
        leader_size: usd(1.0),
        live_gate: true,
        allow_live_submit: true,
        confirm_mainnet_live: true,
        submit: true,
        hold_positions_after_submit: true,
        cleanup_max_slippage_bps: usd(50.0),
        duration_secs: 900,
        max_events: 1000,
        max_live_orders: 1,
        max_total_notional_usd: usd(50.0),
        max_total_fees_usd: usd(0.10),
        max_slippage_bps: usd(50.0),
        environment: Some("mainnet".to_string()),
        ws_url: None,
    };
    let reduce_ref = CopyLiveDaemonWouldSubmitRef {
        record_index: 0,
        signal_id: "sig-reduce-held-position".to_string(),
        leader_id: "leader_a".to_string(),
        leader_address: "0x00000000000000000000000000000000000000aa".to_string(),
        order: CopyExecutionCanaryWouldSubmit {
            account_id: "addr_a".to_string(),
            worker_id: "worker-addr_a".to_string(),
            coin: "xyz:JPY".to_string(),
            side: OrderSide::Sell,
            notional_usd: usd(42.0),
            reduce_only: true,
            cloid: "00000000-0000-0000-0000-000000000012".to_string(),
        },
    };
    let held_position = vec![CopyBoundedLiveWindowReconcile {
        account_id: "addr_a".to_string(),
        ok: false,
        open_order_count: Some(0),
        asset_positions: Some(2),
        position_summaries: Vec::new(),
        account_value: Some("100.0".to_string()),
        withdrawable: Some("100.0".to_string()),
        total_ntl_pos: Some("42.0".to_string()),
        total_margin_used: Some("2.14".to_string()),
        error: None,
    }];

    let contract = copy_live_daemon_submit_plan_contract(
        &options,
        &vec![reduce_ref],
        &vec![],
        sum_usd(0.0),
        fees_usd(0.0),
        &held_position,
    );

    let exposure = contract
        .checks
        .iter()
        .find(|check| check.name == "bounded_account_total_exposure")
        .expect("bounded_account_total_exposure check");
    assert!(exposure.ok, "{contract:#?}");
    assert!(contract.ok, "{contract:#?}");
}

#[test]
fn copy_live_daemon_submit_plan_contract_does_not_cap_reduce_only_notional_or_fees() {
    let options = CopyLiveDaemonSupervisorOptions {
        leaders: Vec::new(),
        account_ids: vec!["addr_a".to_string()],
        local_account_id: Some("addr_a".to_string()),
        markets: all_markets(),
        coin: "xyz:GBP".to_string(),
        side: OrderSide::Sell,
        persistence_path: "unused-reduce-cap.json".to_string(),
        shadow_history_path: "unused-reduce-cap.jsonl".to_string(),
        leader_notional_usd: usd(120.0),
        leader_size: usd(1.0),
        live_gate: true,
        allow_live_submit: true,
        confirm_mainnet_live: true,
        submit: true,
        hold_positions_after_submit: true,
        cleanup_max_slippage_bps: usd(50.0),
        duration_secs: 900,
        max_events: 1000,
        max_live_orders: 1,
        max_total_notional_usd: usd(10.0),
        max_total_fees_usd: usd(0.001),
        max_slippage_bps: usd(50.0),
        environment: Some("mainnet".to_string()),
        ws_url: None,
    };
    let reduce_ref = CopyLiveDaemonWouldSubmitRef {
        record_index: 0,
        signal_id: "sig-close".to_string(),
        leader_id: "leader_a".to_string(),
        leader_address: "0x00000000000000000000000000000000000000aa".to_string(),
        order: CopyExecutionCanaryWouldSubmit {
            account_id: "addr_a".to_string(),
            worker_id: "worker-addr_a".to_string(),
            coin: "xyz:GBP".to_string(),
            side: OrderSide::Sell,
            notional_usd: usd(50.0),
            reduce_only: true,
            cloid: "00000000-0000-0000-0000-000000000001".to_string(),
        },
    };
    let reconciliations = vec![CopyBoundedLiveWindowReconcile {
        account_id: "addr_a".to_string(),
        ok: false,
        open_order_count: Some(0),
        asset_positions: Some(1),
        position_summaries: Vec::new(),
        account_value: Some("42.0".to_string()),
        withdrawable: Some("3.0".to_string()),
        total_ntl_pos: Some("200.0".to_string()),
        total_margin_used: Some("39.0".to_string()),
        error: None,
    }];
    let planned_open_notional =
        copy_live_daemon_open_notional_usd_from_refs(&vec![reduce_ref.clone()]);
    let estimated_open_fees = estimated_fees(planned_open_notional);
    let contract = copy_live_daemon_submit_plan_contract(
        &options,
        &vec![reduce_ref],
        &vec![],
        planned_open_notional,
        estimated_open_fees,
        &reconciliations,
    );

    assert!(contract.ok, "{contract:#?}");
    assert_eq!(contract.planned_notional_usd, sum_usd(0.0));
    assert_eq!(contract.estimated_fees_usd, fees_usd(0.0));
    assert_eq!(contract.executable_reduce_only_plan_count, 1);
}

#[test]
fn copy_live_daemon_contract_exposure_failure_suppresses_open_ref() {
    let options = CopyLiveDaemonSupervisorOptions {
        leaders: Vec::new(),
        account_ids: vec!["addr_a".to_string()],
        local_account_id: Some("addr_a".to_string()),
        markets: all_markets(),
        coin: "xyz:XYZ100".to_string(),
        side: OrderSide::Sell,
        persistence_path: "unused-submit-plan-suppress.json".to_string(),
        shadow_history_path: "unused-submit-plan-suppress.jsonl".to_string(),
        leader_notional_usd: usd(120.0),
        leader_size: usd(1.0),
        live_gate: true,
        allow_live_submit: true,
        confirm_mainnet_live: true,
        submit: true,
        hold_positions_after_submit: true,
        cleanup_max_slippage_bps: usd(50.0),
        duration_secs: 900,
        max_events: 1000,
        max_live_orders: 1,
        max_total_notional_usd: usd(50.0),
        max_total_fees_usd: usd(0.25),
        max_slippage_bps: usd(50.0),
        environment: Some("mainnet".to_string()),
        ws_url: None,
    };
    let open_ref = CopyLiveDaemonWouldSubmitRef {
        record_index: 0,
        signal_id: "sig-open-over-exposure".to_string(),
        leader_id: "leader_a".to_string(),
        leader_address: "0x00000000000000000000000000000000000000aa".to_string(),
        order: CopyExecutionCanaryWouldSubmit {
            account_id: "addr_a".to_string(),
            worker_id: "worker-addr_a".to_string(),
            coin: "xyz:XYZ100".to_string(),
            side: OrderSide::Sell,
            notional_usd: usd(50.0),
            reduce_only: false,
            cloid: "00000000-0000-0000-0000-000000000013".to_string(),
        },
    };
    let held_position = vec![CopyBoundedLiveWindowReconcile {
        account_id: "addr_a".to_string(),
        ok: false,
        open_order_count: Some(0),
        asset_positions: Some(2),
        position_summaries: Vec::new(),
        account_value: Some("100.0".to_string()),
        withdrawable: Some("100.0".to_string()),
        total_ntl_pos: Some("42.0".to_string()),
        total_margin_used: Some("2.14".to_string()),
        error: None,
    }];
    let contract = copy_live_daemon_submit_plan_contract(
        &options,
        &vec![open_ref.clone()],
        &vec![],
        sum_usd(50.0),
        fees_usd(0.05),
        &held_position,
    );
    assert!(!contract.ok, "{contract:#?}");

    let (executable, suppressed, adjusted_contract) =
        copy_live_daemon_suppress_refs_rejected_by_submit_contract(
            &options,
            vec![open_ref],
            Vec::new(),
            sum_usd(50.0),
            fees_usd(0.05),
            &held_position,
            contract,
        );

    assert!(executable.is_empty());
    assert_eq!(suppressed.len(), 1);
    assert_eq!(
        suppressed[0].reason_code,
        "COPY_DAEMON_MAX_ACCOUNT_EXPOSURE"
    );
    assert!(adjusted_contract.ok, "{adjusted_contract:#?}");
    assert_eq!(adjusted_contract.executable_plan_count, 0);
    assert_eq!(adjusted_contract.suppressed_plan_count, 1);
}

#[test]
fn copy_live_daemon_contract_margin_failure_suppresses_open_ref() {
    let options = CopyLiveDaemonSupervisorOptions {
        leaders: Vec::new(),
        account_ids: vec!["addr_a".to_string()],
        local_account_id: Some("addr_a".to_string()),
        markets: all_markets(),
        coin: "xyz:XYZ100".to_string(),
        side: OrderSide::Buy,
        persistence_path: "unused-submit-plan-margin.json".to_string(),
        shadow_history_path: "unused-submit-plan-margin.jsonl".to_string(),
        leader_notional_usd: usd(120.0),
        leader_size: usd(1.0),
        live_gate: true,
        allow_live_submit: true,
        confirm_mainnet_live: true,
        submit: true,
        hold_positions_after_submit: true,
        cleanup_max_slippage_bps: usd(50.0),
        duration_secs: 900,
        max_events: 1000,
        max_live_orders: 1,
        max_total_notional_usd: usd(150.0),
        max_total_fees_usd: usd(1.0),
        max_slippage_bps: usd(50.0),
        environment: Some("mainnet".to_string()),
        ws_url: None,
    };
    let open_ref = CopyLiveDaemonWouldSubmitRef {
        record_index: 0,
        signal_id: "sig-open-low-margin".to_string(),
        leader_id: "leader_a".to_string(),
        leader_address: "0x00000000000000000000000000000000000000aa".to_string(),
        order: CopyExecutionCanaryWouldSubmit {
            account_id: "addr_a".to_string(),
            worker_id: "worker-addr_a".to_string(),
            coin: "xyz:SP500".to_string(),
            side: OrderSide::Buy,
            notional_usd: usd(50.0),
            reduce_only: false,
            cloid: "00000000-0000-0000-0000-000000000014".to_string(),
        },
    };
    let low_margin_position = vec![CopyBoundedLiveWindowReconcile {
        account_id: "addr_a".to_string(),
        ok: false,
        open_order_count: Some(0),
        asset_positions: Some(2),
        position_summaries: Vec::new(),
        account_value: Some("7.14".to_string()),
        withdrawable: Some("5.0".to_string()),
        total_ntl_pos: Some("42.0".to_string()),
        total_margin_used: Some("2.14".to_string()),
        error: None,
    }];

    let contract = copy_live_daemon_submit_plan_contract(
        &options,
        &vec![open_ref.clone()],
        &vec![],
        sum_usd(50.0),
        fees_usd(0.05),
        &low_margin_position,
    );
    assert!(!contract.ok, "{contract:#?}");
    assert!(
        contract
            .checks
            .iter()
            .any(|check| { check.name == "bounded_open_margin_available" && !check.ok }),
        "{contract:#?}"
    );

    let (executable, suppressed, adjusted_contract) =
        copy_live_daemon_suppress_refs_rejected_by_submit_contract(
            &options,
            vec![open_ref],
            Vec::new(),
            sum_usd(50.0),
            fees_usd(0.05),
            &low_margin_position,
            contract,
        );

    assert!(executable.is_empty());
    assert_eq!(suppressed.len(), 1);
    assert_eq!(suppressed[0].reason_code, "COPY_DAEMON_INSUFFICIENT_MARGIN");
    assert!(adjusted_contract.ok, "{adjusted_contract:#?}");
    assert_eq!(adjusted_contract.executable_plan_count, 0);
    assert_eq!(adjusted_contract.suppressed_plan_count, 1);
}

#[test]
fn copy_live_daemon_submit_contract_accepts_multi_account_fanout_from_one_signal() {
    let mut options = follow_position_options();
    options.account_ids = vec!["addr_a".to_string(), "addr_b".to_string()];
    options.max_live_orders = 2;
    options.max_total_notional_usd = usd(1000.0);
    options.max_total_fees_usd = usd(1.0);
    let refs = vec![
        CopyLiveDaemonWouldSubmitRef {
            record_index: 7,
            signal_id: "sig-shared-target-fill".to_string(),
            leader_id: "leader_a".to_string(),
            leader_address: "0x00000000000000000000000000000000000000aa".to_string(),
            order: CopyExecutionCanaryWouldSubmit {
                account_id: "addr_a".to_string(),
                worker_id: "worker-addr_a".to_string(),
                coin: "xyz:SILVER".to_string(),
                side: OrderSide::Sell,
                notional_usd: usd(120.0),
                reduce_only: false,
                cloid: "99999999-9999-5999-8999-999999999991".to_string(),
            },
        },
        CopyLiveDaemonWouldSubmitRef {
            record_index: 7,
            signal_id: "sig-shared-target-fill".to_string(),
            leader_id: "leader_a".to_string(),
            leader_address: "0x00000000000000000000000000000000000000aa".to_string(),
            order: CopyExecutionCanaryWouldSubmit {
                account_id: "addr_b".to_string(),
                worker_id: "worker-addr_b".to_string(),
                coin: "xyz:SILVER".to_string(),
                side: OrderSide::Sell,
                notional_usd: usd(120.0),
                reduce_only: false,
                cloid: "99999999-9999-5999-8999-999999999992".to_string(),
            },
        },
    ];
    let reconciliations = vec![
        CopyBoundedLiveWindowReconcile {
            account_id: "addr_a".to_string(),
            ok: true,
            open_order_count: Some(0),
            asset_positions: Some(0),
            position_summaries: Vec::new(),
            account_value: Some("200".to_string()),
            withdrawable: Some("50".to_string()),
            total_ntl_pos: Some("0".to_string()),
            total_margin_used: Some("0".to_string()),
            error: None,
        },
        CopyBoundedLiveWindowReconcile {
            account_id: "addr_b".to_string(),
            ok: true,
            open_order_count: Some(0),
            asset_positions: Some(0),
            position_summaries: Vec::new(),
            account_value: Some("200".to_string()),
            withdrawable: Some("50".to_string()),
            total_ntl_pos: Some("0".to_string()),
            total_margin_used: Some("0".to_string()),
            error: None,
        },
    ];

    let contract = copy_live_daemon_submit_plan_contract(
        &options,
        &refs,
        &vec![],
        sum_usd(240.0),
        fees_usd(0.24),
        &reconciliations,
    );

    assert!(
        contract.ok,
        "multi-account fanout should pass submit contract: {:#?}",
        contract.checks
    );
    assert!(
        contract
            .checks
            .iter()
            .any(|check| check.name == "account_signal_refs_unique" && check.ok)
    );
}

/// The outcome of acceptance for a window with one order.
fn accepted(config: &AppConfig, max_total_notional_usd: f64) -> CopyLiveDaemonAcceptanceReport {
    run_copy_live_daemon_acceptance(
        config,
        CopyLiveDaemonAcceptanceOptions {
            leaders: vec!["leader_a=0x00000000000000000000000000000000000000aa".to_string()],
            account_ids: vec!["addr_a".to_string()],
            coin: "xyz:XYZ100".to_string(),
            side: OrderSide::Buy,
            persistence_path: "acceptance-persistence.json".to_string(),
            shadow_history_path: "acceptance-shadow.jsonl".to_string(),
            leader_notional_usd: usd(120.0),
            leader_size: usd(1.0),
            live: true,
            allow_live_submit: true,
            confirm_mainnet_live: false,
            max_duration_secs: 300,
            max_live_orders: 1,
            max_total_notional_usd: usd(max_total_notional_usd),
            max_total_fees_usd: usd(0.10),
            max_slippage_bps: usd(50.0),
            require_cleanup_after_submit: true,
            require_flat_reconcile_after_submit: true,
        },
        findings(vec![would_submit("addr_a", 100.0)]),
    )
    .unwrap()
}

fn supervised(submit: bool) -> CopyLiveDaemonSupervisorOptions {
    let mut options = follow_position_options();
    options.leaders = vec!["leader_a=0x00000000000000000000000000000000000000aa".to_string()];
    options.submit = submit;
    options.hold_positions_after_submit = false;
    options.duration_secs = 300;
    options
}

#[test]
fn copy_live_daemon_submit_evidence_contract_blocks_until_persistent_submit_connected() {
    let mut config = test_config();
    config.app.dry_run = false;
    config.manual_ops.manual_live_enabled = true;
    let acceptance = accepted(&config, 100.0);
    let options = supervised(false);
    let would_submit_orders = vec![CopyExecutionCanaryWouldSubmit {
        account_id: "addr_a".to_string(),
        worker_id: "worker-addr_a".to_string(),
        coin: "xyz:XYZ100".to_string(),
        side: OrderSide::Buy,
        notional_usd: usd(12.0),
        reduce_only: false,
        cloid: "00000000-0000-0000-0000-000000000001".to_string(),
    }];
    let flat = vec![flat_account("addr_a")];

    assert!(acceptance.ok, "{acceptance:#?}");
    let contract = copy_live_daemon_submit_evidence_contract(
        &options,
        &acceptance,
        &would_submit_orders,
        sum_usd(12.0),
        fees_usd(0.024),
        &flat,
        None,
    );

    assert!(!contract.ready_for_unattended_submit);
    assert!(
        contract
            .blocker
            .as_deref()
            .unwrap_or("")
            .contains("unattended live submit remains gated")
    );
    assert!(
        contract
            .required_live_evidence
            .iter()
            .any(|item| item.contains("orderStatus"))
    );
    assert!(
        contract
            .required_live_evidence
            .iter()
            .any(|item| item.contains("userFillsByTime"))
    );
    assert!(
        contract.checks.iter().any(|check| {
            check.name == "persistent_live_submit_path_connected" && !check.ok
        })
    );
}

#[test]
fn copy_live_daemon_submit_evidence_contract_requires_real_live_evidence() {
    let mut config = test_config();
    config.app.dry_run = false;
    config.manual_ops.manual_live_enabled = true;
    let acceptance = accepted(&config, 150.0);
    let options = supervised(true);
    let flat = vec![flat_account("addr_a")];
    let plan_contract = copy_live_daemon_submit_plan_contract(
        &options,
        &vec![],
        &vec![],
        sum_usd(0.0),
        fees_usd(0.0),
        &flat,
    );
    let next = live_submit_next(
        &config,
        &options,
        plan_contract.ok,
        &vec![],
        &vec![],
        now_ms(),
    );
    let LiveSubmitNext::GoOn(checks) = next else {
        panic!("{next:#?}");
    };
    let next = live_submit_with_positions(
        &options,
        plan_contract.ok,
        checks,
        &vec![],
        &Vec::new(),
        now_ms(),
    );
    let ReadySubmitNext::GoOn { checks, ready } = next else {
        panic!("{next:#?}");
    };
    assert!(ready.is_empty());
    let live_submit = copy_live_daemon_persistent_live_submit(
        &options,
        plan_contract.ok,
        checks,
        0,
        LiveSubmitOutcome {
            submit_ready_refs: Vec::new(),
            submitted_reports: Vec::new(),
            order_evidence: Vec::new(),
            cleanup_runbooks: Vec::new(),
            cleanup_errors: Vec::new(),
            ledger_reconciliations: Vec::new(),
            ledger_reconciliation_snapshot: empty_snapshot(),
        },
    );

    let contract = copy_live_daemon_submit_evidence_contract(
        &options,
        &acceptance,
        &vec![],
        sum_usd(0.0),
        fees_usd(0.0),
        &flat,
        Some(&live_submit),
    );

    assert!(live_submit.ok);
    assert!(!contract.ready_for_unattended_submit);
    assert!(
        contract
            .checks
            .iter()
            .any(|check| { check.name == "persistent_live_submit_path_connected" && check.ok })
    );
    assert!(
        contract
            .checks
            .iter()
            .any(|check| { check.name == "real_live_submit_evidence_present" && !check.ok })
    );
    assert!(
        contract
            .blocker
            .as_deref()
            .unwrap_or("")
            .contains("no real order was submitted")
    );
}

#[test]
fn a_failed_plan_is_cut_down_only_for_its_openings() {
    let options = follow_position_options();
    let mut held = flat_account("addr_a");
    held.ok = false;
    held.total_ntl_pos = Some("42.0".to_string());
    let reconciliations = vec![held];
    let refs = vec![
        plan("addr_a", "xyz:XYZ100", 50.0, false, "open-1"),
        plan("addr_a", "xyz:GBP", 20.0, true, "close-1"),
    ];
    let contract = copy_live_daemon_submit_plan_contract(
        &options,
        &refs,
        &Vec::new(),
        sum_usd(50.0),
        fees_usd(0.05),
        &reconciliations,
    );
    assert!(!contract.ok);
    let (kept, held_back, contract) = copy_live_daemon_suppress_refs_rejected_by_submit_contract(
        &options,
        refs,
        Vec::new(),
        sum_usd(50.0),
        fees_usd(0.05),
        &reconciliations,
        contract,
    );
    assert_eq!(kept.len(), 1);
    assert_eq!(kept[0].order.cloid, "close-1");
    assert_eq!(held_back.len(), 1);
    assert_eq!(held_back[0].plan.order.cloid, "open-1");
    assert_eq!(contract.planned_notional_usd, sum_usd(20.0));
    assert_eq!(contract.estimated_fees_usd, fees_usd(0.02));
}

#[test]
fn a_trace_of_exposure_breaks_the_contract() {
    let options = supervised(true);
    let refs = vec![plan("addr_a", "xyz:XYZ100", 50.0, false, "one")];
    let within = |total_ntl_pos: &str| {
        let mut account = flat_account("addr_a");
        account.total_ntl_pos = Some(total_ntl_pos.to_string());
        copy_live_daemon_submit_plan_contract(
            &options,
            &refs,
            &vec![],
            sum_usd(50.0),
            fees_usd(0.05),
            &vec![account],
        )
        .checks
        .iter()
        .any(|check| check.name == "bounded_account_total_exposure" && check.ok)
    };
    assert_eq!(options.max_total_notional_usd, usd(50.0));
    assert!(within("0.000000001"));
    assert!(!within("0.0000000015"));
    assert!(!within("inf"));
}

#[test]
fn a_cap_at_the_largest_amount_still_holds() {
    let mut options = supervised(true);
    options.max_total_notional_usd = i64::MAX;
    let check = |refs: &Vec<CopyLiveDaemonWouldSubmitRef>, total_ntl_pos: &str, name: &str| {
        let mut account = flat_account("addr_a");
        account.total_ntl_pos = Some(total_ntl_pos.to_string());
        account.withdrawable = Some("1e12".to_string());
        copy_live_daemon_submit_plan_contract(
            &options,
            refs,
            &vec![],
            copy_live_daemon_open_notional_usd_from_refs(refs),
            0,
            &vec![account],
        )
        .checks
        .into_iter()
        .find(|check| check.name == name)
        .unwrap()
    };
    let one = vec![plan("addr_a", "xyz:XYZ100", 50.0, false, "one")];
    assert!(check(&one, "9223371986", "bounded_account_total_exposure").ok);
    let over = check(&one, "9223372036", "bounded_account_total_exposure");
    assert!(!over.ok);
    assert_eq!(
        over.detail,
        "existing_total_ntl_pos_usd=9223372036.000000 + planned_open_notional_usd=50.000000 => projected_total_exposure_usd=9223372086.000000, must be <= 9223372036.854776"
    );
    assert!(!check(&one, "1e30", "bounded_account_total_exposure").ok);
    assert!(!check(&one, "-inf", "bounded_account_total_exposure").ok);
    let mut all = plan("addr_a", "xyz:XYZ100", 50.0, false, "two");
    all.order.notional_usd = i64::MAX;
    let both = vec![all, plan("addr_a", "xyz:XYZ100", 50.0, false, "three")];
    assert!(check(&one, "0", "bounded_submit_plan_notional").ok);
    assert!(!check(&both, "0", "bounded_submit_plan_notional").ok);
    assert!(check(&both, "0", "bounded_open_margin_available").ok);
}

#[test]
fn fees_of_a_part_are_exact() {
    let options = supervised(true);
    let mut opening = plan("addr_a", "xyz:XYZ100", 50.0, false, "one");
    opening.order.notional_usd = 10_000_000_001;
    let mut closing = plan("addr_a", "xyz:GBP", 10_000.0, true, "two");
    closing.order.side = OrderSide::Sell;
    let refs = vec![opening, closing];
    let mut account = flat_account("addr_a");
    account.withdrawable = Some("0".to_string());
    let accounts = vec![account];
    let planned = copy_live_daemon_open_notional_usd_from_refs(&refs);
    let fees = estimated_fees(planned);
    assert_eq!(fees, 10_000_000_001);
    let contract =
        copy_live_daemon_submit_plan_contract(&options, &refs, &vec![], planned, fees, &accounts);
    let (kept, _, adjusted) = copy_live_daemon_suppress_refs_rejected_by_submit_contract(
        &options,
        refs,
        vec![],
        planned,
        fees,
        &accounts,
        contract,
    );
    assert_eq!(kept.len(), 1);
    assert_eq!(adjusted.planned_notional_usd, 10_000_000_000_000);
    assert_eq!(adjusted.estimated_fees_usd, 10_000_000_000_000);
}
