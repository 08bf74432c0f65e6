//! Sending plans and what is proved of it afterwards.

use copy_daemon::checks::{CopyShadowSmokeCheck, checks_all_ok, copy_shadow_smoke_check};
use copy_daemon::config::{
    AccountConfig, AppConfig, AppSection, GlobalRiskSection, HyperliquidSection, ManualOpsSection,
    ProcessSection, RiskSection,
};
use copy_daemon::contract::{
    CopyLiveDaemonSubmitPlanContract, copy_live_daemon_submit_plan_contract,
};
use copy_daemon::decimal::UNIT;
use copy_daemon::dispatch::{
    AccountPositions, DispatchStep, LiveSubmitNext, LiveSubmitOutcome, ReadySubmitNext,
    canary_dispatch, cleanup_failure, cleanup_runbook_options,
    copy_live_daemon_filter_submit_refs_for_live_reduce_exposure,
    copy_live_daemon_persistent_live_submit, copy_live_daemon_submit_accounts_in_scope,
    failed_submit_report, leverage_failure, live_submit_next, live_submit_with_positions,
    reduce_only_accounts, window_cleanup_targets, window_dispatch,
};
use copy_daemon::domain::{
    ExecutionMode, OrderSide, OrderStatusInfo, OrderStatusOrder, OrderStatusResponse,
    OrderSubmitted, RiskRejection, UserFill, WorkerError, WorkerReport, opposite_order_side,
};
use copy_daemon::evidence::{
    copy_canary_fill_time_window, copy_canary_matching_fills, copy_canary_merge_user_fills,
};
use copy_daemon::intent::{
    ApprovedOrder, CopyDryRunShadowRecord, CopySignal, CopySignalRiskDecision, RiskDecision,
    TradeIntent, approved_copy_daemon_order_from_ref, copy_daemon_dry_run_intent,
    copy_daemon_submit_intent, copy_live_daemon_open_order_effective_min_check,
};
use copy_daemon::ledger::{CopyLedgerEntry, CopyLedgerStatus, CopyPersistenceSnapshot};
use copy_daemon::market::{
    COPY_MAX_LEVERAGE, copy_daemon_live_leverage_update_options,
    copy_daemon_live_leverage_update_options_with_max,
};
use copy_daemon::options::CopyLiveDaemonSupervisorOptions;
use copy_daemon::plan::{
    CopyExecutionCanaryWouldSubmit, CopyLiveDaemonSuppressedWouldSubmitRef,
    CopyLiveDaemonWouldSubmitRef, copy_live_daemon_pending_suppressed_refs,
};
use copy_daemon::reconcile::{
    AssetPosition, ClearinghouseState, CopyBoundedLiveWindowReconcile, MarginSummary, PerpPosition,
    copy_live_daemon_reduce_only_matching_position_notional_usd,
    copy_live_daemon_reduce_only_ref_has_matching_position,
};
use copy_daemon::rehearse::{
    OrderQuote, copy_live_daemon_persistent_submit_dry_run,
    copy_live_daemon_suppress_refs_below_effective_min, plan_needs_quote,
};
use copy_daemon::round::{merge_run, new_run, take_chunk, take_last_chunk, take_records};
use copy_daemon::select::{
    FinalSubmit, final_submit_refs, next_final_submit, note_submitted, pending_candidates,
    select_final, select_immediate, settle_final_plan, snapshot_after_submit,
};
use copy_daemon::submit::{
    CopyExecutionCanaryOrderEvidence, CopyLiveDaemonPersistentLiveSubmitReport,
    copy_canary_has_live_submission, copy_daemon_submitted_reports_needing_cleanup,
    copy_live_daemon_error_is_safe_pre_submit_skip, copy_live_daemon_live_submit_health_ok,
    copy_live_daemon_merge_persistent_live_submit_reports,
    copy_live_daemon_persistent_submit_snapshot_safe_to_save,
    copy_live_daemon_reconcile_only_degraded_round,
    copy_live_daemon_report_is_safe_pre_submit_skip, copy_live_daemon_submitted_report_cloids,
    is_nothing_sent,
};
use copy_daemon::watch::WatchStatus;

/// A sum of amounts in dollars.
fn sum_usd(x: f64) -> i128 {
    i128::from(usd(x))
}

/// Fees in dollars.
fn fees_usd(x: f64) -> i128 {
    (x * 1e12).round() as i128
}

/// An amount in dollars as a fixed-point number.
fn usd(x: f64) -> i64 {
    (x * 1e9).round() as i64
}

fn now_ms() -> u64 {
    1_781_745_839_800
}

/// Every supported market.
fn all_markets() -> Vec<String> {
    ["hl_perp", "xyz_perp", "spot", "cash_perp"]
        .iter()
        .map(|market| market.to_string())
        .collect()
}

fn test_account(account_id: &str, address: &str, copy_ratio: f64) -> AccountConfig {
    AccountConfig {
        account_id: account_id.to_string(),
        address: address.to_string(),
        enabled: true,
        worker_enabled: true,
        copy_ratio: usd(copy_ratio),
        max_order_notional_usd: usd(100.0),
    }
}

fn test_config() -> AppConfig {
    AppConfig {
        app: AppSection { environment: "testnet".to_string(), dry_run: true },
        hyperliquid: HyperliquidSection {
            dex: "xyz".to_string(),
            ws_url: "wss://api.hyperliquid.xyz/ws".to_string(),
        },
        process: ProcessSection { signal_ttl_ms: 3000 },
        manual_ops: ManualOpsSection {
            manual_live_enabled: false,
            mainnet_live_enabled: false,
            max_manual_order_notional_usd: usd(25.0),
        },
        risk: RiskSection {
            global: GlobalRiskSection { allow_reduce_only_when_killed: true },
        },
        accounts: vec![
            test_account("addr_a", "0x0000000000000000000000000000000000000001", 0.10),
            test_account("addr_b", "0x0000000000000000000000000000000000000002", 0.05),
        ],
        copy_blocked_symbols: Vec::new(),
    }
}

fn follow_position_options() -> CopyLiveDaemonSupervisorOptions {
    CopyLiveDaemonSupervisorOptions {
        leaders: Vec::new(),
        account_ids: vec!["addr_a".to_string()],
        local_account_id: Some("addr_a".to_string()),
        markets: all_markets(),
        coin: "xyz:XYZ100".to_string(),
        side: OrderSide::Buy,
        persistence_path: "unused-follow-position-options.json".to_string(),
        shadow_history_path: "unused-follow-position-options.jsonl".to_string(),
        leader_notional_usd: usd(120.0),
        leader_size: usd(1.0),
        live_gate: true,
        allow_live_submit: true,
        confirm_mainnet_live: false,
        submit: true,
        hold_positions_after_submit: true,
        cleanup_max_slippage_bps: usd(50.0),
        duration_secs: 60,
        max_events: 1000,
        max_live_orders: 1,
        max_total_notional_usd: usd(50.0),
        max_total_fees_usd: usd(0.10),
        max_slippage_bps: usd(50.0),
        environment: None,
        ws_url: None,
    }
}

/// An account without orders or positions.
fn flat_account(account_id: &str) -> CopyBoundedLiveWindowReconcile {
    CopyBoundedLiveWindowReconcile {
        account_id: account_id.to_string(),
        ok: true,
        open_order_count: Some(0),
        asset_positions: Some(0),
        position_summaries: Vec::new(),
        account_value: Some("100.0".to_string()),
        withdrawable: Some("100.0".to_string()),
        total_ntl_pos: Some("0.0".to_string()),
        total_margin_used: Some("0.0".to_string()),
        error: None,
    }
}

/// A plan for one order.
fn plan(account_id: &str, coin: &str, notional_usd: f64, reduce_only: bool, cloid: &str) -> CopyLiveDaemonWouldSubmitRef {
    CopyLiveDaemonWouldSubmitRef {
        record_index: 0,
        signal_id: format!("sig-{cloid}"),
        leader_id: "leader_a".to_string(),
        leader_address: "0x00000000000000000000000000000000000000aa".to_string(),
        order: CopyExecutionCanaryWouldSubmit {
            account_id: account_id.to_string(),
            worker_id: format!("worker-{account_id}"),
            coin: coin.to_string(),
            side: OrderSide::Buy,
            notional_usd: usd(notional_usd),
            reduce_only,
            cloid: cloid.to_string(),
        },
    }
}

fn empty_snapshot() -> CopyPersistenceSnapshot {
    CopyPersistenceSnapshot::new(now_ms(), Vec::new(), Vec::new())
}

/// A record of an approved signal for one account.
fn record(account_id: &str, signal_id: &str, notional_usd: f64) -> CopyDryRunShadowRecord {
    CopyDryRunShadowRecord {
        leader_id: "leader_a".to_string(),
        leader_address: "0x00000000000000000000000000000000000000aa".to_string(),
        risk_decision: CopySignalRiskDecision::Approved {
            side: OrderSide::Buy,
            reduce_only: false,
            notional_usd: usd(notional_usd),
        },
        signal: Some(CopySignal {
            signal_id: signal_id.to_string(),
            target_accounts: vec![account_id.to_string()],
        }),
        ledger_entry: None,
        seen_event_keys: Vec::new(),
    }
}

/// An order that the risk gateway approved.
fn approved(account_id: &str, coin: &str, notional_usd: f64) -> ApprovedOrder {
    ApprovedOrder {
        risk_decision_id: "risk-1".to_string(),
        intent_id: "intent-1".to_string(),
        signal_id: Some("sig-1".to_string()),
        worker_id: format!("worker-{account_id}"),
        account_id: account_id.to_string(),
        strategy_id: "copy".to_string(),
        market: Some("xyz_perp".to_string()),
        dex: Some("xyz".to_string()),
        coin: coin.to_string(),
        side: OrderSide::Buy,
        notional_usd: usd(notional_usd),
        execution_mode: ExecutionMode::Taker,
        max_slippage_bps: usd(50.0),
        reduce_only: false,
        cloid: "00000000-0000-0000-0000-000000000009".to_string(),
        expires_at_ms: None,
    }
}

/// A ledger entry of an open copied position.
fn entry(account_id: &str, coin: &str, side: OrderSide, remaining: f64) -> CopyLedgerEntry {
    CopyLedgerEntry {
        local_account_id: account_id.to_string(),
        leader_id: "leader_a".to_string(),
        leader_group: "leader_a".to_string(),
        signal_id: format!("sig-{coin}"),
        coin: coin.to_string(),
        local_side: side,
        order_cloid: Some("44444444-4444-5444-8444-444444444444".to_string()),
        order_oid: Some(1001),
        submitted_at_ms: Some(now_ms()),
        filled_at_ms: Some(now_ms()),
        planned_notional_usd: usd(remaining),
        pending_notional_usd: 0,
        filled_notional_usd: usd(remaining),
        remaining_notional_usd: usd(remaining),
        status: CopyLedgerStatus::Open,
    }
}

/// An order that the exchange filled.
fn submitted_order(account_id: &str, cloid: &str, notional_usd: f64) -> OrderSubmitted {
    OrderSubmitted {
        signal_id: "sig".to_string(),
        intent_id: "intent".to_string(),
        worker_id: format!("worker-{account_id}"),
        account_id: account_id.to_string(),
        cloid: cloid.to_string(),
        coin: "xyz:XYZ100".to_string(),
        side: OrderSide::Buy,
        notional_usd: usd(notional_usd),
        submitted_price: Some(usd(30_000.0)),
        submitted_size: Some(usd(0.0004)),
        exchange_status: Some("filled".to_string()),
        oid: Some(42),
        filled_size: Some(usd(0.0004)),
        avg_fill_price: Some(usd(30_000.0)),
        dry_run: false,
        submitted_at_ms: now_ms(),
    }
}

/// The report of a window that sent the given reports and has nothing else to say.
fn live_report(submitted_reports: Vec<WorkerReport>) -> CopyLiveDaemonPersistentLiveSubmitReport {
    CopyLiveDaemonPersistentLiveSubmitReport {
        ok: true,
        mode: "persistent_live_submit".to_string(),
        submit_requested: true,
        submit_plan_contract_ok: true,
        submitted_reports,
        order_evidence: Vec::new(),
        cleanup_runbooks: Vec::new(),
        cleanup_errors: Vec::new(),
        ledger_reconciliations: Vec::new(),
        ledger_reconciliation_snapshot: CopyPersistenceSnapshot::new(now_ms(), Vec::new(), Vec::new()),
        checks: Vec::new(),
    }
}

#[test]
fn copy_canary_merge_user_fills_deduplicates_time_window_results() {
    let mut fills = vec![UserFill {
        coin: "xyz:XYZ100".to_string(),
        px: "30000.0".to_string(),
        sz: "0.0004".to_string(),
        side: "B".to_string(),
        time: 1000,
        dir: "Open Long".to_string(),
        closed_pnl: "0.0".to_string(),
        hash: "0xabc".to_string(),
        oid: 42,
        crossed: true,
        fee: "0.001".to_string(),
    }];
    copy_canary_merge_user_fills(
        &mut fills,
        vec![
            UserFill {
                coin: "xyz:XYZ100".to_string(),
                px: "30000.0".to_string(),
                sz: "0.0004".to_string(),
                side: "B".to_string(),
                time: 1000,
                dir: "Open Long".to_string(),
                closed_pnl: "0.0".to_string(),
                hash: "0xabc".to_string(),
                oid: 42,
                crossed: true,
                fee: "0.001".to_string(),
            },
            UserFill {
                coin: "xyz:XYZ100".to_string(),
                px: "30001.0".to_string(),
                sz: "0.0002".to_string(),
                side: "B".to_string(),
                time: 1001,
                dir: "Open Long".to_string(),
                closed_pnl: "0.0".to_string(),
                hash: "0xdef".to_string(),
                oid: 42,
                crossed: true,
                fee: "0.001".to_string(),
            },
        ],
    );

    let matching = copy_canary_matching_fills(&fills, Some(42), "xyz:XYZ100");
    assert_eq!(fills.len(), 2);
    assert_eq!(matching.len(), 2);
}

#[test]
fn copy_live_daemon_reconcile_only_degraded_allows_read_failure_classification() {
    let checks = vec![
        copy_shadow_smoke_check("exchange_submit_mode", false, "no submit reports".to_string()),
        copy_shadow_smoke_check("final_reconcile_health", false, "failed to fetch open orders".to_string()),
    ];
    let final_reconciliations = vec![CopyBoundedLiveWindowReconcile {
        account_id: "addr_a".to_string(),
        ok: false,
        open_order_count: None,
        asset_positions: None,
        position_summaries: Vec::new(),
        account_value: None,
        withdrawable: None,
        total_ntl_pos: None,
        total_margin_used: None,
        error: Some("failed to fetch open orders".to_string()),
    }];
    let report = CopyLiveDaemonPersistentLiveSubmitReport {
        ok: false,
        mode: "persistent_live_submit".to_string(),
        submit_requested: true,
        submit_plan_contract_ok: false,
        submitted_reports: Vec::new(),
        order_evidence: Vec::new(),
        cleanup_runbooks: Vec::new(),
        cleanup_errors: Vec::new(),
        ledger_reconciliations: Vec::new(),
        ledger_reconciliation_snapshot:
            CopyPersistenceSnapshot::new(
                1781745839800,
                Vec::new(), Vec::new(),
            ),
        checks: vec![copy_shadow_smoke_check("submit_plan_contract_ok", false, "submit_plan_contract.ok=false".to_string())],
    };

    assert!(copy_live_daemon_reconcile_only_degraded_round(
        true,
        &checks,
        &final_reconciliations,
        &report,
    ));

    let mut submitted_report = report.clone();
    submitted_report
        .submitted_reports
        .push(WorkerReport::Error(
            WorkerError {
                worker_id: "worker-addr_a".to_string(),
                account_id: "addr_a".to_string(),
                message: "real submit failure".to_string(),
                error_at_ms: 1781745839801,
            },
        ));
    assert!(!copy_live_daemon_reconcile_only_degraded_round(
        true,
        &checks,
        &final_reconciliations,
        &submitted_report,
    ));
}

#[test]
fn copy_live_daemon_live_submit_health_accepts_filled_evidence_after_watcher_close() {
    let report = CopyLiveDaemonPersistentLiveSubmitReport {
        ok: false,
        mode: "persistent_live_submit".to_string(),
        submit_requested: true,
        submit_plan_contract_ok: true,
        submitted_reports: vec![WorkerReport::Submitted(
            OrderSubmitted {
                signal_id: "signal".to_string(),
                intent_id: "intent".to_string(),
                worker_id: "worker-addr_a".to_string(),
                account_id: "addr_a".to_string(),
                cloid: "3e45b7c8-8322-5e0c-81a2-7cafc276de89".to_string(),
                coin: "xyz:GBP".to_string(),
                side: OrderSide::Sell,
                notional_usd: usd(41.7787),
                submitted_price: Some(usd(1.3397)),
                submitted_size: Some(usd(31.0)),
                exchange_status: Some("filled".to_string()),
                oid: Some(469047367049),
                filled_size: Some(usd(31.0)),
                avg_fill_price: Some(usd(1.345209)),
                dry_run: false,
                submitted_at_ms: 1781468319872,
            },
        )],
        order_evidence: vec![CopyExecutionCanaryOrderEvidence {
            account_id: "addr_a".to_string(),
            worker_id: "worker-addr_a".to_string(),
            signal_id: "signal".to_string(),
            coin: "xyz:GBP".to_string(),
            oid: Some(469047367049),
            cloid: "3e45b7c8-8322-5e0c-81a2-7cafc276de89".to_string(),
            order_status: Some(OrderStatusResponse {
                status: "order".to_string(),
                order: None,
            }),
            user_fill_count: 1,
            matching_fill_count: 1,
            matching_fills: Vec::new(),
            error: None,
        }],
        cleanup_runbooks: Vec::new(),
        cleanup_errors: Vec::new(),
        ledger_reconciliations: Vec::new(),
        ledger_reconciliation_snapshot:
            CopyPersistenceSnapshot::new(
                1781468320692,
                Vec::new(), Vec::new(),
            ),
        checks: vec![CopyShadowSmokeCheck {
            name: "submit_path".to_string(),
            ok: true,
            detail: "submitted and evidenced before watcher close".to_string(),
        }],
    };

    assert!(copy_live_daemon_live_submit_health_ok(&report));
}

#[test]
fn copy_live_daemon_live_submit_health_rejects_missing_evidence() {
    let report = CopyLiveDaemonPersistentLiveSubmitReport {
        ok: false,
        mode: "persistent_live_submit".to_string(),
        submit_requested: true,
        submit_plan_contract_ok: true,
        submitted_reports: vec![WorkerReport::Submitted(
            OrderSubmitted {
                signal_id: "signal".to_string(),
                intent_id: "intent".to_string(),
                worker_id: "worker-addr_a".to_string(),
                account_id: "addr_a".to_string(),
                cloid: "missing-evidence".to_string(),
                coin: "xyz:GBP".to_string(),
                side: OrderSide::Sell,
                notional_usd: usd(41.7787),
                submitted_price: Some(usd(1.3397)),
                submitted_size: Some(usd(31.0)),
                exchange_status: Some("filled".to_string()),
                oid: Some(469047367049),
                filled_size: Some(usd(31.0)),
                avg_fill_price: Some(usd(1.345209)),
                dry_run: false,
                submitted_at_ms: 1781468319872,
            },
        )],
        order_evidence: Vec::new(),
        cleanup_runbooks: Vec::new(),
        cleanup_errors: Vec::new(),
        ledger_reconciliations: Vec::new(),
        ledger_reconciliation_snapshot:
            CopyPersistenceSnapshot::new(
                1781468320692,
                Vec::new(), Vec::new(),
            ),
        checks: vec![CopyShadowSmokeCheck {
            name: "submit_path".to_string(),
            ok: true,
            detail: "submitted without evidence".to_string(),
        }],
    };

    assert!(!copy_live_daemon_live_submit_health_ok(&report));
}

#[test]
fn copy_live_daemon_live_submit_health_accepts_safe_pre_submit_skip() {
    let report = CopyLiveDaemonPersistentLiveSubmitReport {
        ok: false,
        mode: "persistent_live_submit".to_string(),
        submit_requested: true,
        submit_plan_contract_ok: true,
        submitted_reports: vec![WorkerReport::Error(
            WorkerError {
                worker_id: "worker-addr_b".to_string(),
                account_id: "addr_b".to_string(),
                message:
                    "exchange returned action-level order error: Order must have minimum value of $10. asset=110052"
                        .to_string(),
                error_at_ms: 1782240035380,
            },
        )],
        order_evidence: Vec::new(),
        cleanup_runbooks: Vec::new(),
        cleanup_errors: Vec::new(),
        ledger_reconciliations: Vec::new(),
        ledger_reconciliation_snapshot:
            CopyPersistenceSnapshot::new(
                1782240035380,
                Vec::new(), Vec::new(),
            ),
        checks: vec![
            CopyShadowSmokeCheck {
                name: "submitted_reports".to_string(),
                ok: false,
                detail: "0 live submitted report(s), 1 pre-submit skipped ref(s)"
                    .to_string(),
            },
            CopyShadowSmokeCheck {
                name: "persistent_live_submit_chunks".to_string(),
                ok: false,
                detail: "1 persistent live submit chunk(s) merged".to_string(),
            },
        ],
    };

    assert!(copy_live_daemon_live_submit_health_ok(&report));
}

#[test]
fn copy_live_daemon_live_submit_health_accepts_evidenced_submit_plus_safe_skip() {
    let report = CopyLiveDaemonPersistentLiveSubmitReport {
        ok: false,
        mode: "persistent_live_submit".to_string(),
        submit_requested: true,
        submit_plan_contract_ok: true,
        submitted_reports: vec![
            WorkerReport::Submitted(OrderSubmitted {
                signal_id: "signal".to_string(),
                intent_id: "intent".to_string(),
                worker_id: "worker-addr_a".to_string(),
                account_id: "addr_a".to_string(),
                cloid: "3e45b7c8-8322-5e0c-81a2-7cafc276de89".to_string(),
                coin: "xyz:SP500".to_string(),
                side: OrderSide::Buy,
                notional_usd: usd(14.7592),
                submitted_price: Some(usd(7379.6)),
                submitted_size: Some(usd(0.002)),
                exchange_status: Some("filled".to_string()),
                oid: Some(477403388270),
                filled_size: Some(usd(0.002)),
                avg_fill_price: Some(usd(7379.6)),
                dry_run: false,
                submitted_at_ms: 1782239875081,
            }),
            WorkerReport::Error(WorkerError {
                worker_id: "worker-addr_b".to_string(),
                account_id: "addr_b".to_string(),
                message:
                    "copy submit skipped before exchange: addr_b xyz:SP500 requested_notional=11.172000 effective_notional=7.416100 below exchange minimum 10.000000"
                        .to_string(),
                error_at_ms: 1782239875081,
            }),
        ],
        order_evidence: vec![CopyExecutionCanaryOrderEvidence {
            account_id: "addr_a".to_string(),
            worker_id: "worker-addr_a".to_string(),
            signal_id: "signal".to_string(),
            coin: "xyz:SP500".to_string(),
            oid: Some(477403388270),
            cloid: "3e45b7c8-8322-5e0c-81a2-7cafc276de89".to_string(),
            order_status: Some(OrderStatusResponse {
                status: "order".to_string(),
                order: None,
            }),
            user_fill_count: 1,
            matching_fill_count: 1,
            matching_fills: Vec::new(),
            error: None,
        }],
        cleanup_runbooks: Vec::new(),
        cleanup_errors: Vec::new(),
        ledger_reconciliations: Vec::new(),
        ledger_reconciliation_snapshot:
            CopyPersistenceSnapshot::new(
                1782239875081,
                Vec::new(), Vec::new(),
            ),
        checks: vec![CopyShadowSmokeCheck {
            name: "submitted_reports".to_string(),
            ok: false,
            detail: "1 live submitted report(s), 1 pre-submit skipped ref(s)".to_string(),
        }],
    };

    assert!(copy_live_daemon_live_submit_health_ok(&report));
}

#[test]
fn copy_live_daemon_reduce_only_position_filter_matches_local_direction() {
    fn reduce_plan(side: OrderSide) -> CopyLiveDaemonWouldSubmitRef {
        CopyLiveDaemonWouldSubmitRef {
            record_index: 0,
            signal_id: "sig-close".to_string(),
            leader_id: "leader_a".to_string(),
            leader_address: "0x00000000000000000000000000000000000000aa".to_string(),
            order: CopyExecutionCanaryWouldSubmit {
                account_id: "addr_a".to_string(),
                worker_id: "worker-addr_a".to_string(),
                coin: "xyz:NATGAS".to_string(),
                side,
                notional_usd: usd(50.0),
                reduce_only: true,
                cloid: "00000000-0000-0000-0000-000000000001".to_string(),
            },
        }
    }

    let buy_to_close_short = reduce_plan(OrderSide::Buy);
    assert!(copy_live_daemon_reduce_only_ref_has_matching_position(
        &holding("xyz:NATGAS", "-7.6", "123.45"),
        &buy_to_close_short
    ));
    assert!(!copy_live_daemon_reduce_only_ref_has_matching_position(
        &holding("xyz:NATGAS", "7.6", "123.45"),
        &buy_to_close_short
    ));
    assert!(!copy_live_daemon_reduce_only_ref_has_matching_position(
        &holding("xyz:NATGAS", "0.0", "123.45"),
        &buy_to_close_short
    ));
    assert!(!copy_live_daemon_reduce_only_ref_has_matching_position(
        &holding("xyz:GBP", "-7.6", "123.45"),
        &buy_to_close_short
    ));

    let sell_to_close_long = reduce_plan(OrderSide::Sell);
    assert!(copy_live_daemon_reduce_only_ref_has_matching_position(
        &holding("xyz:NATGAS", "7.6", "123.45"),
        &sell_to_close_long
    ));
    assert!(!copy_live_daemon_reduce_only_ref_has_matching_position(
        &holding("xyz:NATGAS", "-7.6", "123.45"),
        &sell_to_close_long
    ));
}

#[test]
fn copy_live_daemon_reduce_only_position_filter_caps_to_local_position_notional() {
    let state = holding("xyz:GBP", "38.0", "12.5");
    let plan = CopyLiveDaemonWouldSubmitRef {
        record_index: 0,
        signal_id: "sig-close".to_string(),
        leader_id: "leader_a".to_string(),
        leader_address: "0x00000000000000000000000000000000000000aa".to_string(),
        order: CopyExecutionCanaryWouldSubmit {
            account_id: "addr_a".to_string(),
            worker_id: "worker-addr_a".to_string(),
            coin: "xyz:GBP".to_string(),
            side: OrderSide::Sell,
            notional_usd: usd(50.0),
            reduce_only: true,
            cloid: "00000000-0000-0000-0000-000000000001".to_string(),
        },
    };

    assert_eq!(
        copy_live_daemon_reduce_only_matching_position_notional_usd(&state, &plan),
        Some(usd(12.5))
    );
}

#[test]
fn copy_live_daemon_snapshot_save_allows_evidenced_submit_even_if_health_false() {
    let cloid = "88888888-8888-5888-8888-888888888888".to_string();
    let submitted = OrderSubmitted {
        signal_id: "sig-evidenced-submit".to_string(),
        intent_id: "intent-evidenced-submit".to_string(),
        worker_id: "worker-addr_a".to_string(),
        account_id: "addr_a".to_string(),
        cloid: cloid.clone(),
        coin: "xyz:GOLD".to_string(),
        side: OrderSide::Sell,
        notional_usd: usd(50.0),
        submitted_price: Some(usd(4380.0)),
        submitted_size: Some(usd(0.0114)),
        exchange_status: Some("filled".to_string()),
        oid: Some(8001),
        filled_size: Some(usd(0.0114)),
        avg_fill_price: Some(usd(4380.0)),
        dry_run: false,
        submitted_at_ms: now_ms(),
    };
    let report = CopyLiveDaemonPersistentLiveSubmitReport {
        ok: false,
        mode: "persistent_live_submit".to_string(),
        submit_requested: true,
        submit_plan_contract_ok: true,
        submitted_reports: vec![WorkerReport::Submitted(submitted)],
        order_evidence: vec![CopyExecutionCanaryOrderEvidence {
            account_id: "addr_a".to_string(),
            worker_id: "worker-addr_a".to_string(),
            signal_id: "sig-evidenced-submit".to_string(),
            coin: "xyz:GOLD".to_string(),
            oid: Some(8001),
            cloid: cloid.clone(),
            order_status: Some(OrderStatusResponse {
                status: "order".to_string(),
                order: Some(OrderStatusInfo {
                    order: OrderStatusOrder {
                        coin: "xyz:GOLD".to_string(),
                        side: "A".to_string(),
                        limit_px: "4380.0".to_string(),
                        sz: "0.0".to_string(),
                        oid: 8001,
                        timestamp: now_ms(),
                        reduce_only: false,
                        orig_sz: "0.0114".to_string(),
                        cloid: Some("0x".to_string() + &cloid.replace('-', "")),
                    },
                    status: "filled".to_string(),
                    status_timestamp: now_ms(),
                }),
            }),
            user_fill_count: 1,
            matching_fill_count: 1,
            matching_fills: Vec::new(),
            error: None,
        }],
        cleanup_runbooks: Vec::new(),
        cleanup_errors: Vec::new(),
        ledger_reconciliations: Vec::new(),
        ledger_reconciliation_snapshot:
            CopyPersistenceSnapshot {
                schema_version: 1,
                saved_at_ms: now_ms(),
                seen_event_keys: Vec::new(),
                ledger_entries: Vec::new(),
            },
        checks: vec![copy_shadow_smoke_check("ledger_reconciliation", false, "duplicate replay was unhealthy but order evidence is complete".to_string())],
    };

    assert!(copy_live_daemon_persistent_submit_snapshot_safe_to_save(
        &report
    ));
}

#[test]
fn copy_live_daemon_open_ref_sets_isolated_target_leverage() {
    let options = CopyLiveDaemonSupervisorOptions {
        leaders: Vec::new(),
        account_ids: vec!["addr_a".to_string()],
        local_account_id: Some("addr_a".to_string()),
        markets: all_markets(),
        coin: "xyz:JPY".to_string(),
        side: OrderSide::Buy,
        persistence_path: "unused-live-leverage.json".to_string(),
        shadow_history_path: "unused-live-leverage.jsonl".to_string(),
        leader_notional_usd: usd(120.0),
        leader_size: usd(1.0),
        live_gate: true,
        allow_live_submit: true,
        confirm_mainnet_live: true,
        submit: true,
        hold_positions_after_submit: true,
        cleanup_max_slippage_bps: usd(50.0),
        duration_secs: 60,
        max_events: 1000,
        max_live_orders: 1,
        max_total_notional_usd: usd(200.0),
        max_total_fees_usd: usd(1.0),
        max_slippage_bps: usd(50.0),
        environment: None,
        ws_url: None,
    };
    let plan = CopyLiveDaemonWouldSubmitRef {
        record_index: 8,
        signal_id: "sig-live-leverage".to_string(),
        leader_id: "leader_a".to_string(),
        leader_address: "0x00000000000000000000000000000000000000aa".to_string(),
        order: CopyExecutionCanaryWouldSubmit {
            account_id: "addr_a".to_string(),
            worker_id: "worker-addr_a".to_string(),
            coin: "xyz:JPY".to_string(),
            side: OrderSide::Buy,
            notional_usd: usd(50.0),
            reduce_only: false,
            cloid: "22222222-2222-5222-8222-222222222222".to_string(),
        },
    };

    let leverage_options = copy_daemon_live_leverage_update_options(options.confirm_mainnet_live, &plan)
        .unwrap()
        .expect("opening copy order should require leverage update");

    assert_eq!(leverage_options.account_id, "addr_a");
    assert_eq!(leverage_options.coin, "xyz:JPY");
    assert_eq!(
        leverage_options.leverage,
        (COPY_MAX_LEVERAGE / UNIT) as u32
    );
    assert_eq!(leverage_options.margin_mode, "isolated");
    assert!(leverage_options.submit);
    assert!(leverage_options.confirm_mainnet_live);
}

#[test]
fn copy_live_daemon_open_ref_caps_leverage_to_asset_max() {
    let options = CopyLiveDaemonSupervisorOptions {
        leaders: Vec::new(),
        account_ids: vec!["addr_a".to_string()],
        local_account_id: Some("addr_a".to_string()),
        markets: all_markets(),
        coin: "xyz:HYUNDAI".to_string(),
        side: OrderSide::Buy,
        persistence_path: "unused-live-leverage-cap.json".to_string(),
        shadow_history_path: "unused-live-leverage-cap.jsonl".to_string(),
        leader_notional_usd: usd(120.0),
        leader_size: usd(1.0),
        live_gate: true,
        allow_live_submit: true,
        confirm_mainnet_live: true,
        submit: true,
        hold_positions_after_submit: true,
        cleanup_max_slippage_bps: usd(50.0),
        duration_secs: 60,
        max_events: 1000,
        max_live_orders: 1,
        max_total_notional_usd: usd(200.0),
        max_total_fees_usd: usd(1.0),
        max_slippage_bps: usd(50.0),
        environment: None,
        ws_url: None,
    };
    let plan = CopyLiveDaemonWouldSubmitRef {
        record_index: 8,
        signal_id: "sig-live-leverage-cap".to_string(),
        leader_id: "leader_a".to_string(),
        leader_address: "0x00000000000000000000000000000000000000aa".to_string(),
        order: CopyExecutionCanaryWouldSubmit {
            account_id: "addr_a".to_string(),
            worker_id: "worker-addr_a".to_string(),
            coin: "xyz:HYUNDAI".to_string(),
            side: OrderSide::Buy,
            notional_usd: usd(50.0),
            reduce_only: false,
            cloid: "22222222-2222-5222-8222-222222222223".to_string(),
        },
    };

    let leverage_options =
        copy_daemon_live_leverage_update_options_with_max(
        options.confirm_mainnet_live,
        &plan,
        Some(5),
    )
    .unwrap()
            .expect("opening copy order should require leverage update");

    assert_eq!(leverage_options.leverage, 5);
    assert_eq!(leverage_options.margin_mode, "isolated");
    assert!(leverage_options.submit);
}

#[test]
fn copy_live_daemon_reduce_only_ref_skips_leverage_update() {
    let options = CopyLiveDaemonSupervisorOptions {
        leaders: Vec::new(),
        account_ids: vec!["addr_a".to_string()],
        local_account_id: Some("addr_a".to_string()),
        markets: all_markets(),
        coin: "xyz:JPY".to_string(),
        side: OrderSide::Sell,
        persistence_path: "unused-live-leverage-reduce.json".to_string(),
        shadow_history_path: "unused-live-leverage-reduce.jsonl".to_string(),
        leader_notional_usd: usd(120.0),
        leader_size: usd(1.0),
        live_gate: true,
        allow_live_submit: true,
        confirm_mainnet_live: true,
        submit: true,
        hold_positions_after_submit: true,
        cleanup_max_slippage_bps: usd(50.0),
        duration_secs: 60,
        max_events: 1000,
        max_live_orders: 1,
        max_total_notional_usd: usd(200.0),
        max_total_fees_usd: usd(1.0),
        max_slippage_bps: usd(50.0),
        environment: None,
        ws_url: None,
    };
    let plan = CopyLiveDaemonWouldSubmitRef {
        record_index: 9,
        signal_id: "sig-live-leverage-reduce".to_string(),
        leader_id: "leader_a".to_string(),
        leader_address: "0x00000000000000000000000000000000000000aa".to_string(),
        order: CopyExecutionCanaryWouldSubmit {
            account_id: "addr_a".to_string(),
            worker_id: "worker-addr_a".to_string(),
            coin: "xyz:JPY".to_string(),
            side: OrderSide::Sell,
            notional_usd: usd(20.0),
            reduce_only: true,
            cloid: "33333333-3333-5333-8333-333333333333".to_string(),
        },
    };

    assert!(copy_daemon_live_leverage_update_options(options.confirm_mainnet_live, &plan)
        .unwrap().is_none());
}

#[test]
fn copy_live_daemon_submit_accounts_scope_allows_selected_multi_account_refs() {
    let config = test_config();
    let options = CopyLiveDaemonSupervisorOptions {
        leaders: Vec::new(),
        account_ids: vec!["addr_a".to_string(), "addr_b".to_string()],
        local_account_id: Some("addr_a".to_string()),
        markets: all_markets(),
        coin: "xyz:XYZ100".to_string(),
        side: OrderSide::Buy,
        persistence_path: "unused-live-submit-scope.json".to_string(),
        shadow_history_path: "unused-live-submit-scope.jsonl".to_string(),
        leader_notional_usd: usd(120.0),
        leader_size: usd(1.0),
        live_gate: true,
        allow_live_submit: true,
        confirm_mainnet_live: false,
        submit: true,
        hold_positions_after_submit: true,
        cleanup_max_slippage_bps: usd(50.0),
        duration_secs: 60,
        max_events: 1000,
        max_live_orders: 2,
        max_total_notional_usd: usd(100.0),
        max_total_fees_usd: usd(0.10),
        max_slippage_bps: usd(50.0),
        environment: None,
        ws_url: None,
    };
    let selected_ref = CopyLiveDaemonWouldSubmitRef {
        record_index: 0,
        signal_id: "sig-selected-account".to_string(),
        leader_id: "leader_a".to_string(),
        leader_address: "0x00000000000000000000000000000000000000aa".to_string(),
        order: CopyExecutionCanaryWouldSubmit {
            account_id: "addr_b".to_string(),
            worker_id: "worker-addr_b".to_string(),
            coin: "xyz:XYZ100".to_string(),
            side: OrderSide::Buy,
            notional_usd: usd(25.0),
            reduce_only: false,
            cloid: "66666666-6666-5666-8666-666666666666".to_string(),
        },
    };
    let unselected_ref = CopyLiveDaemonWouldSubmitRef {
        order: CopyExecutionCanaryWouldSubmit {
            account_id: "addr_c".to_string(),
            worker_id: "worker-addr_c".to_string(),
            cloid: "77777777-7777-5777-8777-777777777777".to_string(),
            ..selected_ref.order.clone()
        },
        ..selected_ref.clone()
    };

    assert!(copy_live_daemon_submit_accounts_in_scope(
        &config,
        &options,
        &vec![selected_ref]
    ));
    assert!(!copy_live_daemon_submit_accounts_in_scope(
        &config,
        &options,
        &vec![unselected_ref]
    ));
}

#[test]
fn copy_daemon_cleanup_targets_exclude_reduce_only_submit_refs() {
    let open_cloid = "33333333-3333-5333-8333-333333333333".to_string();
    let close_cloid = "44444444-4444-5444-8444-444444444444".to_string();
    let executable_refs = vec![
        CopyLiveDaemonWouldSubmitRef {
            record_index: 0,
            signal_id: "sig-open".to_string(),
            leader_id: "leader_a".to_string(),
            leader_address: "0x00000000000000000000000000000000000000aa".to_string(),
            order: CopyExecutionCanaryWouldSubmit {
                account_id: "addr_a".to_string(),
                worker_id: "worker-addr_a".to_string(),
                coin: "xyz:XYZ100".to_string(),
                side: OrderSide::Buy,
                notional_usd: usd(50.0),
                reduce_only: false,
                cloid: open_cloid.clone(),
            },
        },
        CopyLiveDaemonWouldSubmitRef {
            record_index: 1,
            signal_id: "sig-close".to_string(),
            leader_id: "leader_a".to_string(),
            leader_address: "0x00000000000000000000000000000000000000aa".to_string(),
            order: CopyExecutionCanaryWouldSubmit {
                account_id: "addr_a".to_string(),
                worker_id: "worker-addr_a".to_string(),
                coin: "xyz:XYZ100".to_string(),
                side: OrderSide::Sell,
                notional_usd: usd(50.0),
                reduce_only: true,
                cloid: close_cloid.clone(),
            },
        },
    ];
    let reports = vec![
        WorkerReport::Submitted(OrderSubmitted {
            signal_id: "sig-open".to_string(),
            intent_id: "intent-open".to_string(),
            worker_id: "worker-addr_a".to_string(),
            account_id: "addr_a".to_string(),
            cloid: open_cloid.clone(),
            coin: "xyz:XYZ100".to_string(),
            side: OrderSide::Buy,
            notional_usd: usd(50.0),
            submitted_price: Some(usd(100.0)),
            submitted_size: Some(usd(0.5)),
            exchange_status: Some("filled".to_string()),
            oid: Some(1001),
            filled_size: Some(usd(0.5)),
            avg_fill_price: Some(usd(100.0)),
            dry_run: false,
            submitted_at_ms: now_ms(),
        }),
        WorkerReport::Submitted(OrderSubmitted {
            signal_id: "sig-close".to_string(),
            intent_id: "intent-close".to_string(),
            worker_id: "worker-addr_a".to_string(),
            account_id: "addr_a".to_string(),
            cloid: close_cloid,
            coin: "xyz:XYZ100".to_string(),
            side: OrderSide::Sell,
            notional_usd: usd(50.0),
            submitted_price: Some(usd(100.0)),
            submitted_size: Some(usd(0.5)),
            exchange_status: Some("filled".to_string()),
            oid: Some(1002),
            filled_size: Some(usd(0.5)),
            avg_fill_price: Some(usd(100.0)),
            dry_run: false,
            submitted_at_ms: now_ms(),
        }),
    ];

    let cleanup_targets =
        copy_daemon_submitted_reports_needing_cleanup(&reports, &executable_refs);

    assert_eq!(cleanup_targets.len(), 1);
    match &cleanup_targets[0] {
        WorkerReport::Submitted(submitted) => {
            assert_eq!(submitted.cloid, open_cloid);
        }
        other => panic!("unexpected cleanup target: {other:?}"),
    }
}

#[test]
fn copy_live_daemon_merge_persistent_live_submit_reports_preserves_chunks() {
    let unsubmitted_pending = CopyLedgerEntry {
        local_account_id: "addr_a".to_string(),
        leader_id: "leader_a".to_string(),
        leader_group: "leader_a".to_string(),
        signal_id: "sig-shadow-only-open".to_string(),
        coin: "xyz:XYZ100".to_string(),
        local_side: OrderSide::Buy,
        order_cloid: None,
        order_oid: None,
        submitted_at_ms: None,
        filled_at_ms: None,
        planned_notional_usd: usd(50.0),
        pending_notional_usd: usd(50.0),
        filled_notional_usd: usd(0.0),
        remaining_notional_usd: usd(0.0),
        status: CopyLedgerStatus::PendingOpen,
    };
    let submitted_pending = CopyLedgerEntry {
        signal_id: "sig-submitted-open".to_string(),
        order_cloid: Some("55555555-5555-5555-8555-555555555555".to_string()),
        submitted_at_ms: Some(now_ms()),
        ..unsubmitted_pending.clone()
    };
    let chunk_a = CopyLiveDaemonPersistentLiveSubmitReport {
        ok: true,
        mode: "persistent_live_submit".to_string(),
        submit_requested: true,
        submit_plan_contract_ok: true,
        submitted_reports: vec![WorkerReport::Submitted(
            OrderSubmitted {
                signal_id: "sig-a".to_string(),
                intent_id: "intent-a".to_string(),
                worker_id: "worker-addr_a".to_string(),
                account_id: "addr_a".to_string(),
                cloid: "55555555-5555-5555-8555-555555555555".to_string(),
                coin: "xyz:XYZ100".to_string(),
                side: OrderSide::Buy,
                notional_usd: usd(50.0),
                submitted_price: Some(usd(100.0)),
                submitted_size: Some(usd(0.5)),
                exchange_status: Some("filled".to_string()),
                oid: Some(2001),
                filled_size: Some(usd(0.5)),
                avg_fill_price: Some(usd(100.0)),
                dry_run: false,
                submitted_at_ms: now_ms(),
            },
        )],
        order_evidence: Vec::new(),
        cleanup_runbooks: Vec::new(),
        cleanup_errors: Vec::new(),
        ledger_reconciliations: Vec::new(),
        ledger_reconciliation_snapshot:
            CopyPersistenceSnapshot {
                schema_version: 1,
                saved_at_ms: now_ms(),
                seen_event_keys: vec!["event-a".to_string()],
                ledger_entries: vec![unsubmitted_pending, submitted_pending],
            },
        checks: vec![copy_shadow_smoke_check("chunk_a", true, "ok".to_string())],
    };
    let chunk_b = CopyLiveDaemonPersistentLiveSubmitReport {
        ok: true,
        mode: "persistent_live_submit".to_string(),
        submit_requested: true,
        submit_plan_contract_ok: true,
        submitted_reports: Vec::new(),
        order_evidence: Vec::new(),
        cleanup_runbooks: Vec::new(),
        cleanup_errors: Vec::new(),
        ledger_reconciliations: Vec::new(),
        ledger_reconciliation_snapshot:
            CopyPersistenceSnapshot {
                schema_version: 1,
                saved_at_ms: now_ms(),
                seen_event_keys: vec!["event-b".to_string()],
                ledger_entries: Vec::new(),
            },
        checks: vec![copy_shadow_smoke_check("chunk_b", true, "ok".to_string())],
    };

    let merged = copy_live_daemon_merge_persistent_live_submit_reports(
        true,
        true,
        vec![chunk_a, chunk_b],
        now_ms(),
    );

    assert!(merged.ok);
    assert_eq!(merged.submitted_reports.len(), 1);
    assert_eq!(
        merged.ledger_reconciliation_snapshot.seen_event_keys,
        vec!["event-a".to_string(), "event-b".to_string()]
    );
    assert_eq!(
        merged.ledger_reconciliation_snapshot.ledger_entries.len(),
        1
    );
    assert_eq!(
        merged.ledger_reconciliation_snapshot.ledger_entries[0].signal_id,
        "sig-submitted-open"
    );
    assert!(
        merged
            .checks
            .iter()
            .any(|check| check.name == "persistent_live_submit_chunks" && check.ok)
    );
}

#[test]
fn copy_live_daemon_classifies_safe_pre_submit_skips_only() {
    assert!(copy_live_daemon_error_is_safe_pre_submit_skip(
        "failed to set xyz:HYUNDAI leverage to 10x before copy submit"
    ));
    assert!(copy_live_daemon_error_is_safe_pre_submit_skip(
        "copy submit skipped before exchange: addr_b xyz:SP500 requested_notional=11.172000 effective_notional=7.416100 below exchange minimum 10.000000"
    ));
    assert!(copy_live_daemon_error_is_safe_pre_submit_skip(
        "exchange returned action-level order error: Order must have minimum value of $10. asset=110052"
    ));
    assert!(!copy_live_daemon_error_is_safe_pre_submit_skip(
        "exchange submit failed after order was sent"
    ));
    assert!(!copy_live_daemon_error_is_safe_pre_submit_skip(
        "failed to fetch order evidence after copy submit"
    ));
}

#[test]
fn copy_live_daemon_submitted_report_cloids_drive_final_suppression_cleanup() {
    let submitted_cloid = "00000000-0000-0000-0000-000000000001".to_string();
    let report = CopyLiveDaemonPersistentLiveSubmitReport {
        ok: true,
        mode: "persistent_live_submit".to_string(),
        submit_requested: true,
        submit_plan_contract_ok: true,
        submitted_reports: vec![WorkerReport::Submitted(
            OrderSubmitted {
                signal_id: "sig-submitted".to_string(),
                intent_id: "intent-submitted".to_string(),
                worker_id: "worker-addr_a".to_string(),
                account_id: "addr_a".to_string(),
                cloid: submitted_cloid.clone(),
                coin: "xyz:XYZ100".to_string(),
                side: OrderSide::Buy,
                notional_usd: usd(12.0),
                submitted_price: Some(usd(100.0)),
                submitted_size: Some(usd(0.12)),
                exchange_status: Some("filled".to_string()),
                oid: Some(42),
                filled_size: Some(usd(0.12)),
                avg_fill_price: Some(usd(100.0)),
                dry_run: false,
                submitted_at_ms: now_ms(),
            },
        )],
        order_evidence: Vec::new(),
        cleanup_runbooks: Vec::new(),
        cleanup_errors: Vec::new(),
        ledger_reconciliations: Vec::new(),
        ledger_reconciliation_snapshot:
            empty_snapshot(),
        checks: Vec::new(),
    };
    let submitted = CopyLiveDaemonWouldSubmitRef {
        record_index: 0,
        signal_id: "sig-submitted".to_string(),
        leader_id: "leader_a".to_string(),
        leader_address: "0x00000000000000000000000000000000000000aa".to_string(),
        order: CopyExecutionCanaryWouldSubmit {
            account_id: "addr_a".to_string(),
            worker_id: "worker-addr_a".to_string(),
            coin: "xyz:XYZ100".to_string(),
            side: OrderSide::Buy,
            notional_usd: usd(12.0),
            reduce_only: false,
            cloid: submitted_cloid.clone(),
        },
    };
    let pending = CopyLiveDaemonWouldSubmitRef {
        record_index: 1,
        signal_id: "sig-pending".to_string(),
        leader_id: "leader_a".to_string(),
        leader_address: "0x00000000000000000000000000000000000000aa".to_string(),
        order: CopyExecutionCanaryWouldSubmit {
            account_id: "addr_b".to_string(),
            worker_id: "worker-addr_b".to_string(),
            coin: "xyz:XYZ100".to_string(),
            side: OrderSide::Buy,
            notional_usd: usd(12.0),
            reduce_only: false,
            cloid: "00000000-0000-0000-0000-000000000002".to_string(),
        },
    };
    let suppressed = vec![
        CopyLiveDaemonSuppressedWouldSubmitRef {
            plan: submitted,
            reason_code: "COPY_DAEMON_MARGIN_RESIZED_BELOW_MIN".to_string(),
            message: "already submitted inside watcher loop".to_string(),
        },
        CopyLiveDaemonSuppressedWouldSubmitRef {
            plan: pending,
            reason_code: "COPY_DAEMON_MARGIN_RESIZED_BELOW_MIN".to_string(),
            message: "still pending".to_string(),
        },
    ];

    let submitted_cloids = copy_live_daemon_submitted_report_cloids(&report);
    let filtered = copy_live_daemon_pending_suppressed_refs(&suppressed, &submitted_cloids);

    assert!(submitted_cloids.contains(&submitted_cloid));
    assert_eq!(filtered.len(), 1);
    assert_eq!(filtered[0].plan.signal_id, "sig-pending");
}

/// An account that holds one position.
fn holding(coin: &str, szi: &str, position_value: &str) -> ClearinghouseState {
    ClearinghouseState {
        margin_summary: MarginSummary {
            account_value: String::new(),
            total_ntl_pos: String::new(),
            total_margin_used: String::new(),
        },
        withdrawable: None,
        asset_positions: vec![AssetPosition {
            position: PerpPosition {
                coin: coin.to_string(),
                szi: szi.to_string(),
                position_value: Some(position_value.to_string()),
            },
        }],
    }
}

/// A risk gateway that approves an intent as it is.
fn approve(intent: TradeIntent) -> RiskDecision {
    RiskDecision::Approved(ApprovedOrder {
        risk_decision_id: "risk-1".to_string(),
        intent_id: intent.intent_id,
        signal_id: intent.signal_id,
        worker_id: intent.worker_id,
        account_id: intent.account_id,
        strategy_id: intent.strategy_id,
        market: intent.market,
        dex: intent.dex,
        coin: intent.coin,
        side: intent.side,
        notional_usd: intent.notional_usd,
        execution_mode: ExecutionMode::Taker,
        max_slippage_bps: intent.max_slippage_bps,
        reduce_only: intent.reduce_only,
        cloid: "00000000-0000-0000-0000-00000000ffff".to_string(),
        expires_at_ms: intent.expires_at_ms,
    })
}

fn evidence(cloid: &str, matching_fill_count: usize) -> CopyExecutionCanaryOrderEvidence {
    CopyExecutionCanaryOrderEvidence {
        account_id: "addr_a".to_string(),
        worker_id: "worker-addr_a".to_string(),
        signal_id: "sig".to_string(),
        coin: "xyz:XYZ100".to_string(),
        oid: Some(42),
        cloid: cloid.to_string(),
        order_status: Some(OrderStatusResponse { status: "order".to_string(), order: None }),
        user_fill_count: matching_fill_count,
        matching_fill_count,
        matching_fills: Vec::new(),
        error: None,
    }
}

#[test]
fn copy_live_daemon_persistent_submit_dry_run_plans_only_executable_refs() {
    let config = test_config();
    let mut options = follow_position_options();
    options.submit = false;
    options.hold_positions_after_submit = false;
    options.duration_secs = 900;
    let mut executable = plan("addr_a", "xyz:SP500", 12.0, false, "00000000-0000-0000-0000-000000000001");
    executable.signal_id = "sig-open".to_string();
    let executable_refs = vec![executable];
    let suppressed_refs = vec![CopyLiveDaemonSuppressedWouldSubmitRef {
        plan: plan("addr_a", "xyz:XYZ100", 12.0, false, "00000000-0000-0000-0000-000000000002"),
        reason_code: "COPY_DAEMON_MAX_LIVE_ORDERS".to_string(),
        message: "observation only".to_string(),
    }];
    let contract = copy_live_daemon_submit_plan_contract(
        &options,
        &executable_refs,
        &suppressed_refs,
        sum_usd(12.0),
        fees_usd(0.012),
        &vec![flat_account("addr_a")],
    );
    let decisions: Vec<RiskDecision> = executable_refs
        .iter()
        .map(|plan| approve(copy_daemon_dry_run_intent(plan, options.max_slippage_bps, now_ms())))
        .collect();

    let dry_run = copy_live_daemon_persistent_submit_dry_run(
        &config,
        &contract,
        &executable_refs,
        &suppressed_refs,
        &decisions,
    );

    assert!(dry_run.ok, "{dry_run:#?}");
    assert_eq!(dry_run.planned_reports.len(), 1);
    assert!(dry_run.planned_reports[0].would_submit);
    assert!(dry_run.planned_reports[0].dry_run_only);
    assert_eq!(dry_run.planned_reports[0].signal_id, "sig-open");
    assert_eq!(dry_run.planned_reports[0].cloid, executable_refs[0].order.cloid);
    assert!(
        dry_run
            .checks
            .iter()
            .any(|check| { check.name == "suppressed_refs_not_planned" && check.ok })
    );
    assert!(
        dry_run
            .checks
            .iter()
            .any(|check| { check.name == "planned_cloids_match_executable_refs" && check.ok })
    );
}

#[test]
fn copy_live_daemon_persistent_submit_dry_run_blocks_when_plan_contract_fails() {
    let config = test_config();
    let executable_refs =
        vec![plan("addr_a", "xyz:SP500", 12.0, false, "00000000-0000-0000-0000-000000000001")];
    let contract = CopyLiveDaemonSubmitPlanContract {
        ok: false,
        checks: vec![copy_shadow_smoke_check(
            "forced_failure",
            false,
            "test contract failure".to_string(),
        )],
        executable_plan_count: executable_refs.len(),
        suppressed_plan_count: 0,
        executable_open_plan_count: 1,
        executable_reduce_only_plan_count: 0,
        planned_notional_usd: sum_usd(12.0),
        estimated_fees_usd: fees_usd(0.012),
    };

    let dry_run = copy_live_daemon_persistent_submit_dry_run(
        &config,
        &contract,
        &executable_refs,
        &vec![],
        &vec![],
    );

    assert!(!dry_run.ok, "{dry_run:#?}");
    assert!(dry_run.planned_reports.is_empty());
    assert!(
        dry_run
            .checks
            .iter()
            .any(|check| { check.name == "submit_plan_contract_ok" && !check.ok })
    );
}

#[test]
fn copy_live_daemon_approved_order_from_ref_preserves_ref_cloid() {
    let options = follow_position_options();
    let mut plan =
        plan("addr_a", "xyz:XYZ100", 50.0, false, "11111111-1111-5111-8111-111111111111");
    plan.record_index = 7;
    plan.signal_id = "sig-live-ref".to_string();

    let intent = copy_daemon_submit_intent(&plan, options.max_slippage_bps, now_ms());
    assert_eq!(intent.intent_id, "copy-daemon-intent-7-sig-live-ref");
    assert_eq!(intent.reason, "persistent daemon submit ref 7 from leader leader_a");
    let order = approved_copy_daemon_order_from_ref(&plan, approve(intent)).unwrap();

    assert_eq!(order.cloid, plan.order.cloid);
    assert_eq!(order.account_id, "addr_a");
    assert_eq!(order.notional_usd, usd(50.0));
    assert_eq!(order.signal_id.as_deref(), Some("sig-live-ref"));
}

#[test]
fn copy_live_daemon_submit_ref_infers_market_dex_from_coin() {
    let options = follow_position_options();
    let mut plan =
        plan("addr_a", "otherdex:ABC", 25.0, false, "11111111-1111-5111-8111-111111111112");
    plan.record_index = 8;
    plan.signal_id = "sig-other-dex".to_string();
    let order_of = |plan: &CopyLiveDaemonWouldSubmitRef| {
        let intent = copy_daemon_submit_intent(plan, options.max_slippage_bps, now_ms());
        approved_copy_daemon_order_from_ref(plan, approve(intent)).unwrap()
    };

    let other_order = order_of(&plan);
    assert_eq!(other_order.dex.as_deref(), Some("otherdex"));
    assert_eq!(other_order.market.as_deref(), Some("otherdex_perp"));

    plan.order.coin = "cash:USA500".to_string();
    plan.signal_id = "sig-cash-perp".to_string();
    plan.order.cloid = "11111111-1111-5111-8111-111111111114".to_string();
    let cash_order = order_of(&plan);
    assert_eq!(cash_order.dex.as_deref(), Some("cash"));
    assert_eq!(cash_order.market.as_deref(), Some("cash_perp"));

    plan.order.coin = "BTC".to_string();
    plan.signal_id = "sig-hl-perp".to_string();
    plan.order.cloid = "11111111-1111-5111-8111-111111111113".to_string();
    let hl_order = order_of(&plan);
    assert_eq!(hl_order.dex.as_deref(), Some(""));
    assert_eq!(hl_order.market.as_deref(), Some("hl_perp"));
}

#[test]
fn copy_live_daemon_persistent_live_submit_stays_noop_without_submit_flag() {
    let config = test_config();
    let mut options = follow_position_options();
    options.submit = false;
    options.hold_positions_after_submit = false;
    let executable_refs =
        vec![plan("addr_a", "xyz:XYZ100", 50.0, false, "22222222-2222-5222-8222-222222222222")];
    let contract = copy_live_daemon_submit_plan_contract(
        &options,
        &executable_refs,
        &vec![],
        sum_usd(50.0),
        fees_usd(0.05),
        &vec![flat_account("addr_a")],
    );

    let next = live_submit_next(
        &config,
        &options,
        contract.ok,
        &executable_refs,
        &vec![],
        now_ms(),
    );
    let LiveSubmitNext::Blocked(live_submit) = next else {
        panic!("{next:#?}");
    };

    assert!(!live_submit.ok);
    assert!(is_nothing_sent(&live_submit));
    assert!(live_submit.submitted_reports.is_empty());
    assert!(
        live_submit
            .checks
            .iter()
            .any(|check| check.name == "submit_requested" && !check.ok)
    );
}

#[test]
fn copy_live_daemon_persistent_live_submit_accepts_multi_account_empty_executable_window() {
    let mut config = test_config();
    config.app.dry_run = false;
    config.manual_ops.manual_live_enabled = true;
    let mut options = follow_position_options();
    options.account_ids = vec!["addr_a".to_string(), "addr_b".to_string()];
    options.hold_positions_after_submit = false;
    let flat = vec![flat_account("addr_a")];
    let contract = copy_live_daemon_submit_plan_contract(
        &options,
        &vec![],
        &vec![],
        sum_usd(0.0),
        fees_usd(0.0),
        &flat,
    );

    let next =
        live_submit_next(&config, &options, contract.ok, &vec![], &vec![], now_ms());
    let LiveSubmitNext::GoOn(checks) = next else {
        panic!("{next:#?}");
    };
    let next = live_submit_with_positions(
        &options,
        contract.ok,
        checks,
        &vec![],
        &Vec::new(),
        now_ms(),
    );
    let ReadySubmitNext::GoOn { checks, ready } = next else {
        panic!("{next:#?}");
    };
    assert!(ready.is_empty());
    let live_submit = copy_live_daemon_persistent_live_submit(
        &options,
        contract.ok,
        checks,
        0,
        LiveSubmitOutcome {
            submit_ready_refs: Vec::new(),
            submitted_reports: Vec::new(),
            order_evidence: Vec::new(),
            cleanup_runbooks: Vec::new(),
            cleanup_errors: Vec::new(),
            ledger_reconciliations: Vec::new(),
            ledger_reconciliation_snapshot: empty_snapshot(),
        },
    );

    assert!(live_submit.ok);
    assert!(live_submit.submitted_reports.is_empty());
    assert!(live_submit.cleanup_runbooks.is_empty());
    assert!(
        live_submit
            .checks
            .iter()
            .any(|check| check.name == "cleanup_runbook_completed" && check.ok)
    );
    assert!(
        live_submit
            .checks
            .iter()
            .any(|check| check.name == "selected_submit_accounts" && check.ok)
    );
}

#[test]
fn a_refused_plan_is_not_sent() {
    let plan = plan("addr_a", "xyz:XYZ100", 50.0, false, "cloid-1");
    let refusal = RiskDecision::Rejected(RiskRejection {
        worker_id: "worker-addr_a".to_string(),
        account_id: "addr_a".to_string(),
        reason_code: "RISK_KILLED".to_string(),
        message: "kill switch is on".to_string(),
    });
    assert_eq!(
        approved_copy_daemon_order_from_ref(&plan, refusal).unwrap_err(),
        "persistent daemon submit ref rejected by RiskGateway: RISK_KILLED kill switch is on"
    );
}

#[test]
fn an_order_below_the_minimum_is_skipped_safely() {
    let order = approved("addr_b", "xyz:SP500", 11.172);
    let message = copy_live_daemon_open_order_effective_min_check(&order, usd(7.4161)).unwrap();
    assert_eq!(
        message,
        "copy submit skipped before exchange: addr_b xyz:SP500 requested_notional=11.172000 effective_notional=7.416100 below exchange minimum 10.000000"
    );
    assert!(copy_live_daemon_error_is_safe_pre_submit_skip(&message));
    match window_dispatch(order, Some(message.clone()), now_ms()) {
        DispatchStep::Report(WorkerReport::Error(error)) => {
            assert_eq!(error.message, message);
            assert_eq!(error.account_id, "addr_b");
        }
        other => panic!("an order that is too small was sent: {other:?}"),
    }
    let order = approved("addr_b", "xyz:SP500", 11.172);
    assert!(copy_live_daemon_open_order_effective_min_check(&order, usd(10.0)).is_none());
    match window_dispatch(order, None, now_ms()) {
        DispatchStep::Send(order) => assert_eq!(order.coin, "xyz:SP500"),
        other => panic!("an order was held back: {other:?}"),
    }
    match canary_dispatch(RiskDecision::Rejected(RiskRejection {
        worker_id: "worker-addr_b".to_string(),
        account_id: "addr_b".to_string(),
        reason_code: "R".to_string(),
        message: "m".to_string(),
    })) {
        DispatchStep::Report(WorkerReport::Rejected(rejection)) => {
            assert_eq!(rejection.reason_code, "R");
        }
        other => panic!("a refused order was sent: {other:?}"),
    }
}

#[test]
fn plans_below_the_effective_minimum_are_held_back() {
    let config = test_config();
    let refs = vec![
        plan("addr_a", "xyz:SP500", 11.0, false, "small"),
        plan("addr_x", "xyz:SP500", 50.0, false, "unknown"),
        plan("addr_a", "xyz:SP500", 1.0, true, "close"),
        plan("addr_a", "xyz:GBP", 50.0, false, "fine"),
    ];
    let quote = |notional: f64| {
        Some(OrderQuote {
            decision: RiskDecision::Approved(approved("addr_a", "xyz:SP500", 11.0)),
            effective_notional: Ok(usd(notional)),
        })
    };
    assert!(plan_needs_quote(&config, &refs[0]));
    assert!(!plan_needs_quote(&config, &refs[1]));
    assert!(!plan_needs_quote(&config, &refs[2]));
    let (kept, held) = copy_live_daemon_suppress_refs_below_effective_min(
        &config,
        &refs,
        &vec![quote(7.4), None, None, quote(49.9)],
    );
    assert_eq!(kept.len(), 2);
    assert_eq!(kept[0].order.cloid, "close");
    assert_eq!(kept[1].order.cloid, "fine");
    assert_eq!(held[0].reason_code, "COPY_DAEMON_EFFECTIVE_NOTIONAL_BELOW_MIN");
    assert_eq!(held[1].reason_code, "COPY_DAEMON_ACCOUNT_NOT_CONFIGURED");
    assert_eq!(held[1].message, "addr_x is not configured for copy submit");
}

#[test]
fn reductions_are_cut_to_the_positions_behind_them() {
    let mut too_large = plan("addr_a", "xyz:GBP", 50.0, true, "close-1");
    too_large.order.side = OrderSide::Sell;
    let mut unbacked = plan("addr_a", "xyz:JPY", 50.0, true, "close-2");
    unbacked.order.side = OrderSide::Sell;
    let refs = vec![too_large, unbacked, plan("addr_b", "xyz:JPY", 20.0, false, "open-1")];
    assert_eq!(reduce_only_accounts(&refs), vec!["addr_a".to_string()]);
    let states = vec![AccountPositions {
        account_id: "addr_a".to_string(),
        state: Ok(holding("xyz:GBP", "38.0", "12.5")),
    }];
    let (kept, checks) = copy_live_daemon_filter_submit_refs_for_live_reduce_exposure(&refs, &states);
    assert_eq!(kept.len(), 2, "{checks:#?}");
    assert_eq!(kept[0].order.notional_usd, usd(12.5));
    assert_eq!(kept[1].order.cloid, "open-1");
}

#[test]
fn cleanup_closes_what_was_opened() {
    let submitted = submitted_order("addr_a", "cloid-1", 4.0);
    let options = cleanup_runbook_options(&submitted, usd(50.0), true);
    assert_eq!(options.side, OrderSide::Sell);
    assert_eq!(options.notional_usd, usd(10.0));
    assert_eq!(options.execution_mode, ExecutionMode::Taker);
    assert!(options.reduce_only && options.close_full_position && options.submit);
    assert_eq!(
        cleanup_failure(&submitted, "timed out"),
        "cleanup failed for account=addr_a coin=xyz:XYZ100 side=Sell: timed out"
    );
    assert_eq!(opposite_order_side(opposite_order_side(OrderSide::Buy)), OrderSide::Buy);
}

#[test]
fn a_fill_window_surrounds_the_submission() {
    let (start, end) = copy_canary_fill_time_window(1_000_000, &None, 1_000_500);
    assert_eq!(start, 940_000);
    assert_eq!(end, 1_180_500);
    assert!(copy_canary_fill_time_window(10, &None, 10).0 == 0);
}

#[test]
fn a_report_without_a_live_order_is_not_saved() {
    let mut dry = submitted_order("addr_a", "cloid-1", 12.0);
    dry.dry_run = true;
    let mut report = live_report(vec![WorkerReport::Submitted(dry)]);
    assert!(!copy_canary_has_live_submission(&report.submitted_reports));
    assert!(!copy_live_daemon_persistent_submit_snapshot_safe_to_save(&report));
    assert!(snapshot_after_submit(true, empty_snapshot(), &report, now_ms()).is_none());

    report.submitted_reports =
        vec![WorkerReport::Submitted(submitted_order("addr_a", "cloid-1", 12.0))];
    report.order_evidence = vec![evidence("cloid-1", 1)];
    report.ledger_reconciliation_snapshot.ledger_entries =
        vec![entry("addr_a", "xyz:XYZ100", OrderSide::Buy, 12.0)];
    let saved = snapshot_after_submit(true, empty_snapshot(), &report, 77).unwrap();
    assert_eq!(saved.saved_at_ms, 77);
    assert_eq!(saved.ledger_entries.len(), 1);
    assert!(snapshot_after_submit(false, empty_snapshot(), &report, 77).is_none());
}

#[test]
fn pending_plans_are_sent_once() {
    let mut config = test_config();
    config.app.dry_run = false;
    let options = follow_position_options();
    let plans = vec![
        plan("addr_a", "xyz:XYZ100", 20.0, false, "sent"),
        plan("addr_a", "xyz:XYZ100", 20.0, false, "fresh"),
    ];
    let mut submitted = vec!["sent".to_string()];
    let flat = vec![flat_account("addr_a")];
    let (candidates, suppressed) =
        pending_candidates(&plans, &submitted, &options, &empty_snapshot(), &flat);
    assert_eq!(candidates.len(), 1);
    assert!(suppressed.is_empty());
    let quotes = vec![Some(OrderQuote {
        decision: RiskDecision::Approved(approved("addr_a", "xyz:XYZ100", 20.0)),
        effective_notional: Ok(usd(20.0)),
    })];
    let chosen = select_immediate(
        &config,
        &options,
        &candidates,
        Vec::new(),
        &quotes,
        &submitted,
        &flat,
    )
    .unwrap();
    assert!(chosen.contract.ok, "{chosen:#?}");
    assert_eq!(chosen.executable[0].order.cloid, "fresh");
    note_submitted(&mut submitted, &chosen.executable);
    assert_eq!(submitted, vec!["sent".to_string(), "fresh".to_string()]);

    let (candidates, _) =
        pending_candidates(&plans, &submitted, &options, &empty_snapshot(), &flat);
    assert!(candidates.is_empty());
    assert!(
        select_immediate(
            &config,
            &options,
            &candidates,
            Vec::new(),
            &Vec::new(),
            &submitted,
            &flat
        )
        .is_none()
    );
}

#[test]
fn held_plans_that_went_out_after_all_are_dropped() {
    let mut config = test_config();
    config.app.dry_run = false;
    let mut options = follow_position_options();
    options.max_live_orders = 1;
    let plans = vec![
        plan("addr_a", "xyz:XYZ100", 20.0, false, "first"),
        plan("addr_a", "xyz:GBP", 20.0, false, "second"),
    ];
    let flat = vec![flat_account("addr_a")];
    let (candidates, suppressed) =
        pending_candidates(&plans, &Vec::new(), &options, &empty_snapshot(), &flat);
    assert_eq!(suppressed.len(), 1);
    let quotes = vec![Some(OrderQuote {
        decision: RiskDecision::Approved(approved("addr_a", "xyz:XYZ100", 20.0)),
        effective_notional: Ok(usd(20.0)),
    })];
    let last = select_final(
        &config,
        &options,
        &candidates,
        suppressed,
        &quotes,
        &Vec::new(),
        &flat,
    );
    assert_eq!(last.planned_notional_usd, sum_usd(20.0));
    assert_eq!(last.estimated_fees_usd, fees_usd(0.02));
    assert_eq!(last.pending_refs.len(), 1);
    assert_eq!(last.suppressed_would_submit_orders.len(), 1);
    assert_eq!(next_final_submit(true, 1, 0), FinalSubmit::Send);
    assert_eq!(next_final_submit(false, 1, 0), FinalSubmit::ReportPending);
    assert_eq!(next_final_submit(true, 0, 0), FinalSubmit::ReportNone);
    assert_eq!(next_final_submit(true, 0, 2), FinalSubmit::Nothing);

    let live = live_report(vec![WorkerReport::Submitted(submitted_order("addr_a", "second", 20.0))]);
    let settled = settle_final_plan(last, &options, &live, &flat);
    assert!(settled.suppressed_submit_plan_refs.is_empty());
    assert!(settled.suppressed_would_submit_orders.is_empty());
    assert_eq!(settled.submit_plan_contract.suppressed_plan_count, 0);
}

#[test]
fn a_failed_leverage_change_is_skipped_safely() {
    let message = leverage_failure("xyz:GBP", 10);
    assert_eq!(message, "failed to set xyz:GBP leverage to 10x before copy submit");
    assert!(copy_live_daemon_error_is_safe_pre_submit_skip(&message));
    let report = failed_submit_report(
        &plan("addr_a", "xyz:GBP", 20.0, false, "cloid-1"),
        message,
        now_ms(),
    );
    assert!(copy_live_daemon_report_is_safe_pre_submit_skip(&report));
}

#[test]
fn a_merged_report_needs_every_part() {
    let mut bad = live_report(Vec::new());
    bad.ok = false;
    let merged = copy_live_daemon_merge_persistent_live_submit_reports(
        true,
        true,
        vec![live_report(Vec::new()), bad],
        now_ms(),
    );
    assert!(!merged.ok);
    let none =
        copy_live_daemon_merge_persistent_live_submit_reports(true, true, Vec::new(), now_ms());
    assert!(!none.ok);
    let none =
        copy_live_daemon_merge_persistent_live_submit_reports(false, true, Vec::new(), now_ms());
    assert!(none.ok);
}

#[test]
fn a_window_plans_each_client_id_once() {
    let config = test_config();
    let mut run = new_run(true);
    let order = approved("addr_a", "xyz:GBP", 20.0);
    let decisions = vec![RiskDecision::Approved(order.clone())];
    let at_once =
        take_records(&mut run, &config, vec![record("addr_a", "sig-1", 20.0)], &decisions).unwrap();
    assert!(at_once);
    take_records(&mut run, &config, vec![record("addr_a", "sig-2", 20.0)], &decisions).unwrap();
    assert_eq!(run.approved.len(), 2);
    assert_eq!(run.plans.len(), 1);
    assert_eq!(run.plans[0].signal_id, "sig-1");
    assert_eq!(run.plans[0].record_index, 0);

    let mut other = order;
    other.cloid = "another".to_string();
    let decisions = vec![RiskDecision::Approved(other)];
    take_records(&mut run, &config, vec![record("addr_a", "sig-3", 20.0)], &decisions).unwrap();
    assert_eq!(run.plans[1].record_index, 2);
    let error = take_records(&mut run, &config, vec![record("addr_x", "sig-4", 20.0)], &Vec::new())
        .unwrap_err();
    assert_eq!(error, "account addr_x not found");
    assert_eq!(run.approved.len(), 3);
    assert_eq!(run.plans.len(), 2);

    let mut checks = Vec::new();
    let sent = run.plans.clone();
    assert_eq!(take_chunk(&mut run, &mut checks, &sent, live_report(Vec::new())), None);
    assert_eq!(run.submitted.len(), 2);
    assert_eq!(run.chunks.len(), 1);
    let mut bad = live_report(Vec::new());
    bad.ok = false;
    bad.cleanup_errors = vec!["stuck".to_string()];
    assert_eq!(
        take_chunk(&mut run, &mut checks, &Vec::new(), bad),
        Some(WatchStatus::StoppedImmediateSubmitFailed)
    );
    assert_eq!(checks.len(), 1);
}

/// A configuration in which every switch for live orders is on.
fn open_config() -> AppConfig {
    let mut config = test_config();
    config.app.dry_run = false;
    config.manual_ops.manual_live_enabled = true;
    config.manual_ops.max_manual_order_notional_usd = usd(100.0);
    config
}

#[test]
fn every_switch_has_to_be_on_before_orders_are_sent() {
    let refs = vec![plan("addr_a", "xyz:XYZ100", 50.0, false, "open-1")];
    let next = |config: &AppConfig, options: &CopyLiveDaemonSupervisorOptions, contract_ok: bool| {
        live_submit_next(config, options, contract_ok, &refs, &vec![], now_ms())
    };
    let blocked = |next: LiveSubmitNext, name: &str| match next {
        LiveSubmitNext::GoOn(_) => false,
        LiveSubmitNext::Blocked(report) => {
            !report.ok
                && is_nothing_sent(&report)
                && report.checks.iter().any(|check| check.name == name && !check.ok)
        }
    };
    let config = open_config();
    let options = follow_position_options();
    assert!(matches!(next(&config, &options, true), LiveSubmitNext::GoOn(_)));
    assert!(blocked(next(&config, &options, false), "submit_plan_contract_ok"));
    let mut off = follow_position_options();
    off.submit = false;
    assert!(blocked(next(&config, &off, true), "submit_requested"));
    let mut off = follow_position_options();
    off.live_gate = false;
    assert!(blocked(next(&config, &off, true), "live_gate"));
    let mut off = follow_position_options();
    off.allow_live_submit = false;
    assert!(blocked(next(&config, &off, true), "allow_live_submit"));
    let mut small = open_config();
    small.manual_ops.max_manual_order_notional_usd = usd(49.0);
    assert!(blocked(next(&small, &options, true), "cleanup_notional_limit"));
}

#[test]
fn unread_positions_stop_a_window() {
    let config = open_config();
    let options = follow_position_options();
    let mut close = plan("addr_a", "xyz:GBP", 50.0, true, "close-1");
    close.order.side = OrderSide::Sell;
    let refs = vec![close];
    let checks = || match live_submit_next(&config, &options, true, &refs, &vec![], now_ms()) {
        LiveSubmitNext::GoOn(checks) => checks,
        LiveSubmitNext::Blocked(report) => panic!("{report:#?}"),
    };
    let unread = vec![AccountPositions {
        account_id: "addr_a".to_string(),
        state: Err("timed out".to_string()),
    }];
    match live_submit_with_positions(&options, true, checks(), &refs, &unread, now_ms()) {
        ReadySubmitNext::GoOn { .. } => panic!("the positions were not read"),
        ReadySubmitNext::Blocked(report) => {
            assert!(!report.ok);
            assert!(is_nothing_sent(&report));
            let last = report.checks.last().unwrap();
            assert_eq!(last.name, "reduce_only_local_exposure_filter");
            assert!(!last.ok);
        }
    }
    let read = vec![AccountPositions {
        account_id: "addr_a".to_string(),
        state: Ok(holding("xyz:GBP", "38.0", "12.5")),
    }];
    match live_submit_with_positions(&options, true, checks(), &refs, &read, now_ms()) {
        ReadySubmitNext::Blocked(report) => panic!("{report:#?}"),
        ReadySubmitNext::GoOn { checks, ready } => {
            assert!(checks_all_ok(&checks));
            assert_eq!(ready.len(), 1);
            assert_eq!(ready[0].order.notional_usd, usd(12.5));
        }
    }
    let faint = vec![AccountPositions {
        account_id: "addr_a".to_string(),
        state: Ok(holding("xyz:GBP", "38.0", "0.0000000005")),
    }];
    match live_submit_with_positions(&options, true, checks(), &refs, &faint, now_ms()) {
        ReadySubmitNext::Blocked(report) => panic!("{report:#?}"),
        ReadySubmitNext::GoOn { ready, .. } => assert_eq!(ready[0].order.notional_usd, 1),
    }
}

#[test]
fn held_positions_are_not_closed_again() {
    let refs = vec![plan("addr_a", "xyz:XYZ100", 12.0, false, "open-1")];
    let reports = vec![WorkerReport::Submitted(submitted_order("addr_a", "open-1", 12.0))];
    assert!(window_cleanup_targets(true, &reports, &refs).is_empty());
    assert_eq!(window_cleanup_targets(false, &reports, &refs).len(), 1);
}

#[test]
fn a_window_without_submit_sends_nothing() {
    let config = open_config();
    let mut options = follow_position_options();
    options.submit = false;
    let mut run = new_run(options.submit);
    let decisions = vec![RiskDecision::Approved(approved("addr_a", "xyz:GBP", 20.0))];
    let at_once =
        take_records(&mut run, &config, vec![record("addr_a", "sig-1", 20.0)], &decisions).unwrap();
    assert!(!at_once);
    let refs = final_submit_refs(options.submit, &run.plans, run.chunks.len()).unwrap();
    assert_eq!(refs.len(), 1);
    match live_submit_next(&config, &options, true, &refs, &vec![], now_ms()) {
        LiveSubmitNext::GoOn(checks) => panic!("{checks:#?}"),
        LiveSubmitNext::Blocked(report) => take_last_chunk(&mut run, report),
    }
    let merged = merge_run(run, true, now_ms());
    assert!(is_nothing_sent(&merged));
    assert!(!merged.ok);
}

#[test]
fn the_last_plans_are_sent_once() {
    let refs = vec![plan("addr_a", "xyz:XYZ100", 12.0, false, "open-1")];
    assert_eq!(final_submit_refs(true, &refs, 3).unwrap()[0].order.cloid, "open-1");
    assert!(final_submit_refs(true, &Vec::new(), 0).unwrap().is_empty());
    assert!(final_submit_refs(true, &Vec::new(), 1).is_none());
    assert_eq!(final_submit_refs(false, &refs, 1).unwrap()[0].order.cloid, "open-1");
}
