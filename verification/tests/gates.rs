//! The gates in front of dry runs, trials and unattended windows.

use copy_daemon::acceptance::{
    AcceptanceFindings, CopyLiveDaemonRestartProbe, run_copy_live_daemon_acceptance,
};
use copy_daemon::canary::{CanaryOutcome, CopyExecutionCanaryReport, copy_execution_canary_report};
use copy_daemon::checks::CopyShadowSmokeCheck;
use copy_daemon::config::{
    AccountConfig, AppConfig, AppSection, GlobalRiskSection, HyperliquidSection, ManualOpsSection,
    ProcessSection, RiskSection,
};
use copy_daemon::dispatch::DispatchStep;
use copy_daemon::domain::{
    ExecutionMode, OrderSide, OrderStatusInfo, OrderStatusOrder, OrderStatusResponse,
    OrderSubmitted, UserFill, WorkerReport,
};
use copy_daemon::evidence::{
    OrderFindings, collect_copy_canary_order_evidence, reconcile_copy_canary_ledger,
};
use copy_daemon::intent::{
    ApprovedOrder, CopyDryRunShadowRecord, CopySignal, CopySignalRiskDecision, RiskDecision,
    order_requests, plan_copy_daemon_acceptance_order_refs,
};
use copy_daemon::leaders::parse_copy_shadow_smoke_leaders;
use copy_daemon::ledger::{CopyLedgerEntry, CopyLedgerStatus, CopyPersistenceSnapshot};
use copy_daemon::options::{
    CopyExecutionCanaryOptions, CopyLiveDaemonAcceptanceOptions, CopyShadowSmokeOptions,
};
use copy_daemon::pipeline::{
    CopyLeaderWatcherEvent, copy_live_daemon_synthetic_sessions, plan_restart_dedupe_probe,
    run_synthetic_copy_shadow_event,
};
use copy_daemon::plan::CopyExecutionCanaryWouldSubmit;
use copy_daemon::shadow::{
    SmokeStep, next_smoke_step, run_copy_shadow_smoke, start_copy_shadow_smoke,
};
use copy_daemon::submit::CopyLedgerReconcileResult;
use copy_daemon::trial::{
    TrialNext, TrialSent, finish_trial, run_copy_execution_canary, trial_dispatch,
    trial_follows_up, trial_with_decisions, trial_with_records,
};

/// An amount in dollars as a fixed-point number.
fn usd(x: f64) -> i64 {
    (x * 1e9).round() as i64
}

fn now_ms() -> u64 {
    1_781_745_839_800
}

fn test_account(account_id: &str, address: &str, copy_ratio: f64) -> AccountConfig {
    AccountConfig {
        account_id: account_id.to_string(),
        address: address.to_string(),
        enabled: true,
        worker_enabled: true,
        copy_ratio: usd(copy_ratio),
        max_order_notional_usd: usd(100.0),
    }
}

fn test_config() -> AppConfig {
    AppConfig {
        app: AppSection { environment: "testnet".to_string(), dry_run: true },
        hyperliquid: HyperliquidSection {
            dex: "xyz".to_string(),
            ws_url: "wss://api.hyperliquid.xyz/ws".to_string(),
        },
        process: ProcessSection { signal_ttl_ms: 3000 },
        manual_ops: ManualOpsSection {
            manual_live_enabled: false,
            mainnet_live_enabled: false,
            max_manual_order_notional_usd: usd(25.0),
        },
        risk: RiskSection {
            global: GlobalRiskSection { allow_reduce_only_when_killed: true },
        },
        accounts: vec![
            test_account("addr_a", "0x0000000000000000000000000000000000000001", 0.10),
            test_account("addr_b", "0x0000000000000000000000000000000000000002", 0.05),
        ],
        copy_blocked_symbols: Vec::new(),
    }
}

/// A restart probe that behaved: one signal, none on replay, one when fresh.
fn probe() -> CopyLiveDaemonRestartProbe {
    CopyLiveDaemonRestartProbe {
        event_id: "probe".to_string(),
        first_emit_count: 1,
        replay_emit_count: 0,
        fresh_after_restart_emit_count: 1,
        saved_seen_event_keys: 1,
        loaded_seen_event_keys: 1,
    }
}

/// The order that a trial plans for an account.
fn would_submit(account_id: &str, notional_usd: f64) -> CopyExecutionCanaryWouldSubmit {
    CopyExecutionCanaryWouldSubmit {
        account_id: account_id.to_string(),
        worker_id: format!("worker-{account_id}"),
        coin: "xyz:XYZ100".to_string(),
        side: OrderSide::Buy,
        notional_usd: usd(notional_usd),
        reduce_only: false,
        cloid: format!("00000000-0000-0000-0000-{account_id}"),
    }
}

fn findings(orders: Vec<CopyExecutionCanaryWouldSubmit>) -> AcceptanceFindings {
    AcceptanceFindings {
        restart_probe: probe(),
        persistence_seen_keys: 0,
        persistence_ledger_entries: 0,
        would_submit_orders: orders,
    }
}

fn empty_snapshot() -> CopyPersistenceSnapshot {
    CopyPersistenceSnapshot::new(now_ms(), Vec::new(), Vec::new())
}

/// A record of an approved signal for one account.
fn record(account_id: &str, signal_id: &str, notional_usd: f64) -> CopyDryRunShadowRecord {
    CopyDryRunShadowRecord {
        leader_id: "leader_a".to_string(),
        leader_address: "0x00000000000000000000000000000000000000aa".to_string(),
        risk_decision: CopySignalRiskDecision::Approved {
            side: OrderSide::Buy,
            reduce_only: false,
            notional_usd: usd(notional_usd),
        },
        signal: Some(CopySignal {
            signal_id: signal_id.to_string(),
            target_accounts: vec![account_id.to_string()],
        }),
        ledger_entry: None,
        seen_event_keys: Vec::new(),
    }
}

/// An order that the risk gateway approved.
fn approved(account_id: &str, coin: &str, notional_usd: f64) -> ApprovedOrder {
    ApprovedOrder {
        risk_decision_id: "risk-1".to_string(),
        intent_id: "intent-1".to_string(),
        signal_id: Some("sig-1".to_string()),
        worker_id: format!("worker-{account_id}"),
        account_id: account_id.to_string(),
        strategy_id: "copy".to_string(),
        market: Some("xyz_perp".to_string()),
        dex: Some("xyz".to_string()),
        coin: coin.to_string(),
        side: OrderSide::Buy,
        notional_usd: usd(notional_usd),
        execution_mode: ExecutionMode::Taker,
        max_slippage_bps: usd(50.0),
        reduce_only: false,
        cloid: "00000000-0000-0000-0000-000000000009".to_string(),
        expires_at_ms: None,
    }
}

/// A ledger entry of an open copied position.
fn entry(account_id: &str, coin: &str, side: OrderSide, remaining: f64) -> CopyLedgerEntry {
    CopyLedgerEntry {
        local_account_id: account_id.to_string(),
        leader_id: "leader_a".to_string(),
        leader_group: "leader_a".to_string(),
        signal_id: format!("sig-{coin}"),
        coin: coin.to_string(),
        local_side: side,
        order_cloid: Some("44444444-4444-5444-8444-444444444444".to_string()),
        order_oid: Some(1001),
        submitted_at_ms: Some(now_ms()),
        filled_at_ms: Some(now_ms()),
        planned_notional_usd: usd(remaining),
        pending_notional_usd: 0,
        filled_notional_usd: usd(remaining),
        remaining_notional_usd: usd(remaining),
        status: CopyLedgerStatus::Open,
    }
}

/// An order that the exchange filled.
fn submitted_order(account_id: &str, cloid: &str, notional_usd: f64) -> OrderSubmitted {
    OrderSubmitted {
        signal_id: "sig".to_string(),
        intent_id: "intent".to_string(),
        worker_id: format!("worker-{account_id}"),
        account_id: account_id.to_string(),
        cloid: cloid.to_string(),
        coin: "xyz:XYZ100".to_string(),
        side: OrderSide::Buy,
        notional_usd: usd(notional_usd),
        submitted_price: Some(usd(30_000.0)),
        submitted_size: Some(usd(0.0004)),
        exchange_status: Some("filled".to_string()),
        oid: Some(42),
        filled_size: Some(usd(0.0004)),
        avg_fill_price: Some(usd(30_000.0)),
        dry_run: false,
        submitted_at_ms: now_ms(),
    }
}

fn smoke_options() -> CopyShadowSmokeOptions {
    CopyShadowSmokeOptions {
        leaders: vec!["leader_a=0x00000000000000000000000000000000000000aa".to_string()],
        coin: "xyz:XYZ100".to_string(),
        local_account_id: Some("addr_a".to_string()),
        shadow_history_path: "unused-copy-shadow.jsonl".to_string(),
        synthetic_event: false,
        leader_notional_usd: usd(100.0),
        leader_size: usd(1.0),
    }
}

fn canary_options() -> CopyExecutionCanaryOptions {
    CopyExecutionCanaryOptions {
        leaders: vec!["leader_a=0x00000000000000000000000000000000000000aa".to_string()],
        account_ids: vec!["addr_a".to_string()],
        coin: "xyz:XYZ100".to_string(),
        side: OrderSide::Buy,
        local_account_id: None,
        shadow_history_path: "unused-copy-execution-canary.jsonl".to_string(),
        leader_notional_usd: usd(240.0),
        leader_size: usd(1.0),
        live: true,
        allow_live_submit: true,
        confirm_mainnet_live: false,
        cleanup_after_submit: true,
        cleanup_max_slippage_bps: usd(50.0),
        preflight_only: false,
        max_orders: 1,
    }
}

/// A configuration in which a live trial may run.
fn live_config() -> AppConfig {
    let mut config = test_config();
    config.app.dry_run = false;
    config.manual_ops.manual_live_enabled = true;
    config.manual_ops.max_manual_order_notional_usd = usd(100.0);
    config
}

/// Runs a trial whose pipeline records one approved signal per account and whose
/// risk gateway approves every order at one hundred dollars. What is sent is
/// filled.
fn run_trial(config: &AppConfig, options: &CopyExecutionCanaryOptions) -> CopyExecutionCanaryReport {
    let progress = match run_copy_execution_canary(config, options, now_ms()).unwrap() {
        TrialNext::Done(report) => return report,
        TrialNext::GoOn(progress) => progress,
    };
    let records = progress
        .target_accounts
        .iter()
        .map(|account_id| record(account_id, &format!("sig-{account_id}"), 100.0))
        .collect();
    let progress =
        match trial_with_records(config, options, progress, records, empty_snapshot()) {
            TrialNext::Done(report) => return report,
            TrialNext::GoOn(progress) => progress,
        };
    let decisions: Vec<RiskDecision> = order_requests(config, &progress.records)
        .unwrap()
        .iter()
        .map(|request| {
            RiskDecision::Approved(approved(&request.account_id, "xyz:XYZ100", 100.0))
        })
        .collect();
    let progress =
        match trial_with_decisions(config, options, progress, &decisions, empty_snapshot())
            .unwrap()
        {
            TrialNext::Done(report) => return report,
            TrialNext::GoOn(progress) => progress,
        };
    let submitted_reports: Vec<WorkerReport> = trial_dispatch(options, decisions)
        .into_iter()
        .map(|step| match step {
            DispatchStep::Report(report) => report,
            DispatchStep::Send(order) => {
                WorkerReport::Submitted(submitted_order(&order.account_id, &order.cloid, 100.0))
            }
        })
        .collect();
    assert!(!trial_follows_up(options, &submitted_reports));
    let sent = TrialSent {
        submitted_reports,
        order_evidence: Vec::new(),
        ledger_reconciliations: Vec::new(),
        ledger_reconciliation_snapshot: empty_snapshot(),
        cleanup_runbooks: Vec::new(),
        cleanup_errors: Vec::new(),
    };
    finish_trial(config, options, progress, sent)
}

fn acceptance_options() -> CopyLiveDaemonAcceptanceOptions {
    CopyLiveDaemonAcceptanceOptions {
        leaders: vec!["leader_a=0x00000000000000000000000000000000000000aa".to_string()],
        account_ids: vec!["addr_a".to_string()],
        coin: "xyz:XYZ100".to_string(),
        side: OrderSide::Buy,
        persistence_path: "copy-persistence.json".to_string(),
        shadow_history_path: "copy-shadow.jsonl".to_string(),
        leader_notional_usd: usd(120.0),
        leader_size: usd(1.0),
        live: false,
        allow_live_submit: false,
        confirm_mainnet_live: false,
        max_duration_secs: 300,
        max_live_orders: 1,
        max_total_notional_usd: usd(100.0),
        max_total_fees_usd: usd(0.10),
        max_slippage_bps: usd(50.0),
        require_cleanup_after_submit: true,
        require_flat_reconcile_after_submit: true,
    }
}

fn failed(checks: &[CopyShadowSmokeCheck], name: &str) -> bool {
    checks.iter().any(|check| check.name == name && !check.ok)
}

#[test]
fn copy_shadow_smoke_rejects_live_capable_config() {
    let mut config = test_config();
    config.app.dry_run = false;

    let error = start_copy_shadow_smoke(&config, &smoke_options(), true, 1)
        .expect_err("live-capable copy shadow smoke must fail closed");

    assert!(error.contains("copy-shadow-smoke requires app.dry_run=true"));
}

#[test]
fn copy_execution_canary_live_refuses_without_explicit_submit_gate() {
    let config = live_config();
    let mut options = canary_options();
    options.allow_live_submit = false;
    options.cleanup_after_submit = false;

    let report = run_trial(&config, &options);

    assert!(!report.ok);
    assert!(report.submitted_reports.is_empty());
    assert!(failed(&report.checks, "allow_live_submit"));
}

#[test]
fn copy_execution_canary_live_requires_cleanup_gate() {
    let config = live_config();
    let mut options = canary_options();
    options.cleanup_after_submit = false;

    let report = run_trial(&config, &options);

    assert!(!report.ok);
    assert!(report.submitted_reports.is_empty());
    assert!(report.cleanup_runbooks.is_empty());
    assert!(failed(&report.checks, "cleanup_after_submit"));
}

#[test]
fn copy_execution_canary_live_preflight_only_plans_without_submit() {
    let config = live_config();
    let mut options = canary_options();
    options.leader_notional_usd = usd(120.0);
    options.preflight_only = true;

    let report = run_trial(&config, &options);

    assert!(report.ok, "{report:#?}");
    assert!(report.preflight_only);
    assert_eq!(report.would_submit_orders.len(), 1);
    assert_eq!(report.would_submit_orders[0].account_id, "addr_a");
    assert_eq!(report.would_submit_orders[0].notional_usd, usd(100.0));
    assert!(report.submitted_reports.is_empty());
    assert!(report.cleanup_runbooks.is_empty());
    assert!(report.cleanup_errors.is_empty());
}

#[test]
fn copy_execution_canary_preflight_only_gate_failure_does_not_claim_passed() {
    let config = test_config();
    let mut options = canary_options();
    options.leader_notional_usd = usd(120.0);
    options.preflight_only = true;

    let report = run_trial(&config, &options);

    assert!(!report.ok);
    assert!(report.would_submit_orders.is_empty());
    assert!(report.next_actions.iter().any(|action| {
        action.contains("No live order was submitted") || action.contains("fix failed checks")
    }));
    assert!(
        !report
            .next_actions
            .iter()
            .any(|action| action.contains("Preflight-only live canary passed"))
    );
}

#[test]
fn copy_execution_canary_blocks_live_when_cleanup_notional_limit_is_too_low() {
    let mut config = live_config();
    config.manual_ops.max_manual_order_notional_usd = usd(12.0);
    let mut options = canary_options();
    options.leader_notional_usd = usd(120.0);

    let report = run_trial(&config, &options);

    assert!(!report.ok);
    assert_eq!(report.would_submit_orders.len(), 1);
    assert!(report.submitted_reports.is_empty());
    assert!(failed(&report.checks, "cleanup_notional_limit"));
}

#[test]
fn a_trial_without_an_answer_from_the_gateway_sends_nothing() {
    let config = live_config();
    let options = canary_options();
    let progress = match run_copy_execution_canary(&config, &options, now_ms()).unwrap() {
        TrialNext::GoOn(progress) => progress,
        TrialNext::Done(report) => panic!("gate closed: {report:#?}"),
    };
    let records = vec![record("addr_a", "sig-a", 100.0)];
    let progress =
        match trial_with_records(&config, &options, progress, records, empty_snapshot()) {
            TrialNext::GoOn(progress) => progress,
            TrialNext::Done(report) => panic!("records refused: {report:#?}"),
        };
    let next =
        trial_with_decisions(&config, &options, progress, &Vec::new(), empty_snapshot()).unwrap();
    match next {
        TrialNext::Done(report) => {
            assert!(!report.ok);
            assert!(failed(&report.checks, "would_submit_orders"));
            assert_eq!(report.shadow_records_written, 1);
        }
        TrialNext::GoOn(_) => panic!("an empty plan must not go on"),
    }
}

#[test]
fn a_trial_for_an_unknown_account_fails_before_planning() {
    let config = live_config();
    let options = canary_options();
    let progress = match run_copy_execution_canary(&config, &options, now_ms()).unwrap() {
        TrialNext::GoOn(progress) => progress,
        TrialNext::Done(report) => panic!("gate closed: {report:#?}"),
    };
    let records = vec![record("addr_x", "sig-x", 100.0)];
    let progress =
        match trial_with_records(&config, &options, progress, records, empty_snapshot()) {
            TrialNext::GoOn(progress) => progress,
            TrialNext::Done(report) => panic!("records refused: {report:#?}"),
        };
    let error =
        trial_with_decisions(&config, &options, progress, &Vec::new(), empty_snapshot())
            .expect_err("the account is not configured");
    assert_eq!(error, "account addr_x not found");
}

#[test]
fn a_trial_refuses_invalid_requests() {
    let config = live_config();
    let cases: Vec<(fn(&mut CopyExecutionCanaryOptions), &str)> = vec![
        (|o| o.leader_size = 0, "leader_size must be positive for copy execution canary"),
        (
            |o| o.leader_notional_usd = 0,
            "leader_notional_usd must be positive for copy execution canary",
        ),
        (|o| o.max_orders = 0, "max_orders must be positive for copy execution canary"),
        (
            |o| o.cleanup_max_slippage_bps = 10_000_000_000_000,
            "cleanup_max_slippage_bps must be >= 0 and < 10000",
        ),
        (
            |o| {
                o.preflight_only = true;
                o.live = false;
            },
            "copy execution canary --preflight-only requires --live true",
        ),
        (
            |o| o.leaders = vec!["=0xaa".to_string()],
            "invalid --leader =0xaa; use leader_id=0xAddress",
        ),
    ];
    for (change, expected) in cases {
        let mut options = canary_options();
        change(&mut options);
        let error = run_copy_execution_canary(&config, &options, now_ms())
            .expect_err("the request is invalid");
        assert_eq!(error, expected);
    }
}

#[test]
fn copy_live_daemon_acceptance_dry_run_passes_with_restart_dedupe_probe() {
    let config = test_config();
    let report = run_copy_live_daemon_acceptance(
        &config,
        acceptance_options(),
        findings(vec![would_submit("addr_a", 100.0)]),
    )
    .unwrap();

    assert!(report.ok, "{report:#?}");
    assert_eq!(report.mode, "copy_live_daemon_acceptance_dry_run");
    assert_eq!(report.would_submit_orders.len(), 1);
    assert_eq!(report.would_submit_orders[0].notional_usd, usd(100.0));
    assert_eq!(report.restart_dedupe_probe.first_emit_count, 1);
    assert_eq!(report.restart_dedupe_probe.replay_emit_count, 0);
    assert_eq!(report.restart_dedupe_probe.fresh_after_restart_emit_count, 1);
    assert!(report.checks.iter().any(|check| check.name == "cloid_plan" && check.ok));
}

#[test]
fn copy_live_daemon_acceptance_live_gate_fails_closed_without_operator_gates() {
    let mut config = test_config();
    config.app.dry_run = false;
    config.app.environment = "mainnet".to_string();
    let mut options = acceptance_options();
    options.live = true;

    let report = run_copy_live_daemon_acceptance(
        &config,
        options,
        findings(vec![would_submit("addr_a", 100.0)]),
    )
    .unwrap();

    assert!(!report.ok);
    for expected in [
        "allow_live_submit",
        "mainnet_confirmation",
        "manual_live_enabled",
        "mainnet_live_enabled",
    ] {
        assert!(
            failed(&report.checks, expected),
            "missing failed check {expected}: {:#?}",
            report.checks
        );
    }
    assert!(report.would_submit_orders.len() == 1);
    assert!(report.next_actions[0].contains("Do not start unattended live copy"));
}

#[test]
fn copy_live_daemon_acceptance_rejects_unbounded_operator_limits() {
    let config = test_config();
    let mut options = acceptance_options();
    options.account_ids = vec!["addr_a".to_string(), "addr_b".to_string()];
    options.leader_notional_usd = usd(240.0);
    options.max_duration_secs = 7_200;
    options.max_total_notional_usd = usd(10.0);
    options.max_total_fees_usd = usd(2.0);
    options.max_slippage_bps = usd(250.0);
    options.require_cleanup_after_submit = false;
    options.require_flat_reconcile_after_submit = false;

    let report = run_copy_live_daemon_acceptance(
        &config,
        options,
        findings(vec![would_submit("addr_a", 100.0), would_submit("addr_b", 100.0)]),
    )
    .unwrap();

    assert!(!report.ok);
    for expected in [
        "bounded_duration",
        "bounded_total_notional",
        "bounded_total_fees",
        "bounded_slippage",
        "cleanup_policy",
        "flat_reconcile_policy",
        "max_live_order_count",
    ] {
        assert!(
            failed(&report.checks, expected),
            "missing failed check {expected}: {:#?}",
            report.checks
        );
    }
}

#[test]
fn copy_live_daemon_acceptance_live_order_cap_scales_with_selected_accounts() {
    let mut config = test_config();
    for (account_id, address_suffix) in [("addr_c", "3"), ("addr_d", "4")] {
        config.accounts.push(test_account(
            account_id,
            &format!("0x000000000000000000000000000000000000000{address_suffix}"),
            0.05,
        ));
    }
    config.app.dry_run = false;
    config.manual_ops.manual_live_enabled = true;
    let account_ids = vec![
        "addr_a".to_string(),
        "addr_b".to_string(),
        "addr_c".to_string(),
        "addr_d".to_string(),
    ];
    let orders: Vec<CopyExecutionCanaryWouldSubmit> =
        account_ids.iter().map(|account_id| would_submit(account_id, 100.0)).collect();
    let mut base_options = acceptance_options();
    base_options.account_ids = account_ids.clone();
    base_options.live = true;
    base_options.allow_live_submit = true;
    base_options.max_live_orders = account_ids.len();
    base_options.max_total_notional_usd = usd(1000.0);
    base_options.max_total_fees_usd = usd(1.0);

    let accepted =
        run_copy_live_daemon_acceptance(&config, base_options.clone(), findings(orders.clone()))
            .unwrap();
    let bounded = accepted
        .checks
        .iter()
        .find(|check| check.name == "bounded_live_orders")
        .expect("bounded_live_orders check");
    assert!(bounded.ok, "{bounded:#?}");

    let mut too_low = base_options;
    too_low.max_live_orders = account_ids.len() - 1;
    let rejected = run_copy_live_daemon_acceptance(&config, too_low, findings(orders)).unwrap();
    let bounded = rejected
        .checks
        .iter()
        .find(|check| check.name == "bounded_live_orders")
        .expect("bounded_live_orders check");
    assert!(!bounded.ok, "{bounded:#?}");
}

#[test]
fn the_gate_refuses_a_process_that_replays() {
    let config = test_config();
    let mut replaying = findings(vec![would_submit("addr_a", 100.0)]);
    replaying.restart_probe.replay_emit_count = 1;
    let report =
        run_copy_live_daemon_acceptance(&config, acceptance_options(), replaying).unwrap();
    assert!(!report.ok);
    assert!(failed(&report.checks, "restart_dedupe_probe"));
}

#[test]
fn a_smoke_run_reports_what_it_wrote() {
    let config = test_config();
    let mut options = smoke_options();
    options.synthetic_event = true;
    let start = start_copy_shadow_smoke(&config, &options, true, 2).unwrap();
    assert_eq!(next_smoke_step(&options, &start), SmokeStep::RunSyntheticEvent);

    let account = config.account("addr_a").unwrap().clone();
    let session = run_synthetic_copy_shadow_event(
        &config,
        &options,
        &account,
        &start.leaders[0],
        &start.target_accounts,
        now_ms(),
    );
    assert_eq!(session.strategy.strategy_id, "copy_shadow_smoke");
    assert_eq!(session.pipeline.principal_cap_usd, usd(10.0));
    assert!(session.pipeline.live_gate.process_dry_run);
    assert!(!session.pipeline.live_gate.live_copy_enabled);
    assert_eq!(session.after_at_ms, now_ms() + 2);
    match &session.trade {
        CopyLeaderWatcherEvent::Fill { fill, is_snapshot, .. } => {
            assert!(!is_snapshot);
            assert_eq!(fill.event_id, format!("copy-shadow-smoke-{}", now_ms()));
            assert_eq!(fill.price, usd(100.0));
            assert_eq!(fill.side, OrderSide::Buy);
        }
        other => panic!("not a trade: {other:?}"),
    }

    let report = run_copy_shadow_smoke(
        &config,
        &options,
        start,
        vec!["{}".to_string(), "{}".to_string()],
        1,
        1,
    );
    assert!(report.ok, "{report:#?}");
    assert_eq!(report.synthetic_records_written, 1);
    assert_eq!(report.recent_shadow_entries, 1);
    assert_eq!(
        report.next_commands,
        vec![
            "cargo run --manifest-path V2\\Cargo.toml -- copy-shadow-smoke --config config/dry-run.example.toml --leader leader_a=0x00000000000000000000000000000000000000aa --coin xyz:XYZ100 --shadow-history unused-copy-shadow.jsonl --synthetic-event true"
                .to_string()
        ]
    );
}

#[test]
fn a_smoke_run_needs_an_account_and_a_leader_for_its_event() {
    let config = test_config();
    let mut options = smoke_options();
    options.synthetic_event = true;
    options.local_account_id = Some("addr_x".to_string());
    let start = start_copy_shadow_smoke(&config, &options, true, 1).unwrap();
    assert_eq!(next_smoke_step(&options, &start), SmokeStep::ReportNoAccount);
    let report = run_copy_shadow_smoke(&config, &options, start, Vec::new(), 5, 0);
    assert!(!report.ok);
    assert_eq!(report.synthetic_records_written, 0);

    options.local_account_id = None;
    options.leaders = Vec::new();
    let start = start_copy_shadow_smoke(&config, &options, true, 0).unwrap();
    assert_eq!(start.local_account_id.as_deref(), Some("addr_a"));
    assert_eq!(next_smoke_step(&options, &start), SmokeStep::ReportNoLeader);
    let report = run_copy_shadow_smoke(&config, &options, start, Vec::new(), 5, 0);
    assert!(!report.ok);
    assert!(failed(&report.checks, "synthetic_shadow_pipeline"));
    assert!(report.next_commands[0].contains("--leader leader_a=0xLEADER_ADDRESS"));
}

#[test]
fn a_smoke_run_refuses_invalid_requests() {
    let config = test_config();
    let mut options = smoke_options();
    options.leader_size = 0;
    assert_eq!(
        start_copy_shadow_smoke(&config, &options, true, 1).unwrap_err(),
        "leader_size must be positive for copy shadow smoke"
    );
    let mut options = smoke_options();
    options.leader_notional_usd = -1;
    assert_eq!(
        start_copy_shadow_smoke(&config, &options, true, 1).unwrap_err(),
        "leader_notional_usd must be positive for copy shadow smoke"
    );
}

#[test]
fn made_up_sessions_cover_every_configured_account() {
    let config = test_config();
    let mut options = acceptance_options();
    options.side = OrderSide::Sell;
    let leaders = parse_copy_shadow_smoke_leaders(&options.leaders).unwrap();
    let targets = vec!["addr_a".to_string(), "addr_x".to_string(), "addr_b".to_string()];
    let sessions =
        copy_live_daemon_synthetic_sessions(&config, &options, &leaders, &targets, now_ms());
    assert_eq!(sessions.len(), 2);
    assert_eq!(sessions[1].pipeline.local_account_id, "addr_b");
    assert_eq!(sessions[1].pipeline.account_copy_ratio, usd(0.05));
    match &sessions[1].after {
        CopyLeaderWatcherEvent::PositionSnapshots { snapshots, dex, .. } => {
            assert_eq!(snapshots[0].signed_size, usd(-1.0));
            assert_eq!(dex.as_deref(), Some("xyz"));
        }
        other => panic!("not a position: {other:?}"),
    }
    assert!(
        copy_live_daemon_synthetic_sessions(&config, &options, &Vec::new(), &targets, now_ms())
            .is_empty()
    );
}

#[test]
fn a_restart_probe_asks_for_the_same_event_twice() {
    let options = acceptance_options();
    let plan = plan_restart_dedupe_probe(&options, &Vec::new(), 7);
    assert_eq!(plan.action.leader_id, "acceptance_leader");
    assert_eq!(plan.action.event_id, "copy-live-daemon-acceptance-replay-7");
    assert_eq!(plan.fresh_event_id, "copy-live-daemon-acceptance-replay-7-fresh");
    assert_eq!(plan.action.market.as_deref(), Some("xyz_perp"));
    assert!(plan.action.opens_long);
    assert_eq!(plan.save_at_ms, 8);
}

#[test]
fn copy_live_daemon_plan_refs_preserve_shadow_record_identity() {
    let config = test_config();
    let records = vec![record("addr_a", "copy-leader_a-event-open-1001", 12.0)];
    let decisions = vec![RiskDecision::Approved(approved("addr_a", "xyz:XYZ100", 12.0))];

    let refs = plan_copy_daemon_acceptance_order_refs(&config, &records, &decisions).unwrap();

    assert_eq!(refs.len(), 1);
    assert_eq!(refs[0].record_index, 0);
    assert_eq!(refs[0].signal_id, records[0].signal.as_ref().unwrap().signal_id);
    assert_eq!(refs[0].leader_id, records[0].leader_id);
    assert_eq!(refs[0].leader_address, records[0].leader_address);
    assert_eq!(refs[0].order.account_id, "addr_a");
    assert_eq!(refs[0].order.coin, "xyz:XYZ100");
}

/// The ledger after a submission under a client id was entered as filled.
fn filled_ledger(cloid: &str, oid: u64, filled_at_ms: Option<u64>) -> CopyPersistenceSnapshot {
    let mut filled = entry("addr_a", "xyz:XYZ100", OrderSide::Buy, 12.0);
    filled.order_cloid = Some(cloid.to_string());
    filled.order_oid = Some(oid);
    filled.filled_at_ms = filled_at_ms;
    CopyPersistenceSnapshot::new(now_ms(), Vec::new(), vec![filled])
}

fn applied() -> CopyLedgerReconcileResult {
    CopyLedgerReconcileResult {
        applied: true,
        reason_code: None,
        status: Some(CopyLedgerStatus::Open),
    }
}

#[test]
fn copy_execution_canary_live_report_fails_without_cleanup_evidence() {
    let mut config = test_config();
    config.app.dry_run = false;
    config.manual_ops.manual_live_enabled = true;
    let mut options = canary_options();
    options.leader_notional_usd = usd(120.0);
    let leader = parse_copy_shadow_smoke_leaders(&options.leaders).unwrap().remove(0);
    let cloid = "00000000-0000-0000-0000-000000000001";
    let mut submitted = submitted_order("addr_a", cloid, 12.0);
    submitted.oid = Some(1);
    let records = vec![record("addr_a", "sig", 12.0)];
    let reports = vec![WorkerReport::Submitted(submitted)];
    let work = reconcile_copy_canary_ledger(&records, &reports, &Vec::new());
    assert_eq!(work.steps.len(), 1);

    let report = copy_execution_canary_report(
        &config,
        &options,
        false,
        vec!["addr_a".to_string()],
        Some(leader),
        vec![
            CopyShadowSmokeCheck {
                name: "all_live_gates".to_string(),
                ok: true,
                detail: "test live gates satisfied".to_string(),
            },
            CopyShadowSmokeCheck {
                name: "cleanup_runbook_completed".to_string(),
                ok: false,
                detail: "cleanup missing".to_string(),
            },
        ],
        CanaryOutcome {
            records,
            would_submit_orders: vec![would_submit("addr_a", 12.0)],
            submitted_reports: reports,
            order_evidence: Vec::new(),
            ledger_reconciliations: vec![applied()],
            ledger_reconciliation_snapshot: filled_ledger(cloid, 1, Some(now_ms())),
            cleanup_runbooks: Vec::new(),
            cleanup_errors: vec!["cleanup missing".to_string()],
        },
    );

    assert!(!report.ok);
    assert_eq!(report.cleanup_errors, vec!["cleanup missing".to_string()]);
    assert!(report.next_actions.iter().any(|action| {
        action.contains("reconcile the account immediately")
            && action.contains("reduce-only close")
    }));
    assert_eq!(report.ledger_reconciliations.len(), 1);
    assert!(report.ledger_reconciliations[0].applied);
    assert_eq!(report.ledger_reconciliations[0].status, Some(CopyLedgerStatus::Open));
    let entry = &report.ledger_reconciliation_snapshot.ledger_entries[0];
    assert_eq!(entry.status, CopyLedgerStatus::Open);
    assert_eq!(entry.order_cloid.as_deref(), Some("00000000-0000-0000-0000-000000000001"));
    assert_eq!(entry.order_oid, Some(1));
}

#[test]
fn copy_execution_canary_live_report_accepts_owned_order_evidence() {
    let mut config = test_config();
    config.app.dry_run = false;
    config.manual_ops.manual_live_enabled = true;
    let mut options = canary_options();
    options.leader_notional_usd = usd(120.0);
    let leader = parse_copy_shadow_smoke_leaders(&options.leaders).unwrap().remove(0);
    let cloid = "00000000-0000-0000-0000-000000000001".to_string();
    let submitted_at_ms = now_ms();
    let oid = 42;
    let mut submitted = submitted_order("addr_a", &cloid, 12.0);
    submitted.exchange_status = Some("open".to_string());
    submitted.filled_size = None;
    submitted.avg_fill_price = None;
    let fill = UserFill {
        coin: "xyz:XYZ100".to_string(),
        px: "30000.0".to_string(),
        sz: "0.0004".to_string(),
        side: "B".to_string(),
        time: submitted_at_ms + 20,
        dir: "Open Long".to_string(),
        closed_pnl: "0.0".to_string(),
        hash: "0xabc".to_string(),
        oid,
        crossed: true,
        fee: "0.001".to_string(),
    };
    let status = OrderStatusResponse {
        status: "order".to_string(),
        order: Some(OrderStatusInfo {
            order: OrderStatusOrder {
                coin: "xyz:XYZ100".to_string(),
                side: "B".to_string(),
                limit_px: "30000.0".to_string(),
                sz: "0.0004".to_string(),
                oid,
                timestamp: submitted_at_ms,
                reduce_only: false,
                orig_sz: "0.0004".to_string(),
                cloid: Some(cloid.clone()),
            },
            status: "filled".to_string(),
            status_timestamp: submitted_at_ms + 10,
        }),
    };
    let evidence = collect_copy_canary_order_evidence(
        &submitted,
        OrderFindings {
            fill_error: None,
            status: Ok(status),
            account_fills: vec![fill],
            fills_by_time: None,
        },
    );
    assert_eq!(evidence.user_fill_count, 1);
    assert_eq!(evidence.matching_fill_count, 1);
    let records = vec![record("addr_a", "sig", 12.0)];
    let reports = vec![WorkerReport::Submitted(submitted)];
    let order_evidence = vec![evidence];
    let work = reconcile_copy_canary_ledger(&records, &reports, &order_evidence);
    assert_eq!(work.steps.len(), 2);

    let report = copy_execution_canary_report(
        &config,
        &options,
        false,
        vec!["addr_a".to_string()],
        Some(leader),
        vec![
            CopyShadowSmokeCheck {
                name: "all_live_gates".to_string(),
                ok: true,
                detail: "test live gates satisfied".to_string(),
            },
            CopyShadowSmokeCheck {
                name: "cleanup_runbook_completed".to_string(),
                ok: true,
                detail: "cleanup completed".to_string(),
            },
        ],
        CanaryOutcome {
            records,
            would_submit_orders: vec![would_submit("addr_a", 12.0)],
            submitted_reports: reports,
            order_evidence,
            ledger_reconciliations: vec![applied(), applied()],
            ledger_reconciliation_snapshot: filled_ledger(&cloid, oid, Some(submitted_at_ms + 20)),
            cleanup_runbooks: Vec::new(),
            cleanup_errors: Vec::new(),
        },
    );

    assert!(!report.ok, "cleanup evidence is intentionally absent in this focused unit test");
    assert!(
        report
            .checks
            .iter()
            .any(|check| check.name == "order_status_evidence" && check.ok)
    );
    assert!(
        report
            .checks
            .iter()
            .any(|check| check.name == "ledger_reconciliation" && check.ok)
    );
    assert_eq!(report.order_evidence.len(), 1);
    assert_eq!(report.ledger_reconciliations.len(), 2);
    assert!(report.ledger_reconciliations.iter().all(|result| result.applied));
    let entry = &report.ledger_reconciliation_snapshot.ledger_entries[0];
    assert_eq!(entry.status, CopyLedgerStatus::Open);
    assert_eq!(entry.order_cloid.as_deref(), Some(cloid.as_str()));
    assert_eq!(entry.order_oid, Some(oid));
    assert_eq!(entry.filled_at_ms, Some(submitted_at_ms + 20));
}

#[test]
fn a_preflight_sends_none_of_its_approved_orders() {
    let decisions = || {
        vec![
            RiskDecision::Approved(approved("addr_a", "xyz:XYZ100", 100.0)),
            RiskDecision::Approved(approved("addr_b", "xyz:XYZ100", 50.0)),
        ]
    };
    let mut options = canary_options();
    options.preflight_only = true;
    assert!(trial_dispatch(&options, decisions()).is_empty());
    options.preflight_only = false;
    let steps = trial_dispatch(&options, decisions());
    assert_eq!(steps.len(), 2);
    assert!(matches!(&steps[0], DispatchStep::Send(order) if order.account_id == "addr_a"));
    assert!(matches!(&steps[1], DispatchStep::Send(order) if order.account_id == "addr_b"));
}

#[test]
fn acceptance_adds_up_beyond_the_largest_amount() {
    let config = test_config();
    let mut order = would_submit("addr_a", 50.0);
    order.notional_usd = i64::MAX;
    let run = |orders: Vec<CopyExecutionCanaryWouldSubmit>| {
        let mut options = acceptance_options();
        options.max_total_notional_usd = i64::MAX;
        run_copy_live_daemon_acceptance(&config, options, findings(orders)).unwrap()
    };
    let within = run(vec![order.clone()]);
    assert!(!failed(&within.checks, "bounded_total_notional"));
    let beyond = run(vec![order, would_submit("addr_a", 50.0)]);
    assert!(failed(&beyond.checks, "bounded_total_notional"));
}
