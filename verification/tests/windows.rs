//! Bounded windows and sequences of them.

use copy_daemon::acceptance::{
    AcceptanceFindings, CopyLiveDaemonAcceptanceReport, CopyLiveDaemonRestartProbe,
    run_copy_live_daemon_acceptance,
};
use copy_daemon::canary::CopyExecutionCanaryReport;
use copy_daemon::checks::CopyShadowSmokeCheck;
use copy_daemon::config::{
    AccountConfig, AppConfig, AppSection, GlobalRiskSection, HyperliquidSection, ManualOpsSection,
    ProcessSection, RiskSection,
};
use copy_daemon::domain::{ExecutionMode, OrderSide, OrderSubmitted, WorkerReport};
use copy_daemon::intent::{
    ApprovedOrder, CopyDryRunShadowRecord, CopySignal, CopySignalRiskDecision, RiskDecision,
};
use copy_daemon::ledger::CopyPersistenceSnapshot;
use copy_daemon::options::{
    CopyBoundedLiveWindowOptions, CopyExecutionCanaryOptions, CopyLiveDaemonAcceptanceOptions,
    CopyLiveStabilitySoakOptions, copy_stability_round_path,
};
use copy_daemon::plan::CopyExecutionCanaryWouldSubmit;
use copy_daemon::reconcile::CopyBoundedLiveWindowReconcile;
use copy_daemon::soak::{
    SoakProgress, SoakStep, StopReason, check_soak_start, copy_live_stability_estimated_fees_usd,
    copy_live_stability_expected_round_notional, copy_live_stability_round_submission_totals,
    copy_live_stability_soak_ok, new_soak_run, run_copy_live_stability_soak,
    soak_acceptance_options, soak_after_round, soak_before_round, soak_next, soak_progress,
    soak_round_options, soak_take_round, stop_reason_text, validate_soak_options,
};
use copy_daemon::trial::{
    TrialNext, TrialSent, finish_trial, run_copy_execution_canary, trial_dispatch,
    trial_with_decisions, trial_with_records,
};
use copy_daemon::window::{
    CopyBoundedLiveWindowReport, WindowOutcome, check_window_gate, copy_bounded_live_window_ok,
    run_copy_bounded_live_window, window_acceptance_options, window_canary_options,
};

/// A sum of amounts in dollars.
fn sum_usd(x: f64) -> i128 {
    i128::from(usd(x))
}

/// Fees in dollars.
fn fees_usd(x: f64) -> i128 {
    (x * 1e12).round() as i128
}

/// An amount in dollars as a fixed-point number.
fn usd(x: f64) -> i64 {
    (x * 1e9).round() as i64
}

fn now_ms() -> u64 {
    1_781_745_839_800
}

fn test_account(account_id: &str, address: &str, copy_ratio: f64) -> AccountConfig {
    AccountConfig {
        account_id: account_id.to_string(),
        address: address.to_string(),
        enabled: true,
        worker_enabled: true,
        copy_ratio: usd(copy_ratio),
        max_order_notional_usd: usd(100.0),
    }
}

fn test_config() -> AppConfig {
    AppConfig {
        app: AppSection { environment: "testnet".to_string(), dry_run: true },
        hyperliquid: HyperliquidSection {
            dex: "xyz".to_string(),
            ws_url: "wss://api.hyperliquid.xyz/ws".to_string(),
        },
        process: ProcessSection { signal_ttl_ms: 3000 },
        manual_ops: ManualOpsSection {
            manual_live_enabled: false,
            mainnet_live_enabled: false,
            max_manual_order_notional_usd: usd(25.0),
        },
        risk: RiskSection {
            global: GlobalRiskSection { allow_reduce_only_when_killed: true },
        },
        accounts: vec![
            test_account("addr_a", "0x0000000000000000000000000000000000000001", 0.10),
            test_account("addr_b", "0x0000000000000000000000000000000000000002", 0.05),
        ],
        copy_blocked_symbols: Vec::new(),
    }
}

/// An account without orders or positions.
fn flat_account(account_id: &str) -> CopyBoundedLiveWindowReconcile {
    CopyBoundedLiveWindowReconcile {
        account_id: account_id.to_string(),
        ok: true,
        open_order_count: Some(0),
        asset_positions: Some(0),
        position_summaries: Vec::new(),
        account_value: Some("100.0".to_string()),
        withdrawable: Some("100.0".to_string()),
        total_ntl_pos: Some("0.0".to_string()),
        total_margin_used: Some("0.0".to_string()),
        error: None,
    }
}

/// A restart probe that behaved: one signal, none on replay, one when fresh.
fn probe() -> CopyLiveDaemonRestartProbe {
    CopyLiveDaemonRestartProbe {
        event_id: "probe".to_string(),
        first_emit_count: 1,
        replay_emit_count: 0,
        fresh_after_restart_emit_count: 1,
        saved_seen_event_keys: 1,
        loaded_seen_event_keys: 1,
    }
}

/// The order that a trial plans for an account.
fn would_submit(account_id: &str, notional_usd: f64) -> CopyExecutionCanaryWouldSubmit {
    CopyExecutionCanaryWouldSubmit {
        account_id: account_id.to_string(),
        worker_id: format!("worker-{account_id}"),
        coin: "xyz:XYZ100".to_string(),
        side: OrderSide::Buy,
        notional_usd: usd(notional_usd),
        reduce_only: false,
        cloid: format!("00000000-0000-0000-0000-{account_id}"),
    }
}

fn findings(orders: Vec<CopyExecutionCanaryWouldSubmit>) -> AcceptanceFindings {
    AcceptanceFindings {
        restart_probe: probe(),
        persistence_seen_keys: 0,
        persistence_ledger_entries: 0,
        would_submit_orders: orders,
    }
}

fn empty_snapshot() -> CopyPersistenceSnapshot {
    CopyPersistenceSnapshot::new(now_ms(), Vec::new(), Vec::new())
}

/// A record of an approved signal for one account.
fn record(account_id: &str, signal_id: &str, notional_usd: f64) -> CopyDryRunShadowRecord {
    CopyDryRunShadowRecord {
        leader_id: "leader_a".to_string(),
        leader_address: "0x00000000000000000000000000000000000000aa".to_string(),
        risk_decision: CopySignalRiskDecision::Approved {
            side: OrderSide::Buy,
            reduce_only: false,
            notional_usd: usd(notional_usd),
        },
        signal: Some(CopySignal {
            signal_id: signal_id.to_string(),
            target_accounts: vec![account_id.to_string()],
        }),
        ledger_entry: None,
        seen_event_keys: Vec::new(),
    }
}

/// An order that the risk gateway approved.
fn approved(account_id: &str, coin: &str, notional_usd: f64) -> ApprovedOrder {
    ApprovedOrder {
        risk_decision_id: "risk-1".to_string(),
        intent_id: "intent-1".to_string(),
        signal_id: Some("sig-1".to_string()),
        worker_id: format!("worker-{account_id}"),
        account_id: account_id.to_string(),
        strategy_id: "copy".to_string(),
        market: Some("xyz_perp".to_string()),
        dex: Some("xyz".to_string()),
        coin: coin.to_string(),
        side: OrderSide::Buy,
        notional_usd: usd(notional_usd),
        execution_mode: ExecutionMode::Taker,
        max_slippage_bps: usd(50.0),
        reduce_only: false,
        cloid: "00000000-0000-0000-0000-000000000009".to_string(),
        expires_at_ms: None,
    }
}

/// An order that the exchange filled.
fn submitted_order(account_id: &str, cloid: &str, notional_usd: f64) -> OrderSubmitted {
    OrderSubmitted {
        signal_id: "sig".to_string(),
        intent_id: "intent".to_string(),
        worker_id: format!("worker-{account_id}"),
        account_id: account_id.to_string(),
        cloid: cloid.to_string(),
        coin: "xyz:XYZ100".to_string(),
        side: OrderSide::Buy,
        notional_usd: usd(notional_usd),
        submitted_price: Some(usd(30_000.0)),
        submitted_size: Some(usd(0.0004)),
        exchange_status: Some("filled".to_string()),
        oid: Some(42),
        filled_size: Some(usd(0.0004)),
        avg_fill_price: Some(usd(30_000.0)),
        dry_run: false,
        submitted_at_ms: now_ms(),
    }
}

fn acceptance_report(config: &AppConfig) -> CopyLiveDaemonAcceptanceReport {
    run_copy_live_daemon_acceptance(
        config,
        CopyLiveDaemonAcceptanceOptions {
            leaders: vec!["leader_a=0x00000000000000000000000000000000000000aa".to_string()],
            account_ids: vec!["addr_a".to_string()],
            coin: "xyz:XYZ100".to_string(),
            side: OrderSide::Buy,
            persistence_path: "copy-persistence.json".to_string(),
            shadow_history_path: "copy-shadow.jsonl".to_string(),
            leader_notional_usd: usd(120.0),
            leader_size: usd(1.0),
            live: true,
            allow_live_submit: true,
            confirm_mainnet_live: false,
            max_duration_secs: 300,
            max_live_orders: 1,
            max_total_notional_usd: usd(150.0),
            max_total_fees_usd: usd(0.10),
            max_slippage_bps: usd(50.0),
            require_cleanup_after_submit: true,
            require_flat_reconcile_after_submit: true,
        },
        findings(vec![would_submit("addr_a", 100.0)]),
    )
    .unwrap()
}

/// A rehearsal of one order in a live configuration.
fn preflight_report(config: &AppConfig) -> CopyExecutionCanaryReport {
    let options = CopyExecutionCanaryOptions {
        leaders: vec!["leader_a=0x00000000000000000000000000000000000000aa".to_string()],
        account_ids: vec!["addr_a".to_string()],
        coin: "xyz:XYZ100".to_string(),
        side: OrderSide::Buy,
        local_account_id: None,
        shadow_history_path: "copy-canary-shadow.jsonl".to_string(),
        leader_notional_usd: usd(120.0),
        leader_size: usd(1.0),
        live: true,
        allow_live_submit: true,
        confirm_mainnet_live: false,
        cleanup_after_submit: true,
        cleanup_max_slippage_bps: usd(50.0),
        preflight_only: true,
        max_orders: 1,
    };
    let progress = match run_copy_execution_canary(config, &options, now_ms()).unwrap() {
        TrialNext::GoOn(progress) => progress,
        TrialNext::Done(report) => return report,
    };
    let records = vec![record("addr_a", "sig-a", 100.0)];
    let progress =
        match trial_with_records(config, &options, progress, records, empty_snapshot()) {
            TrialNext::GoOn(progress) => progress,
            TrialNext::Done(report) => return report,
        };
    let decisions = vec![RiskDecision::Approved(approved("addr_a", "xyz:XYZ100", 100.0))];
    let progress =
        match trial_with_decisions(config, &options, progress, &decisions, empty_snapshot())
            .unwrap()
        {
            TrialNext::GoOn(progress) => progress,
            TrialNext::Done(report) => return report,
        };
    assert!(trial_dispatch(&options, decisions).is_empty());
    let sent = TrialSent {
        submitted_reports: Vec::new(),
        order_evidence: Vec::new(),
        ledger_reconciliations: Vec::new(),
        ledger_reconciliation_snapshot: empty_snapshot(),
        cleanup_runbooks: Vec::new(),
        cleanup_errors: Vec::new(),
    };
    finish_trial(config, &options, progress, sent)
}

fn live_config() -> AppConfig {
    let mut config = test_config();
    config.app.dry_run = false;
    config.manual_ops.manual_live_enabled = true;
    config.manual_ops.max_manual_order_notional_usd = usd(100.0);
    config
}

fn all_checks(name: &str) -> Vec<CopyShadowSmokeCheck> {
    vec![CopyShadowSmokeCheck {
        name: name.to_string(),
        ok: true,
        detail: "test".to_string(),
    }]
}

fn window_options(submit: bool) -> CopyBoundedLiveWindowOptions {
    CopyBoundedLiveWindowOptions {
        leaders: vec!["leader_a=0x00000000000000000000000000000000000000aa".to_string()],
        account_ids: vec!["addr_a".to_string()],
        coin: "xyz:XYZ100".to_string(),
        side: OrderSide::Buy,
        persistence_path: "window.json".to_string(),
        shadow_history_path: "window.jsonl".to_string(),
        leader_notional_usd: usd(120.0),
        leader_size: usd(1.0),
        submit,
        allow_live_submit: true,
        confirm_mainnet_live: false,
        max_duration_secs: 300,
        max_live_orders: 1,
        max_total_notional_usd: usd(150.0),
        max_total_fees_usd: usd(0.10),
        max_slippage_bps: usd(50.0),
        cleanup_max_slippage_bps: usd(50.0),
    }
}

fn soak_options() -> CopyLiveStabilitySoakOptions {
    CopyLiveStabilitySoakOptions {
        leaders: vec!["leader_a=0x00000000000000000000000000000000000000aa".to_string()],
        account_ids: vec!["addr_a".to_string()],
        coin: "xyz:XYZ100".to_string(),
        side: OrderSide::Buy,
        persistence_path: "soak-persistence.json".to_string(),
        shadow_history_path: "soak-shadow.jsonl".to_string(),
        leader_notional_usd: usd(120.0),
        leader_size: usd(1.0),
        submit: true,
        allow_live_submit: true,
        confirm_mainnet_live: false,
        duration_secs: 300,
        interval_secs: 1,
        max_rounds: 2,
        max_live_orders: 1,
        max_total_notional_usd: usd(50.0),
        max_total_fees_usd: usd(0.10),
        max_slippage_bps: usd(50.0),
        cleanup_max_slippage_bps: usd(50.0),
    }
}

/// A round that sent one order of twelve dollars.
fn soak_round(config: &AppConfig) -> CopyBoundedLiveWindowReport {
    let acceptance = acceptance_report(config);
    let preflight = preflight_report(config);
    let mut execution = preflight.clone();
    execution.submitted_reports = vec![WorkerReport::Submitted(submitted_order(
        "addr_a",
        "00000000-0000-0000-0000-000000000001",
        12.0,
    ))];
    CopyBoundedLiveWindowReport {
        ok: true,
        mode: "copy_bounded_live_window_submit".to_string(),
        environment: config.app.environment.clone(),
        submit_requested: true,
        live_submit_allowed: true,
        confirm_mainnet_live: false,
        max_duration_secs: 300,
        max_live_orders: 1,
        max_total_notional_usd: usd(50.0),
        max_total_fees_usd: usd(0.10),
        max_slippage_bps: usd(50.0),
        cleanup_max_slippage_bps: usd(50.0),
        target_accounts: vec!["addr_a".to_string()],
        checks: all_checks("all_round_checks"),
        acceptance,
        preflight,
        execution: Some(execution),
        final_reconciliations: vec![flat_account("addr_a")],
        next_actions: Vec::new(),
    }
}

#[test]
fn copy_bounded_live_window_ok_requires_submit_execution_and_flat_reconcile() {
    let config = live_config();
    let acceptance = acceptance_report(&config);
    let preflight = preflight_report(&config);
    let checks = all_checks("all_checks");
    let flat = vec![flat_account("addr_a")];
    let mut open_order = flat_account("addr_a");
    open_order.ok = false;
    open_order.open_order_count = Some(1);
    let not_flat = vec![open_order];

    assert!(acceptance.ok, "{acceptance:#?}");
    assert!(preflight.ok, "{preflight:#?}");
    assert!(copy_bounded_live_window_ok(
        false, &checks, &acceptance, &preflight, None, &flat
    ));
    assert!(!copy_bounded_live_window_ok(
        false, &checks, &acceptance, &preflight, Some(&preflight), &flat
    ));
    assert!(!copy_bounded_live_window_ok(
        true, &checks, &acceptance, &preflight, None, &flat
    ));
    assert!(copy_bounded_live_window_ok(
        true, &checks, &acceptance, &preflight, Some(&preflight), &flat
    ));
    assert!(!copy_bounded_live_window_ok(
        true, &checks, &acceptance, &preflight, Some(&preflight), &not_flat
    ));
}

#[test]
fn copy_live_stability_soak_ok_requires_rounds_limits_and_flat_reconcile() {
    let config = live_config();
    let options = soak_options();
    let flat = vec![flat_account("addr_a")];
    let rounds = vec![soak_round(&config)];
    let (orders, notional) = copy_live_stability_round_submission_totals(&rounds[0]);
    let checks = all_checks("all_soak_checks");

    assert_eq!(orders, 1);
    assert_eq!(notional, sum_usd(12.0));
    assert!(copy_live_stability_soak_ok(
        true, &checks, &rounds, orders, notional, fees_usd(12.0 * 0.001), &options, &flat
    ));
    assert!(!copy_live_stability_soak_ok(
        true, &checks, &rounds, 0, notional, fees_usd(12.0 * 0.001), &options, &flat
    ));
    assert!(!copy_live_stability_soak_ok(
        true, &checks, &rounds, orders, sum_usd(51.0), fees_usd(12.0 * 0.001), &options, &flat
    ));
    assert!(!copy_live_stability_soak_ok(
        true, &checks, &Vec::new(), 0, sum_usd(0.0), fees_usd(0.0), &options, &flat
    ));
}

#[test]
fn a_window_that_only_rehearses_does_not_execute() {
    let config = live_config();
    let options = window_options(false);
    let acceptance = acceptance_report(&config);
    let preflight = preflight_report(&config);
    let (checks, executes) = check_window_gate(false, &acceptance, &preflight);
    assert_eq!(checks.len(), 3);
    assert!(!executes);
    let outcome = WindowOutcome {
        target_accounts: vec!["addr_a".to_string()],
        acceptance,
        preflight,
        execution: None,
        final_reconciliations: vec![flat_account("addr_a")],
    };
    let report = run_copy_bounded_live_window(&config, &options, outcome);
    assert!(report.ok, "{report:#?}");
    assert_eq!(report.mode, "copy_bounded_live_window_no_submit");
    assert_eq!(report.checks[3].detail, "no-submit bounded window stopped before live execution");
    assert_eq!(report.checks[4].detail, "1/1 account(s) flat with no open orders");
    assert!(report.next_actions[0].starts_with("No-submit bounded live window passed"));
}

#[test]
fn a_window_behind_a_failed_gate_does_not_execute() {
    let config = live_config();
    let options = window_options(true);
    let mut acceptance = acceptance_report(&config);
    acceptance.ok = false;
    let preflight = preflight_report(&config);
    let (_, executes) = check_window_gate(true, &acceptance, &preflight);
    assert!(!executes);
    let outcome = WindowOutcome {
        target_accounts: vec!["addr_a".to_string()],
        acceptance,
        preflight,
        execution: None,
        final_reconciliations: vec![flat_account("addr_a")],
    };
    let report = run_copy_bounded_live_window(&config, &options, outcome);
    assert!(!report.ok);
    assert_eq!(
        report.checks[3].detail,
        "submit requested but execution was skipped because earlier gates failed"
    );
    assert!(report.next_actions[0].starts_with("Do not submit or widen live copy"));
}

#[test]
fn a_window_that_sent_orders_ends_flat() {
    let config = live_config();
    let options = window_options(true);
    let acceptance = acceptance_report(&config);
    let preflight = preflight_report(&config);
    let (_, executes) = check_window_gate(true, &acceptance, &preflight);
    assert!(executes);
    let mut execution = preflight.clone();
    execution.submitted_reports =
        vec![WorkerReport::Submitted(submitted_order("addr_a", "cloid-1", 12.0))];
    let outcome = WindowOutcome {
        target_accounts: vec!["addr_a".to_string()],
        acceptance,
        preflight,
        execution: Some(execution),
        final_reconciliations: vec![flat_account("addr_a")],
    };
    let report = run_copy_bounded_live_window(&config, &options, outcome);
    assert!(report.ok, "{report:#?}");
    assert_eq!(
        report.checks[3].detail,
        "execution ok=true submitted_reports=1 cleanup_errors=0"
    );
}

#[test]
fn a_window_asks_its_gate_and_its_trial_for_the_same_thing() {
    let options = window_options(true);
    let targets = vec!["addr_b".to_string()];
    let gate = window_acceptance_options(&options, &targets);
    assert!(gate.live && gate.require_cleanup_after_submit);
    assert_eq!(gate.account_ids, targets);
    assert_eq!(gate.max_total_notional_usd, usd(150.0));
    let rehearsal = window_canary_options(&options, &targets, true);
    assert!(rehearsal.preflight_only && rehearsal.live && rehearsal.cleanup_after_submit);
    assert_eq!(rehearsal.max_orders, 1);
    assert!(!window_canary_options(&options, &targets, false).preflight_only);
}

#[test]
fn a_soak_refuses_invalid_requests() {
    let cases: Vec<(fn(&mut CopyLiveStabilitySoakOptions), &str)> = vec![
        (|o| o.duration_secs = 0, "duration_secs must be positive for copy live stability soak"),
        (|o| o.max_rounds = 0, "max_rounds must be positive for copy live stability soak"),
        (
            |o| o.max_live_orders = 2,
            "copy live stability soak is restricted to --max-live-orders 1",
        ),
        (|o| o.max_total_notional_usd = 0, "max_total_notional_usd must be positive"),
        (|o| o.max_total_fees_usd = -1, "max_total_fees_usd must be non-negative"),
    ];
    for (change, expected) in cases {
        let mut options = soak_options();
        change(&mut options);
        assert_eq!(validate_soak_options(&options).unwrap_err(), expected);
    }
    assert!(validate_soak_options(&soak_options()).is_ok());
}

#[test]
fn a_soak_starts_only_within_its_bounds() {
    let config = live_config();
    let (checks, go) = check_soak_start(&config, &soak_options(), 1, sum_usd(12.0));
    assert!(go, "{checks:#?}");
    assert_eq!(checks.len(), 10);
    assert_eq!(
        checks[9].detail,
        "expected_round_fees_usd=0.024000 must be <= max_total_fees_usd=0.100000"
    );

    let mut options = soak_options();
    options.max_total_notional_usd = usd(250.5);
    let (checks, go) = check_soak_start(&config, &options, 1, sum_usd(12.0));
    assert!(!go);
    assert_eq!(
        checks[4].detail,
        "max_total_notional_usd=250.5 must be <= 250 for this guarded soak"
    );

    let (checks, go) = check_soak_start(&config, &soak_options(), 2, sum_usd(0.0));
    assert!(!go);
    assert!(!checks[0].ok && !checks[8].ok);
}

#[test]
fn a_soak_stops_at_the_first_limit_it_meets() {
    let options = soak_options();
    let fresh = soak_progress(&Vec::new());
    assert_eq!(
        soak_before_round(&options, fresh, sum_usd(12.0), 0),
        SoakStep::RunRound {
            number: 1,
            remaining_notional: usd(50.0),
            remaining_fees: fees_usd(0.10),
        }
    );
    assert_eq!(
        soak_before_round(&options, fresh, sum_usd(12.0), 300_000_000_000),
        SoakStep::Stop(StopReason::CompletedDuration)
    );
    assert_eq!(
        soak_before_round(&options, fresh, sum_usd(50.1), 0),
        SoakStep::Stop(StopReason::TotalNotionalLimitBeforeRound)
    );
    let mut rich = soak_options();
    rich.max_total_notional_usd = usd(200.0);
    assert_eq!(
        soak_before_round(&rich, fresh, sum_usd(60.0), 0),
        SoakStep::Stop(StopReason::TotalFeeLimitBeforeRound)
    );
    let spent = SoakProgress {
        rounds: 1,
        total_submitted_orders: 1,
        total_submitted_notional_usd: sum_usd(50.0),
        estimated_fees_usd: fees_usd(0.10),
    };
    assert_eq!(
        soak_before_round(&options, spent, sum_usd(12.0), 0),
        SoakStep::Stop(StopReason::TotalNotionalLimit)
    );
    let done = SoakProgress { rounds: 2, ..spent };
    assert_eq!(
        soak_before_round(&options, done, sum_usd(12.0), 0),
        SoakStep::Stop(StopReason::CompletedMaxRounds)
    );
}

#[test]
fn a_soak_pauses_between_rounds() {
    let options = soak_options();
    let one = SoakProgress {
        rounds: 1,
        total_submitted_orders: 1,
        total_submitted_notional_usd: sum_usd(12.0),
        estimated_fees_usd: fees_usd(0.024),
    };
    assert_eq!(
        soak_after_round(&options, one, true, 5_000_000_000),
        SoakStep::SleepNanos(1_000_000_000)
    );
    assert_eq!(
        soak_after_round(&options, one, true, 299_500_000_000),
        SoakStep::SleepNanos(500_000_000)
    );
    assert_eq!(
        soak_after_round(&options, one, true, 300_000_000_000),
        SoakStep::Stop(StopReason::CompletedDuration)
    );
    assert_eq!(
        soak_after_round(&options, one, false, 0),
        SoakStep::Stop(StopReason::RoundFailed(1))
    );
    let over = SoakProgress { estimated_fees_usd: fees_usd(0.11), ..one };
    assert_eq!(
        soak_after_round(&options, over, true, 0),
        SoakStep::Stop(StopReason::TotalFeeLimit)
    );
    assert_eq!(stop_reason_text(StopReason::RoundFailed(12)), "stopped_round_12_failed");
}

#[test]
fn a_good_soak_adds_up_its_rounds() {
    let config = live_config();
    let options = soak_options();
    let (checks, _) = check_soak_start(&config, &options, 1, sum_usd(12.0));
    let mut run = new_soak_run(&options, checks, sum_usd(12.0));
    assert!(matches!(soak_next(&mut run, &options, 0), SoakStep::RunRound { number: 1, .. }));
    assert_eq!(
        soak_take_round(&mut run, &options, soak_round(&config), 5_000_000_000),
        SoakStep::SleepNanos(1_000_000_000)
    );
    assert_eq!(
        soak_next(&mut run, &options, 6_000_000_000),
        SoakStep::RunRound {
            number: 2,
            remaining_notional: usd(38.0),
            remaining_fees: fees_usd(0.076),
        }
    );
    assert_eq!(
        soak_take_round(&mut run, &options, soak_round(&config), 9_000_000_000),
        SoakStep::Stop(StopReason::CompletedMaxRounds)
    );
    let progress = soak_progress(&run.rounds);
    assert_eq!(progress.rounds, 2);
    assert_eq!(progress.total_submitted_orders, 2);
    assert_eq!(progress.total_submitted_notional_usd, sum_usd(24.0));
    assert_eq!(progress.estimated_fees_usd, fees_usd(0.048));
    let report = run_copy_live_stability_soak(
        &config,
        &options,
        vec!["addr_a".to_string()],
        run,
        1234,
        vec![flat_account("addr_a")],
    );
    assert!(report.ok, "{report:#?}");
    assert_eq!(report.rounds_passed, 2);
    assert_eq!(report.stop_reason, "completed_max_rounds");
    assert_eq!(
        report.checks[13].detail,
        "total_submitted_notional_usd=24.000000 must be <= 50.000000"
    );
}

#[test]
fn a_soak_hands_its_rounds_what_is_left() {
    let options = soak_options();
    let targets = vec!["addr_a".to_string()];
    let round = soak_round_options(
        &options,
        &targets,
        copy_stability_round_path(Some("soak-persistence.json"), 3),
        copy_stability_round_path(None, 1000),
        usd(38.0),
        fees_usd(-0.5),
    );
    assert_eq!(round.persistence_path, "soak-persistence.json.round-003");
    assert_eq!(round.shadow_history_path, "copy-live-stability-soak.round-1000");
    assert_eq!(round.max_total_notional_usd, usd(38.0));
    assert_eq!(round.max_total_fees_usd, 0);
    assert_eq!(
        copy_live_stability_expected_round_notional(&vec![
            would_submit("addr_a", 12.0),
            would_submit("addr_b", 30.5),
        ]),
        sum_usd(42.5)
    );
    assert_eq!(copy_live_stability_estimated_fees_usd(sum_usd(-3.0)), 0);
    assert_eq!(copy_live_stability_estimated_fees_usd(501), 1002);
    assert!(soak_acceptance_options(&options, &targets).live);
}

#[test]
fn a_failed_round_ends_a_soak() {
    let config = live_config();
    let options = soak_options();
    let (checks, _) = check_soak_start(&config, &options, 1, sum_usd(12.0));
    let mut run = new_soak_run(&options, checks, sum_usd(12.0));
    assert!(matches!(soak_next(&mut run, &options, 0), SoakStep::RunRound { .. }));
    let mut failed = soak_round(&config);
    failed.ok = false;
    assert_eq!(
        soak_take_round(&mut run, &options, failed, 0),
        SoakStep::Stop(StopReason::RoundFailed(1))
    );
    assert_eq!(
        soak_next(&mut run, &options, 0),
        SoakStep::Stop(StopReason::RoundFailed(1))
    );
    let report = run_copy_live_stability_soak(
        &config,
        &options,
        vec!["addr_a".to_string()],
        run,
        1234,
        vec![flat_account("addr_a")],
    );
    assert!(!report.ok);
    assert_eq!(report.rounds_attempted, 1);
    assert_eq!(report.rounds_passed, 0);
    assert_eq!(report.stop_reason, "stopped_round_1_failed");
}

#[test]
fn a_soak_that_may_not_start_runs_no_round() {
    let config = live_config();
    let options = soak_options();
    let (checks, go) = check_soak_start(&config, &options, 2, sum_usd(12.0));
    assert!(!go);
    let mut run = new_soak_run(&options, checks, sum_usd(12.0));
    assert_eq!(
        soak_next(&mut run, &options, 0),
        SoakStep::Stop(StopReason::InitialGateFailed)
    );
    let report = run_copy_live_stability_soak(
        &config,
        &options,
        vec!["addr_a".to_string()],
        run,
        1234,
        vec![flat_account("addr_a")],
    );
    assert!(!report.ok);
    assert!(report.rounds.is_empty());
    assert_eq!(report.stop_reason, "skipped_initial_gate_failed");
}

#[test]
fn a_soak_without_submit_sends_nothing() {
    let config = live_config();
    let mut options = soak_options();
    options.submit = false;
    options.max_rounds = 1;
    let (checks, _) = check_soak_start(&config, &options, 1, sum_usd(12.0));
    let mut run = new_soak_run(&options, checks, sum_usd(12.0));
    assert!(matches!(soak_next(&mut run, &options, 0), SoakStep::RunRound { .. }));
    let mut round = soak_round(&config);
    round.execution = None;
    assert_eq!(
        soak_take_round(&mut run, &options, round, 0),
        SoakStep::Stop(StopReason::CompletedMaxRounds)
    );
    let report = run_copy_live_stability_soak(
        &config,
        &options,
        vec!["addr_a".to_string()],
        run,
        1234,
        vec![flat_account("addr_a")],
    );
    assert!(report.ok, "{report:#?}");
    assert_eq!(report.total_submitted_orders, 0);
    assert_eq!(report.total_submitted_notional_usd, 0);
    assert_eq!(report.mode, "copy_live_stability_soak_no_submit");
}

#[test]
fn a_soak_adds_up_beyond_the_largest_amount() {
    let config = live_config();
    let mut options = soak_options();
    options.max_total_notional_usd = i64::MAX;
    options.max_total_fees_usd = i64::MAX;
    let mut round = soak_round(&config);
    if let Some(execution) = &mut round.execution {
        let mut order = submitted_order("addr_a", "00000000-0000-0000-0000-000000000001", 12.0);
        order.notional_usd = i64::MAX;
        execution.submitted_reports = vec![WorkerReport::Submitted(order)];
    }
    let largest = i128::from(i64::MAX);
    let one = soak_progress(&vec![round.clone()]);
    assert_eq!(one.total_submitted_notional_usd, largest);
    assert_eq!(one.estimated_fees_usd, 2 * largest);
    let two = soak_progress(&vec![round.clone(), round]);
    assert_eq!(two.total_submitted_notional_usd, 2 * largest);
    assert_eq!(
        soak_after_round(&options, two, true, 0),
        SoakStep::Stop(StopReason::TotalNotionalLimit)
    );
    assert!(!copy_live_stability_soak_ok(
        true,
        &all_checks("all_round_checks"),
        &vec![soak_round(&config), soak_round(&config)],
        2,
        2 * largest,
        fees_usd(0.01),
        &options,
        &vec![flat_account("addr_a")],
    ));
}
