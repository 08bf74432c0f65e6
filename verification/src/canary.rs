//! A trial order per account, before anything larger is sent.

use vstd::prelude::*;

use crate::checks::{
    all_ok, all_ok_concat, append_checks, check, checks_all_ok, push_check, push_note, views, Check,
    CopyShadowSmokeCheck,
};
use crate::config::{
    account_checks, copy_execution_canary_target_accounts, push_account_checks, target_accounts,
    worker_ids, AppConfig,
};
use crate::decimal::{counted, dec, fixed6, fixed_plain, push_count, push_fixed6, push_plain, Fixed};
use crate::domain::{OrderSide, WorkerReport};
use crate::intent::{count_approved, leads_to_orders, CopyDryRunShadowRecord};
use crate::leaders::{
    leader_views, leaders_of, parse_copy_shadow_smoke_leaders, CopyShadowSmokeLeader,
};
use crate::ledger::CopyPersistenceSnapshot;
use crate::options::{is_slippage_valid, slippage_valid, CopyExecutionCanaryOptions};
use crate::plan::CopyExecutionCanaryWouldSubmit;
use crate::seqs::{filter_length, whole};
use crate::submit::{
    all_applied, all_runbooks_ok, copy_canary_live_submitted_reports, evidence_complete,
    evidence_is_complete, evidence_ok, live_orders, results_all_applied, runbook_ok,
    runbooks_all_ok, CopyExecutionCanaryOrderEvidence, CopyLedgerReconcileResult,
    SignedRunbookResult,
};
use crate::text::{clone_opt, join, joined, texts};

verus! {

/// The outcome of a trial.
#[derive(Clone, Debug)]
pub struct CopyExecutionCanaryReport {
    pub ok: bool,
    pub mode: String,
    pub environment: String,
    pub execution_dry_run: bool,
    pub live_requested: bool,
    pub live_submit_allowed: bool,
    pub confirm_mainnet_live: bool,
    pub cleanup_after_submit: bool,
    pub cleanup_max_slippage_bps: Fixed,
    pub preflight_only: bool,
    pub coin: String,
    pub side: OrderSide,
    pub target_accounts: Vec<String>,
    pub local_account_id: Option<String>,
    pub leader: Option<CopyShadowSmokeLeader>,
    pub checks: Vec<CopyShadowSmokeCheck>,
    pub shadow_records_written: usize,
    pub approved_shadow_records: usize,
    pub would_submit_orders: Vec<CopyExecutionCanaryWouldSubmit>,
    pub submitted_reports: Vec<WorkerReport>,
    pub order_evidence: Vec<CopyExecutionCanaryOrderEvidence>,
    pub ledger_reconciliations: Vec<CopyLedgerReconcileResult>,
    pub ledger_reconciliation_snapshot: CopyPersistenceSnapshot,
    pub cleanup_runbooks: Vec<SignedRunbookResult>,
    pub cleanup_errors: Vec<String>,
    pub next_actions: Vec<String>,
}

/// What is wrong with what an operator asked for, if anything.
pub open spec fn canary_error(o: CopyExecutionCanaryOptions) -> Option<Seq<char>> {
    if o.leader_size <= 0 {
        Some("leader_size must be positive for copy execution canary"@)
    } else if o.leader_notional_usd <= 0 {
        Some("leader_notional_usd must be positive for copy execution canary"@)
    } else if o.max_orders == 0 {
        Some("max_orders must be positive for copy execution canary"@)
    } else if !slippage_valid(o.cleanup_max_slippage_bps) {
        Some("cleanup_max_slippage_bps must be >= 0 and < 10000"@)
    } else if o.preflight_only && !o.live {
        Some("copy execution canary --preflight-only requires --live true"@)
    } else {
        None
    }
}

/// Checks what an operator asked for.
pub fn validate_canary_options(o: &CopyExecutionCanaryOptions) -> (r: Result<(), String>)
    ensures
        match canary_error(*o) {
            Some(e) => r is Err && r->Err_0@ == e,
            None => r is Ok,
        },
{
    if o.leader_size <= 0 {
        Err("leader_size must be positive for copy execution canary".to_owned())
    } else if o.leader_notional_usd <= 0 {
        Err("leader_notional_usd must be positive for copy execution canary".to_owned())
    } else if o.max_orders == 0 {
        Err("max_orders must be positive for copy execution canary".to_owned())
    } else if !is_slippage_valid(o.cleanup_max_slippage_bps) {
        Err("cleanup_max_slippage_bps must be >= 0 and < 10000".to_owned())
    } else if o.preflight_only && !o.live {
        Err("copy execution canary --preflight-only requires --live true".to_owned())
    } else {
        Ok(())
    }
}

/// The checks that only a live trial has to pass.
pub open spec fn canary_live_checks(
    config: AppConfig,
    o: CopyExecutionCanaryOptions,
    accounts: int,
) -> Seq<Check> {
    seq![
        check(
            "live_config_not_dry_run"@,
            !config.app.dry_run,
            "live copy canary requires app.dry_run=false"@,
        ),
        check(
            "allow_live_submit"@,
            o.allow_live_submit,
            "live copy canary requires --allow-live-submit true"@,
        ),
        check(
            "single_account_live_canary"@,
            accounts == 1,
            "live copy canary is restricted to exactly one account"@,
        ),
        check(
            "single_order_live_canary"@,
            o.max_orders == 1,
            "live copy canary is restricted to --max-orders 1"@,
        ),
        check(
            "cleanup_after_submit"@,
            o.cleanup_after_submit,
            "live copy canary requires --cleanup-after-submit true so reduce-only cleanup is bundled"@,
        ),
        check(
            "cleanup_slippage_valid"@,
            slippage_valid(o.cleanup_max_slippage_bps),
            "cleanup_max_slippage_bps="@ + fixed_plain(o.cleanup_max_slippage_bps as int)
                + " must be >= 0 and < 10000"@,
        ),
        check(
            "preflight_only_mode"@,
            !o.preflight_only || o.live,
            "copy execution canary preflight-only mode is only meaningful with --live true"@,
        ),
        check(
            "mainnet_confirmation"@,
            !config.is_mainnet() || o.confirm_mainnet_live,
            "mainnet live copy canary requires --confirm-mainnet-live true"@,
        ),
        check(
            "manual_live_enabled"@,
            config.manual_ops.manual_live_enabled,
            "live copy canary uses the same manual live gate as signed smoke"@,
        ),
        check(
            "mainnet_live_enabled"@,
            !config.is_mainnet() || config.manual_ops.mainnet_live_enabled,
            "mainnet live copy canary requires manual_ops.mainnet_live_enabled=true"@,
        ),
    ]
}

/// The checks that only a live trial has to pass.
pub fn copy_execution_canary_live_checks(
    config: &AppConfig,
    options: &CopyExecutionCanaryOptions,
    target_accounts: &Vec<String>,
) -> (r: Vec<CopyShadowSmokeCheck>)
    ensures
        views(r@) == canary_live_checks(*config, *options, target_accounts@.len() as int),
{
    let mut c: Vec<CopyShadowSmokeCheck> = Vec::new();
    assert(views(c@) =~= Seq::empty());
    let mainnet: bool = config.on_mainnet();
    push_note(
        &mut c,
        "live_config_not_dry_run",
        !config.app.dry_run,
        "live copy canary requires app.dry_run=false",
    );
    push_note(
        &mut c,
        "allow_live_submit",
        options.allow_live_submit,
        "live copy canary requires --allow-live-submit true",
    );
    push_note(
        &mut c,
        "single_account_live_canary",
        target_accounts.len() == 1,
        "live copy canary is restricted to exactly one account",
    );
    push_note(
        &mut c,
        "single_order_live_canary",
        options.max_orders == 1,
        "live copy canary is restricted to --max-orders 1",
    );
    push_note(
        &mut c,
        "cleanup_after_submit",
        options.cleanup_after_submit,
        "live copy canary requires --cleanup-after-submit true so reduce-only cleanup is bundled",
    );
    let mut d: String = "cleanup_max_slippage_bps=".to_owned();
    push_plain(&mut d, options.cleanup_max_slippage_bps);
    d.append(" must be >= 0 and < 10000");
    push_check(
        &mut c,
        "cleanup_slippage_valid",
        is_slippage_valid(options.cleanup_max_slippage_bps),
        d,
    );
    push_note(
        &mut c,
        "preflight_only_mode",
        !options.preflight_only || options.live,
        "copy execution canary preflight-only mode is only meaningful with --live true",
    );
    push_note(
        &mut c,
        "mainnet_confirmation",
        !mainnet || options.confirm_mainnet_live,
        "mainnet live copy canary requires --confirm-mainnet-live true",
    );
    push_note(
        &mut c,
        "manual_live_enabled",
        config.manual_ops.manual_live_enabled,
        "live copy canary uses the same manual live gate as signed smoke",
    );
    push_note(
        &mut c,
        "mainnet_live_enabled",
        !mainnet || config.manual_ops.mainnet_live_enabled,
        "mainnet live copy canary requires manual_ops.mainnet_live_enabled=true",
    );
    c
}

/// What an optional borrowed text says.
pub open spec fn local_id(o: Option<String>) -> Option<Seq<char>> {
    match o {
        Some(s) => Some(s@),
        None => None,
    }
}

/// The checks on whom a trial is for.
pub open spec fn canary_party_checks(
    leaders: int,
    workers: int,
    accounts: int,
) -> Seq<Check> {
    seq![
        check(
            "leaders_configured"@,
            leaders > 0,
            dec(leaders as nat) + " leader target(s), first leader is used for canary"@,
        ),
        check(
            "enabled_worker_accounts"@,
            workers > 0,
            dec(workers as nat) + " enabled worker account(s)"@,
        ),
        check(
            "target_accounts"@,
            accounts > 0,
            dec(accounts as nat) + " canary target account(s)"@,
        ),
    ]
}

/// The checks on how a trial runs.
pub open spec fn canary_mode_checks(
    config: AppConfig,
    o: CopyExecutionCanaryOptions,
    accounts: int,
) -> Seq<Check> {
    let first = check(
        "max_orders_positive"@,
        o.max_orders > 0,
        "max_orders="@ + dec(o.max_orders as nat),
    );
    if o.live {
        seq![first] + canary_live_checks(config, o, accounts)
    } else {
        seq![
            first,
            check(
                "dry_run_execution"@,
                true,
                "copy execution canary defaults to AccountExecutor::dry_run and cannot submit exchange actions"@,
            ),
        ]
    }
}

/// All checks that have to pass before a trial starts.
pub open spec fn canary_gate_checks(
    config: AppConfig,
    o: CopyExecutionCanaryOptions,
    leaders: int,
) -> Seq<Check> {
    let accounts = target_accounts(config, o.account_ids@, local_id(o.local_account_id));
    canary_party_checks(
        leaders,
        worker_ids(config.accounts@).len() as int,
        accounts.len() as int,
    ) + account_checks(config, accounts) + canary_mode_checks(config, o, accounts.len() as int)
}

/// How a trial starts: its leader, its accounts, and the checks so far.
#[derive(Debug)]
pub struct CanaryStart {
    pub leader: Option<CopyShadowSmokeLeader>,
    pub target_accounts: Vec<String>,
    pub checks: Vec<CopyShadowSmokeCheck>,
    pub proceed: bool,
}

fn push_canary_party_checks(
    checks: &mut Vec<CopyShadowSmokeCheck>,
    leaders: usize,
    workers: usize,
    accounts: usize,
)
    ensures
        views(final(checks)@) == views(old(checks)@) + canary_party_checks(
            leaders as int,
            workers as int,
            accounts as int,
        ),
{
    let ghost start = views(checks@);
    push_check(
        checks,
        "leaders_configured",
        leaders > 0,
        counted(leaders, " leader target(s), first leader is used for canary"),
    );
    push_check(
        checks,
        "enabled_worker_accounts",
        workers > 0,
        counted(workers, " enabled worker account(s)"),
    );
    push_check(
        checks,
        "target_accounts",
        accounts > 0,
        counted(accounts, " canary target account(s)"),
    );
    assert(views(checks@) =~= start + canary_party_checks(
        leaders as int,
        workers as int,
        accounts as int,
    ));
}

fn push_canary_mode_checks(
    checks: &mut Vec<CopyShadowSmokeCheck>,
    config: &AppConfig,
    o: &CopyExecutionCanaryOptions,
    accounts: &Vec<String>,
)
    ensures
        views(final(checks)@) == views(old(checks)@) + canary_mode_checks(
            *config,
            *o,
            accounts@.len() as int,
        ),
{
    let ghost start = views(checks@);
    let mut d: String = "max_orders=".to_owned();
    push_count(&mut d, o.max_orders);
    push_check(checks, "max_orders_positive", o.max_orders > 0, d);
    if o.live {
        append_checks(checks, copy_execution_canary_live_checks(config, o, accounts));
    } else {
        push_note(
            checks,
            "dry_run_execution",
            true,
            "copy execution canary defaults to AccountExecutor::dry_run and cannot submit exchange actions",
        );
    }
    assert(views(checks@) =~= start + canary_mode_checks(*config, *o, accounts@.len() as int));
}

/// Starts a trial: what the operator asked for is checked, the leaders are read,
/// and the entry checks are made on the configuration.
pub fn start_copy_execution_canary(
    config: &AppConfig,
    options: &CopyExecutionCanaryOptions,
) -> (r: Result<CanaryStart, String>)
    ensures
        match canary_error(*options) {
            Some(e) => r is Err && r->Err_0@ == e,
            None => match leaders_of(texts(options.leaders@)) {
                Err(e) => r is Err && r->Err_0@ == e,
                Ok(leaders) => r is Ok && ({
                    let start = r->Ok_0;
                    let checks = canary_gate_checks(*config, *options, leaders.len() as int);
                    &&& views(start.checks@) == checks
                    &&& start.proceed == all_ok(checks)
                    &&& texts(start.target_accounts@) == target_accounts(
                        *config,
                        options.account_ids@,
                        local_id(options.local_account_id),
                    )
                    &&& (start.leader is Some) == (leaders.len() > 0)
                    &&& start.leader is Some ==> start.leader->0@ == leaders[0]
                    &&& start.proceed ==> start.leader is Some
                }),
            },
        },
{
    match validate_canary_options(options) {
        Err(e) => {
            return Err(e);
        },
        Ok(_) => {},
    }
    let leaders: Vec<CopyShadowSmokeLeader> = match parse_copy_shadow_smoke_leaders(
        &options.leaders,
    ) {
        Err(e) => {
            return Err(e);
        },
        Ok(v) => v,
    };
    let workers: Vec<String> = config.enabled_worker_ids();
    let local: Option<&str> = match &options.local_account_id {
        Some(s) => Some(s.as_str()),
        None => None,
    };
    let accounts: Vec<String> = copy_execution_canary_target_accounts(
        config,
        &options.account_ids,
        local,
    );
    let ghost views_of_leaders = leader_views(leaders@);
    assert(views_of_leaders.len() == leaders@.len());
    assert(texts(accounts@).len() == accounts@.len());
    let mut checks: Vec<CopyShadowSmokeCheck> = Vec::new();
    assert(views(checks@) =~= Seq::empty());
    push_canary_party_checks(&mut checks, leaders.len(), workers.len(), accounts.len());
    let ghost parties = canary_party_checks(
        leaders@.len() as int,
        workers@.len() as int,
        accounts@.len() as int,
    );
    assert(views(checks@) =~= parties);
    push_account_checks(&mut checks, config, &accounts);
    push_canary_mode_checks(&mut checks, config, options, &accounts);
    let proceed: bool = checks_all_ok(&checks);
    let leader: Option<CopyShadowSmokeLeader> = if leaders.len() > 0 {
        assert(leader_views(leaders@)[0] == leaders@[0]@);
        Some(leaders[0].clone())
    } else {
        None
    };
    proof {
        if proceed {
            let rest = views(checks@);
            assert(rest[0] == parties[0]);
            assert(rest[0].ok);
        }
    }
    Ok(CanaryStart { leader, target_accounts: accounts, checks, proceed })
}

/// The checks on the records that a trial produced.
pub open spec fn record_checks(approved: int, max_orders: int) -> Seq<Check> {
    seq![
        check(
            "approved_shadow_records"@,
            approved > 0,
            dec(approved as nat) + " approved shadow record(s)"@,
        ),
        check(
            "max_orders_guard"@,
            approved <= max_orders,
            dec(approved as nat) + " approved shadow record(s) must be <= max_orders "@ + dec(
                max_orders as nat,
            ),
        ),
    ]
}

/// Appends the checks on the records that a trial produced, and says whether the
/// trial goes on.
pub fn push_canary_record_checks(
    checks: &mut Vec<CopyShadowSmokeCheck>,
    records: &Vec<CopyDryRunShadowRecord>,
    max_orders: usize,
) -> (proceed: bool)
    ensures
        views(final(checks)@) == views(old(checks)@) + record_checks(
            records@.filter(leads_to_orders()).len() as int,
            max_orders as int,
        ),
        proceed == all_ok(views(final(checks)@)),
{
    let ghost start = views(checks@);
    let approved: usize = count_approved(records);
    push_check(
        checks,
        "approved_shadow_records",
        approved > 0,
        counted(approved, " approved shadow record(s)"),
    );
    let mut d: String = counted(approved, " approved shadow record(s) must be <= max_orders ");
    push_count(&mut d, max_orders);
    push_check(checks, "max_orders_guard", approved <= max_orders, d);
    assert(views(checks@) =~= start + record_checks(approved as int, max_orders as int));
    checks_all_ok(checks)
}

/// The largest notional that an order of a list opens, or zero.
pub open spec fn max_opened(orders: Seq<CopyExecutionCanaryWouldSubmit>) -> int
    decreases orders.len(),
{
    if orders.len() == 0 {
        0
    } else {
        let m = max_opened(orders.drop_last());
        let o = orders.last();
        if !o.reduce_only && o.notional_usd > m {
            o.notional_usd as int
        } else {
            m
        }
    }
}

fn largest_opened(orders: &Vec<CopyExecutionCanaryWouldSubmit>) -> (r: Fixed)
    ensures
        r == max_opened(orders@),
{
    let mut m: Fixed = 0;
    let mut i: usize = 0;
    while i < orders.len()
        invariant
            i <= orders@.len(),
            m == max_opened(orders@.subrange(0, i as int)),
        decreases orders@.len() - i,
    {
        assert(orders@.subrange(0, i as int + 1).drop_last() =~= orders@.subrange(0, i as int));
        if !orders[i].reduce_only && orders[i].notional_usd > m {
            m = orders[i].notional_usd;
        }
        i += 1;
    }
    proof {
        whole(orders@);
    }
    m
}

/// The checks on the orders that a trial would send.
pub open spec fn canary_order_checks(
    config: AppConfig,
    o: CopyExecutionCanaryOptions,
    orders: Seq<CopyExecutionCanaryWouldSubmit>,
) -> Seq<Check> {
    let first = check(
        "would_submit_orders"@,
        orders.len() > 0,
        dec(orders.len()) + " approved order plan(s)"@,
    );
    if o.live && o.cleanup_after_submit {
        seq![
            first,
            check(
                "cleanup_notional_limit"@,
                max_opened(orders) <= config.manual_ops.max_manual_order_notional_usd,
                "max planned open notional "@ + fixed6(max_opened(orders))
                    + " must be <= manual_ops.max_manual_order_notional_usd "@ + fixed6(
                    config.manual_ops.max_manual_order_notional_usd as int,
                ) + " so bundled reduce-only cleanup cannot be blocked"@,
            ),
        ]
    } else {
        seq![first]
    }
}

/// Appends the checks on the orders that a trial would send, and says whether
/// the trial goes on.
pub fn push_canary_order_checks(
    checks: &mut Vec<CopyShadowSmokeCheck>,
    config: &AppConfig,
    options: &CopyExecutionCanaryOptions,
    orders: &Vec<CopyExecutionCanaryWouldSubmit>,
) -> (proceed: bool)
    ensures
        views(final(checks)@) == views(old(checks)@) + canary_order_checks(
            *config,
            *options,
            orders@,
        ),
        proceed == all_ok(views(final(checks)@)),
{
    let ghost start = views(checks@);
    push_check(
        checks,
        "would_submit_orders",
        orders.len() > 0,
        counted(orders.len(), " approved order plan(s)"),
    );
    if options.live && options.cleanup_after_submit {
        let largest: Fixed = largest_opened(orders);
        let mut d: String = "max planned open notional ".to_owned();
        push_fixed6(&mut d, largest);
        d.append(" must be <= manual_ops.max_manual_order_notional_usd ");
        push_fixed6(&mut d, config.manual_ops.max_manual_order_notional_usd);
        d.append(" so bundled reduce-only cleanup cannot be blocked");
        push_check(
            checks,
            "cleanup_notional_limit",
            largest <= config.manual_ops.max_manual_order_notional_usd,
            d,
        );
    }
    assert(views(checks@) =~= start + canary_order_checks(*config, *options, orders@));
    checks_all_ok(checks)
}

/// The check on the cleanup of a trial.
pub open spec fn canary_cleanup_check(
    o: CopyExecutionCanaryOptions,
    runbooks: Seq<SignedRunbookResult>,
    errors: Seq<String>,
) -> Check {
    if errors.len() > 0 {
        check("cleanup_runbook_completed"@, false, joined(texts(errors), "; "@))
    } else {
        check(
            "cleanup_runbook_completed"@,
            !o.live || all_runbooks_ok(runbooks),
            if o.preflight_only {
                "preflight-only canary did not submit live orders or cleanup runbooks"@
            } else if o.live {
                dec(runbooks.len()) + " cleanup runbook(s) completed"@
            } else {
                "dry-run canary does not submit live orders or cleanup runbooks"@
            },
        )
    }
}

/// Appends the check on the cleanup of a trial.
pub fn push_canary_cleanup_check(
    checks: &mut Vec<CopyShadowSmokeCheck>,
    options: &CopyExecutionCanaryOptions,
    runbooks: &Vec<SignedRunbookResult>,
    errors: &Vec<String>,
)
    ensures
        views(final(checks)@) == views(old(checks)@).push(
            canary_cleanup_check(*options, runbooks@, errors@),
        ),
{
    if errors.len() > 0 {
        push_check(checks, "cleanup_runbook_completed", false, join(errors, "; "));
    } else {
        let detail: String = if options.preflight_only {
            "preflight-only canary did not submit live orders or cleanup runbooks".to_owned()
        } else if options.live {
            counted(runbooks.len(), " cleanup runbook(s) completed")
        } else {
            "dry-run canary does not submit live orders or cleanup runbooks".to_owned()
        };
        push_check(
            checks,
            "cleanup_runbook_completed",
            !options.live || runbooks_all_ok(runbooks),
            detail,
        );
    }
}

/// What came of a trial.
#[derive(Debug)]
pub struct CanaryOutcome {
    pub records: Vec<CopyDryRunShadowRecord>,
    pub would_submit_orders: Vec<CopyExecutionCanaryWouldSubmit>,
    pub submitted_reports: Vec<WorkerReport>,
    pub order_evidence: Vec<CopyExecutionCanaryOrderEvidence>,
    pub ledger_reconciliations: Vec<CopyLedgerReconcileResult>,
    pub ledger_reconciliation_snapshot: CopyPersistenceSnapshot,
    pub cleanup_runbooks: Vec<SignedRunbookResult>,
    pub cleanup_errors: Vec<String>,
}

/// Whether every order that was really sent is proved, as far as the trial sends
/// any.
pub open spec fn canary_evidence_ok(o: CopyExecutionCanaryOptions, c: CanaryOutcome) -> bool {
    let live = live_orders(c.submitted_reports@).len() as int;
    o.preflight_only || !o.live || live == 0 || evidence_complete(c.order_evidence@, live)
}

/// Whether every report was entered into the ledger, as far as the trial sends
/// any order.
pub open spec fn canary_ledger_ok(o: CopyExecutionCanaryOptions, c: CanaryOutcome) -> bool {
    o.preflight_only || !o.live || live_orders(c.submitted_reports@).len() == 0 || all_applied(
        c.ledger_reconciliations@,
    )
}

/// Whether every order that was really sent was closed again.
pub open spec fn canary_cleanup_ok(o: CopyExecutionCanaryOptions, c: CanaryOutcome) -> bool {
    let live = live_orders(c.submitted_reports@).len();
    o.preflight_only || !o.live || (live > 0 && c.cleanup_runbooks@.len() == live
        && c.cleanup_errors@.len() == 0 && all_runbooks_ok(c.cleanup_runbooks@))
}

/// Whether every report is a submission or a receipt.
pub open spec fn all_taken(reports: Seq<WorkerReport>) -> bool {
    forall|i: int|
        0 <= i < reports.len() ==> (#[trigger] reports[i]) is Submitted || reports[i] is Ack
}

/// Whether a trial did what it was asked to: plan without sending, or send
/// without a refusal.
pub open spec fn canary_execution_ok(o: CopyExecutionCanaryOptions, c: CanaryOutcome) -> bool {
    if o.preflight_only {
        c.would_submit_orders@.len() > 0 && c.submitted_reports@.len() == 0
    } else {
        c.submitted_reports@.len() > 0 && all_taken(c.submitted_reports@)
    }
}

/// The checks on what came of a trial.
pub open spec fn canary_outcome_checks(
    o: CopyExecutionCanaryOptions,
    c: CanaryOutcome,
) -> Seq<Check> {
    let live = live_orders(c.submitted_reports@).len();
    seq![
        check(
            "order_status_evidence"@,
            canary_evidence_ok(o, c),
            if o.preflight_only {
                "preflight-only canary has no live submitted orders to query"@
            } else if !o.live {
                "dry-run canary does not query live orderStatus/userFills evidence"@
            } else {
                dec(live) + " live submitted report(s), "@ + dec(c.order_evidence@.len())
                    + " order evidence record(s)"@
            },
        ),
        check(
            "ledger_reconciliation"@,
            canary_ledger_ok(o, c),
            if o.preflight_only {
                "preflight-only canary has no submitted reports to reconcile"@
            } else if !o.live {
                dec(c.ledger_reconciliations@.len())
                    + " dry-run submitted report(s) observed without mutating the copy ledger"@
            } else {
                dec(live) + " live submitted report(s), "@ + dec(c.ledger_reconciliations@.len())
                    + " ledger reconciliation result(s)"@
            },
        ),
    ]
}

/// Whether a trial went well.
pub open spec fn canary_ok(
    o: CopyExecutionCanaryOptions,
    checks: Seq<Check>,
    c: CanaryOutcome,
) -> bool {
    &&& all_ok(checks)
    &&& c.records@.filter(leads_to_orders()).len() > 0
    &&& canary_execution_ok(o, c)
    &&& canary_evidence_ok(o, c)
    &&& canary_ledger_ok(o, c)
    &&& canary_cleanup_ok(o, c)
}

/// What an operator should do after a trial.
pub open spec fn canary_advice(
    o: CopyExecutionCanaryOptions,
    checks_ok: bool,
    c: CanaryOutcome,
) -> Seq<char> {
    if o.live && c.submitted_reports@.len() == 0 {
        if o.preflight_only && checks_ok && c.would_submit_orders@.len() > 0 {
            "Preflight-only live canary passed without loading secrets or submitting; review would_submit_orders before real one-account canary."@
        } else {
            "No live order was submitted; fix failed checks before retrying live canary."@
        }
    } else if o.live && canary_cleanup_ok(o, c) {
        "Live canary submitted and bundled cleanup runbook completed; inspect post-submit reconciliation before widening scope."@
    } else if o.live {
        "Live canary did not complete bundled cleanup; reconcile the account immediately and use reduce-only close if any position remains."@
    } else {
        "Review submitted_reports and shadow history, then rerun with --live true only for a one-account canary."@
    }
}

fn reports_all_taken(reports: &Vec<WorkerReport>) -> (r: bool)
    ensures
        r == all_taken(reports@),
{
    let mut i: usize = 0;
    while i < reports.len()
        invariant
            i <= reports@.len(),
            forall|k: int|
                0 <= k < i ==> (#[trigger] reports@[k]) is Submitted || reports@[k] is Ack,
        decreases reports@.len() - i,
    {
        let taken: bool = match &reports[i] {
            WorkerReport::Submitted(_s) => true,
            WorkerReport::Ack(_a) => true,
            _ => false,
        };
        if !taken {
            return false;
        }
        i += 1;
    }
    true
}

fn evidence_holds(o: &CopyExecutionCanaryOptions, c: &CanaryOutcome, live: usize) -> (r: bool)
    requires
        live == live_orders(c.submitted_reports@).len(),
    ensures
        r == canary_evidence_ok(*o, *c),
{
    o.preflight_only || !o.live || live == 0 || evidence_is_complete(&c.order_evidence, live)
}

fn cleanup_holds(o: &CopyExecutionCanaryOptions, c: &CanaryOutcome, live: usize) -> (r: bool)
    requires
        live == live_orders(c.submitted_reports@).len(),
    ensures
        r == canary_cleanup_ok(*o, *c),
{
    o.preflight_only || !o.live || (live > 0 && c.cleanup_runbooks.len() == live
        && c.cleanup_errors.len() == 0 && runbooks_all_ok(&c.cleanup_runbooks))
}

fn push_canary_outcome_checks(
    checks: &mut Vec<CopyShadowSmokeCheck>,
    o: &CopyExecutionCanaryOptions,
    c: &CanaryOutcome,
    live: usize,
)
    requires
        live == live_orders(c.submitted_reports@).len(),
    ensures
        views(final(checks)@) == views(old(checks)@) + canary_outcome_checks(*o, *c),
{
    let ghost start = views(checks@);
    let detail: String = if o.preflight_only {
        "preflight-only canary has no live submitted orders to query".to_owned()
    } else if !o.live {
        "dry-run canary does not query live orderStatus/userFills evidence".to_owned()
    } else {
        let mut d: String = counted(live, " live submitted report(s), ");
        push_count(&mut d, c.order_evidence.len());
        d.append(" order evidence record(s)");
        d
    };
    push_check(checks, "order_status_evidence", evidence_holds(o, c, live), detail);
    let detail: String = if o.preflight_only {
        "preflight-only canary has no submitted reports to reconcile".to_owned()
    } else if !o.live {
        counted(
            c.ledger_reconciliations.len(),
            " dry-run submitted report(s) observed without mutating the copy ledger",
        )
    } else {
        let mut d: String = counted(live, " live submitted report(s), ");
        push_count(&mut d, c.ledger_reconciliations.len());
        d.append(" ledger reconciliation result(s)");
        d
    };
    push_check(
        checks,
        "ledger_reconciliation",
        o.preflight_only || !o.live || live == 0 || results_all_applied(
            &c.ledger_reconciliations,
        ),
        detail,
    );
    assert(views(checks@) =~= start + canary_outcome_checks(*o, *c));
}

fn advise(
    o: &CopyExecutionCanaryOptions,
    checks_ok: bool,
    c: &CanaryOutcome,
    cleanup_ok: bool,
) -> (r: Vec<String>)
    requires
        cleanup_ok == canary_cleanup_ok(*o, *c),
    ensures
        texts(r@) == seq![canary_advice(*o, checks_ok, *c)],
{
    let s: &str = if o.live && c.submitted_reports.len() == 0 {
        if o.preflight_only && checks_ok && c.would_submit_orders.len() > 0 {
            "Preflight-only live canary passed without loading secrets or submitting; review would_submit_orders before real one-account canary."
        } else {
            "No live order was submitted; fix failed checks before retrying live canary."
        }
    } else if o.live && cleanup_ok {
        "Live canary submitted and bundled cleanup runbook completed; inspect post-submit reconciliation before widening scope."
    } else if o.live {
        "Live canary did not complete bundled cleanup; reconcile the account immediately and use reduce-only close if any position remains."
    } else {
        "Review submitted_reports and shadow history, then rerun with --live true only for a one-account canary."
    };
    let r: Vec<String> = vec![s.to_owned()];
    assert(texts(r@) =~= seq![canary_advice(*o, checks_ok, *c)]);
    r
}

/// Whether a report is that of a trial: it repeats what was asked for, hands on
/// what came of it, and gives the checks that were made on the way, the checks
/// on the outcome, and the verdict.
pub open spec fn report_for(
    r: CopyExecutionCanaryReport,
    config: AppConfig,
    o: CopyExecutionCanaryOptions,
    execution_dry_run: bool,
    target_accounts: Vec<String>,
    leader: Option<CopyShadowSmokeLeader>,
    checks_before: Seq<Check>,
    c: CanaryOutcome,
) -> bool {
    let checks = checks_before + canary_outcome_checks(o, c);
    &&& views(r.checks@) == checks
    &&& r.ok == canary_ok(o, checks, c)
    &&& texts(r.next_actions@) == seq![canary_advice(o, all_ok(checks), c)]
    &&& r.mode@ == if execution_dry_run {
        "copy_execution_canary_dry_run"@
    } else {
        "copy_execution_canary_live"@
    }
    &&& r.environment == config.app.environment
    &&& r.execution_dry_run == execution_dry_run
    &&& r.live_requested == o.live
    &&& r.live_submit_allowed == o.allow_live_submit
    &&& r.confirm_mainnet_live == o.confirm_mainnet_live
    &&& r.cleanup_after_submit == o.cleanup_after_submit
    &&& r.cleanup_max_slippage_bps == o.cleanup_max_slippage_bps
    &&& r.preflight_only == o.preflight_only
    &&& r.coin == o.coin
    &&& r.side == o.side
    &&& r.target_accounts == target_accounts
    &&& r.local_account_id == o.local_account_id
    &&& r.leader == leader
    &&& r.shadow_records_written == c.records@.len()
    &&& r.approved_shadow_records == c.records@.filter(leads_to_orders()).len()
    &&& r.would_submit_orders == c.would_submit_orders
    &&& r.submitted_reports == c.submitted_reports
    &&& r.order_evidence == c.order_evidence
    &&& r.ledger_reconciliations == c.ledger_reconciliations
    &&& r.ledger_reconciliation_snapshot == c.ledger_reconciliation_snapshot
    &&& r.cleanup_runbooks == c.cleanup_runbooks
    &&& r.cleanup_errors == c.cleanup_errors
}

/// The report of a trial.
pub fn copy_execution_canary_report(
    config: &AppConfig,
    options: &CopyExecutionCanaryOptions,
    execution_dry_run: bool,
    target_accounts: Vec<String>,
    leader: Option<CopyShadowSmokeLeader>,
    checks_before: Vec<CopyShadowSmokeCheck>,
    outcome: CanaryOutcome,
) -> (r: CopyExecutionCanaryReport)
    ensures
        report_for(
            r,
            *config,
            *options,
            execution_dry_run,
            target_accounts,
            leader,
            views(checks_before@),
            outcome,
        ),
{
    let live: usize = copy_canary_live_submitted_reports(&outcome.submitted_reports).len();
    let approved: usize = count_approved(&outcome.records);
    let mut checks: Vec<CopyShadowSmokeCheck> = checks_before;
    push_canary_outcome_checks(&mut checks, options, &outcome, live);
    let checks_ok: bool = checks_all_ok(&checks);
    let evidence_ok: bool = evidence_holds(options, &outcome, live);
    let ledger_ok: bool = options.preflight_only || !options.live || live == 0
        || results_all_applied(&outcome.ledger_reconciliations);
    let cleanup_ok: bool = cleanup_holds(options, &outcome, live);
    let execution_ok: bool = if options.preflight_only {
        outcome.would_submit_orders.len() > 0 && outcome.submitted_reports.len() == 0
    } else {
        outcome.submitted_reports.len() > 0 && reports_all_taken(&outcome.submitted_reports)
    };
    let next_actions: Vec<String> = advise(options, checks_ok, &outcome, cleanup_ok);
    let mode: &str = if execution_dry_run {
        "copy_execution_canary_dry_run"
    } else {
        "copy_execution_canary_live"
    };
    CopyExecutionCanaryReport {
        ok: checks_ok && approved > 0 && execution_ok && evidence_ok && ledger_ok && cleanup_ok,
        mode: mode.to_owned(),
        environment: config.app.environment.clone(),
        execution_dry_run,
        live_requested: options.live,
        live_submit_allowed: options.allow_live_submit,
        confirm_mainnet_live: options.confirm_mainnet_live,
        cleanup_after_submit: options.cleanup_after_submit,
        cleanup_max_slippage_bps: options.cleanup_max_slippage_bps,
        preflight_only: options.preflight_only,
        coin: options.coin.clone(),
        side: options.side,
        target_accounts,
        local_account_id: clone_opt(&options.local_account_id),
        leader,
        checks,
        shadow_records_written: outcome.records.len(),
        approved_shadow_records: approved,
        would_submit_orders: outcome.would_submit_orders,
        submitted_reports: outcome.submitted_reports,
        order_evidence: outcome.order_evidence,
        ledger_reconciliations: outcome.ledger_reconciliations,
        ledger_reconciliation_snapshot: outcome.ledger_reconciliation_snapshot,
        cleanup_runbooks: outcome.cleanup_runbooks,
        cleanup_errors: outcome.cleanup_errors,
        next_actions,
    }
}

/// A live trial passes its gate only for one account and one order, with cleanup
/// bundled and every operator gate open.
pub proof fn a_live_trial_is_narrow(
    config: AppConfig,
    o: CopyExecutionCanaryOptions,
    leaders: int,
)
    requires
        o.live,
        all_ok(canary_gate_checks(config, o, leaders)),
    ensures
        target_accounts(config, o.account_ids@, local_id(o.local_account_id)).len() == 1,
        o.max_orders == 1,
        o.cleanup_after_submit,
        o.allow_live_submit,
        !config.app.dry_run,
        config.manual_ops.manual_live_enabled,
        config.is_mainnet() ==> o.confirm_mainnet_live && config.manual_ops.mainnet_live_enabled,
{
    let accounts = target_accounts(config, o.account_ids@, local_id(o.local_account_id));
    let a = canary_party_checks(
        leaders,
        worker_ids(config.accounts@).len() as int,
        accounts.len() as int,
    ) + account_checks(config, accounts);
    let b = canary_mode_checks(config, o, accounts.len() as int);
    let live = canary_live_checks(config, o, accounts.len() as int);
    all_ok_concat(a, b);
    let first = seq![
        check("max_orders_positive"@, o.max_orders > 0, "max_orders="@ + dec(o.max_orders as nat)),
    ];
    assert(b == first + live);
    all_ok_concat(first, live);
    assert(live[0].ok && live[1].ok && live[2].ok && live[3].ok && live[4].ok);
    assert(live[7].ok && live[8].ok && live[9].ok);
}

/// A live trial that went well sent something, proved every order, and closed
/// every position again; one that only rehearses sent nothing.
pub proof fn a_good_live_trial_is_proved_and_closed(
    o: CopyExecutionCanaryOptions,
    checks: Seq<Check>,
    c: CanaryOutcome,
)
    requires
        o.live,
        canary_ok(o, checks, c),
    ensures
        o.preflight_only ==> c.submitted_reports@.len() == 0,
        !o.preflight_only ==> {
            let live = live_orders(c.submitted_reports@).len();
            &&& live > 0
            &&& evidence_complete(c.order_evidence@, live as int)
            &&& all_applied(c.ledger_reconciliations@)
            &&& c.cleanup_runbooks@.len() == live
            &&& all_runbooks_ok(c.cleanup_runbooks@)
            &&& c.cleanup_errors@.len() == 0
        },
{
}

/// The options of a trial are accepted exactly where sizes, notional and orders
/// are above zero, the slippage is below the whole price, and a trial that only
/// tries its checks is a live one.
pub proof fn trials_need_positive_figures(o: CopyExecutionCanaryOptions)
    ensures
        canary_error(o) is None <==> o.leader_size > 0 && o.leader_notional_usd > 0 && o.max_orders
            > 0 && o.cleanup_max_slippage_bps >= 0 && o.cleanup_max_slippage_bps < 10_000
            * 1_000_000_000 && (o.preflight_only ==> o.live),
{
}

proof fn largest_opened_bounds_them_all(orders: Seq<CopyExecutionCanaryWouldSubmit>)
    ensures
        max_opened(orders) >= 0,
        forall|i: int|
            0 <= i < orders.len() && !(#[trigger] orders[i]).reduce_only ==> orders[i].notional_usd
                <= max_opened(orders),
        max_opened(orders) == 0 || exists|i: int|
            0 <= i < orders.len() && !(#[trigger] orders[i]).reduce_only && orders[i].notional_usd
                == max_opened(orders),
    decreases orders.len(),
{
    if orders.len() > 0 {
        let t = orders.drop_last();
        largest_opened_bounds_them_all(t);
        assert(orders[orders.len() - 1] == orders.last());
        assert forall|i: int|
            0 <= i < orders.len() && !(#[trigger] orders[i]).reduce_only implies
        orders[i].notional_usd <= max_opened(orders) by {
            if i < t.len() {
                assert(t[i] == orders[i]);
            }
        }
        if max_opened(orders) == max_opened(t) && max_opened(t) != 0 {
            let i = choose|i: int|
                0 <= i < t.len() && !(#[trigger] t[i]).reduce_only && t[i].notional_usd
                    == max_opened(t);
            assert(orders[i] == t[i]);
        }
    }
}

/// What each check of a trial before it sends anything means.
pub proof fn each_check_before_a_trial_means_what_it_says(
    config: AppConfig,
    o: CopyExecutionCanaryOptions,
    leaders: int,
    workers: int,
    accounts: int,
    approved: int,
    orders: Seq<CopyExecutionCanaryWouldSubmit>,
)
    ensures
        ({
            let p = canary_party_checks(leaders, workers, accounts);
            let m = canary_mode_checks(config, o, accounts);
            let l = canary_live_checks(config, o, accounts);
            let r = record_checks(approved, o.max_orders as int);
            let q = canary_order_checks(config, o, orders);
            let mainnet = config.app.environment@ == "mainnet"@;
            &&& p.len() == 3 && (p[0].ok <==> leaders > 0) && (p[1].ok <==> workers > 0) && (
            p[2].ok <==> accounts > 0)
            &&& l.len() == 10
            &&& l[0].ok <==> !config.app.dry_run
            &&& l[1].ok <==> o.allow_live_submit
            &&& l[2].ok <==> accounts == 1
            &&& l[3].ok <==> o.max_orders == 1
            &&& l[4].ok <==> o.cleanup_after_submit
            &&& l[5].ok <==> o.cleanup_max_slippage_bps >= 0 && o.cleanup_max_slippage_bps < 10_000
                * 1_000_000_000
            &&& l[6].ok <==> (o.preflight_only ==> o.live)
            &&& l[7].ok <==> (mainnet ==> o.confirm_mainnet_live)
            &&& l[8].ok <==> config.manual_ops.manual_live_enabled
            &&& l[9].ok <==> (mainnet ==> config.manual_ops.mainnet_live_enabled)
            &&& m[0].ok <==> o.max_orders > 0
            &&& o.live ==> m.len() == 11 && m.subrange(1, 11) == l
            &&& !o.live ==> m.len() == 2 && m[1].ok
            &&& r.len() == 2 && (r[0].ok <==> approved > 0) && (r[1].ok <==> approved
                <= o.max_orders)
            &&& q[0].ok <==> orders.len() > 0
            &&& o.live && o.cleanup_after_submit ==> q.len() == 2 && (q[1].ok
                <==> config.manual_ops.max_manual_order_notional_usd >= 0 && forall|i: int|
                0 <= i < orders.len() && !(#[trigger] orders[i]).reduce_only
                    ==> orders[i].notional_usd <= config.manual_ops.max_manual_order_notional_usd)
            &&& !(o.live && o.cleanup_after_submit) ==> q.len() == 1
        }),
{
    largest_opened_bounds_them_all(orders);
    let m = canary_mode_checks(config, o, accounts);
    if o.live {
        assert(m.subrange(1, 11) =~= canary_live_checks(config, o, accounts));
    }
}

/// The checks before a trial are those on who copies and for whom, on each of its
/// accounts, and on its mode.
pub proof fn a_trial_makes_every_check(
    config: AppConfig,
    o: CopyExecutionCanaryOptions,
    leaders: int,
)
    ensures
        ({
            let accounts = target_accounts(
                config,
                o.account_ids@,
                match o.local_account_id {
                    Some(s) => Some(s@),
                    None => None,
                },
            );
            all_ok(canary_gate_checks(config, o, leaders)) <==> all_ok(
                canary_party_checks(
                    leaders,
                    worker_ids(config.accounts@).len() as int,
                    accounts.len() as int,
                ),
            ) && all_ok(account_checks(config, accounts)) && all_ok(
                canary_mode_checks(config, o, accounts.len() as int),
            )
        }),
{
    let accounts = target_accounts(config, o.account_ids@, local_id(o.local_account_id));
    let a = canary_party_checks(
        leaders,
        worker_ids(config.accounts@).len() as int,
        accounts.len() as int,
    );
    let b = account_checks(config, accounts);
    all_ok_concat(a + b, canary_mode_checks(config, o, accounts.len() as int));
    all_ok_concat(a, b);
}

/// A trial went well exactly where all its checks passed, some record led to
/// orders, it planned without sending where it only tries its checks or else sent
/// something and nothing was refused, and where it is live and sends, every order
/// that was really sent is proved, entered and closed again, of which there is at
/// least one.
pub proof fn a_good_trial_kept_every_promise(
    o: CopyExecutionCanaryOptions,
    checks: Seq<Check>,
    c: CanaryOutcome,
)
    ensures
        ({
            let sent = live_orders(c.submitted_reports@).len();
            let reports = c.submitted_reports@;
            canary_ok(o, checks, c) <==> all_ok(checks) && c.records@.filter(
                leads_to_orders(),
            ).len() > 0 && (o.preflight_only ==> c.would_submit_orders@.len() > 0 && reports.len()
                == 0) && (!o.preflight_only ==> reports.len() > 0 && forall|i: int|
                0 <= i < reports.len() ==> (#[trigger] reports[i]) is Submitted || reports[i]
                    is Ack) && (o.live && !o.preflight_only ==> sent > 0 && c.order_evidence@.len()
                == sent && (forall|i: int|
                0 <= i < c.order_evidence@.len() ==> evidence_ok(#[trigger] c.order_evidence@[i]))
                && (forall|i: int|
                0 <= i < c.ledger_reconciliations@.len() ==> (
                #[trigger] c.ledger_reconciliations@[i]).applied) && c.cleanup_runbooks@.len()
                == sent && c.cleanup_errors@.len() == 0 && forall|i: int|
                0 <= i < c.cleanup_runbooks@.len() ==> runbook_ok(#[trigger] c.cleanup_runbooks@[i]))
        }),
        canary_cleanup_check(o, c.cleanup_runbooks@, c.cleanup_errors@).ok
            <==> c.cleanup_errors@.len() == 0 && (o.live ==> forall|i: int|
            0 <= i < c.cleanup_runbooks@.len() ==> runbook_ok(#[trigger] c.cleanup_runbooks@[i])),
{
}

/// A trial's report tells what was asked for and what came of it; it says what a
/// live trial is to do next by whether anything was sent and closed again.
pub proof fn a_trial_report_tells_what_came_of_it(
    r: CopyExecutionCanaryReport,
    config: AppConfig,
    o: CopyExecutionCanaryOptions,
    execution_dry_run: bool,
    targets: Vec<String>,
    leader: Option<CopyShadowSmokeLeader>,
    before: Seq<Check>,
    c: CanaryOutcome,
)
    requires
        report_for(r, config, o, execution_dry_run, targets, leader, before, c),
    ensures
        r.ok ==> all_ok(before),
        r.checks@.len() >= before.len(),
        execution_dry_run ==> r.mode@ == "copy_execution_canary_dry_run"@,
        !execution_dry_run ==> r.mode@ == "copy_execution_canary_live"@,
        r.execution_dry_run == execution_dry_run,
        r.environment == config.app.environment,
        r.live_requested == o.live,
        r.live_submit_allowed == o.allow_live_submit,
        r.confirm_mainnet_live == o.confirm_mainnet_live,
        r.cleanup_after_submit == o.cleanup_after_submit,
        r.cleanup_max_slippage_bps == o.cleanup_max_slippage_bps,
        r.preflight_only == o.preflight_only,
        r.coin == o.coin,
        r.side == o.side,
        r.target_accounts == targets,
        r.local_account_id == o.local_account_id,
        r.leader == leader,
        r.shadow_records_written == c.records@.len(),
        r.approved_shadow_records <= r.shadow_records_written,
        r.approved_shadow_records == c.records@.filter(leads_to_orders()).len(),
        r.would_submit_orders == c.would_submit_orders,
        r.submitted_reports == c.submitted_reports,
        r.order_evidence == c.order_evidence,
        r.ledger_reconciliations == c.ledger_reconciliations,
        r.ledger_reconciliation_snapshot == c.ledger_reconciliation_snapshot,
        r.cleanup_runbooks == c.cleanup_runbooks,
        r.cleanup_errors == c.cleanup_errors,
{
    filter_length(c.records@, leads_to_orders());
    assert(views(r.checks@).len() == r.checks@.len());
    all_ok_concat(before, canary_outcome_checks(o, c));
}

} // verus!
