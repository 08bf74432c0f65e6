//! Acceptance: what has to hold before an unattended window.

use vstd::prelude::*;

use crate::checks::{
    all_ok, all_ok_concat, append_checks, check, checks_all_ok, push_check, push_note, views, Check,
    CopyShadowSmokeCheck,
};
use crate::config::{
    account_checks, copy_execution_canary_target_accounts, push_account_checks, target_accounts,
    AppConfig,
};
use crate::decimal::{
    dec, fixed6, fixed_plain, push_count, push_fixed6, push_plain, push_total6, push_u64, Fixed,
    Total, UNIT,
};
use crate::leaders::{
    leader_views, leaders_of, parse_copy_shadow_smoke_leaders, CopyShadowSmokeLeader,
};
use crate::options::{is_slippage_valid, slippage_valid, CopyLiveDaemonAcceptanceOptions};
use crate::plan::{order_size, planned_notional_of, CopyExecutionCanaryWouldSubmit};
use crate::seqs::total;
use crate::text::{blank, is_blank, occurs_at, texts};

verus! {

/// What a restart makes of events that were handled before.
#[derive(Clone, Debug)]
pub struct CopyLiveDaemonRestartProbe {
    pub event_id: String,
    pub first_emit_count: usize,
    pub replay_emit_count: usize,
    pub fresh_after_restart_emit_count: usize,
    pub saved_seen_event_keys: usize,
    pub loaded_seen_event_keys: usize,
}

/// The outcome of an acceptance run.
#[derive(Clone, Debug)]
pub struct CopyLiveDaemonAcceptanceReport {
    pub ok: bool,
    pub mode: String,
    pub environment: String,
    pub live_requested: bool,
    pub live_submit_allowed: bool,
    pub confirm_mainnet_live: bool,
    pub max_duration_secs: u64,
    pub max_live_orders: usize,
    pub max_total_notional_usd: Fixed,
    pub max_total_fees_usd: Fixed,
    pub max_slippage_bps: Fixed,
    pub require_cleanup_after_submit: bool,
    pub require_flat_reconcile_after_submit: bool,
    pub target_accounts: Vec<String>,
    pub leaders: Vec<CopyShadowSmokeLeader>,
    pub checks: Vec<CopyShadowSmokeCheck>,
    pub persistence_path: String,
    pub shadow_history_path: String,
    pub persistence_seen_keys_before: usize,
    pub persistence_ledger_entries_before: usize,
    pub restart_dedupe_probe: CopyLiveDaemonRestartProbe,
    pub shadow_records_written: usize,
    pub approved_shadow_records: usize,
    pub would_submit_orders: Vec<CopyExecutionCanaryWouldSubmit>,
    pub next_actions: Vec<String>,
}

/// What an acceptance run is told of the work behind it: how the restart probe went, what
/// the stored snapshot holds, and which orders would be sent.
#[derive(Debug)]
pub struct AcceptanceFindings {
    pub restart_probe: CopyLiveDaemonRestartProbe,
    pub persistence_seen_keys: usize,
    pub persistence_ledger_entries: usize,
    pub would_submit_orders: Vec<CopyExecutionCanaryWouldSubmit>,
}

/// What is wrong with the figures that an operator gave, if anything.
pub open spec fn acceptance_error(o: CopyLiveDaemonAcceptanceOptions) -> Option<Seq<char>> {
    if o.leader_size <= 0 {
        Some("leader_size must be positive for copy live daemon acceptance"@)
    } else if o.leader_notional_usd <= 0 {
        Some("leader_notional_usd must be positive for copy live daemon acceptance"@)
    } else if !slippage_valid(o.max_slippage_bps) {
        Some("max_slippage_bps must be >= 0 and < 10000"@)
    } else if o.max_total_notional_usd <= 0 {
        Some("max_total_notional_usd must be positive"@)
    } else if o.max_total_fees_usd < 0 {
        Some("max_total_fees_usd must be non-negative"@)
    } else {
        None
    }
}

/// Checks the figures that an operator gave.
pub fn validate_acceptance_options(o: &CopyLiveDaemonAcceptanceOptions) -> (r: Result<(), String>)
    ensures
        match acceptance_error(*o) {
            Some(e) => r is Err && r->Err_0@ == e,
            None => r is Ok,
        },
{
    if o.leader_size <= 0 {
        Err("leader_size must be positive for copy live daemon acceptance".to_owned())
    } else if o.leader_notional_usd <= 0 {
        Err("leader_notional_usd must be positive for copy live daemon acceptance".to_owned())
    } else if !is_slippage_valid(o.max_slippage_bps) {
        Err("max_slippage_bps must be >= 0 and < 10000".to_owned())
    } else if o.max_total_notional_usd <= 0 {
        Err("max_total_notional_usd must be positive".to_owned())
    } else if o.max_total_fees_usd < 0 {
        Err("max_total_fees_usd must be non-negative".to_owned())
    } else {
        Ok(())
    }
}

/// The checks that only a live window has to pass.
pub open spec fn live_gate_checks(
    config: AppConfig,
    o: CopyLiveDaemonAcceptanceOptions,
) -> Seq<Check> {
    seq![
        check(
            "live_config_not_dry_run"@,
            !config.app.dry_run,
            "live daemon acceptance requires app.dry_run=false"@,
        ),
        check(
            "allow_live_submit"@,
            o.allow_live_submit,
            "live daemon acceptance requires --allow-live-submit true"@,
        ),
        check(
            "mainnet_confirmation"@,
            !config.is_mainnet() || o.confirm_mainnet_live,
            "mainnet live daemon acceptance requires --confirm-mainnet-live true"@,
        ),
        check(
            "manual_live_enabled"@,
            config.manual_ops.manual_live_enabled,
            "live daemon acceptance uses the same manual live gate as signed smoke"@,
        ),
        check(
            "mainnet_live_enabled"@,
            !config.is_mainnet() || config.manual_ops.mainnet_live_enabled,
            "mainnet live daemon acceptance requires manual_ops.mainnet_live_enabled=true"@,
        ),
    ]
}

/// The checks that only a live window has to pass.
pub fn copy_live_daemon_live_checks(
    config: &AppConfig,
    options: &CopyLiveDaemonAcceptanceOptions,
) -> (r: Vec<CopyShadowSmokeCheck>)
    ensures
        views(r@) == live_gate_checks(*config, *options),
{
    let mut c: Vec<CopyShadowSmokeCheck> = Vec::new();
    assert(views(c@) =~= Seq::empty());
    push_note(
        &mut c,
        "live_config_not_dry_run",
        !config.app.dry_run,
        "live daemon acceptance requires app.dry_run=false",
    );
    push_note(
        &mut c,
        "allow_live_submit",
        options.allow_live_submit,
        "live daemon acceptance requires --allow-live-submit true",
    );
    let mainnet: bool = config.on_mainnet();
    push_note(
        &mut c,
        "mainnet_confirmation",
        !mainnet || options.confirm_mainnet_live,
        "mainnet live daemon acceptance requires --confirm-mainnet-live true",
    );
    push_note(
        &mut c,
        "manual_live_enabled",
        config.manual_ops.manual_live_enabled,
        "live daemon acceptance uses the same manual live gate as signed smoke",
    );
    push_note(
        &mut c,
        "mainnet_live_enabled",
        !mainnet || config.manual_ops.mainnet_live_enabled,
        "mainnet live daemon acceptance requires manual_ops.mainnet_live_enabled=true",
    );
    c
}

/// The fewest live orders that a window over some accounts has to allow.
pub open spec fn min_live_orders(accounts: int) -> int {
    if accounts < 1 {
        1
    } else {
        accounts
    }
}

/// The most live orders that a window over some accounts may allow.
pub open spec fn max_live_orders(accounts: int) -> int {
    if 3 * min_live_orders(accounts) > usize::MAX {
        usize::MAX as int
    } else {
        3 * min_live_orders(accounts)
    }
}

/// Whether every planned order has a client id.
pub open spec fn all_cloids_present(orders: Seq<CopyExecutionCanaryWouldSubmit>) -> bool {
    forall|i: int| 0 <= i < orders.len() ==> !blank((#[trigger] orders[i]).cloid@)
}

/// Whether every planned order has a client id.
pub fn orders_have_cloids(orders: &Vec<CopyExecutionCanaryWouldSubmit>) -> (r: bool)
    ensures
        r == all_cloids_present(orders@),
{
    let mut i: usize = 0;
    while i < orders.len()
        invariant
            i <= orders@.len(),
            forall|k: int| 0 <= k < i ==> !blank((#[trigger] orders@[k]).cloid@),
        decreases orders@.len() - i,
    {
        if is_blank(orders[i].cloid.as_str()) {
            return false;
        }
        i += 1;
    }
    true
}

/// Whether a restart replays nothing, still reacts to new events, and forgets no
/// event.
pub open spec fn probe_ok(p: CopyLiveDaemonRestartProbe) -> bool {
    p.first_emit_count > 0 && p.replay_emit_count == 0 && p.fresh_after_restart_emit_count > 0
        && p.loaded_seen_event_keys >= p.saved_seen_event_keys
}

/// The checks on whom and how much a window may copy.
pub open spec fn bound_checks(
    o: CopyLiveDaemonAcceptanceOptions,
    accounts: int,
    orders: Seq<CopyExecutionCanaryWouldSubmit>,
) -> Seq<Check> {
    let planned = total(orders, order_size());
    seq![
        check(
            "bounded_duration"@,
            1 <= o.max_duration_secs <= 3600,
            "max_duration_secs="@ + dec(o.max_duration_secs as nat)
                + " must be between 1 and 3600 for acceptance"@,
        ),
        check(
            "bounded_live_orders"@,
            min_live_orders(accounts) <= o.max_live_orders <= max_live_orders(accounts),
            "max_live_orders="@ + dec(o.max_live_orders as nat) + " must be between "@ + dec(
                min_live_orders(accounts) as nat,
            ) + " and "@ + dec(max_live_orders(accounts) as nat) + " for "@ + dec(accounts as nat)
                + " selected account(s)"@,
        ),
        check(
            "bounded_total_notional"@,
            planned <= o.max_total_notional_usd,
            "planned_notional_usd="@ + fixed6(planned) + " must be <= max_total_notional_usd="@
                + fixed6(o.max_total_notional_usd as int),
        ),
        check(
            "bounded_total_fees"@,
            o.max_total_fees_usd <= UNIT,
            "max_total_fees_usd="@ + fixed_plain(o.max_total_fees_usd as int)
                + " must be <= 1.0 for acceptance"@,
        ),
        check(
            "bounded_slippage"@,
            o.max_slippage_bps <= 100 * UNIT,
            "max_slippage_bps="@ + fixed_plain(o.max_slippage_bps as int)
                + " must be <= 100 for acceptance"@,
        ),
    ]
}

/// The checks on how a window is wound up and restarted.
pub open spec fn policy_checks(
    config: AppConfig,
    o: CopyLiveDaemonAcceptanceOptions,
    f: AcceptanceFindings,
) -> Seq<Check> {
    seq![
        check(
            "cleanup_policy"@,
            o.require_cleanup_after_submit,
            "unattended live acceptance requires automatic reduce-only cleanup policy"@,
        ),
        check(
            "flat_reconcile_policy"@,
            o.require_flat_reconcile_after_submit,
            "unattended live acceptance requires post-submit flat/no-open-order reconciliation"@,
        ),
        check(
            "kill_switch_policy"@,
            config.risk.global.allow_reduce_only_when_killed,
            "global kill switch must allow reduce-only cleanup while blocking new opens"@,
        ),
        check(
            "persistence_readable"@,
            true,
            "loaded persistence snapshot from "@ + o.persistence_path@ + " with "@ + dec(
                f.persistence_seen_keys as nat,
            ) + " seen keys and "@ + dec(f.persistence_ledger_entries as nat)
                + " ledger entries"@,
        ),
        check(
            "restart_dedupe_probe"@,
            probe_ok(f.restart_probe),
            "first_emit="@ + dec(f.restart_probe.first_emit_count as nat) + " replay_emit="@ + dec(
                f.restart_probe.replay_emit_count as nat,
            ) + " fresh_after_restart="@ + dec(
                f.restart_probe.fresh_after_restart_emit_count as nat,
            ) + " loaded_seen_keys="@ + dec(f.restart_probe.loaded_seen_event_keys as nat),
        ),
    ]
}

/// The checks on the orders that would be sent.
pub open spec fn order_plan_checks(
    o: CopyLiveDaemonAcceptanceOptions,
    orders: Seq<CopyExecutionCanaryWouldSubmit>,
) -> Seq<Check> {
    seq![
        check(
            "would_submit_orders"@,
            orders.len() > 0,
            dec(orders.len()) + " approved order plan(s)"@,
        ),
        check(
            "max_live_order_count"@,
            orders.len() <= o.max_live_orders,
            dec(orders.len()) + " planned order(s) must be <= max_live_orders "@ + dec(
                o.max_live_orders as nat,
            ),
        ),
        check(
            "cloid_plan"@,
            all_cloids_present(orders),
            "every planned order has a deterministic cloid for order ownership/status lookup"@,
        ),
    ]
}

/// The checks that there is someone to copy and someone to copy for.
pub open spec fn party_checks(leaders: int, accounts: int) -> Seq<Check> {
    seq![
        check(
            "leaders_configured"@,
            leaders > 0,
            dec(leaders as nat) + " leader watch target(s)"@,
        ),
        check(
            "target_accounts"@,
            accounts > 0,
            dec(accounts as nat) + " target account(s)"@,
        ),
    ]
}

/// The checks that depend on whether the window is live.
pub open spec fn mode_checks(config: AppConfig, o: CopyLiveDaemonAcceptanceOptions) -> Seq<Check> {
    if o.live {
        live_gate_checks(config, o)
    } else {
        seq![
            check(
                "dry_run_acceptance"@,
                config.app.dry_run,
                "dry-run acceptance does not submit exchange orders or load Vault secrets"@,
            ),
        ]
    }
}

/// All checks of an acceptance run.
pub open spec fn acceptance_checks(
    config: AppConfig,
    o: CopyLiveDaemonAcceptanceOptions,
    leaders: int,
    accounts: Seq<Seq<char>>,
    f: AcceptanceFindings,
) -> Seq<Check> {
    party_checks(leaders, accounts.len() as int) + account_checks(config, accounts) + bound_checks(
        o,
        accounts.len() as int,
        f.would_submit_orders@,
    ) + policy_checks(config, o, f) + order_plan_checks(o, f.would_submit_orders@) + mode_checks(
        config,
        o,
    )
}

fn push_bound_checks(
    checks: &mut Vec<CopyShadowSmokeCheck>,
    o: &CopyLiveDaemonAcceptanceOptions,
    accounts: usize,
    orders: &Vec<CopyExecutionCanaryWouldSubmit>,
)
    ensures
        views(final(checks)@) == views(old(checks)@) + bound_checks(
            *o,
            accounts as int,
            orders@,
        ),
{
    let ghost start = views(checks@);
    let mut d: String = "max_duration_secs=".to_owned();
    push_u64(&mut d, o.max_duration_secs);
    d.append(" must be between 1 and 3600 for acceptance");
    push_check(
        checks,
        "bounded_duration",
        1 <= o.max_duration_secs && o.max_duration_secs <= 3600,
        d,
    );
    let least: usize = if accounts < 1 {
        1
    } else {
        accounts
    };
    let most: usize = if least > usize::MAX / 3 {
        usize::MAX
    } else {
        least * 3
    };
    let mut d: String = "max_live_orders=".to_owned();
    push_count(&mut d, o.max_live_orders);
    d.append(" must be between ");
    push_count(&mut d, least);
    d.append(" and ");
    push_count(&mut d, most);
    d.append(" for ");
    push_count(&mut d, accounts);
    d.append(" selected account(s)");
    push_check(
        checks,
        "bounded_live_orders",
        least <= o.max_live_orders && o.max_live_orders <= most,
        d,
    );
    let planned: Total = planned_notional_of(orders);
    let mut d: String = "planned_notional_usd=".to_owned();
    push_total6(&mut d, planned);
    d.append(" must be <= max_total_notional_usd=");
    push_fixed6(&mut d, o.max_total_notional_usd);
    push_check(checks, "bounded_total_notional", planned <= o.max_total_notional_usd as i128, d);
    let mut d: String = "max_total_fees_usd=".to_owned();
    push_plain(&mut d, o.max_total_fees_usd);
    d.append(" must be <= 1.0 for acceptance");
    push_check(checks, "bounded_total_fees", o.max_total_fees_usd <= UNIT, d);
    let mut d: String = "max_slippage_bps=".to_owned();
    push_plain(&mut d, o.max_slippage_bps);
    d.append(" must be <= 100 for acceptance");
    push_check(checks, "bounded_slippage", o.max_slippage_bps <= 100 * UNIT, d);
    assert(views(checks@) =~= start + bound_checks(*o, accounts as int, orders@));
}

fn push_policy_checks(
    checks: &mut Vec<CopyShadowSmokeCheck>,
    config: &AppConfig,
    o: &CopyLiveDaemonAcceptanceOptions,
    f: &AcceptanceFindings,
)
    ensures
        views(final(checks)@) == views(old(checks)@) + policy_checks(*config, *o, *f),
{
    let ghost start = views(checks@);
    push_note(
        checks,
        "cleanup_policy",
        o.require_cleanup_after_submit,
        "unattended live acceptance requires automatic reduce-only cleanup policy",
    );
    push_note(
        checks,
        "flat_reconcile_policy",
        o.require_flat_reconcile_after_submit,
        "unattended live acceptance requires post-submit flat/no-open-order reconciliation",
    );
    push_note(
        checks,
        "kill_switch_policy",
        config.risk.global.allow_reduce_only_when_killed,
        "global kill switch must allow reduce-only cleanup while blocking new opens",
    );
    let mut d: String = "loaded persistence snapshot from ".to_owned();
    d.append(o.persistence_path.as_str());
    d.append(" with ");
    push_count(&mut d, f.persistence_seen_keys);
    d.append(" seen keys and ");
    push_count(&mut d, f.persistence_ledger_entries);
    d.append(" ledger entries");
    push_check(checks, "persistence_readable", true, d);
    let p: &CopyLiveDaemonRestartProbe = &f.restart_probe;
    let mut d: String = "first_emit=".to_owned();
    push_count(&mut d, p.first_emit_count);
    d.append(" replay_emit=");
    push_count(&mut d, p.replay_emit_count);
    d.append(" fresh_after_restart=");
    push_count(&mut d, p.fresh_after_restart_emit_count);
    d.append(" loaded_seen_keys=");
    push_count(&mut d, p.loaded_seen_event_keys);
    push_check(
        checks,
        "restart_dedupe_probe",
        p.first_emit_count > 0 && p.replay_emit_count == 0 && p.fresh_after_restart_emit_count > 0
            && p.loaded_seen_event_keys >= p.saved_seen_event_keys,
        d,
    );
    assert(views(checks@) =~= start + policy_checks(*config, *o, *f));
}

fn push_order_plan_checks(
    checks: &mut Vec<CopyShadowSmokeCheck>,
    o: &CopyLiveDaemonAcceptanceOptions,
    orders: &Vec<CopyExecutionCanaryWouldSubmit>,
)
    ensures
        views(final(checks)@) == views(old(checks)@) + order_plan_checks(*o, orders@),
{
    let ghost start = views(checks@);
    let mut d: String = String::new();
    push_count(&mut d, orders.len());
    d.append(" approved order plan(s)");
    assert(d@ =~= dec(orders@.len()) + " approved order plan(s)"@);
    push_check(checks, "would_submit_orders", orders.len() > 0, d);
    let mut d: String = String::new();
    push_count(&mut d, orders.len());
    d.append(" planned order(s) must be <= max_live_orders ");
    push_count(&mut d, o.max_live_orders);
    assert(d@ =~= dec(orders@.len()) + " planned order(s) must be <= max_live_orders "@ + dec(
        o.max_live_orders as nat,
    ));
    push_check(checks, "max_live_order_count", orders.len() <= o.max_live_orders, d);
    push_note(
        checks,
        "cloid_plan",
        orders_have_cloids(orders),
        "every planned order has a deterministic cloid for order ownership/status lookup",
    );
    assert(views(checks@) =~= start + order_plan_checks(*o, orders@));
}

/// Appends the checks that there is someone to copy and someone to copy for.
pub fn push_party_checks(checks: &mut Vec<CopyShadowSmokeCheck>, leaders: usize, accounts: usize)
    ensures
        views(final(checks)@) == views(old(checks)@) + party_checks(
            leaders as int,
            accounts as int,
        ),
{
    let ghost start = views(checks@);
    let mut d: String = String::new();
    push_count(&mut d, leaders);
    d.append(" leader watch target(s)");
    assert(d@ =~= dec(leaders as nat) + " leader watch target(s)"@);
    push_check(checks, "leaders_configured", leaders > 0, d);
    let mut d: String = String::new();
    push_count(&mut d, accounts);
    d.append(" target account(s)");
    assert(d@ =~= dec(accounts as nat) + " target account(s)"@);
    push_check(checks, "target_accounts", accounts > 0, d);
    assert(views(checks@) =~= start + party_checks(leaders as int, accounts as int));
}

fn push_mode_checks(
    checks: &mut Vec<CopyShadowSmokeCheck>,
    config: &AppConfig,
    o: &CopyLiveDaemonAcceptanceOptions,
)
    ensures
        views(final(checks)@) == views(old(checks)@) + mode_checks(*config, *o),
{
    let ghost start = views(checks@);
    if o.live {
        append_checks(checks, copy_live_daemon_live_checks(config, o));
    } else {
        push_note(
            checks,
            "dry_run_acceptance",
            config.app.dry_run,
            "dry-run acceptance does not submit exchange orders or load Vault secrets",
        );
        assert(views(checks@) =~= start + mode_checks(*config, *o));
    }
}

/// What an operator should do after an acceptance run.
pub open spec fn acceptance_advice(ok: bool, live: bool) -> Seq<char> {
    if ok && live {
        "Acceptance gate passed for live-capable configuration; run only a bounded canary-live window and require immediate cleanup/reconcile evidence."@
    } else if ok {
        "Dry-run daemon acceptance gate passed; rerun against live-capable config with --live true for a no-submit gate review before any daemon submit."@
    } else {
        "Do not start unattended live copy; fix failed acceptance checks and rerun this command."@
    }
}

fn advise(ok: bool, live: bool) -> (r: Vec<String>)
    ensures
        texts(r@) == seq![acceptance_advice(ok, live)],
{
    let s: &str = if ok && live {
        "Acceptance gate passed for live-capable configuration; run only a bounded canary-live window and require immediate cleanup/reconcile evidence."
    } else if ok {
        "Dry-run daemon acceptance gate passed; rerun against live-capable config with --live true for a no-submit gate review before any daemon submit."
    } else {
        "Do not start unattended live copy; fix failed acceptance checks and rerun this command."
    };
    let r: Vec<String> = vec![s.to_owned()];
    assert(texts(r@) =~= seq![acceptance_advice(ok, live)]);
    r
}

/// Runs acceptance: the figures are checked, the leaders read, and every check
/// passed on.
pub fn run_copy_live_daemon_acceptance(
    config: &AppConfig,
    options: CopyLiveDaemonAcceptanceOptions,
    findings: AcceptanceFindings,
) -> (r: Result<CopyLiveDaemonAcceptanceReport, String>)
    ensures
        match acceptance_error(options) {
            Some(e) => r is Err && r->Err_0@ == e,
            None => match leaders_of(texts(options.leaders@)) {
                Err(e) => r is Err && r->Err_0@ == e,
                Ok(leaders) => r is Ok && ({
                    let accounts = target_accounts(*config, options.account_ids@, None);
                    let report = r->Ok_0;
                    let checks = acceptance_checks(
                        *config,
                        options,
                        leaders.len() as int,
                        accounts,
                        findings,
                    );
                    &&& views(report.checks@) == checks
                    &&& report.ok == all_ok(checks)
                    &&& report.mode@ == if options.live {
                        "copy_live_daemon_acceptance_live_gate"@
                    } else {
                        "copy_live_daemon_acceptance_dry_run"@
                    }
                    &&& report.environment == config.app.environment
                    &&& report.live_requested == options.live
                    &&& report.live_submit_allowed == options.allow_live_submit
                    &&& report.confirm_mainnet_live == options.confirm_mainnet_live
                    &&& report.max_duration_secs == options.max_duration_secs
                    &&& report.max_live_orders == options.max_live_orders
                    &&& report.max_total_notional_usd == options.max_total_notional_usd
                    &&& report.max_total_fees_usd == options.max_total_fees_usd
                    &&& report.max_slippage_bps == options.max_slippage_bps
                    &&& report.require_cleanup_after_submit == options.require_cleanup_after_submit
                    &&& report.require_flat_reconcile_after_submit
                        == options.require_flat_reconcile_after_submit
                    &&& texts(report.target_accounts@) == accounts
                    &&& leader_views(report.leaders@) == leaders
                    &&& report.persistence_path == options.persistence_path
                    &&& report.shadow_history_path == options.shadow_history_path
                    &&& report.persistence_seen_keys_before == findings.persistence_seen_keys
                    &&& report.persistence_ledger_entries_before
                        == findings.persistence_ledger_entries
                    &&& report.restart_dedupe_probe == findings.restart_probe
                    &&& report.shadow_records_written == findings.would_submit_orders@.len()
                    &&& report.approved_shadow_records == findings.would_submit_orders@.len()
                    &&& report.would_submit_orders == findings.would_submit_orders
                    &&& texts(report.next_actions@) == seq![
                        acceptance_advice(report.ok, options.live),
                    ]
                }),
            },
        },
{
    match validate_acceptance_options(&options) {
        Err(e) => {
            return Err(e);
        },
        Ok(_) => {},
    }
    let leaders: Vec<CopyShadowSmokeLeader> = match parse_copy_shadow_smoke_leaders(
        &options.leaders,
    ) {
        Err(e) => {
            return Err(e);
        },
        Ok(v) => v,
    };
    let accounts: Vec<String> = copy_execution_canary_target_accounts(
        config,
        &options.account_ids,
        None,
    );
    let mut checks: Vec<CopyShadowSmokeCheck> = Vec::new();
    assert(views(checks@) =~= Seq::empty());
    assert(leader_views(leaders@).len() == leaders@.len());
    assert(texts(accounts@).len() == accounts@.len());
    push_party_checks(&mut checks, leaders.len(), accounts.len());
    assert(views(checks@) =~= party_checks(leaders@.len() as int, accounts@.len() as int));
    push_account_checks(&mut checks, config, &accounts);
    push_bound_checks(&mut checks, &options, accounts.len(), &findings.would_submit_orders);
    push_policy_checks(&mut checks, config, &options, &findings);
    push_order_plan_checks(&mut checks, &options, &findings.would_submit_orders);
    push_mode_checks(&mut checks, config, &options);
    let ok: bool = checks_all_ok(&checks);
    let mode: &str = if options.live {
        "copy_live_daemon_acceptance_live_gate"
    } else {
        "copy_live_daemon_acceptance_dry_run"
    };
    let approved: usize = findings.would_submit_orders.len();
    Ok(
        CopyLiveDaemonAcceptanceReport {
            ok,
            mode: mode.to_owned(),
            environment: config.app.environment.clone(),
            live_requested: options.live,
            live_submit_allowed: options.allow_live_submit,
            confirm_mainnet_live: options.confirm_mainnet_live,
            max_duration_secs: options.max_duration_secs,
            max_live_orders: options.max_live_orders,
            max_total_notional_usd: options.max_total_notional_usd,
            max_total_fees_usd: options.max_total_fees_usd,
            max_slippage_bps: options.max_slippage_bps,
            require_cleanup_after_submit: options.require_cleanup_after_submit,
            require_flat_reconcile_after_submit: options.require_flat_reconcile_after_submit,
            target_accounts: accounts,
            leaders,
            checks,
            persistence_path: options.persistence_path,
            shadow_history_path: options.shadow_history_path,
            persistence_seen_keys_before: findings.persistence_seen_keys,
            persistence_ledger_entries_before: findings.persistence_ledger_entries,
            restart_dedupe_probe: findings.restart_probe,
            shadow_records_written: approved,
            approved_shadow_records: approved,
            would_submit_orders: findings.would_submit_orders,
            next_actions: advise(ok, options.live),
        },
    )
}

/// A live window on mainnet is accepted only where the operator allowed
/// live orders, confirmed mainnet, and the configuration enables both.
pub proof fn live_acceptance_needs_every_operator_gate(
    config: AppConfig,
    o: CopyLiveDaemonAcceptanceOptions,
    leaders: int,
    accounts: Seq<Seq<char>>,
    f: AcceptanceFindings,
)
    requires
        o.live,
        all_ok(acceptance_checks(config, o, leaders, accounts, f)),
    ensures
        !config.app.dry_run,
        o.allow_live_submit,
        config.manual_ops.manual_live_enabled,
        config.is_mainnet() ==> o.confirm_mainnet_live && config.manual_ops.mainnet_live_enabled,
{
    let all = acceptance_checks(config, o, leaders, accounts, f);
    let live = live_gate_checks(config, o);
    let before = party_checks(leaders, accounts.len() as int) + account_checks(config, accounts)
        + bound_checks(o, accounts.len() as int, f.would_submit_orders@) + policy_checks(
        config,
        o,
        f,
    ) + order_plan_checks(o, f.would_submit_orders@);
    assert(all == before + live);
    all_ok_concat(before, live);
    assert(live[0].ok && live[1].ok && live[2].ok && live[3].ok && live[4].ok);
}

/// The options of an acceptance run are accepted exactly where sizes and notional
/// are above zero, fees are not below, and the slippage is below the whole price.
pub proof fn acceptance_needs_positive_figures(o: CopyLiveDaemonAcceptanceOptions)
    ensures
        acceptance_error(o) is None <==> o.leader_size > 0 && o.leader_notional_usd > 0
            && o.max_slippage_bps >= 0 && o.max_slippage_bps < 10_000 * 1_000_000_000
            && o.max_total_notional_usd > 0 && o.max_total_fees_usd >= 0,
{
}

/// What each check of an acceptance run means.
pub proof fn each_check_of_acceptance_means_what_it_says(
    config: AppConfig,
    o: CopyLiveDaemonAcceptanceOptions,
    leaders: int,
    accounts: int,
    f: AcceptanceFindings,
)
    requires
        0 <= accounts <= usize::MAX,
    ensures
        ({
            let orders = f.would_submit_orders@;
            let least = if accounts < 1 {
                1
            } else {
                accounts
            };
            let p = party_checks(leaders, accounts);
            let b = bound_checks(o, accounts, orders);
            let q = policy_checks(config, o, f);
            let r = order_plan_checks(o, orders);
            let g = live_gate_checks(config, o);
            let mainnet = config.app.environment@ == "mainnet"@;
            &&& p.len() == 2 && (p[0].ok <==> leaders > 0) && (p[1].ok <==> accounts > 0)
            &&& b.len() == 5
            &&& b[0].ok <==> o.max_duration_secs >= 1 && o.max_duration_secs <= 60 * 60
            &&& b[1].ok <==> o.max_live_orders >= least && o.max_live_orders <= 3 * least
            &&& b[2].ok <==> total(orders, order_size()) <= o.max_total_notional_usd
            &&& b[3].ok <==> o.max_total_fees_usd <= 1_000_000_000
            &&& b[4].ok <==> o.max_slippage_bps <= 100_000_000_000
            &&& q.len() == 5
            &&& q[0].ok <==> o.require_cleanup_after_submit
            &&& q[1].ok <==> o.require_flat_reconcile_after_submit
            &&& q[2].ok <==> config.risk.global.allow_reduce_only_when_killed
            &&& q[3].ok
            &&& q[4].ok <==> f.restart_probe.first_emit_count > 0
                && f.restart_probe.replay_emit_count == 0
                && f.restart_probe.fresh_after_restart_emit_count > 0
                && f.restart_probe.loaded_seen_event_keys >= f.restart_probe.saved_seen_event_keys
            &&& r.len() == 3
            &&& r[0].ok <==> orders.len() > 0
            &&& r[1].ok <==> orders.len() <= o.max_live_orders
            &&& r[2].ok <==> (forall|i: int|
                0 <= i < orders.len() ==> !blank((#[trigger] orders[i]).cloid@))
            &&& g.len() == 5
            &&& g[0].ok <==> !config.app.dry_run
            &&& g[1].ok <==> o.allow_live_submit
            &&& g[2].ok <==> (mainnet ==> o.confirm_mainnet_live)
            &&& g[3].ok <==> config.manual_ops.manual_live_enabled
            &&& g[4].ok <==> (mainnet ==> config.manual_ops.mainnet_live_enabled)
            &&& o.live ==> mode_checks(config, o) == g
            &&& !o.live ==> mode_checks(config, o).len() == 1 && (mode_checks(config, o)[0].ok
                <==> config.app.dry_run)
        }),
{
}

/// Acceptance makes all of its checks: those on who copies and for whom, on each
/// account, on the bounds, the policies and the orders, and on the mode.
pub proof fn acceptance_makes_every_check(
    config: AppConfig,
    o: CopyLiveDaemonAcceptanceOptions,
    leaders: int,
    accounts: Seq<Seq<char>>,
    f: AcceptanceFindings,
)
    ensures
        all_ok(acceptance_checks(config, o, leaders, accounts, f)) <==> all_ok(
            party_checks(leaders, accounts.len() as int),
        ) && all_ok(account_checks(config, accounts)) && all_ok(
            bound_checks(o, accounts.len() as int, f.would_submit_orders@),
        ) && all_ok(policy_checks(config, o, f)) && all_ok(
            order_plan_checks(o, f.would_submit_orders@),
        ) && all_ok(mode_checks(config, o)),
{
    let a = party_checks(leaders, accounts.len() as int);
    let b = account_checks(config, accounts);
    let c = bound_checks(o, accounts.len() as int, f.would_submit_orders@);
    let d = policy_checks(config, o, f);
    let e = order_plan_checks(o, f.would_submit_orders@);
    let g = mode_checks(config, o);
    all_ok_concat(a + b + c + d + e, g);
    all_ok_concat(a + b + c + d, e);
    all_ok_concat(a + b + c, d);
    all_ok_concat(a + b, c);
    all_ok_concat(a, b);
}

/// An acceptance run that failed is told not to start; one that passed in dry run
/// is told so.
pub proof fn a_failed_acceptance_is_told_to_stop(ok: bool, live: bool)
    ensures
        occurs_at(acceptance_advice(ok, live), "Do not"@, 0) <==> !ok,
        occurs_at(acceptance_advice(ok, live), "Dry-run"@, 0) <==> ok && !live,
{
    let a = acceptance_advice(ok, live);
    reveal_strlit("Do not");
    reveal_strlit("Dry-run");
    reveal_strlit(
        "Acceptance gate passed for live-capable configuration; run only a bounded canary-live window and require immediate cleanup/reconcile evidence.",
    );
    reveal_strlit(
        "Dry-run daemon acceptance gate passed; rerun against live-capable config with --live true for a no-submit gate review before any daemon submit.",
    );
    reveal_strlit(
        "Do not start unattended live copy; fix failed acceptance checks and rerun this command.",
    );
    assert(a.subrange(0, 6)[0] == a[0] && a.subrange(0, 7)[0] == a[0]);
    assert(a.subrange(0, 6)[1] == a[1] && a.subrange(0, 7)[1] == a[1]);
    if !ok {
        assert(a.subrange(0, 6) =~= "Do not"@);
    } else if !live {
        assert(a.subrange(0, 7) =~= "Dry-run"@);
    }
}

} // verus!
