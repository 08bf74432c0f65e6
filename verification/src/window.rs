//! A bounded window: gate, rehearsal, at most one execution, and a final look at
//! the accounts.

use vstd::prelude::*;

use crate::acceptance::CopyLiveDaemonAcceptanceReport;
use crate::canary::CopyExecutionCanaryReport;
use crate::checks::{
    all_ok, check, checks_all_ok, push_check, push_note, views, Check, CopyShadowSmokeCheck,
};
use crate::config::AppConfig;
use crate::decimal::{dec, push_count, Fixed};
use crate::options::{
    CopyBoundedLiveWindowOptions, CopyExecutionCanaryOptions, CopyLiveDaemonAcceptanceOptions,
};
use crate::reconcile::{
    all_flat, flat_detail, flat_detail_of, reconciliations_all_flat, CopyBoundedLiveWindowReconcile,
};
use crate::text::{bool_text, clone_texts, occurs_at, push_bool, texts};

verus! {

/// The outcome of a bounded window.
#[derive(Clone, Debug)]
pub struct CopyBoundedLiveWindowReport {
    pub ok: bool,
    pub mode: String,
    pub environment: String,
    pub submit_requested: bool,
    pub live_submit_allowed: bool,
    pub confirm_mainnet_live: bool,
    pub max_duration_secs: u64,
    pub max_live_orders: usize,
    pub max_total_notional_usd: Fixed,
    pub max_total_fees_usd: Fixed,
    pub max_slippage_bps: Fixed,
    pub cleanup_max_slippage_bps: Fixed,
    pub target_accounts: Vec<String>,
    pub checks: Vec<CopyShadowSmokeCheck>,
    pub acceptance: CopyLiveDaemonAcceptanceReport,
    pub preflight: CopyExecutionCanaryReport,
    pub execution: Option<CopyExecutionCanaryReport>,
    pub final_reconciliations: Vec<CopyBoundedLiveWindowReconcile>,
    pub next_actions: Vec<String>,
}

/// What the acceptance run of a window is asked.
pub fn window_acceptance_options(
    o: &CopyBoundedLiveWindowOptions,
    target_accounts: &Vec<String>,
) -> (r: CopyLiveDaemonAcceptanceOptions)
    ensures
        r.leaders@ == o.leaders@,
        r.account_ids@ == target_accounts@,
        r.coin == o.coin,
        r.side == o.side,
        r.persistence_path == o.persistence_path,
        r.shadow_history_path == o.shadow_history_path,
        r.leader_notional_usd == o.leader_notional_usd,
        r.leader_size == o.leader_size,
        r.live,
        r.allow_live_submit == o.allow_live_submit,
        r.confirm_mainnet_live == o.confirm_mainnet_live,
        r.max_duration_secs == o.max_duration_secs,
        r.max_live_orders == o.max_live_orders,
        r.max_total_notional_usd == o.max_total_notional_usd,
        r.max_total_fees_usd == o.max_total_fees_usd,
        r.max_slippage_bps == o.max_slippage_bps,
        r.require_cleanup_after_submit,
        r.require_flat_reconcile_after_submit,
{
    CopyLiveDaemonAcceptanceOptions {
        leaders: clone_texts(&o.leaders),
        account_ids: clone_texts(target_accounts),
        coin: o.coin.clone(),
        side: o.side,
        persistence_path: o.persistence_path.clone(),
        shadow_history_path: o.shadow_history_path.clone(),
        leader_notional_usd: o.leader_notional_usd,
        leader_size: o.leader_size,
        live: true,
        allow_live_submit: o.allow_live_submit,
        confirm_mainnet_live: o.confirm_mainnet_live,
        max_duration_secs: o.max_duration_secs,
        max_live_orders: o.max_live_orders,
        max_total_notional_usd: o.max_total_notional_usd,
        max_total_fees_usd: o.max_total_fees_usd,
        max_slippage_bps: o.max_slippage_bps,
        require_cleanup_after_submit: true,
        require_flat_reconcile_after_submit: true,
    }
}

/// What the trial of a window is asked: a rehearsal, or the execution.
pub fn window_canary_options(
    o: &CopyBoundedLiveWindowOptions,
    target_accounts: &Vec<String>,
    preflight_only: bool,
) -> (r: CopyExecutionCanaryOptions)
    ensures
        r.leaders@ == o.leaders@,
        r.account_ids@ == target_accounts@,
        r.coin == o.coin,
        r.side == o.side,
        r.local_account_id is None,
        r.shadow_history_path == o.shadow_history_path,
        r.leader_notional_usd == o.leader_notional_usd,
        r.leader_size == o.leader_size,
        r.live,
        r.allow_live_submit == o.allow_live_submit,
        r.confirm_mainnet_live == o.confirm_mainnet_live,
        r.cleanup_after_submit,
        r.cleanup_max_slippage_bps == o.cleanup_max_slippage_bps,
        r.preflight_only == preflight_only,
        r.max_orders == o.max_live_orders,
{
    CopyExecutionCanaryOptions {
        leaders: clone_texts(&o.leaders),
        account_ids: clone_texts(target_accounts),
        coin: o.coin.clone(),
        side: o.side,
        local_account_id: None,
        shadow_history_path: o.shadow_history_path.clone(),
        leader_notional_usd: o.leader_notional_usd,
        leader_size: o.leader_size,
        live: true,
        allow_live_submit: o.allow_live_submit,
        confirm_mainnet_live: o.confirm_mainnet_live,
        cleanup_after_submit: true,
        cleanup_max_slippage_bps: o.cleanup_max_slippage_bps,
        preflight_only,
        max_orders: o.max_live_orders,
    }
}

/// The checks that have to pass before a window executes anything.
pub open spec fn window_gate(
    submit: bool,
    acceptance: CopyLiveDaemonAcceptanceReport,
    preflight: CopyExecutionCanaryReport,
) -> Seq<Check> {
    seq![
        check(
            "acceptance_gate"@,
            acceptance.ok,
            "copy-live-daemon-acceptance ok="@ + bool_text(acceptance.ok),
        ),
        check(
            "preflight_only_canary"@,
            preflight.ok && preflight.submitted_reports@.len() == 0,
            "preflight ok="@ + bool_text(preflight.ok) + " would_submit_orders="@ + dec(
                preflight.would_submit_orders@.len(),
            ) + " submitted_reports="@ + dec(preflight.submitted_reports@.len()),
        ),
        check(
            "bounded_submit_flag"@,
            !submit || (acceptance.ok && preflight.ok),
            "--submit true is allowed only after acceptance and preflight checks pass"@,
        ),
    ]
}

/// Whether a window executes its plan.
pub open spec fn window_executes(
    submit: bool,
    acceptance: CopyLiveDaemonAcceptanceReport,
    preflight: CopyExecutionCanaryReport,
) -> bool {
    submit && all_ok(window_gate(submit, acceptance, preflight))
}

/// The checks that have to pass before a window executes anything, and whether
/// it does.
pub fn check_window_gate(
    submit: bool,
    acceptance: &CopyLiveDaemonAcceptanceReport,
    preflight: &CopyExecutionCanaryReport,
) -> (r: (Vec<CopyShadowSmokeCheck>, bool))
    ensures
        views(r.0@) == window_gate(submit, *acceptance, *preflight),
        r.1 == window_executes(submit, *acceptance, *preflight),
{
    let mut c: Vec<CopyShadowSmokeCheck> = Vec::new();
    assert(views(c@) =~= Seq::empty());
    let mut d: String = "copy-live-daemon-acceptance ok=".to_owned();
    push_bool(&mut d, acceptance.ok);
    push_check(&mut c, "acceptance_gate", acceptance.ok, d);
    let mut d: String = "preflight ok=".to_owned();
    push_bool(&mut d, preflight.ok);
    d.append(" would_submit_orders=");
    push_count(&mut d, preflight.would_submit_orders.len());
    d.append(" submitted_reports=");
    push_count(&mut d, preflight.submitted_reports.len());
    push_check(
        &mut c,
        "preflight_only_canary",
        preflight.ok && preflight.submitted_reports.len() == 0,
        d,
    );
    push_note(
        &mut c,
        "bounded_submit_flag",
        !submit || (acceptance.ok && preflight.ok),
        "--submit true is allowed only after acceptance and preflight checks pass",
    );
    assert(views(c@) =~= window_gate(submit, *acceptance, *preflight));
    let go: bool = submit && checks_all_ok(&c);
    (c, go)
}

/// The check on the execution of a window.
pub open spec fn execution_check(
    submit: bool,
    execution: Option<CopyExecutionCanaryReport>,
) -> Check {
    match execution {
        Some(e) => check(
            "execution_canary"@,
            e.ok && e.submitted_reports@.len() > 0,
            "execution ok="@ + bool_text(e.ok) + " submitted_reports="@ + dec(
                e.submitted_reports@.len(),
            ) + " cleanup_errors="@ + dec(e.cleanup_errors@.len()),
        ),
        None => check(
            "execution_canary"@,
            !submit,
            if submit {
                "submit requested but execution was skipped because earlier gates failed"@
            } else {
                "no-submit bounded window stopped before live execution"@
            },
        ),
    }
}

/// The check that every account is flat at the end.
pub open spec fn final_flat_check(s: Seq<CopyBoundedLiveWindowReconcile>) -> Check {
    check("final_reconcile_flat"@, all_flat(s), flat_detail(s))
}

/// All checks of a window.
pub open spec fn window_checks(
    submit: bool,
    acceptance: CopyLiveDaemonAcceptanceReport,
    preflight: CopyExecutionCanaryReport,
    execution: Option<CopyExecutionCanaryReport>,
    s: Seq<CopyBoundedLiveWindowReconcile>,
) -> Seq<Check> {
    window_gate(submit, acceptance, preflight).push(execution_check(submit, execution)).push(
        final_flat_check(s),
    )
}

/// Whether a window went well: every check passed, and it executed exactly where
/// it was asked to.
pub open spec fn window_ok(
    submit: bool,
    checks: Seq<Check>,
    acceptance: CopyLiveDaemonAcceptanceReport,
    preflight: CopyExecutionCanaryReport,
    execution: Option<CopyExecutionCanaryReport>,
    s: Seq<CopyBoundedLiveWindowReconcile>,
) -> bool {
    &&& all_ok(checks)
    &&& acceptance.ok
    &&& preflight.ok
    &&& match execution {
        Some(e) => submit && e.ok,
        None => !submit,
    }
    &&& all_flat(s)
}

/// What a borrowed optional report is.
pub open spec fn opt_canary(r: Option<&CopyExecutionCanaryReport>) -> Option<
    CopyExecutionCanaryReport,
> {
    match r {
        Some(x) => Some(*x),
        None => None,
    }
}

/// Whether a window went well.
pub fn copy_bounded_live_window_ok(
    submit_requested: bool,
    checks: &Vec<CopyShadowSmokeCheck>,
    acceptance: &CopyLiveDaemonAcceptanceReport,
    preflight: &CopyExecutionCanaryReport,
    execution: Option<&CopyExecutionCanaryReport>,
    final_reconciliations: &Vec<CopyBoundedLiveWindowReconcile>,
) -> (r: bool)
    ensures
        r == window_ok(
            submit_requested,
            views(checks@),
            *acceptance,
            *preflight,
            opt_canary(execution),
            final_reconciliations@,
        ),
{
    let execution_ok: bool = match execution {
        Some(e) => submit_requested && e.ok,
        None => !submit_requested,
    };
    checks_all_ok(checks) && acceptance.ok && preflight.ok && execution_ok
        && reconciliations_all_flat(final_reconciliations)
}

/// What an operator should do after a window.
pub open spec fn window_advice(ok: bool, submit: bool) -> Seq<char> {
    if ok && submit {
        "Bounded canary-live window completed with cleanup and final flat reconciliation; archive the report before any wider live window."@
    } else if ok {
        "No-submit bounded live window passed; rerun with --submit true only for one-account/one-order canary-live execution."@
    } else {
        "Do not submit or widen live copy; inspect failed checks and reconcile every target account before retrying."@
    }
}

fn advise(ok: bool, submit: bool) -> (r: Vec<String>)
    ensures
        texts(r@) == seq![window_advice(ok, submit)],
{
    let s: &str = if ok && submit {
        "Bounded canary-live window completed with cleanup and final flat reconciliation; archive the report before any wider live window."
    } else if ok {
        "No-submit bounded live window passed; rerun with --submit true only for one-account/one-order canary-live execution."
    } else {
        "Do not submit or widen live copy; inspect failed checks and reconcile every target account before retrying."
    };
    let r: Vec<String> = vec![s.to_owned()];
    assert(texts(r@) =~= seq![window_advice(ok, submit)]);
    r
}

fn push_execution_check(
    checks: &mut Vec<CopyShadowSmokeCheck>,
    submit: bool,
    execution: &Option<CopyExecutionCanaryReport>,
)
    ensures
        views(final(checks)@) == views(old(checks)@).push(execution_check(submit, *execution)),
{
    match execution {
        Some(e) => {
            let mut d: String = "execution ok=".to_owned();
            push_bool(&mut d, e.ok);
            d.append(" submitted_reports=");
            push_count(&mut d, e.submitted_reports.len());
            d.append(" cleanup_errors=");
            push_count(&mut d, e.cleanup_errors.len());
            push_check(checks, "execution_canary", e.ok && e.submitted_reports.len() > 0, d);
        },
        None => {
            let d: &str = if submit {
                "submit requested but execution was skipped because earlier gates failed"
            } else {
                "no-submit bounded window stopped before live execution"
            };
            push_note(checks, "execution_canary", !submit, d);
        },
    }
}

/// Appends the check that every account is flat at the end.
pub fn push_final_flat_check(
    checks: &mut Vec<CopyShadowSmokeCheck>,
    s: &Vec<CopyBoundedLiveWindowReconcile>,
)
    ensures
        views(final(checks)@) == views(old(checks)@).push(final_flat_check(s@)),
{
    push_check(checks, "final_reconcile_flat", reconciliations_all_flat(s), flat_detail_of(s));
}

/// What came of a window.
#[derive(Debug)]
pub struct WindowOutcome {
    pub target_accounts: Vec<String>,
    pub acceptance: CopyLiveDaemonAcceptanceReport,
    pub preflight: CopyExecutionCanaryReport,
    pub execution: Option<CopyExecutionCanaryReport>,
    pub final_reconciliations: Vec<CopyBoundedLiveWindowReconcile>,
}

/// Whether a report is that of the given window.
pub open spec fn window_report(
    r: CopyBoundedLiveWindowReport,
    environment: String,
    o: CopyBoundedLiveWindowOptions,
    w: WindowOutcome,
    checks: Seq<Check>,
    ok: bool,
) -> bool {
    &&& r.ok == ok
    &&& r.mode@ == if o.submit {
        "copy_bounded_live_window_submit"@
    } else {
        "copy_bounded_live_window_no_submit"@
    }
    &&& r.environment == environment
    &&& r.submit_requested == o.submit
    &&& r.live_submit_allowed == o.allow_live_submit
    &&& r.confirm_mainnet_live == o.confirm_mainnet_live
    &&& r.max_duration_secs == o.max_duration_secs
    &&& r.max_live_orders == o.max_live_orders
    &&& r.max_total_notional_usd == o.max_total_notional_usd
    &&& r.max_total_fees_usd == o.max_total_fees_usd
    &&& r.max_slippage_bps == o.max_slippage_bps
    &&& r.cleanup_max_slippage_bps == o.cleanup_max_slippage_bps
    &&& r.target_accounts == w.target_accounts
    &&& views(r.checks@) == checks
    &&& r.acceptance == w.acceptance
    &&& r.preflight == w.preflight
    &&& r.execution == w.execution
    &&& r.final_reconciliations == w.final_reconciliations
    &&& texts(r.next_actions@) == seq![window_advice(ok, o.submit)]
}

/// The report of a window.
pub fn copy_bounded_live_window_report(
    config: &AppConfig,
    options: &CopyBoundedLiveWindowOptions,
    outcome: WindowOutcome,
    checks: Vec<CopyShadowSmokeCheck>,
    ok: bool,
) -> (r: CopyBoundedLiveWindowReport)
    ensures
        window_report(r, config.app.environment, *options, outcome, views(checks@), ok),
{
    let mode: &str = if options.submit {
        "copy_bounded_live_window_submit"
    } else {
        "copy_bounded_live_window_no_submit"
    };
    CopyBoundedLiveWindowReport {
        ok,
        mode: mode.to_owned(),
        environment: config.app.environment.clone(),
        submit_requested: options.submit,
        live_submit_allowed: options.allow_live_submit,
        confirm_mainnet_live: options.confirm_mainnet_live,
        max_duration_secs: options.max_duration_secs,
        max_live_orders: options.max_live_orders,
        max_total_notional_usd: options.max_total_notional_usd,
        max_total_fees_usd: options.max_total_fees_usd,
        max_slippage_bps: options.max_slippage_bps,
        cleanup_max_slippage_bps: options.cleanup_max_slippage_bps,
        target_accounts: outcome.target_accounts,
        checks,
        acceptance: outcome.acceptance,
        preflight: outcome.preflight,
        execution: outcome.execution,
        final_reconciliations: outcome.final_reconciliations,
        next_actions: advise(ok, options.submit),
    }
}

/// The verdict on a window. It was executed exactly where its gate was open and
/// the operator asked for it.
pub fn run_copy_bounded_live_window(
    config: &AppConfig,
    options: &CopyBoundedLiveWindowOptions,
    outcome: WindowOutcome,
) -> (r: CopyBoundedLiveWindowReport)
    requires
        (outcome.execution is Some) == window_executes(
            options.submit,
            outcome.acceptance,
            outcome.preflight,
        ),
    ensures
        !options.submit ==> r.execution is None,
        ({
            let checks = window_checks(
                options.submit,
                outcome.acceptance,
                outcome.preflight,
                outcome.execution,
                outcome.final_reconciliations@,
            );
            window_report(
                r,
                config.app.environment,
                *options,
                outcome,
                checks,
                window_ok(
                    options.submit,
                    checks,
                    outcome.acceptance,
                    outcome.preflight,
                    outcome.execution,
                    outcome.final_reconciliations@,
                ),
            )
        }),
{
    let (mut checks, _executes) = check_window_gate(
        options.submit,
        &outcome.acceptance,
        &outcome.preflight,
    );
    push_execution_check(&mut checks, options.submit, &outcome.execution);
    push_final_flat_check(&mut checks, &outcome.final_reconciliations);
    let execution: Option<&CopyExecutionCanaryReport> = match &outcome.execution {
        Some(e) => Some(e),
        None => None,
    };
    let ok: bool = copy_bounded_live_window_ok(
        options.submit,
        &checks,
        &outcome.acceptance,
        &outcome.preflight,
        execution,
        &outcome.final_reconciliations,
    );
    copy_bounded_live_window_report(config, options, outcome, checks, ok)
}

/// A window that was asked to send and went well passed its gate, sent at least
/// one order, and left every account flat.
pub proof fn a_good_submit_window_ends_flat(
    acceptance: CopyLiveDaemonAcceptanceReport,
    preflight: CopyExecutionCanaryReport,
    execution: Option<CopyExecutionCanaryReport>,
    s: Seq<CopyBoundedLiveWindowReconcile>,
)
    requires
        window_ok(
            true,
            window_checks(true, acceptance, preflight, execution, s),
            acceptance,
            preflight,
            execution,
            s,
        ),
    ensures
        window_executes(true, acceptance, preflight),
        execution is Some,
        execution->0.ok,
        execution->0.submitted_reports@.len() > 0,
        all_flat(s),
{
    let gate = window_gate(true, acceptance, preflight);
    let checks = window_checks(true, acceptance, preflight, execution, s);
    assert forall|i: int| 0 <= i < gate.len() implies (#[trigger] gate[i]).ok by {
        assert(checks[i] == gate[i]);
    }
    assert(checks[3] == execution_check(true, execution));
    assert(checks[3].ok);
}

/// A bounded window executes exactly where it was asked to send, acceptance and
/// preflight went well, and the preflight sent nothing.
pub proof fn a_window_executes_only_after_its_trials(
    submit: bool,
    acceptance: CopyLiveDaemonAcceptanceReport,
    preflight: CopyExecutionCanaryReport,
)
    ensures
        window_executes(submit, acceptance, preflight) <==> submit && acceptance.ok && preflight.ok
            && preflight.submitted_reports@.len() == 0,
{
    let c = window_gate(submit, acceptance, preflight);
    if all_ok(c) {
        assert(c[0].ok && c[1].ok && c[2].ok);
    }
}

/// What each check on a bounded window means, and when it went well.
pub proof fn each_check_on_a_window_means_what_it_says(
    submit: bool,
    acceptance: CopyLiveDaemonAcceptanceReport,
    preflight: CopyExecutionCanaryReport,
    execution: Option<CopyExecutionCanaryReport>,
    s: Seq<CopyBoundedLiveWindowReconcile>,
)
    ensures
        ({
            let c = window_checks(submit, acceptance, preflight, execution, s);
            &&& c.len() == 5
            &&& c[0].name == "acceptance_gate"@ && (c[0].ok <==> acceptance.ok)
            &&& c[1].name == "preflight_only_canary"@ && (c[1].ok <==> preflight.ok
                && preflight.submitted_reports@.len() == 0)
            &&& c[2].name == "bounded_submit_flag"@ && (c[2].ok <==> (submit ==> acceptance.ok
                && preflight.ok))
            &&& c[3].name == "execution_canary"@
            &&& execution is Some ==> (c[3].ok <==> execution->0.ok
                && execution->0.submitted_reports@.len() > 0)
            &&& execution is None ==> (c[3].ok <==> !submit)
            &&& c[4].name == "final_reconcile_flat"@ && (c[4].ok <==> forall|i: int|
                0 <= i < s.len() ==> (#[trigger] s[i]).ok)
            &&& window_ok(submit, c, acceptance, preflight, execution, s) <==> acceptance.ok
                && preflight.ok && preflight.submitted_reports@.len() == 0 && (submit <==> execution
                is Some) && (execution is Some ==> execution->0.ok
                && execution->0.submitted_reports@.len() > 0) && forall|i: int|
                0 <= i < s.len() ==> (#[trigger] s[i]).ok
        }),
{
    let c = window_checks(submit, acceptance, preflight, execution, s);
    if all_ok(c) {
        assert(c[0].ok && c[1].ok && c[2].ok && c[3].ok && c[4].ok);
    }
    assert(c[0].ok && c[1].ok && c[2].ok && c[3].ok && c[4].ok ==> all_ok(c));
}

/// A window that failed is told not to go on; one that passed without sending is
/// told that it sent nothing.
pub proof fn a_failed_window_is_told_to_stop(ok: bool, submit: bool)
    ensures
        occurs_at(window_advice(ok, submit), "Do not"@, 0) <==> !ok,
        occurs_at(window_advice(ok, submit), "No-submit"@, 0) <==> ok && !submit,
{
    let a = window_advice(ok, submit);
    reveal_strlit("Do not");
    reveal_strlit("No-submit");
    reveal_strlit(
        "Bounded canary-live window completed with cleanup and final flat reconciliation; archive the report before any wider live window.",
    );
    reveal_strlit(
        "No-submit bounded live window passed; rerun with --submit true only for one-account/one-order canary-live execution.",
    );
    reveal_strlit(
        "Do not submit or widen live copy; inspect failed checks and reconcile every target account before retrying.",
    );
    assert(a.subrange(0, 6)[0] == a[0] && a.subrange(0, 9)[0] == a[0]);
    assert(a.subrange(0, 6)[1] == a[1] && a.subrange(0, 6)[0] == a[0]);
    if !ok {
        assert(a.subrange(0, 6) =~= "Do not"@);
    } else if !submit {
        assert(a.subrange(0, 9) =~= "No-submit"@);
    }
}

/// The report of a window tells what was asked for, what was tried and what was
/// done, with the checks and the outcome that it was given.
pub proof fn a_window_report_tells_what_was_done(
    r: CopyBoundedLiveWindowReport,
    environment: String,
    o: CopyBoundedLiveWindowOptions,
    w: WindowOutcome,
    checks: Seq<Check>,
    ok: bool,
)
    requires
        window_report(r, environment, o, w, checks, ok),
    ensures
        r.ok == ok,
        r.submit_requested == o.submit,
        r.live_submit_allowed == o.allow_live_submit,
        r.confirm_mainnet_live == o.confirm_mainnet_live,
        r.max_duration_secs == o.max_duration_secs,
        r.max_live_orders == o.max_live_orders,
        r.max_total_notional_usd == o.max_total_notional_usd,
        r.max_total_fees_usd == o.max_total_fees_usd,
        r.max_slippage_bps == o.max_slippage_bps,
        r.cleanup_max_slippage_bps == o.cleanup_max_slippage_bps,
        r.environment == environment,
        r.target_accounts == w.target_accounts,
        r.acceptance == w.acceptance,
        r.preflight == w.preflight,
        r.execution == w.execution,
        r.final_reconciliations == w.final_reconciliations,
        r.checks@.len() == checks.len(),
        forall|i: int| 0 <= i < checks.len() ==> (#[trigger] r.checks@[i])@ == checks[i],
        r.mode@ == "copy_bounded_live_window_submit"@ || r.mode@
            == "copy_bounded_live_window_no_submit"@,
        o.submit ==> r.mode@ == "copy_bounded_live_window_submit"@,
        !o.submit ==> r.mode@ == "copy_bounded_live_window_no_submit"@,
        r.next_actions@.len() == 1,
{
    assert(views(r.checks@).len() == r.checks@.len());
    assert forall|i: int| 0 <= i < checks.len() implies (#[trigger] r.checks@[i])@ == checks[i] by {
        assert(views(r.checks@)[i] == r.checks@[i]@);
    }
    assert(texts(r.next_actions@).len() == r.next_actions@.len());
}

} // verus!
