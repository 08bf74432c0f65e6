//! Sending the plans of a window: what has to hold before, which reductions
//! still make sense, and what is reported afterwards.

use vstd::prelude::*;

use crate::checks::{
    all_ok, all_ok_concat, append_checks, check, checks_all_ok, push_check, push_note, views, Check,
    CopyShadowSmokeCheck,
};
use crate::config::{copy_execution_canary_target_accounts, target_accounts, AppConfig};
use crate::contract::{are_cloids_disjoint, disjoint_cloids};
use crate::decimal::{
    amount_worth, dec, fixed6, fixed_plain, push_count, push_fixed6, push_plain, push_u64,
    worth_is_natural, Fixed, FIXED_MAX,
};
use crate::domain::{
    opposite, opposite_order_side, push_side_name, side_name, ExecutionMode, OrderSide,
    OrderSubmitted, WorkerError, WorkerReport,
};
use crate::intent::{ApprovedOrder, RiskDecision};
use crate::ledger::{CopyPersistenceSnapshot, HYPERLIQUID_MIN_ORDER_NOTIONAL_USD};
use crate::margin::resized;
use crate::options::{is_slippage_valid, slippage_valid, CopyLiveDaemonSupervisorOptions};
use crate::plan::{
    clone_plans, count_opens, count_reduces, held, opens, reduces, CopyExecutionCanaryWouldSubmit,
    CopyLiveDaemonSuppressedWouldSubmitRef, CopyLiveDaemonWouldSubmitRef, HeldPlan,
};
use crate::reconcile::{
    backing, copy_live_daemon_reduce_only_matching_position_notional_usd, largest_reducible,
    position_side, reducible, AssetPosition, ClearinghouseState, PerpPosition,
};
use crate::seqs::{filter_members, whole};
use crate::submit::{
    all_accounted_for, all_applied, all_runbooks_ok, copy_canary_live_submitted_reports,
    copy_daemon_submitted_reports_needing_cleanup, count_safe_skips, empty_live_submit_report,
    evidence_complete, evidence_is_complete, evidence_ok, is_safe_skip, live_orders, needs_cleanup,
    reports_accounted_for, results_all_applied, runbook_ok, runbooks_all_ok, safe_skip,
    safe_skip_message, sent_nothing, CopyExecutionCanaryOrderEvidence, CopyLedgerReconcileResult,
    CopyLiveDaemonPersistentLiveSubmitReport, SignedRunbookResult,
};
use crate::text::{bool_text, list_has, lists, lower, occurs_at, push_bool, texts};

verus! {

/// Whether every plan is for a selected account that is configured, and at least
/// one account is selected.
pub open spec fn accounts_in_scope(
    config: AppConfig,
    options: CopyLiveDaemonSupervisorOptions,
    refs: Seq<CopyLiveDaemonWouldSubmitRef>,
) -> bool {
    let selected = target_accounts(config, options.account_ids@, None);
    &&& selected.len() > 0
    &&& forall|i: int|
        0 <= i < refs.len() ==> selected.contains((#[trigger] refs[i]).order.account_id@)
            && config.account_of(refs[i].order.account_id@) is Some
}

/// Whether every plan is for a selected account that is configured.
pub fn copy_live_daemon_submit_accounts_in_scope(
    config: &AppConfig,
    options: &CopyLiveDaemonSupervisorOptions,
    executable_refs: &Vec<CopyLiveDaemonWouldSubmitRef>,
) -> (r: bool)
    ensures
        r == accounts_in_scope(*config, *options, executable_refs@),
{
    let selected: Vec<String> = copy_execution_canary_target_accounts(
        config,
        &options.account_ids,
        None,
    );
    let ghost names = texts(selected@);
    assert(names.len() == selected@.len());
    if selected.len() == 0 {
        return false;
    }
    let mut i: usize = 0;
    while i < executable_refs.len()
        invariant
            i <= executable_refs@.len(),
            names == texts(selected@),
            names == target_accounts(*config, options.account_ids@, None),
            forall|k: int|
                0 <= k < i ==> names.contains((#[trigger] executable_refs@[k]).order.account_id@)
                    && config.account_of(executable_refs@[k].order.account_id@) is Some,
        decreases executable_refs@.len() - i,
    {
        let id: &str = executable_refs[i].order.account_id.as_str();
        proof {
            assert(lists(selected@, id@) <==> names.contains(id@)) by {
                if lists(selected@, id@) {
                    let k = choose|k: int|
                        0 <= k < selected@.len() && (#[trigger] selected@[k])@ == id@;
                    assert(names[k] == id@);
                }
                if names.contains(id@) {
                    let k = choose|k: int| 0 <= k < names.len() && names[k] == id@;
                    assert(selected@[k]@ == id@);
                }
            }
        }
        let configured: bool = match config.account(id) {
            Some(_a) => true,
            None => false,
        };
        if !configured || !list_has(&selected, id) {
            return false;
        }
        i += 1;
    }
    true
}

/// The largest notional that a plan of a list opens, or zero.
pub open spec fn max_open_notional(refs: Seq<CopyLiveDaemonWouldSubmitRef>) -> int
    decreases refs.len(),
{
    if refs.len() == 0 {
        0
    } else {
        let m = max_open_notional(refs.drop_last());
        let p = refs.last();
        if !p.order.reduce_only && p.order.notional_usd > m {
            p.order.notional_usd as int
        } else {
            m
        }
    }
}

fn largest_open_notional(refs: &Vec<CopyLiveDaemonWouldSubmitRef>) -> (r: Fixed)
    ensures
        r == max_open_notional(refs@),
{
    let mut m: Fixed = 0;
    let mut i: usize = 0;
    while i < refs.len()
        invariant
            i <= refs@.len(),
            m == max_open_notional(refs@.subrange(0, i as int)),
        decreases refs@.len() - i,
    {
        assert(refs@.subrange(0, i as int + 1).drop_last() =~= refs@.subrange(0, i as int));
        if !refs[i].order.reduce_only && refs[i].order.notional_usd > m {
            m = refs[i].order.notional_usd;
        }
        i += 1;
    }
    proof {
        whole(refs@);
    }
    m
}

/// The checks on what the operator asked for and what was planned.
pub open spec fn request_checks(
    options: CopyLiveDaemonSupervisorOptions,
    contract_ok: bool,
    refs: Seq<CopyLiveDaemonWouldSubmitRef>,
    back: Seq<HeldPlan>,
) -> Seq<Check> {
    seq![
        check(
            "submit_requested"@,
            options.submit,
            "--submit true is required before persistent daemon live submit can run"@,
        ),
        check(
            "submit_plan_contract_ok"@,
            contract_ok,
            "submit_plan_contract.ok="@ + bool_text(contract_ok),
        ),
        check(
            "suppressed_refs_not_submitted"@,
            disjoint_cloids(refs, back),
            dec(refs.len()) + " executable ref(s); "@ + dec(back.len())
                + " suppressed ref(s) excluded"@,
        ),
    ]
}

/// The checks on the gates of a live window.
pub open spec fn gate_checks(
    config: AppConfig,
    options: CopyLiveDaemonSupervisorOptions,
) -> Seq<Check> {
    seq![
        check(
            "live_gate"@,
            options.live_gate,
            "persistent live submit requires --live-gate true"@,
        ),
        check(
            "allow_live_submit"@,
            options.allow_live_submit,
            "persistent live submit requires --allow-live-submit true"@,
        ),
        check(
            "mainnet_confirmation"@,
            !config.is_mainnet() || options.confirm_mainnet_live,
            "mainnet persistent live submit requires --confirm-mainnet-live true"@,
        ),
        check(
            "process_dry_run_disabled"@,
            !config.app.dry_run,
            "persistent live submit requires app.dry_run=false"@,
        ),
        check(
            "manual_live_enabled"@,
            config.manual_ops.manual_live_enabled,
            "persistent live submit uses the same manual live gate as signed smoke"@,
        ),
        check(
            "mainnet_live_enabled"@,
            !config.is_mainnet() || config.manual_ops.mainnet_live_enabled,
            "mainnet persistent live submit requires manual_ops.mainnet_live_enabled=true"@,
        ),
    ]
}

/// The checks on the size of what is sent and on its cleanup.
pub open spec fn size_checks(
    config: AppConfig,
    options: CopyLiveDaemonSupervisorOptions,
    refs: Seq<CopyLiveDaemonWouldSubmitRef>,
) -> Seq<Check> {
    seq![
        check(
            "selected_submit_accounts"@,
            accounts_in_scope(config, options, refs),
            dec(options.account_ids@.len()) + " selected account(s); "@ + dec(refs.len())
                + " submit-eligible ref(s) must belong to configured selected accounts"@,
        ),
        check(
            "single_open_order_submit"@,
            refs.filter(opens()).len() <= options.max_live_orders,
            dec(refs.filter(opens()).len())
                + " executable open/increase order(s), max_live_orders "@ + dec(
                options.max_live_orders as nat,
            ),
        ),
        check(
            "cleanup_slippage_valid"@,
            slippage_valid(options.cleanup_max_slippage_bps),
            "cleanup_max_slippage_bps="@ + fixed_plain(options.cleanup_max_slippage_bps as int)
                + " must be >= 0 and < 10000"@,
        ),
        check(
            "cleanup_notional_limit"@,
            max_open_notional(refs) <= config.manual_ops.max_manual_order_notional_usd,
            "max planned open notional "@ + fixed6(max_open_notional(refs))
                + " must be <= manual_ops.max_manual_order_notional_usd "@ + fixed6(
                config.manual_ops.max_manual_order_notional_usd as int,
            ),
        ),
    ]
}

/// All checks that have to pass before a window sends anything.
pub open spec fn live_submit_gate(
    config: AppConfig,
    options: CopyLiveDaemonSupervisorOptions,
    contract_ok: bool,
    refs: Seq<CopyLiveDaemonWouldSubmitRef>,
    back: Seq<HeldPlan>,
) -> Seq<Check> {
    request_checks(options, contract_ok, refs, back) + gate_checks(config, options) + size_checks(
        config,
        options,
        refs,
    )
}

fn push_request_checks(
    checks: &mut Vec<CopyShadowSmokeCheck>,
    options: &CopyLiveDaemonSupervisorOptions,
    contract_ok: bool,
    refs: &Vec<CopyLiveDaemonWouldSubmitRef>,
    back: &Vec<CopyLiveDaemonSuppressedWouldSubmitRef>,
)
    ensures
        views(final(checks)@) == views(old(checks)@) + request_checks(
            *options,
            contract_ok,
            refs@,
            held(back@),
        ),
{
    let ghost start = views(checks@);
    push_note(
        checks,
        "submit_requested",
        options.submit,
        "--submit true is required before persistent daemon live submit can run",
    );
    let mut d: String = "submit_plan_contract.ok=".to_owned();
    push_bool(&mut d, contract_ok);
    push_check(checks, "submit_plan_contract_ok", contract_ok, d);
    let mut d: String = String::new();
    push_count(&mut d, refs.len());
    d.append(" executable ref(s); ");
    push_count(&mut d, back.len());
    d.append(" suppressed ref(s) excluded");
    assert(held(back@).len() == back@.len());
    assert(d@ =~= dec(refs@.len()) + " executable ref(s); "@ + dec(held(back@).len())
        + " suppressed ref(s) excluded"@);
    push_check(checks, "suppressed_refs_not_submitted", are_cloids_disjoint(refs, back), d);
    assert(views(checks@) =~= start + request_checks(*options, contract_ok, refs@, held(back@)));
}

fn push_gate_checks(
    checks: &mut Vec<CopyShadowSmokeCheck>,
    config: &AppConfig,
    options: &CopyLiveDaemonSupervisorOptions,
)
    ensures
        views(final(checks)@) == views(old(checks)@) + gate_checks(*config, *options),
{
    let ghost start = views(checks@);
    let mainnet: bool = config.on_mainnet();
    push_note(
        checks,
        "live_gate",
        options.live_gate,
        "persistent live submit requires --live-gate true",
    );
    push_note(
        checks,
        "allow_live_submit",
        options.allow_live_submit,
        "persistent live submit requires --allow-live-submit true",
    );
    push_note(
        checks,
        "mainnet_confirmation",
        !mainnet || options.confirm_mainnet_live,
        "mainnet persistent live submit requires --confirm-mainnet-live true",
    );
    push_note(
        checks,
        "process_dry_run_disabled",
        !config.app.dry_run,
        "persistent live submit requires app.dry_run=false",
    );
    push_note(
        checks,
        "manual_live_enabled",
        config.manual_ops.manual_live_enabled,
        "persistent live submit uses the same manual live gate as signed smoke",
    );
    push_note(
        checks,
        "mainnet_live_enabled",
        !mainnet || config.manual_ops.mainnet_live_enabled,
        "mainnet persistent live submit requires manual_ops.mainnet_live_enabled=true",
    );
    assert(views(checks@) =~= start + gate_checks(*config, *options));
}

fn push_size_checks(
    checks: &mut Vec<CopyShadowSmokeCheck>,
    config: &AppConfig,
    options: &CopyLiveDaemonSupervisorOptions,
    refs: &Vec<CopyLiveDaemonWouldSubmitRef>,
)
    ensures
        views(final(checks)@) == views(old(checks)@) + size_checks(*config, *options, refs@),
{
    let ghost start = views(checks@);
    let mut d: String = String::new();
    push_count(&mut d, options.account_ids.len());
    d.append(" selected account(s); ");
    push_count(&mut d, refs.len());
    d.append(" submit-eligible ref(s) must belong to configured selected accounts");
    assert(d@ =~= dec(options.account_ids@.len()) + " selected account(s); "@ + dec(refs@.len())
        + " submit-eligible ref(s) must belong to configured selected accounts"@);
    push_check(
        checks,
        "selected_submit_accounts",
        copy_live_daemon_submit_accounts_in_scope(config, options, refs),
        d,
    );
    let open_count: usize = count_opens(refs);
    let mut d: String = String::new();
    push_count(&mut d, open_count);
    d.append(" executable open/increase order(s), max_live_orders ");
    push_count(&mut d, options.max_live_orders);
    assert(d@ =~= dec(open_count as nat) + " executable open/increase order(s), max_live_orders "@
        + dec(options.max_live_orders as nat));
    push_check(checks, "single_open_order_submit", open_count <= options.max_live_orders, d);
    let mut d: String = "cleanup_max_slippage_bps=".to_owned();
    push_plain(&mut d, options.cleanup_max_slippage_bps);
    d.append(" must be >= 0 and < 10000");
    push_check(
        checks,
        "cleanup_slippage_valid",
        is_slippage_valid(options.cleanup_max_slippage_bps),
        d,
    );
    let largest: Fixed = largest_open_notional(refs);
    let mut d: String = "max planned open notional ".to_owned();
    push_fixed6(&mut d, largest);
    d.append(" must be <= manual_ops.max_manual_order_notional_usd ");
    push_fixed6(&mut d, config.manual_ops.max_manual_order_notional_usd);
    push_check(
        checks,
        "cleanup_notional_limit",
        largest <= config.manual_ops.max_manual_order_notional_usd,
        d,
    );
    assert(views(checks@) =~= start + size_checks(*config, *options, refs@));
}

/// Checks whether a window may send its plans.
pub fn copy_live_daemon_persistent_live_submit_gate(
    config: &AppConfig,
    options: &CopyLiveDaemonSupervisorOptions,
    contract_ok: bool,
    executable_refs: &Vec<CopyLiveDaemonWouldSubmitRef>,
    suppressed_refs: &Vec<CopyLiveDaemonSuppressedWouldSubmitRef>,
) -> (r: Vec<CopyShadowSmokeCheck>)
    ensures
        views(r@) == live_submit_gate(
            *config,
            *options,
            contract_ok,
            executable_refs@,
            held(suppressed_refs@),
        ),
{
    let mut checks: Vec<CopyShadowSmokeCheck> = Vec::new();
    assert(views(checks@) =~= Seq::empty());
    push_request_checks(&mut checks, options, contract_ok, executable_refs, suppressed_refs);
    assert(views(checks@) =~= request_checks(
        *options,
        contract_ok,
        executable_refs@,
        held(suppressed_refs@),
    ));
    push_gate_checks(&mut checks, config, options);
    push_size_checks(&mut checks, config, options, executable_refs);
    checks
}

/// Whether a report is that of a window which was stopped by its checks: it is
/// not in order, and nothing was sent.
pub open spec fn blocked_by(
    r: CopyLiveDaemonPersistentLiveSubmitReport,
    options: CopyLiveDaemonSupervisorOptions,
    contract_ok: bool,
    checks: Seq<Check>,
    now_ms: u64,
) -> bool {
    &&& !r.ok
    &&& sent_nothing(r)
    &&& views(r.checks@) == checks
    &&& r.mode@ == "persistent_live_submit"@
    &&& r.submit_requested == options.submit
    &&& r.submit_plan_contract_ok == contract_ok
    &&& r.ledger_reconciliation_snapshot.schema_version == 1
    &&& r.ledger_reconciliation_snapshot.saved_at_ms == now_ms
    &&& r.ledger_reconciliation_snapshot.seen_event_keys@.len() == 0
    &&& r.ledger_reconciliation_snapshot.ledger_entries@.len() == 0
}

/// What follows the checks that have to pass before a window sends anything:
/// it goes on with them, or ends with a report.
#[derive(Debug)]
pub enum LiveSubmitNext {
    GoOn(Vec<CopyShadowSmokeCheck>),
    Blocked(CopyLiveDaemonPersistentLiveSubmitReport),
}

/// Whether a window goes on exactly where all checks before sending passed, and
/// otherwise ends with a report in which nothing was sent.
pub open spec fn submit_goes_on(
    next: LiveSubmitNext,
    config: AppConfig,
    options: CopyLiveDaemonSupervisorOptions,
    contract_ok: bool,
    refs: Seq<CopyLiveDaemonWouldSubmitRef>,
    back: Seq<HeldPlan>,
    now_ms: u64,
) -> bool {
    let g = live_submit_gate(config, options, contract_ok, refs, back);
    if all_ok(g) {
        next is GoOn && views(next->GoOn_0@) == g
    } else {
        next is Blocked && blocked_by(next->Blocked_0, options, contract_ok, g, now_ms)
    }
}

/// Checks whether a window may send its plans, and ends it where it may not.
pub fn live_submit_next(
    config: &AppConfig,
    options: &CopyLiveDaemonSupervisorOptions,
    contract_ok: bool,
    executable_refs: &Vec<CopyLiveDaemonWouldSubmitRef>,
    suppressed_refs: &Vec<CopyLiveDaemonSuppressedWouldSubmitRef>,
    now_ms: u64,
) -> (r: LiveSubmitNext)
    ensures
        submit_goes_on(
            r,
            *config,
            *options,
            contract_ok,
            executable_refs@,
            held(suppressed_refs@),
            now_ms,
        ),
{
    let checks: Vec<CopyShadowSmokeCheck> = copy_live_daemon_persistent_live_submit_gate(
        config,
        options,
        contract_ok,
        executable_refs,
        suppressed_refs,
    );
    if checks_all_ok(&checks) {
        LiveSubmitNext::GoOn(checks)
    } else {
        LiveSubmitNext::Blocked(
            copy_live_daemon_persistent_live_submit_blocked(options, contract_ok, checks, now_ms),
        )
    }
}

/// Nothing is sent behind a closed gate: a window that was not asked to send,
/// whose plans broke their contract or include one that was held back, that has
/// an operator switch off, or that plans for accounts or order counts out of
/// bounds, ends at once with a report that is not in order, holds a failed check
/// and no trace of an order.
pub proof fn nothing_is_sent_behind_a_closed_gate(
    next: LiveSubmitNext,
    config: AppConfig,
    options: CopyLiveDaemonSupervisorOptions,
    contract_ok: bool,
    refs: Seq<CopyLiveDaemonWouldSubmitRef>,
    back: Seq<HeldPlan>,
    now_ms: u64,
)
    requires
        submit_goes_on(next, config, options, contract_ok, refs, back, now_ms),
    ensures
        !options.submit || !contract_ok || !disjoint_cloids(refs, back) || !options.live_gate
            || !options.allow_live_submit || config.app.dry_run
            || !config.manual_ops.manual_live_enabled || (config.is_mainnet() && !(
        options.confirm_mainnet_live && config.manual_ops.mainnet_live_enabled))
            || !accounts_in_scope(config, options, refs) || refs.filter(opens()).len()
            > options.max_live_orders ==> next is Blocked,
        next is Blocked ==> !next->Blocked_0.ok && sent_nothing(next->Blocked_0) && !all_ok(
            views(next->Blocked_0.checks@),
        ),
{
    let a = request_checks(options, contract_ok, refs, back);
    let b = gate_checks(config, options);
    let c = size_checks(config, options, refs);
    if next is GoOn {
        all_ok_concat(a + b, c);
        all_ok_concat(a, b);
        assert(a[0].ok && a[1].ok && a[2].ok);
        assert(b[0].ok && b[1].ok && b[2].ok && b[3].ok && b[4].ok && b[5].ok);
        assert(c[0].ok && c[1].ok);
    }
}

/// What the exchange says of the positions of an account.
#[derive(Debug)]
pub struct AccountPositions {
    pub account_id: String,
    pub state: Result<ClearinghouseState, String>,
}

/// The accounts whose positions have to be known before the reductions of a
/// list are sent, in order of first appearance.
pub open spec fn reducing_accounts(refs: Seq<CopyLiveDaemonWouldSubmitRef>) -> Seq<Seq<char>>
    decreases refs.len(),
{
    if refs.len() == 0 {
        Seq::empty()
    } else {
        let before = reducing_accounts(refs.drop_last());
        let a = refs.last().order.account_id@;
        if !refs.last().order.reduce_only || before.contains(a) {
            before
        } else {
            before.push(a)
        }
    }
}

/// The accounts whose positions have to be known before the reductions of a
/// list are sent.
pub fn reduce_only_accounts(refs: &Vec<CopyLiveDaemonWouldSubmitRef>) -> (r: Vec<String>)
    ensures
        texts(r@) == reducing_accounts(refs@),
{
    let mut r: Vec<String> = Vec::new();
    let mut i: usize = 0;
    assert(texts(r@) =~= Seq::empty());
    while i < refs.len()
        invariant
            i <= refs@.len(),
            texts(r@) == reducing_accounts(refs@.subrange(0, i as int)),
        decreases refs@.len() - i,
    {
        assert(refs@.subrange(0, i as int + 1).drop_last() =~= refs@.subrange(0, i as int));
        let ghost a = refs@[i as int].order.account_id@;
        proof {
            assert(lists(r@, a) <==> texts(r@).contains(a)) by {
                if lists(r@, a) {
                    let k = choose|k: int| 0 <= k < r@.len() && (#[trigger] r@[k])@ == a;
                    assert(texts(r@)[k] == a);
                }
                if texts(r@).contains(a) {
                    let k = choose|k: int| 0 <= k < texts(r@).len() && texts(r@)[k] == a;
                    assert(r@[k]@ == a);
                }
            }
        }
        if refs[i].order.reduce_only && !list_has(&r, refs[i].order.account_id.as_str()) {
            let ghost before = texts(r@);
            r.push(refs[i].order.account_id.clone());
            assert(texts(r@) =~= before.push(a));
        }
        i += 1;
    }
    proof {
        whole(refs@);
    }
    r
}

/// What is known of the positions of an account.
pub open spec fn positions_from(
    states: Seq<AccountPositions>,
    account: Seq<char>,
    i: int,
) -> Option<ClearinghouseState>
    decreases states.len() - i,
{
    if i < 0 || i >= states.len() {
        None
    } else if states[i].account_id@ == account {
        match states[i].state {
            Ok(s) => Some(s),
            Err(_e) => None,
        }
    } else {
        positions_from(states, account, i + 1)
    }
}

fn find_positions<'a>(states: &'a Vec<AccountPositions>, account: &String) -> (r: Option<
    &'a ClearinghouseState,
>)
    ensures
        match positions_from(states@, account@, 0) {
            Some(s) => r is Some && *r->0 == s,
            None => r is None,
        },
{
    let mut i: usize = 0;
    while i < states.len()
        invariant
            i <= states@.len(),
            positions_from(states@, account@, 0) == positions_from(states@, account@, i as int),
        decreases states@.len() - i,
    {
        if states[i].account_id == *account {
            return match &states[i].state {
                Ok(s) => Some(s),
                Err(_e) => None,
            };
        }
        i += 1;
    }
    None
}

/// How far a list of plans was held against the local positions.
pub struct Verified {
    pub eligible: Seq<CopyLiveDaemonWouldSubmitRef>,
    pub verified: int,
    pub shrunk: int,
    pub skipped: int,
    pub errors: int,
}

/// Whether a reduction asks for more than the position holds, by more than a
/// billionth.
pub open spec fn exceeds(p: CopyLiveDaemonWouldSubmitRef, held_notional: int) -> bool {
    p.order.notional_usd - held_notional > 1
}

/// Holding one more plan against the local positions. Openings pass. A reduction
/// passes where it has a position to reduce, shrunk to that position where it
/// asks for more.
pub open spec fn verify_step(
    states: Seq<AccountPositions>,
    st: Verified,
    p: CopyLiveDaemonWouldSubmitRef,
) -> Verified {
    if !p.order.reduce_only {
        Verified { eligible: st.eligible.push(p), ..st }
    } else {
        match positions_from(states, p.order.account_id@, 0) {
            None => Verified { errors: st.errors + 1, ..st },
            Some(s) => match backing(s.asset_positions@, p) {
                None => Verified { skipped: st.skipped + 1, ..st },
                Some(x) => if x <= 0 {
                    Verified { skipped: st.skipped + 1, ..st }
                } else if exceeds(p, x) {
                    Verified {
                        eligible: st.eligible.push(resized(p, x)),
                        verified: st.verified + 1,
                        shrunk: st.shrunk + 1,
                        ..st
                    }
                } else {
                    Verified {
                        eligible: st.eligible.push(p),
                        verified: st.verified + 1,
                        ..st
                    }
                },
            },
        }
    }
}

/// The first `n` plans of a list, held against the local positions.
pub open spec fn verified_upto(
    refs: Seq<CopyLiveDaemonWouldSubmitRef>,
    states: Seq<AccountPositions>,
    n: int,
) -> Verified
    decreases n,
{
    if n <= 0 {
        Verified { eligible: Seq::empty(), verified: 0, shrunk: 0, skipped: 0, errors: 0 }
    } else {
        verify_step(states, verified_upto(refs, states, n - 1), refs[n - 1])
    }
}

/// The check on how the reductions of a list compare with the local positions.
pub open spec fn exposure_filter_check(
    refs: Seq<CopyLiveDaemonWouldSubmitRef>,
    states: Seq<AccountPositions>,
) -> Check {
    let n = refs.filter(reduces()).len();
    let v = verified_upto(refs, states, refs.len() as int);
    if n == 0 {
        check(
            "reduce_only_local_exposure_filter"@,
            true,
            "0 reduce-only ref(s) required live local exposure verification"@,
        )
    } else {
        check(
            "reduce_only_local_exposure_filter"@,
            v.errors == 0,
            dec(v.verified as nat) + "/"@ + dec(n)
                + " reduce-only ref(s) matched live local exposure; "@ + dec(v.shrunk as nat)
                + " resized to local position notional; "@ + dec(v.skipped as nat)
                + " skipped as no-op; "@ + dec(v.errors as nat) + " verification error(s)"@,
        )
    }
}

proof fn openings_verify_as_they_are(
    refs: Seq<CopyLiveDaemonWouldSubmitRef>,
    states: Seq<AccountPositions>,
    n: int,
)
    requires
        0 <= n <= refs.len(),
        refs.filter(reduces()).len() == 0,
    ensures
        verified_upto(refs, states, n).eligible == refs.subrange(0, n),
    decreases n,
{
    if n <= 0 {
        assert(refs.subrange(0, 0) =~= Seq::empty());
    } else {
        openings_verify_as_they_are(refs, states, n - 1);
        filter_members(refs, reduces());
        if reduces()(refs[n - 1]) {
            assert(refs.filter(reduces()).contains(refs[n - 1]));
        }
        assert(refs.subrange(0, n) =~= refs.subrange(0, n - 1).push(refs[n - 1]));
    }
}

/// Holds the reductions of a list against the local positions.
pub fn copy_live_daemon_filter_submit_refs_for_live_reduce_exposure(
    executable_refs: &Vec<CopyLiveDaemonWouldSubmitRef>,
    states: &Vec<AccountPositions>,
) -> (r: (Vec<CopyLiveDaemonWouldSubmitRef>, Vec<CopyShadowSmokeCheck>))
    ensures
        r.0@ == verified_upto(
            executable_refs@,
            states@,
            executable_refs@.len() as int,
        ).eligible,
        views(r.1@) == seq![exposure_filter_check(executable_refs@, states@)],
{
    let mut checks: Vec<CopyShadowSmokeCheck> = Vec::new();
    assert(views(checks@) =~= Seq::empty());
    let reduce_count: usize = count_reduces(executable_refs);
    if reduce_count == 0 {
        push_note(
            &mut checks,
            "reduce_only_local_exposure_filter",
            true,
            "0 reduce-only ref(s) required live local exposure verification",
        );
        proof {
            openings_verify_as_they_are(executable_refs@, states@, executable_refs@.len() as int);
            whole(executable_refs@);
        }
        return (clone_plans(executable_refs), checks);
    }
    let mut eligible: Vec<CopyLiveDaemonWouldSubmitRef> = Vec::new();
    let mut verified: usize = 0;
    let mut shrunk: usize = 0;
    let mut skipped: usize = 0;
    let mut errors: usize = 0;
    let mut i: usize = 0;
    while i < executable_refs.len()
        invariant
            i <= executable_refs@.len(),
            verified <= i,
            shrunk <= i,
            skipped <= i,
            errors <= i,
            eligible@ == verified_upto(executable_refs@, states@, i as int).eligible,
            verified == verified_upto(executable_refs@, states@, i as int).verified,
            shrunk == verified_upto(executable_refs@, states@, i as int).shrunk,
            skipped == verified_upto(executable_refs@, states@, i as int).skipped,
            errors == verified_upto(executable_refs@, states@, i as int).errors,
        decreases executable_refs@.len() - i,
    {
        let p: &CopyLiveDaemonWouldSubmitRef = &executable_refs[i];
        if !p.order.reduce_only {
            eligible.push(p.clone());
        } else {
            match find_positions(states, &p.order.account_id) {
                None => {
                    errors += 1;
                },
                Some(s) => {
                    match copy_live_daemon_reduce_only_matching_position_notional_usd(s, p) {
                        None => {
                            skipped += 1;
                        },
                        Some(x) => {
                            if x <= 0 {
                                skipped += 1;
                            } else {
                                verified += 1;
                                let mut q: CopyLiveDaemonWouldSubmitRef = p.clone();
                                if p.order.notional_usd as i128 - x as i128 > 1 {
                                    shrunk += 1;
                                    q.order.notional_usd = x;
                                    assert(q == resized(*p, x as int));
                                }
                                eligible.push(q);
                            }
                        },
                    }
                },
            }
        }
        i += 1;
    }
    let mut d: String = String::new();
    push_count(&mut d, verified);
    d.append("/");
    push_count(&mut d, reduce_count);
    d.append(" reduce-only ref(s) matched live local exposure; ");
    push_count(&mut d, shrunk);
    d.append(" resized to local position notional; ");
    push_count(&mut d, skipped);
    d.append(" skipped as no-op; ");
    push_count(&mut d, errors);
    d.append(" verification error(s)");
    assert(d@ =~= dec(verified as nat) + "/"@ + dec(reduce_count as nat)
        + " reduce-only ref(s) matched live local exposure; "@ + dec(shrunk as nat)
        + " resized to local position notional; "@ + dec(skipped as nat) + " skipped as no-op; "@
        + dec(errors as nat) + " verification error(s)"@);
    push_check(&mut checks, "reduce_only_local_exposure_filter", errors == 0, d);
    assert(views(checks@) =~= seq![exposure_filter_check(executable_refs@, states@)]);
    (eligible, checks)
}

/// A reduction that is sent never exceeds the position behind it, up to a
/// billionth.
pub proof fn sent_reductions_fit_their_positions(
    refs: Seq<CopyLiveDaemonWouldSubmitRef>,
    states: Seq<AccountPositions>,
    n: int,
)
    requires
        0 <= n <= refs.len(),
    ensures
        forall|i: int|
            0 <= i < verified_upto(refs, states, n).eligible.len() && (
            #[trigger] verified_upto(refs, states, n).eligible[i]).order.reduce_only ==> ({
                let p = verified_upto(refs, states, n).eligible[i];
                positions_from(states, p.order.account_id@, 0) matches Some(s) && backing(
                    s.asset_positions@,
                    p,
                ) matches Some(x) && x > 0 && p.order.notional_usd <= x + 1
            }),
    decreases n,
{
    if n > 0 {
        sent_reductions_fit_their_positions(refs, states, n - 1);
        let st = verified_upto(refs, states, n - 1);
        let nx = verified_upto(refs, states, n);
        let p = refs[n - 1];
        assert forall|i: int| 0 <= i < nx.eligible.len() && (
        #[trigger] nx.eligible[i]).order.reduce_only implies ({
            let p = nx.eligible[i];
            positions_from(states, p.order.account_id@, 0) matches Some(s) && backing(
                s.asset_positions@,
                p,
            ) matches Some(x) && x > 0 && p.order.notional_usd <= x + 1
        }) by {
            if i < st.eligible.len() {
                assert(nx.eligible[i] == st.eligible[i]);
            } else {
                let s = positions_from(states, p.order.account_id@, 0)->0;
                let x = backing(s.asset_positions@, p)->0;
                backing_in_range(s.asset_positions@, p);
                assert(backing(s.asset_positions@, resized(p, x)) == backing(
                    s.asset_positions@,
                    p,
                ));
            }
        }
    }
}

proof fn backing_in_range(
    positions: Seq<AssetPosition>,
    p: CopyLiveDaemonWouldSubmitRef,
)
    requires
        p.order.reduce_only,
    ensures
        backing(positions, p) matches Some(x) ==> 0 <= x <= FIXED_MAX,
    decreases positions.len(),
{
    if positions.len() > 0 {
        backing_in_range(positions.drop_last(), p);
        if let Some(v) = positions.last().position.position_value {
            worth_is_natural(v@);
        }
    }
}

/// The report of a window whose gate was closed: nothing was sent.
pub fn copy_live_daemon_persistent_live_submit_blocked(
    options: &CopyLiveDaemonSupervisorOptions,
    contract_ok: bool,
    checks: Vec<CopyShadowSmokeCheck>,
    now_ms: u64,
) -> (r: CopyLiveDaemonPersistentLiveSubmitReport)
    ensures
        blocked_by(r, *options, contract_ok, views(checks@), now_ms),
        r.checks == checks,
{
    empty_live_submit_report(options.submit, contract_ok, false, checks, now_ms)
}

/// What follows the look at the local positions: the plans that are sent, with
/// all checks that were passed, or a report.
#[derive(Debug)]
pub enum ReadySubmitNext {
    GoOn { checks: Vec<CopyShadowSmokeCheck>, ready: Vec<CopyLiveDaemonWouldSubmitRef> },
    Blocked(CopyLiveDaemonPersistentLiveSubmitReport),
}

/// Holds the reductions of a window against the local positions, and ends the
/// window where the positions of an account could not be read.
pub fn live_submit_with_positions(
    options: &CopyLiveDaemonSupervisorOptions,
    contract_ok: bool,
    checks: Vec<CopyShadowSmokeCheck>,
    executable_refs: &Vec<CopyLiveDaemonWouldSubmitRef>,
    states: &Vec<AccountPositions>,
    now_ms: u64,
) -> (r: ReadySubmitNext)
    requires
        all_ok(views(checks@)),
    ensures
        ({
            let c = exposure_filter_check(executable_refs@, states@);
            let all = views(checks@).push(c);
            if c.ok {
                &&& r is GoOn
                &&& views(r->checks@) == all
                &&& all_ok(all)
                &&& r->ready@ == verified_upto(
                    executable_refs@,
                    states@,
                    executable_refs@.len() as int,
                ).eligible
            } else {
                r is Blocked && blocked_by(r->Blocked_0, *options, contract_ok, all, now_ms)
            }
        }),
{
    let ghost first = views(checks@);
    let ghost c = exposure_filter_check(executable_refs@, states@);
    let (ready, more) = copy_live_daemon_filter_submit_refs_for_live_reduce_exposure(
        executable_refs,
        states,
    );
    let mut all: Vec<CopyShadowSmokeCheck> = checks;
    append_checks(&mut all, more);
    assert(views(all@) =~= first.push(c));
    proof {
        assert(first.push(c)[first.len() as int] == c);
        if c.ok {
            assert forall|i: int| 0 <= i < first.push(c).len() implies (#[trigger] first.push(
                c,
            )[i]).ok by {
                if i < first.len() {
                    assert(first[i].ok);
                }
            }
        }
    }
    if checks_all_ok(&all) {
        ReadySubmitNext::GoOn { checks: all, ready }
    } else {
        ReadySubmitNext::Blocked(
            copy_live_daemon_persistent_live_submit_blocked(options, contract_ok, all, now_ms),
        )
    }
}

/// The orders of a window that are closed again once they were sent: none where
/// positions are held, and otherwise those that opened a position.
pub fn window_cleanup_targets(
    hold_positions_after_submit: bool,
    submitted_reports: &Vec<WorkerReport>,
    submit_ready_refs: &Vec<CopyLiveDaemonWouldSubmitRef>,
) -> (r: Vec<WorkerReport>)
    ensures
        r@ == if hold_positions_after_submit {
            Seq::empty()
        } else {
            submitted_reports@.filter(needs_cleanup(submit_ready_refs@))
        },
{
    if hold_positions_after_submit {
        let none: Vec<WorkerReport> = Vec::new();
        assert(none@ =~= Seq::empty());
        none
    } else {
        copy_daemon_submitted_reports_needing_cleanup(submitted_reports, submit_ready_refs)
    }
}

/// What came of sending the plans of a window.
#[derive(Debug)]
pub struct LiveSubmitOutcome {
    pub submit_ready_refs: Vec<CopyLiveDaemonWouldSubmitRef>,
    pub submitted_reports: Vec<WorkerReport>,
    pub order_evidence: Vec<CopyExecutionCanaryOrderEvidence>,
    pub cleanup_runbooks: Vec<SignedRunbookResult>,
    pub cleanup_errors: Vec<String>,
    pub ledger_reconciliations: Vec<CopyLedgerReconcileResult>,
    pub ledger_reconciliation_snapshot: CopyPersistenceSnapshot,
}

/// How many opening orders were really sent.
pub open spec fn opened_count(o: LiveSubmitOutcome) -> int {
    live_orders(
        o.submitted_reports@.filter(needs_cleanup(o.submit_ready_refs@)),
    ).len() as int
}

/// Whether cleanup went as the mode of the window asks: nothing failed where
/// positions are held; otherwise every opened position was closed again.
pub open spec fn cleanup_done(hold: bool, o: LiveSubmitOutcome) -> bool {
    if hold {
        o.cleanup_errors@.len() == 0
    } else {
        opened_count(o) == 0 || (o.cleanup_runbooks@.len() == opened_count(o)
            && o.cleanup_errors@.len() == 0 && all_runbooks_ok(o.cleanup_runbooks@))
    }
}

/// How many plans were left out before sending.
pub open spec fn left_out(executable: int, ready: int) -> int {
    if executable > ready {
        executable - ready
    } else {
        0
    }
}

/// The checks on what came of sending the plans of a window.
pub open spec fn outcome_checks(hold: bool, executable: int, o: LiveSubmitOutcome) -> Seq<Check> {
    let live = live_orders(o.submitted_reports@).len();
    let skipped = o.submitted_reports@.filter(is_safe_skip()).len();
    let ready = o.submit_ready_refs@.len();
    seq![
        check(
            "submitted_reports"@,
            live + skipped == ready && all_accounted_for(o.submitted_reports@),
            dec(live) + " live submitted report(s), "@ + dec(skipped)
                + " pre-submit skipped ref(s), for "@ + dec(ready)
                + " submit-eligible ref(s); "@ + dec(left_out(executable, ready as int) as nat)
                + " reduce-only no-op ref(s) skipped"@,
        ),
        check(
            "order_status_evidence"@,
            live == 0 || evidence_complete(o.order_evidence@, live as int),
            dec(live) + " live submitted report(s), "@ + dec(o.order_evidence@.len())
                + " order evidence record(s)"@,
        ),
        check(
            if hold {
                "follow_position_cleanup_policy"@
            } else {
                "cleanup_runbook_completed"@
            },
            cleanup_done(hold, o),
            if hold {
                "follow-position mode holds "@ + dec(opened_count(o) as nat)
                    + " open submission(s) until target close signals; cleanup skipped, "@ + dec(
                    o.cleanup_errors@.len(),
                ) + " cleanup error(s)"@
            } else {
                dec(opened_count(o) as nat) + " open submission(s) require cleanup; "@ + dec(
                    o.cleanup_runbooks@.len(),
                ) + " cleanup runbook(s), "@ + dec(o.cleanup_errors@.len())
                    + " cleanup error(s)"@
            },
        ),
        check(
            "ledger_reconciliation"@,
            live == 0 || all_applied(o.ledger_reconciliations@),
            dec(live) + " live submitted report(s), "@ + dec(o.ledger_reconciliations@.len())
                + " ledger reconciliation result(s)"@,
        ),
    ]
}

fn push_cleanup_check(
    checks: &mut Vec<CopyShadowSmokeCheck>,
    hold: bool,
    executable: usize,
    o: &LiveSubmitOutcome,
)
    ensures
        views(final(checks)@) == views(old(checks)@).push(
            outcome_checks(hold, executable as int, *o)[2],
        ),
{
    let targets: Vec<WorkerReport> = copy_daemon_submitted_reports_needing_cleanup(
        &o.submitted_reports,
        &o.submit_ready_refs,
    );
    let opened: usize = copy_canary_live_submitted_reports(&targets).len();
    let clean: bool = o.cleanup_errors.len() == 0;
    let mut d: String = String::new();
    if hold {
        d.append("follow-position mode holds ");
        push_count(&mut d, opened);
        d.append(" open submission(s) until target close signals; cleanup skipped, ");
        push_count(&mut d, o.cleanup_errors.len());
        d.append(" cleanup error(s)");
        assert(d@ =~= outcome_checks(hold, executable as int, *o)[2].detail);
        push_check(checks, "follow_position_cleanup_policy", clean, d);
    } else {
        let done: bool = opened == 0 || (o.cleanup_runbooks.len() == opened && clean
            && runbooks_all_ok(&o.cleanup_runbooks));
        push_count(&mut d, opened);
        d.append(" open submission(s) require cleanup; ");
        push_count(&mut d, o.cleanup_runbooks.len());
        d.append(" cleanup runbook(s), ");
        push_count(&mut d, o.cleanup_errors.len());
        d.append(" cleanup error(s)");
        assert(d@ =~= outcome_checks(hold, executable as int, *o)[2].detail);
        push_check(checks, "cleanup_runbook_completed", done, d);
    }
}

fn push_outcome_checks(
    checks: &mut Vec<CopyShadowSmokeCheck>,
    hold: bool,
    executable: usize,
    o: &LiveSubmitOutcome,
)
    ensures
        views(final(checks)@) == views(old(checks)@) + outcome_checks(hold, executable as int, *o),
{
    let ghost start = views(checks@);
    let ghost goal = outcome_checks(hold, executable as int, *o);
    let live: usize = copy_canary_live_submitted_reports(&o.submitted_reports).len();
    let skipped: usize = count_safe_skips(&o.submitted_reports);
    let ready: usize = o.submit_ready_refs.len();
    let out: usize = if executable > ready {
        executable - ready
    } else {
        0
    };
    let mut d: String = String::new();
    push_count(&mut d, live);
    d.append(" live submitted report(s), ");
    push_count(&mut d, skipped);
    d.append(" pre-submit skipped ref(s), for ");
    push_count(&mut d, ready);
    d.append(" submit-eligible ref(s); ");
    push_count(&mut d, out);
    d.append(" reduce-only no-op ref(s) skipped");
    assert(d@ =~= goal[0].detail);
    push_check(
        checks,
        "submitted_reports",
        live as u128 + skipped as u128 == ready as u128 && reports_accounted_for(
            &o.submitted_reports,
        ),
        d,
    );
    let mut d: String = String::new();
    push_count(&mut d, live);
    d.append(" live submitted report(s), ");
    push_count(&mut d, o.order_evidence.len());
    d.append(" order evidence record(s)");
    assert(d@ =~= goal[1].detail);
    push_check(
        checks,
        "order_status_evidence",
        live == 0 || evidence_is_complete(&o.order_evidence, live),
        d,
    );
    push_cleanup_check(checks, hold, executable, o);
    let mut d: String = String::new();
    push_count(&mut d, live);
    d.append(" live submitted report(s), ");
    push_count(&mut d, o.ledger_reconciliations.len());
    d.append(" ledger reconciliation result(s)");
    assert(d@ =~= goal[3].detail);
    push_check(
        checks,
        "ledger_reconciliation",
        live == 0 || results_all_applied(&o.ledger_reconciliations),
        d,
    );
    assert(views(checks@) =~= start + goal);
}

/// The report of a window that sent its plans: the checks that were passed
/// before, and the checks on what came of it.
pub fn copy_live_daemon_persistent_live_submit(
    options: &CopyLiveDaemonSupervisorOptions,
    contract_ok: bool,
    checks_before: Vec<CopyShadowSmokeCheck>,
    executable_count: usize,
    outcome: LiveSubmitOutcome,
) -> (r: CopyLiveDaemonPersistentLiveSubmitReport)
    requires
        all_ok(views(checks_before@)),
    ensures
        ({
            let checks = views(checks_before@) + outcome_checks(
                options.hold_positions_after_submit,
                executable_count as int,
                outcome,
            );
            &&& views(r.checks@) == checks
            &&& r.ok == all_ok(checks)
            &&& r.ok == all_ok(
                outcome_checks(
                    options.hold_positions_after_submit,
                    executable_count as int,
                    outcome,
                ),
            )
        }),
        r.mode@ == "persistent_live_submit"@,
        r.submit_requested == options.submit,
        r.submit_plan_contract_ok == contract_ok,
        r.submitted_reports == outcome.submitted_reports,
        r.order_evidence == outcome.order_evidence,
        r.cleanup_runbooks == outcome.cleanup_runbooks,
        r.cleanup_errors == outcome.cleanup_errors,
        r.ledger_reconciliations == outcome.ledger_reconciliations,
        r.ledger_reconciliation_snapshot == outcome.ledger_reconciliation_snapshot,
{
    proof {
        all_ok_concat(
            views(checks_before@),
            outcome_checks(options.hold_positions_after_submit, executable_count as int, outcome),
        );
    }
    let mut checks: Vec<CopyShadowSmokeCheck> = checks_before;
    push_outcome_checks(
        &mut checks,
        options.hold_positions_after_submit,
        executable_count,
        &outcome,
    );
    CopyLiveDaemonPersistentLiveSubmitReport {
        ok: checks_all_ok(&checks),
        mode: "persistent_live_submit".to_owned(),
        submit_requested: options.submit,
        submit_plan_contract_ok: contract_ok,
        submitted_reports: outcome.submitted_reports,
        order_evidence: outcome.order_evidence,
        cleanup_runbooks: outcome.cleanup_runbooks,
        cleanup_errors: outcome.cleanup_errors,
        ledger_reconciliations: outcome.ledger_reconciliations,
        ledger_reconciliation_snapshot: outcome.ledger_reconciliation_snapshot,
        checks,
    }
}

/// The report for a plan that could not be sent.
pub fn failed_submit_report(
    plan: &CopyLiveDaemonWouldSubmitRef,
    message: String,
    now_ms: u64,
) -> (r: WorkerReport)
    ensures
        r == WorkerReport::Error(
            (WorkerError {
                worker_id: plan.order.worker_id,
                account_id: plan.order.account_id,
                message,
                error_at_ms: now_ms,
            }),
        ),
{
    WorkerReport::Error(
        WorkerError {
            worker_id: plan.order.worker_id.clone(),
            account_id: plan.order.account_id.clone(),
            message,
            error_at_ms: now_ms,
        },
    )
}

/// What is said where the leverage could not be set before an order.
pub open spec fn leverage_failure_text(coin: Seq<char>, leverage: nat) -> Seq<char> {
    "failed to set "@ + coin + " leverage to "@ + dec(leverage) + "x before copy submit"@
}

/// What is said where the leverage could not be set before an order.
pub fn leverage_failure(coin: &str, leverage: u32) -> (r: String)
    ensures
        r@ == leverage_failure_text(coin@, leverage as nat),
{
    let mut s: String = "failed to set ".to_owned();
    s.append(coin);
    s.append(" leverage to ");
    push_u64(&mut s, leverage as u64);
    s.append("x before copy submit");
    s
}

/// An order that is not sent because its leverage could not be set counts as
/// safely skipped.
pub proof fn a_failed_leverage_change_is_a_safe_skip(coin: Seq<char>, leverage: nat)
    ensures
        safe_skip_message(leverage_failure_text(coin, leverage)),
{
    let head = "failed to set "@;
    let middle = " leverage to "@;
    let tail = "x before copy submit"@;
    let needle = " before copy submit"@;
    let m = leverage_failure_text(coin, leverage);
    let low = lower(m);
    reveal_strlit("failed to set ");
    reveal_strlit(" leverage to ");
    reveal_strlit("x before copy submit");
    reveal_strlit(" before copy submit");
    assert(m =~= head + coin + middle + dec(leverage) + tail);
    assert(low.subrange(0, head.len() as int) =~= head) by {
        assert forall|i: int| 0 <= i < head.len() implies low[i] == head[i] by {
            assert(m[i] == head[i]);
        }
    }
    assert(occurs_at(low, head, 0));
    let k: int = (head.len() + coin.len()) as int;
    assert(low.subrange(k, k + middle.len()) =~= middle) by {
        assert forall|i: int| 0 <= i < middle.len() implies low[k + i] == middle[i] by {
            assert(m[k + i] == middle[i]);
        }
    }
    assert(occurs_at(low, middle, k));
    let l: int = (head.len() + coin.len() + middle.len() + dec(leverage).len() + 1) as int;
    assert(low.subrange(l, l + needle.len()) =~= needle) by {
        assert forall|i: int| 0 <= i < needle.len() implies low[l + i] == needle[i] by {
            assert(m[l + i] == tail[i + 1]);
            assert(tail[i + 1] == needle[i]);
        }
    }
    assert(occurs_at(low, needle, l));
}

/// What a cleanup order is asked to do.
#[derive(Debug)]
pub struct SignedRunbookOptions {
    pub account_id: String,
    pub coin: String,
    pub side: OrderSide,
    pub notional_usd: Fixed,
    pub max_slippage_bps: Fixed,
    pub execution_mode: ExecutionMode,
    pub reduce_only: bool,
    pub close_full_position: bool,
    pub submit: bool,
    pub cancel_resting: bool,
    pub confirm_mainnet_live: bool,
}

/// The cleanup order for an order that was really sent: it closes the whole
/// position and is never smaller than the exchange accepts.
pub fn cleanup_runbook_options(
    submitted: &OrderSubmitted,
    cleanup_max_slippage_bps: Fixed,
    confirm_mainnet_live: bool,
) -> (r: SignedRunbookOptions)
    ensures
        r.account_id == submitted.account_id,
        r.coin == submitted.coin,
        r.side == opposite(submitted.side),
        r.notional_usd == if submitted.notional_usd > HYPERLIQUID_MIN_ORDER_NOTIONAL_USD {
            submitted.notional_usd
        } else {
            HYPERLIQUID_MIN_ORDER_NOTIONAL_USD
        },
        r.max_slippage_bps == cleanup_max_slippage_bps,
        r.execution_mode == ExecutionMode::Taker,
        r.reduce_only,
        r.close_full_position,
        r.submit,
        r.cancel_resting,
        r.confirm_mainnet_live == confirm_mainnet_live,
{
    let notional: Fixed = if submitted.notional_usd > HYPERLIQUID_MIN_ORDER_NOTIONAL_USD {
        submitted.notional_usd
    } else {
        HYPERLIQUID_MIN_ORDER_NOTIONAL_USD
    };
    SignedRunbookOptions {
        account_id: submitted.account_id.clone(),
        coin: submitted.coin.clone(),
        side: opposite_order_side(submitted.side),
        notional_usd: notional,
        max_slippage_bps: cleanup_max_slippage_bps,
        execution_mode: ExecutionMode::Taker,
        reduce_only: true,
        close_full_position: true,
        submit: true,
        cancel_resting: true,
        confirm_mainnet_live,
    }
}

/// What is said of a cleanup order that failed.
pub fn cleanup_failure(submitted: &OrderSubmitted, error: &str) -> (r: String)
    ensures
        r@ == "cleanup failed for account="@ + submitted.account_id@ + " coin="@ + submitted.coin@
            + " side="@ + side_name(opposite(submitted.side)) + ": "@ + error@,
{
    let mut s: String = "cleanup failed for account=".to_owned();
    s.append(submitted.account_id.as_str());
    s.append(" coin=");
    s.append(submitted.coin.as_str());
    s.append(" side=");
    push_side_name(&mut s, opposite_order_side(submitted.side));
    s.append(": ");
    s.append(error);
    s
}

/// What is done with an order that the risk gateway was asked about.
#[derive(Debug)]
pub enum DispatchStep {
    Send(ApprovedOrder),
    Report(WorkerReport),
}

/// What is done with the answer of the risk gateway in a trial: an approved order
/// is sent, and a refusal is reported.
pub open spec fn dispatch_of(decision: RiskDecision) -> DispatchStep {
    match decision {
        RiskDecision::Approved(o) => DispatchStep::Send(o),
        RiskDecision::Rejected(x) => DispatchStep::Report(WorkerReport::Rejected(x)),
    }
}

/// What is done with the answer of the risk gateway in a trial.
pub fn canary_dispatch(decision: RiskDecision) -> (r: DispatchStep)
    ensures
        r == dispatch_of(decision),
{
    match decision {
        RiskDecision::Approved(o) => DispatchStep::Send(o),
        RiskDecision::Rejected(x) => DispatchStep::Report(WorkerReport::Rejected(x)),
    }
}

/// What is done with an approved order of a window: it is sent unless the
/// exchange would find it too small, and otherwise the failure is reported.
pub fn window_dispatch(
    order: ApprovedOrder,
    too_small: Option<String>,
    now_ms: u64,
) -> (r: DispatchStep)
    ensures
        match too_small {
            None => r == DispatchStep::Send(order),
            Some(message) => r == DispatchStep::Report(
                WorkerReport::Error(
                    (WorkerError {
                        worker_id: order.worker_id,
                        account_id: order.account_id,
                        message,
                        error_at_ms: now_ms,
                    }),
                ),
            ),
        },
{
    match too_small {
        None => DispatchStep::Send(order),
        Some(message) => DispatchStep::Report(
            WorkerReport::Error(
                WorkerError {
                    worker_id: order.worker_id,
                    account_id: order.account_id,
                    message,
                    error_at_ms: now_ms,
                },
            ),
        ),
    }
}

proof fn verified_prefix(
    refs: Seq<CopyLiveDaemonWouldSubmitRef>,
    p: CopyLiveDaemonWouldSubmitRef,
    states: Seq<AccountPositions>,
    n: int,
)
    requires
        0 <= n <= refs.len(),
    ensures
        verified_upto(refs.push(p), states, n) == verified_upto(refs, states, n),
    decreases n,
{
    if n > 0 {
        verified_prefix(refs, p, states, n - 1);
        assert(refs.push(p)[n - 1] == refs[n - 1]);
    }
}

proof fn largest_reducible_is_a_position(
    positions: Seq<AssetPosition>,
    coin: Seq<char>,
    side: OrderSide,
    x: int,
)
    requires
        largest_reducible(positions, coin, side) == Some(x),
    ensures
        exists|j: int|
            0 <= j < positions.len() && #[trigger] positions[j].position.position_value is Some
                && lower(positions[j].position.coin@) == lower(coin) && position_side(
                positions[j].position.szi@,
            ) is Some && position_side(positions[j].position.szi@) != Some(side) && amount_worth(
                positions[j].position.position_value->0@,
            ) == Some(x),
    decreases positions.len(),
{
    if positions.len() > 0 {
        let t = positions.drop_last();
        let best = largest_reducible(t, coin, side);
        if reducible(positions.last(), coin, side) == Some(x) {
            assert(positions[positions.len() - 1] == positions.last());
        } else {
            largest_reducible_is_a_position(t, coin, side, x);
            let j = choose|j: int|
                0 <= j < t.len() && #[trigger] t[j].position.position_value is Some && lower(
                    t[j].position.coin@,
                ) == lower(coin) && position_side(t[j].position.szi@) is Some && position_side(
                    t[j].position.szi@,
                ) != Some(side) && amount_worth(t[j].position.position_value->0@) == Some(x);
            assert(positions[j] == t[j]);
        }
    }
}

proof fn largest_reducible_is_the_largest(
    positions: Seq<AssetPosition>,
    coin: Seq<char>,
    side: OrderSide,
    j: int,
    w: int,
)
    requires
        0 <= j < positions.len(),
        lower(positions[j].position.coin@) == lower(coin),
        position_side(positions[j].position.szi@) is Some,
        position_side(positions[j].position.szi@) != Some(side),
        positions[j].position.position_value is Some,
        amount_worth(positions[j].position.position_value->0@) == Some(w),
    ensures
        largest_reducible(positions, coin, side) is Some,
        w <= largest_reducible(positions, coin, side)->0,
    decreases positions.len(),
{
    let t = positions.drop_last();
    if j < t.len() {
        assert(t[j] == positions[j]);
        largest_reducible_is_the_largest(t, coin, side, j, w);
    } else {
        assert(positions.last() == positions[j]);
    }
}

/// Whether a position is one that an order of the plan's side and coin reduces,
/// and is worth something.
pub open spec fn faces(at: PerpPosition, p: CopyLiveDaemonWouldSubmitRef) -> bool {
    &&& lower(at.coin@) == lower(p.order.coin@)
    &&& position_side(at.szi@) is Some
    &&& position_side(at.szi@) != Some(p.order.side)
    &&& at.position_value is Some
    &&& amount_worth(at.position_value->0@) is Some
    &&& amount_worth(at.position_value->0@)->0 > 0
}

/// Whether the account at `k` is the first with the given name, and was read.
pub open spec fn first_read(states: Seq<AccountPositions>, account: Seq<char>, k: int) -> bool {
    &&& 0 <= k < states.len()
    &&& states[k].account_id@ == account
    &&& states[k].state is Ok
    &&& forall|e: int| 0 <= e < k ==> (#[trigger] states[e]).account_id@ != account
}

/// Holding a list of plans against the local positions adds nothing and treats
/// every plan by itself. An opening comes out as it went in. A reduction comes
/// out exactly where its account was read and holds a position of the coin on
/// the other side that is worth something. It never comes out larger than it
/// went in: it comes out unchanged where it asks for no more than the largest
/// such position, up to a billionth, and otherwise asks for exactly that
/// position.
pub proof fn a_reduction_asks_for_the_smaller_of_plan_and_position(
    refs: Seq<CopyLiveDaemonWouldSubmitRef>,
    p: CopyLiveDaemonWouldSubmitRef,
    states: Seq<AccountPositions>,
)
    ensures
        verified_upto(Seq::empty(), states, 0).eligible.len() == 0,
        ({
            let before = verified_upto(refs, states, refs.len() as int).eligible;
            let after = verified_upto(refs.push(p), states, refs.len() as int + 1).eligible;
            let q = after.last();
            if !p.order.reduce_only {
                after == before.push(p)
            } else if after == before {
                forall|k: int, j: int| #[trigger]
                    first_read(states, p.order.account_id@, k) && 0 <= j
                        < states[k].state->Ok_0.asset_positions@.len() ==> !faces(
                        (#[trigger] states[k].state->Ok_0.asset_positions@[j]).position,
                        p,
                    )
            } else {
                &&& after == before.push(q)
                &&& q == (CopyLiveDaemonWouldSubmitRef {
                    order: CopyExecutionCanaryWouldSubmit {
                        notional_usd: q.order.notional_usd,
                        ..p.order
                    },
                    ..p
                })
                &&& q.order.notional_usd <= p.order.notional_usd
                &&& exists|k: int, j: int|
                    #![trigger states[k].state->Ok_0.asset_positions@[j]]
                    ({
                        let held = states[k].state->Ok_0.asset_positions@;
                        let x = amount_worth(held[j].position.position_value->0@)->0;
                        &&& first_read(states, p.order.account_id@, k)
                        &&& 0 <= j < held.len()
                        &&& faces(held[j].position, p)
                        &&& forall|i: int|
                            0 <= i < held.len() && faces((#[trigger] held[i]).position, p)
                                ==> amount_worth(held[i].position.position_value->0@)->0 <= x
                        &&& if p.order.notional_usd <= x + 1 {
                            q == p
                        } else {
                            q.order.notional_usd == x
                        }
                    })
            }
        }),
{
    let n = refs.len() as int;
    verified_prefix(refs, p, states, n);
    let st = verified_upto(refs, states, n);
    assert(refs.push(p)[n] == p);
    let nx = verify_step(states, st, p);
    assert(verified_upto(refs.push(p), states, n + 1) == nx);
    let account = p.order.account_id@;
    let q = nx.eligible.last();
    if !p.order.reduce_only {
        assert(nx.eligible == st.eligible.push(p));
    } else if nx.eligible == st.eligible {
        assert forall|k: int, j: int| #[trigger]
            first_read(states, account, k) && 0 <= j
                < states[k].state->Ok_0.asset_positions@.len() implies !faces(
            (#[trigger] states[k].state->Ok_0.asset_positions@[j]).position,
            p,
        ) by {
            let held = states[k].state->Ok_0.asset_positions@;
            first_read_is_used(states, account, 0, k);
            if faces(held[j].position, p) {
                largest_reducible_is_the_largest(
                    held,
                    p.order.coin@,
                    p.order.side,
                    j,
                    amount_worth(held[j].position.position_value->0@)->0,
                );
                assert(nx.eligible.len() == st.eligible.len() + 1);
            }
        }
    } else {
        assert(nx.eligible =~= st.eligible.push(q));
        let s = positions_from(states, account, 0)->0;
        let x = backing(s.asset_positions@, p)->0;
        backing_in_range(s.asset_positions@, p);
        positions_come_from_the_account(states, account, 0);
        let k = choose|k: int|
            0 <= k < states.len() && (#[trigger] states[k]).account_id@ == account
                && states[k].state == Ok::<ClearinghouseState, String>(s) && forall|e: int|
                0 <= e < k ==> (#[trigger] states[e]).account_id@ != account;
        largest_reducible_is_a_position(s.asset_positions@, p.order.coin@, p.order.side, x);
        let held = states[k].state->Ok_0.asset_positions@;
        assert(held == s.asset_positions@);
        let j = choose|j: int|
            0 <= j < held.len() && #[trigger] held[j].position.position_value is Some && lower(
                held[j].position.coin@,
            ) == lower(p.order.coin@) && position_side(held[j].position.szi@) is Some
                && position_side(held[j].position.szi@) != Some(p.order.side) && amount_worth(
                held[j].position.position_value->0@,
            ) == Some(x);
        assert(first_read(states, account, k));
        assert(faces(held[j].position, p));
        assert forall|i: int| 0 <= i < held.len() && faces((#[trigger] held[i]).position, p) implies
        amount_worth(held[i].position.position_value->0@)->0 <= x by {
            largest_reducible_is_the_largest(
                held,
                p.order.coin@,
                p.order.side,
                i,
                amount_worth(held[i].position.position_value->0@)->0,
            );
        }
        assert(states[k].state->Ok_0.asset_positions@[j] == held[j]);
    }
}

proof fn first_read_is_used(states: Seq<AccountPositions>, account: Seq<char>, i: int, k: int)
    requires
        0 <= i <= k,
        first_read(states, account, k),
    ensures
        positions_from(states, account, i) == Some(states[k].state->Ok_0),
    decreases k - i,
{
    if i < k {
        assert(states[i].account_id@ != account);
        first_read_is_used(states, account, i + 1, k);
    }
}

proof fn positions_come_from_the_account(states: Seq<AccountPositions>, account: Seq<char>, i: int)
    requires
        0 <= i,
        positions_from(states, account, i) is Some,
    ensures
        exists|k: int|
            i <= k < states.len() && (#[trigger] states[k]).account_id@ == account
                && states[k].state == Ok::<ClearinghouseState, String>(
                positions_from(states, account, i)->0,
            ) && forall|e: int| i <= e < k ==> (#[trigger] states[e]).account_id@ != account,
    decreases states.len() - i,
{
    if states[i].account_id@ == account {
        assert(states[i].account_id@ == account);
    } else {
        positions_come_from_the_account(states, account, i + 1);
        let k = choose|k: int|
            i + 1 <= k < states.len() && (#[trigger] states[k]).account_id@ == account
                && states[k].state == Ok::<ClearinghouseState, String>(
                positions_from(states, account, i)->0,
            ) && forall|e: int| i + 1 <= e < k ==> (#[trigger] states[e]).account_id@ != account;
        assert(states[k].account_id@ == account);
    }
}

proof fn largest_opening_bounds_them_all(refs: Seq<CopyLiveDaemonWouldSubmitRef>)
    ensures
        max_open_notional(refs) >= 0,
        forall|i: int|
            0 <= i < refs.len() && !(#[trigger] refs[i]).order.reduce_only
                ==> refs[i].order.notional_usd <= max_open_notional(refs),
        max_open_notional(refs) == 0 || exists|i: int|
            0 <= i < refs.len() && !(#[trigger] refs[i]).order.reduce_only
                && refs[i].order.notional_usd == max_open_notional(refs),
    decreases refs.len(),
{
    if refs.len() > 0 {
        let t = refs.drop_last();
        largest_opening_bounds_them_all(t);
        assert(refs[refs.len() - 1] == refs.last());
        assert forall|i: int|
            0 <= i < refs.len() && !(#[trigger] refs[i]).order.reduce_only implies
        refs[i].order.notional_usd <= max_open_notional(refs) by {
            if i < t.len() {
                assert(t[i] == refs[i]);
            }
        }
        if max_open_notional(refs) == max_open_notional(t) && max_open_notional(t) != 0 {
            let i = choose|i: int|
                0 <= i < t.len() && !(#[trigger] t[i]).order.reduce_only
                    && t[i].order.notional_usd == max_open_notional(t);
            assert(refs[i] == t[i]);
        }
    }
}

/// What each check before a window sends anything means. Orders were asked for,
/// the plans passed their contract and share no client id with one that is held
/// back; every operator switch is on; the plans are for configured accounts that
/// were selected, open no more orders than allowed, and none of them is larger
/// than what can be closed again by hand, at a slippage below the whole price.
pub proof fn each_check_before_sending_means_what_it_says(
    config: AppConfig,
    options: CopyLiveDaemonSupervisorOptions,
    contract_ok: bool,
    refs: Seq<CopyLiveDaemonWouldSubmitRef>,
    back: Seq<HeldPlan>,
)
    ensures
        ({
            let c = live_submit_gate(config, options, contract_ok, refs, back);
            let selected = target_accounts(config, options.account_ids@, None);
            let mainnet = config.app.environment@ == "mainnet"@;
            &&& c.len() == 13
            &&& c[0].name == "submit_requested"@
            &&& c[0].ok <==> options.submit
            &&& c[1].name == "submit_plan_contract_ok"@
            &&& c[1].ok <==> contract_ok
            &&& c[2].name == "suppressed_refs_not_submitted"@
            &&& c[2].ok <==> (forall|i: int, j: int|
                0 <= i < refs.len() && 0 <= j < back.len() ==> (#[trigger] refs[i]).order.cloid@
                    != (#[trigger] back[j]).plan.order.cloid@)
            &&& c[3].name == "live_gate"@
            &&& c[3].ok <==> options.live_gate
            &&& c[4].name == "allow_live_submit"@
            &&& c[4].ok <==> options.allow_live_submit
            &&& c[5].name == "mainnet_confirmation"@
            &&& c[5].ok <==> (mainnet ==> options.confirm_mainnet_live)
            &&& c[6].name == "process_dry_run_disabled"@
            &&& c[6].ok <==> !config.app.dry_run
            &&& c[7].name == "manual_live_enabled"@
            &&& c[7].ok <==> config.manual_ops.manual_live_enabled
            &&& c[8].name == "mainnet_live_enabled"@
            &&& c[8].ok <==> (mainnet ==> config.manual_ops.mainnet_live_enabled)
            &&& c[9].name == "selected_submit_accounts"@
            &&& c[9].ok <==> selected.len() > 0 && (forall|i: int|
                0 <= i < refs.len() ==> selected.contains((#[trigger] refs[i]).order.account_id@)
                    && config.account_of(refs[i].order.account_id@) is Some)
            &&& c[10].name == "single_open_order_submit"@
            &&& c[10].ok <==> refs.filter(opens()).len() <= options.max_live_orders
            &&& c[11].name == "cleanup_slippage_valid"@
            &&& c[11].ok <==> options.cleanup_max_slippage_bps >= 0
                && options.cleanup_max_slippage_bps < 10_000 * 1_000_000_000
            &&& c[12].name == "cleanup_notional_limit"@
            &&& c[12].ok <==> config.manual_ops.max_manual_order_notional_usd >= 0 && (forall|
                i: int,
            |
                0 <= i < refs.len() && !(#[trigger] refs[i]).order.reduce_only
                    ==> refs[i].order.notional_usd
                    <= config.manual_ops.max_manual_order_notional_usd)
        }),
{
    let c = live_submit_gate(config, options, contract_ok, refs, back);
    let a = request_checks(options, contract_ok, refs, back);
    let b = gate_checks(config, options);
    let d = size_checks(config, options, refs);
    assert(c[0] == a[0] && c[1] == a[1] && c[2] == a[2]);
    assert(c[3] == b[0] && c[4] == b[1] && c[5] == b[2] && c[6] == b[3] && c[7] == b[4] && c[8]
        == b[5]);
    assert(c[9] == d[0] && c[10] == d[1] && c[11] == d[2] && c[12] == d[3]);
    largest_opening_bounds_them_all(refs);
}

proof fn unread_accounts_are_counted(
    refs: Seq<CopyLiveDaemonWouldSubmitRef>,
    states: Seq<AccountPositions>,
    n: int,
)
    requires
        0 <= n <= refs.len(),
    ensures
        verified_upto(refs, states, n).errors >= 0,
        verified_upto(refs, states, n).errors == 0 <==> forall|i: int|
            0 <= i < n && (#[trigger] refs[i]).order.reduce_only ==> positions_from(
                states,
                refs[i].order.account_id@,
                0,
            ) is Some,
    decreases n,
{
    if n > 0 {
        unread_accounts_are_counted(refs, states, n - 1);
    }
}

/// The check on the local positions passes exactly where the account of every
/// reduction was read.
pub proof fn every_reducing_account_has_to_be_read(
    refs: Seq<CopyLiveDaemonWouldSubmitRef>,
    states: Seq<AccountPositions>,
)
    ensures
        exposure_filter_check(refs, states).name == "reduce_only_local_exposure_filter"@,
        exposure_filter_check(refs, states).ok <==> forall|i: int|
            0 <= i < refs.len() && (#[trigger] refs[i]).order.reduce_only ==> exists|k: int|
                #[trigger] first_read(states, refs[i].order.account_id@, k),
{
    unread_accounts_are_counted(refs, states, refs.len() as int);
    filter_members(refs, reduces());
    assert forall|i: int| 0 <= i < refs.len() && (#[trigger] refs[i]).order.reduce_only implies (
    positions_from(states, refs[i].order.account_id@, 0) is Some) == (exists|k: int| #[trigger]
        first_read(states, refs[i].order.account_id@, k)) by {
        let account = refs[i].order.account_id@;
        if positions_from(states, account, 0) is Some {
            positions_come_from_the_account(states, account, 0);
            let k = choose|k: int|
                0 <= k < states.len() && (#[trigger] states[k]).account_id@ == account
                    && states[k].state == Ok::<ClearinghouseState, String>(
                    positions_from(states, account, 0)->0,
                ) && forall|e: int| 0 <= e < k ==> (#[trigger] states[e]).account_id@ != account;
            assert(first_read(states, account, k));
        }
        if exists|k: int| #[trigger] first_read(states, account, k) {
            let k = choose|k: int| #[trigger] first_read(states, account, k);
            first_read_is_used(states, account, 0, k);
        }
    }
    if refs.filter(reduces()).len() == 0 {
        assert forall|i: int| 0 <= i < refs.len() implies !(#[trigger] refs[i]).order.reduce_only by {
            if refs[i].order.reduce_only {
                assert(reduces()(refs[i]));
                assert(refs.filter(reduces()).contains(refs[i]));
            }
        }
    }
}

/// The accounts to be read are those for which the list holds a reduction, each
/// once.
pub proof fn reducing_accounts_are_those_of_reductions(
    refs: Seq<CopyLiveDaemonWouldSubmitRef>,
    p: CopyLiveDaemonWouldSubmitRef,
)
    ensures
        reducing_accounts(Seq::empty()).len() == 0,
        reducing_accounts(refs.push(p)) == if p.order.reduce_only && !reducing_accounts(
            refs,
        ).contains(p.order.account_id@) {
            reducing_accounts(refs).push(p.order.account_id@)
        } else {
            reducing_accounts(refs)
        },
{
    assert(refs.push(p).drop_last() =~= refs);
}

/// What each check on what came of sending a list of plans means: every plan was
/// either really sent or skipped before the exchange saw it, every order that was
/// sent is proved, what was opened is closed again unless positions are held, and
/// every order that was sent is in the ledger.
pub proof fn each_check_after_sending_means_what_it_says(
    hold: bool,
    executable: int,
    o: LiveSubmitOutcome,
)
    ensures
        ({
            let c = outcome_checks(hold, executable, o);
            let sent = live_orders(o.submitted_reports@).len();
            let opened = live_orders(
                o.submitted_reports@.filter(needs_cleanup(o.submit_ready_refs@)),
            ).len();
            &&& c.len() == 4
            &&& c[0].name == "submitted_reports"@
            &&& c[0].ok <==> sent + o.submitted_reports@.filter(is_safe_skip()).len()
                == o.submit_ready_refs@.len() && (forall|i: int|
                0 <= i < o.submitted_reports@.len() ==> (#[trigger] o.submitted_reports@[i])
                    is Submitted || safe_skip(o.submitted_reports@[i]))
            &&& c[1].name == "order_status_evidence"@
            &&& c[1].ok <==> sent == 0 || (o.order_evidence@.len() == sent && forall|i: int|
                0 <= i < o.order_evidence@.len() ==> evidence_ok(#[trigger] o.order_evidence@[i]))
            &&& hold ==> c[2].name == "follow_position_cleanup_policy"@
            &&& hold ==> (c[2].ok <==> o.cleanup_errors@.len() == 0)
            &&& !hold ==> c[2].name == "cleanup_runbook_completed"@
            &&& !hold ==> (c[2].ok <==> opened == 0 || (o.cleanup_runbooks@.len() == opened
                && o.cleanup_errors@.len() == 0 && forall|i: int|
                0 <= i < o.cleanup_runbooks@.len() ==> runbook_ok(#[trigger] o.cleanup_runbooks@[i])))
            &&& c[3].name == "ledger_reconciliation"@
            &&& c[3].ok <==> sent == 0 || forall|i: int|
                0 <= i < o.ledger_reconciliations@.len() ==> (
                #[trigger] o.ledger_reconciliations@[i]).applied
        }),
{
}

/// An order that was approved is sent as it was approved, and a refusal is
/// reported as it was given: nothing that was refused is sent.
pub proof fn only_approved_orders_are_sent(decision: RiskDecision)
    ensures
        decision is Approved ==> dispatch_of(decision) == DispatchStep::Send(
            decision->Approved_0,
        ),
        decision is Rejected ==> dispatch_of(decision) is Report && dispatch_of(decision)->Report_0
            == WorkerReport::Rejected(decision->Rejected_0),
        dispatch_of(decision) is Send <==> decision is Approved,
{
}

/// A submission that was blocked sent nothing, is not in order, and leaves an empty
/// ledger behind, with the checks that blocked it.
pub proof fn a_blocked_submission_leaves_nothing(
    r: CopyLiveDaemonPersistentLiveSubmitReport,
    options: CopyLiveDaemonSupervisorOptions,
    contract_ok: bool,
    checks: Seq<Check>,
    now_ms: u64,
)
    requires
        blocked_by(r, options, contract_ok, checks, now_ms),
    ensures
        !r.ok,
        r.submitted_reports@.len() == 0,
        r.order_evidence@.len() == 0,
        r.cleanup_runbooks@.len() == 0,
        r.cleanup_errors@.len() == 0,
        r.ledger_reconciliations@.len() == 0,
        r.checks@.len() == checks.len(),
        forall|i: int| 0 <= i < checks.len() ==> (#[trigger] r.checks@[i])@ == checks[i],
        r.mode@ == "persistent_live_submit"@,
        r.submit_requested == options.submit,
        r.submit_plan_contract_ok == contract_ok,
        r.ledger_reconciliation_snapshot.saved_at_ms == now_ms,
        r.ledger_reconciliation_snapshot.seen_event_keys@.len() == 0,
        r.ledger_reconciliation_snapshot.ledger_entries@.len() == 0,
{
    assert(views(r.checks@).len() == r.checks@.len());
    assert forall|i: int| 0 <= i < checks.len() implies (#[trigger] r.checks@[i])@ == checks[i] by {
        assert(views(r.checks@)[i] == r.checks@[i]@);
    }
}

} // verus!
