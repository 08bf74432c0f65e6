//! Rehearsing what a window would send, and holding back orders that are too
//! small for the exchange.

use vstd::prelude::*;

use crate::checks::{
    all_ok, check, checks_all_ok, push_check, push_note, views, Check, CopyShadowSmokeCheck,
};
use crate::config::AppConfig;
use crate::contract::CopyLiveDaemonSubmitPlanContract;
use crate::decimal::{dec, push_count, Fixed};
use crate::domain::{OrderSide, RiskRejection};
use crate::intent::{
    below_minimum_text, copy_live_daemon_open_order_effective_min_check, refusal_text,
    ApprovedOrder, RiskDecision,
};
use crate::ledger::HYPERLIQUID_MIN_ORDER_NOTIONAL_USD;
use crate::partition::{reason, Refusal, SuppressionReason};
use crate::plan::{
    held, push_held, CopyLiveDaemonSuppressedWouldSubmitRef, CopyLiveDaemonWouldSubmitRef, HeldPlan,
};
use crate::text::{bool_text, push_bool};

verus! {

/// What sending one plan would come to.
#[derive(Debug)]
pub struct CopyLiveDaemonPersistentSubmitDryRunPlan {
    pub record_index: usize,
    pub signal_id: String,
    pub leader_id: String,
    pub leader_address: String,
    pub account_id: String,
    pub worker_id: String,
    pub coin: String,
    pub side: OrderSide,
    pub notional_usd: Fixed,
    pub reduce_only: bool,
    pub cloid: String,
    pub would_submit: bool,
    pub dry_run_only: bool,
    pub rejected_reason_code: Option<String>,
    pub rejected_message: Option<String>,
}

/// What sending the plans of a window would come to.
#[derive(Debug)]
pub struct CopyLiveDaemonPersistentSubmitDryRunReport {
    pub ok: bool,
    pub mode: String,
    pub submit_plan_contract_ok: bool,
    pub planned_reports: Vec<CopyLiveDaemonPersistentSubmitDryRunPlan>,
    pub checks: Vec<CopyShadowSmokeCheck>,
}

/// Whether a rehearsal is that of a plan whose account is not configured.
pub open spec fn rehearsed_without_account(
    d: CopyLiveDaemonPersistentSubmitDryRunPlan,
    p: CopyLiveDaemonWouldSubmitRef,
) -> bool {
    &&& d.account_id == p.order.account_id
    &&& d.worker_id == p.order.worker_id
    &&& d.coin == p.order.coin
    &&& d.side == p.order.side
    &&& d.notional_usd == p.order.notional_usd
    &&& d.reduce_only == p.order.reduce_only
    &&& !d.would_submit
    &&& d.rejected_reason_code is Some && d.rejected_reason_code->0@ == "ACCOUNT_NOT_FOUND"@
    &&& d.rejected_message is Some && d.rejected_message->0@ == "account "@ + p.order.account_id@
        + " not found for persistent submit dry-run"@
}

/// Whether a rehearsal is that of a plan that the risk gateway let through.
pub open spec fn rehearsed_approval(
    d: CopyLiveDaemonPersistentSubmitDryRunPlan,
    o: ApprovedOrder,
) -> bool {
    &&& d.account_id == o.account_id
    &&& d.worker_id == o.worker_id
    &&& d.coin == o.coin
    &&& d.side == o.side
    &&& d.notional_usd == o.notional_usd
    &&& d.reduce_only == o.reduce_only
    &&& d.would_submit
    &&& d.rejected_reason_code is None
    &&& d.rejected_message is None
}

/// Whether a rehearsal is that of a plan that the risk gateway refused.
pub open spec fn rehearsed_refusal(
    d: CopyLiveDaemonPersistentSubmitDryRunPlan,
    p: CopyLiveDaemonWouldSubmitRef,
    x: RiskRejection,
) -> bool {
    &&& d.account_id == x.account_id
    &&& d.worker_id == x.worker_id
    &&& d.coin == p.order.coin
    &&& d.side == p.order.side
    &&& d.notional_usd == p.order.notional_usd
    &&& d.reduce_only == p.order.reduce_only
    &&& !d.would_submit
    &&& d.rejected_reason_code == Some(x.reason_code)
    &&& d.rejected_message == Some(x.message)
}

/// Whether a rehearsal is that of the given plan. It always keeps the client id
/// of the plan, and never sends anything.
pub open spec fn rehearsal_of(
    d: CopyLiveDaemonPersistentSubmitDryRunPlan,
    config: AppConfig,
    p: CopyLiveDaemonWouldSubmitRef,
    decision: RiskDecision,
) -> bool {
    &&& d.record_index == p.record_index
    &&& d.signal_id == p.signal_id
    &&& d.leader_id == p.leader_id
    &&& d.leader_address == p.leader_address
    &&& d.cloid == p.order.cloid
    &&& d.dry_run_only
    &&& match config.account_of(p.order.account_id@) {
        None => rehearsed_without_account(d, p),
        Some(_a) => match decision {
            RiskDecision::Approved(o) => rehearsed_approval(d, o),
            RiskDecision::Rejected(x) => rehearsed_refusal(d, p, x),
        },
    }
}

/// Whether a plan passes a rehearsal.
pub open spec fn passes(
    config: AppConfig,
    p: CopyLiveDaemonWouldSubmitRef,
    decision: RiskDecision,
) -> bool {
    config.account_of(p.order.account_id@) is Some && decision is Approved
}

fn rehearse(
    config: &AppConfig,
    p: &CopyLiveDaemonWouldSubmitRef,
    decision: &RiskDecision,
) -> (d: CopyLiveDaemonPersistentSubmitDryRunPlan)
    ensures
        rehearsal_of(d, *config, *p, *decision),
        d.would_submit == passes(*config, *p, *decision),
{
    let mut d: CopyLiveDaemonPersistentSubmitDryRunPlan = CopyLiveDaemonPersistentSubmitDryRunPlan {
        record_index: p.record_index,
        signal_id: p.signal_id.clone(),
        leader_id: p.leader_id.clone(),
        leader_address: p.leader_address.clone(),
        account_id: p.order.account_id.clone(),
        worker_id: p.order.worker_id.clone(),
        coin: p.order.coin.clone(),
        side: p.order.side,
        notional_usd: p.order.notional_usd,
        reduce_only: p.order.reduce_only,
        cloid: p.order.cloid.clone(),
        would_submit: false,
        dry_run_only: true,
        rejected_reason_code: None,
        rejected_message: None,
    };
    match config.account(p.order.account_id.as_str()) {
        None => {
            let mut m: String = "account ".to_owned();
            m.append(p.order.account_id.as_str());
            m.append(" not found for persistent submit dry-run");
            d.rejected_reason_code = Some("ACCOUNT_NOT_FOUND".to_owned());
            d.rejected_message = Some(m);
        },
        Some(_account) => {
            match decision {
                RiskDecision::Approved(o) => {
                    d.account_id = o.account_id.clone();
                    d.worker_id = o.worker_id.clone();
                    d.coin = o.coin.clone();
                    d.side = o.side;
                    d.notional_usd = o.notional_usd;
                    d.reduce_only = o.reduce_only;
                    d.would_submit = true;
                },
                RiskDecision::Rejected(x) => {
                    d.account_id = x.account_id.clone();
                    d.worker_id = x.worker_id.clone();
                    d.rejected_reason_code = Some(x.reason_code.clone());
                    d.rejected_message = Some(x.message.clone());
                },
            }
        },
    }
    d
}

/// How many of the first `n` plans pass their rehearsal.
pub open spec fn passed_upto(
    config: AppConfig,
    refs: Seq<CopyLiveDaemonWouldSubmitRef>,
    decisions: Seq<RiskDecision>,
    n: int,
) -> int
    decreases n,
{
    if n <= 0 {
        0
    } else {
        passed_upto(config, refs, decisions, n - 1) + if passes(
            config,
            refs[n - 1],
            decisions[n - 1],
        ) {
            1int
        } else {
            0
        }
    }
}

/// The checks on a rehearsal in which `planned` plans were rehearsed and
/// `passed` of them passed.
pub open spec fn rehearsal_checks(
    contract_ok: bool,
    planned: int,
    passed: int,
    executable: int,
    suppressed: int,
) -> Seq<Check> {
    seq![
        check(
            "submit_plan_contract_ok"@,
            contract_ok,
            "submit_plan_contract.ok="@ + bool_text(contract_ok),
        ),
        check(
            "suppressed_refs_not_planned"@,
            planned == executable,
            dec(planned as nat) + " dry-run plan(s) from "@ + dec(executable as nat)
                + " executable ref(s); "@ + dec(suppressed as nat)
                + " suppressed ref(s) excluded"@,
        ),
        check(
            "all_plans_dry_run_only"@,
            true,
            "persistent submit dry-run does not load Vault, sign, or submit exchange orders"@,
        ),
        check(
            "planned_cloids_match_executable_refs"@,
            planned == executable,
            "persistent submit dry-run preserves executable ref cloids for ownership evidence"@,
        ),
        check(
            "all_executable_refs_risk_approved"@,
            passed == planned,
            dec(passed as nat) + "/"@ + dec(planned as nat)
                + " executable ref(s) approved by dry-run RiskGateway"@,
        ),
    ]
}

fn check_rehearsal(
    contract_ok: bool,
    planned: usize,
    passed: usize,
    executable: usize,
    suppressed: usize,
) -> (r: Vec<CopyShadowSmokeCheck>)
    ensures
        views(r@) == rehearsal_checks(
            contract_ok,
            planned as int,
            passed as int,
            executable as int,
            suppressed as int,
        ),
{
    let mut c: Vec<CopyShadowSmokeCheck> = Vec::new();
    assert(views(c@) =~= Seq::empty());
    let mut d: String = "submit_plan_contract.ok=".to_owned();
    push_bool(&mut d, contract_ok);
    push_check(&mut c, "submit_plan_contract_ok", contract_ok, d);
    let mut d: String = String::new();
    push_count(&mut d, planned);
    d.append(" dry-run plan(s) from ");
    push_count(&mut d, executable);
    d.append(" executable ref(s); ");
    push_count(&mut d, suppressed);
    d.append(" suppressed ref(s) excluded");
    assert(d@ =~= dec(planned as nat) + " dry-run plan(s) from "@ + dec(executable as nat)
        + " executable ref(s); "@ + dec(suppressed as nat) + " suppressed ref(s) excluded"@);
    push_check(&mut c, "suppressed_refs_not_planned", planned == executable, d);
    push_note(
        &mut c,
        "all_plans_dry_run_only",
        true,
        "persistent submit dry-run does not load Vault, sign, or submit exchange orders",
    );
    push_note(
        &mut c,
        "planned_cloids_match_executable_refs",
        planned == executable,
        "persistent submit dry-run preserves executable ref cloids for ownership evidence",
    );
    let mut d: String = String::new();
    push_count(&mut d, passed);
    d.append("/");
    push_count(&mut d, planned);
    d.append(" executable ref(s) approved by dry-run RiskGateway");
    assert(d@ =~= dec(passed as nat) + "/"@ + dec(planned as nat)
        + " executable ref(s) approved by dry-run RiskGateway"@);
    push_check(&mut c, "all_executable_refs_risk_approved", passed == planned, d);
    c
}

/// Rehearses sending the plans of a window. Nothing is rehearsed where the plan
/// failed its contract; otherwise there is one answer of the risk gateway for
/// each plan.
pub fn copy_live_daemon_persistent_submit_dry_run(
    config: &AppConfig,
    submit_plan_contract: &CopyLiveDaemonSubmitPlanContract,
    executable_refs: &Vec<CopyLiveDaemonWouldSubmitRef>,
    suppressed_refs: &Vec<CopyLiveDaemonSuppressedWouldSubmitRef>,
    decisions: &Vec<RiskDecision>,
) -> (r: CopyLiveDaemonPersistentSubmitDryRunReport)
    requires
        submit_plan_contract.ok ==> decisions@.len() == executable_refs@.len(),
    ensures
        ({
            let planned = if submit_plan_contract.ok {
                executable_refs@.len() as int
            } else {
                0
            };
            let checks = rehearsal_checks(
                submit_plan_contract.ok,
                planned,
                passed_upto(*config, executable_refs@, decisions@, planned),
                executable_refs@.len() as int,
                suppressed_refs@.len() as int,
            );
            &&& views(r.checks@) == checks
            &&& r.ok == all_ok(checks)
            &&& r.planned_reports@.len() == planned
            &&& forall|i: int|
                0 <= i < planned ==> rehearsal_of(
                    #[trigger] r.planned_reports@[i],
                    *config,
                    executable_refs@[i],
                    decisions@[i],
                )
        }),
        r.mode@ == "persistent_submit_dry_run_worker_plan"@,
        r.submit_plan_contract_ok == submit_plan_contract.ok,
{
    let mut planned: Vec<CopyLiveDaemonPersistentSubmitDryRunPlan> = Vec::new();
    let mut passed: usize = 0;
    if submit_plan_contract.ok {
        let mut i: usize = 0;
        while i < executable_refs.len()
            invariant
                i <= executable_refs@.len() == decisions@.len(),
                planned@.len() == i,
                passed <= i,
                passed == passed_upto(*config, executable_refs@, decisions@, i as int),
                forall|k: int|
                    0 <= k < i ==> rehearsal_of(
                        #[trigger] planned@[k],
                        *config,
                        executable_refs@[k],
                        decisions@[k],
                    ),
            decreases executable_refs@.len() - i,
        {
            let d: CopyLiveDaemonPersistentSubmitDryRunPlan = rehearse(
                config,
                &executable_refs[i],
                &decisions[i],
            );
            if d.would_submit {
                passed += 1;
            }
            planned.push(d);
            i += 1;
        }
    }
    let checks: Vec<CopyShadowSmokeCheck> = check_rehearsal(
        submit_plan_contract.ok,
        planned.len(),
        passed,
        executable_refs.len(),
        suppressed_refs.len(),
    );
    CopyLiveDaemonPersistentSubmitDryRunReport {
        ok: checks_all_ok(&checks),
        mode: "persistent_submit_dry_run_worker_plan".to_owned(),
        submit_plan_contract_ok: submit_plan_contract.ok,
        planned_reports: planned,
        checks,
    }
}

proof fn all_passed(
    config: AppConfig,
    refs: Seq<CopyLiveDaemonWouldSubmitRef>,
    decisions: Seq<RiskDecision>,
    n: int,
)
    requires
        0 <= n,
    ensures
        0 <= passed_upto(config, refs, decisions, n) <= n,
        passed_upto(config, refs, decisions, n) == n ==> forall|i: int|
            0 <= i < n ==> passes(config, #[trigger] refs[i], decisions[i]),
    decreases n,
{
    if n > 0 {
        all_passed(config, refs, decisions, n - 1);
    }
}

/// A rehearsal that is in order rehearsed every plan, and the risk gateway let
/// every one of them through.
pub proof fn a_good_rehearsal_covers_every_plan(
    config: AppConfig,
    contract_ok: bool,
    refs: Seq<CopyLiveDaemonWouldSubmitRef>,
    decisions: Seq<RiskDecision>,
    planned: int,
    suppressed: int,
)
    requires
        0 <= planned,
        all_ok(
            rehearsal_checks(
                contract_ok,
                planned,
                passed_upto(config, refs, decisions, planned),
                refs.len() as int,
                suppressed,
            ),
        ),
    ensures
        contract_ok,
        planned == refs.len(),
        forall|i: int| 0 <= i < refs.len() ==> passes(config, #[trigger] refs[i], decisions[i]),
{
    let c = rehearsal_checks(
        contract_ok,
        planned,
        passed_upto(config, refs, decisions, planned),
        refs.len() as int,
        suppressed,
    );
    assert(c[0].ok && c[1].ok && c[4].ok);
    all_passed(config, refs, decisions, planned);
}

/// What is known of an opening order before it is sent: the answer of the risk
/// gateway, and the notional that remains once its size was rounded.
#[derive(Debug)]
pub struct OrderQuote {
    pub decision: RiskDecision,
    pub effective_notional: Result<Fixed, String>,
}

/// Whether a plan has to be quoted before it is sent.
pub open spec fn needs_quote(config: AppConfig, p: CopyLiveDaemonWouldSubmitRef) -> bool {
    !p.order.reduce_only && config.account_of(p.order.account_id@) is Some
}

/// Whether a plan has to be quoted before it is sent.
pub fn plan_needs_quote(config: &AppConfig, p: &CopyLiveDaemonWouldSubmitRef) -> (r: bool)
    ensures
        r == needs_quote(*config, *p),
{
    if p.order.reduce_only {
        return false;
    }
    match config.account(p.order.account_id.as_str()) {
        Some(_a) => true,
        None => false,
    }
}

/// Why a plan is held back before it is sent, if it is.
pub open spec fn quote_refusal(
    config: AppConfig,
    p: CopyLiveDaemonWouldSubmitRef,
    quote: Option<OrderQuote>,
) -> Option<Refusal> {
    if p.order.reduce_only {
        None
    } else if config.account_of(p.order.account_id@) is None {
        Some(
            Refusal {
                code: "COPY_DAEMON_ACCOUNT_NOT_CONFIGURED"@,
                message: p.order.account_id@ + " is not configured for copy submit"@,
            },
        )
    } else {
        let q = quote->0;
        match q.decision {
            RiskDecision::Rejected(x) => Some(
                Refusal { code: "COPY_DAEMON_ORDER_PREPARE_FAILED"@, message: refusal_text(x) },
            ),
            RiskDecision::Approved(o) => match q.effective_notional {
                Err(e) => if o.reduce_only {
                    None
                } else {
                    Some(
                        Refusal {
                            code: "COPY_DAEMON_EFFECTIVE_MIN_CHECK_FAILED"@,
                            message: e@,
                        },
                    )
                },
                Ok(x) => if !o.reduce_only && x + 1 < HYPERLIQUID_MIN_ORDER_NOTIONAL_USD {
                    Some(
                        Refusal {
                            code: "COPY_DAEMON_EFFECTIVE_NOTIONAL_BELOW_MIN"@,
                            message: below_minimum_text(
                                o.account_id@,
                                o.coin@,
                                o.notional_usd as int,
                                x as int,
                            ),
                        },
                    )
                } else {
                    None
                },
            },
        }
    }
}

/// The plans among the first `n` that are not held back.
pub open spec fn quoted_upto(
    config: AppConfig,
    refs: Seq<CopyLiveDaemonWouldSubmitRef>,
    quotes: Seq<Option<OrderQuote>>,
    n: int,
) -> Seq<CopyLiveDaemonWouldSubmitRef>
    decreases n,
{
    if n <= 0 {
        Seq::empty()
    } else {
        let before = quoted_upto(config, refs, quotes, n - 1);
        if quote_refusal(config, refs[n - 1], quotes[n - 1]) is None {
            before.push(refs[n - 1])
        } else {
            before
        }
    }
}

/// The plans among the first `n` that are held back.
pub open spec fn unquoted_upto(
    config: AppConfig,
    refs: Seq<CopyLiveDaemonWouldSubmitRef>,
    quotes: Seq<Option<OrderQuote>>,
    n: int,
) -> Seq<HeldPlan>
    decreases n,
{
    if n <= 0 {
        Seq::empty()
    } else {
        let before = unquoted_upto(config, refs, quotes, n - 1);
        match quote_refusal(config, refs[n - 1], quotes[n - 1]) {
            Some(why) => before.push(
                HeldPlan { plan: refs[n - 1], reason_code: why.code, message: why.message },
            ),
            None => before,
        }
    }
}

fn because(code: &str, message: String) -> (r: SuppressionReason)
    ensures
        r@ == (Refusal { code: code@, message: message@ }),
{
    SuppressionReason { reason_code: code.to_owned(), message }
}

fn quote_reason(
    config: &AppConfig,
    p: &CopyLiveDaemonWouldSubmitRef,
    quote: &Option<OrderQuote>,
) -> (r: Option<SuppressionReason>)
    requires
        needs_quote(*config, *p) ==> quote is Some,
    ensures
        reason(r) == quote_refusal(*config, *p, *quote),
{
    if p.order.reduce_only {
        return None;
    }
    match config.account(p.order.account_id.as_str()) {
        None => {
            let mut m: String = p.order.account_id.clone();
            m.append(" is not configured for copy submit");
            return Some(because("COPY_DAEMON_ACCOUNT_NOT_CONFIGURED", m));
        },
        Some(_account) => {},
    }
    match quote {
        None => None,
        Some(q) => match &q.decision {
            RiskDecision::Rejected(x) => {
                let mut m: String =
                    "persistent daemon submit ref rejected by RiskGateway: ".to_owned();
                m.append(x.reason_code.as_str());
                m.append(" ");
                m.append(x.message.as_str());
                Some(because("COPY_DAEMON_ORDER_PREPARE_FAILED", m))
            },
            RiskDecision::Approved(o) => match &q.effective_notional {
                Err(e) => if o.reduce_only {
                    None
                } else {
                    Some(because("COPY_DAEMON_EFFECTIVE_MIN_CHECK_FAILED", e.clone()))
                },
                Ok(x) => match copy_live_daemon_open_order_effective_min_check(o, *x) {
                    Some(m) => Some(because("COPY_DAEMON_EFFECTIVE_NOTIONAL_BELOW_MIN", m)),
                    None => None,
                },
            },
        },
    }
}

/// Holds back the plans that cannot be sent or are too small for the exchange.
/// There is a quote for each plan that needs one.
pub fn copy_live_daemon_suppress_refs_below_effective_min(
    config: &AppConfig,
    refs: &Vec<CopyLiveDaemonWouldSubmitRef>,
    quotes: &Vec<Option<OrderQuote>>,
) -> (r: (Vec<CopyLiveDaemonWouldSubmitRef>, Vec<CopyLiveDaemonSuppressedWouldSubmitRef>))
    requires
        quotes@.len() == refs@.len(),
        forall|i: int|
            0 <= i < refs@.len() && needs_quote(*config, #[trigger] refs@[i])
                ==> quotes@[i] is Some,
    ensures
        r.0@ == quoted_upto(*config, refs@, quotes@, refs@.len() as int),
        held(r.1@) == unquoted_upto(*config, refs@, quotes@, refs@.len() as int),
{
    let mut executable: Vec<CopyLiveDaemonWouldSubmitRef> = Vec::new();
    let mut suppressed: Vec<CopyLiveDaemonSuppressedWouldSubmitRef> = Vec::new();
    let mut i: usize = 0;
    assert(held(suppressed@) =~= Seq::empty());
    while i < refs.len()
        invariant
            i <= refs@.len() == quotes@.len(),
            forall|k: int|
                0 <= k < refs@.len() && needs_quote(*config, #[trigger] refs@[k])
                    ==> quotes@[k] is Some,
            executable@ == quoted_upto(*config, refs@, quotes@, i as int),
            held(suppressed@) == unquoted_upto(*config, refs@, quotes@, i as int),
        decreases refs@.len() - i,
    {
        match quote_reason(config, &refs[i], &quotes[i]) {
            Some(why) => {
                push_held(
                    &mut suppressed,
                    refs[i].clone(),
                    why.reason_code.as_str(),
                    why.message,
                );
            },
            None => {
                executable.push(refs[i].clone());
            },
        }
        i += 1;
    }
    (executable, suppressed)
}

/// A rehearsal is of its own plan: it keeps record, signal, leader, coin, side,
/// kind and client id where nothing was approved in their place, and it would be
/// sent exactly where the account is configured and the risk gateway approved.
pub proof fn a_rehearsal_follows_the_risk_gateway(
    d: CopyLiveDaemonPersistentSubmitDryRunPlan,
    config: AppConfig,
    p: CopyLiveDaemonWouldSubmitRef,
    decision: RiskDecision,
)
    requires
        rehearsal_of(d, config, p, decision),
    ensures
        d.record_index == p.record_index,
        d.signal_id@ == p.signal_id@,
        d.leader_id@ == p.leader_id@,
        d.cloid@ == p.order.cloid@,
        d.dry_run_only,
        d.would_submit <==> config.account_of(p.order.account_id@) is Some && decision is Approved,
        d.would_submit ==> d.account_id@ == decision->Approved_0.account_id@ && d.coin@
            == decision->Approved_0.coin@ && d.side == decision->Approved_0.side && d.notional_usd
            == decision->Approved_0.notional_usd && d.reduce_only
            == decision->Approved_0.reduce_only,
        !d.would_submit ==> d.coin@ == p.order.coin@ && d.side == p.order.side && d.notional_usd
            == p.order.notional_usd && d.reduce_only == p.order.reduce_only
            && d.rejected_reason_code is Some,
        !d.would_submit && config.account_of(p.order.account_id@) is None
            ==> d.rejected_reason_code->0@ == "ACCOUNT_NOT_FOUND"@,
        !d.would_submit && config.account_of(p.order.account_id@) is Some
            ==> d.rejected_reason_code->0@ == decision->Rejected_0.reason_code@,
{
}

/// What each check on a rehearsal means, and what is counted as passed.
pub proof fn each_check_on_a_rehearsal_means_what_it_says(
    config: AppConfig,
    refs: Seq<CopyLiveDaemonWouldSubmitRef>,
    decisions: Seq<RiskDecision>,
    contract_ok: bool,
    planned: int,
    passed: int,
    executable: int,
    suppressed: int,
    n: int,
)
    requires
        0 <= n,
    ensures
        ({
            let c = rehearsal_checks(contract_ok, planned, passed, executable, suppressed);
            &&& c.len() == 5
            &&& c[0].ok <==> contract_ok
            &&& c[1].ok <==> planned == executable
            &&& c[2].ok
            &&& c[3].ok <==> planned == executable
            &&& c[4].ok <==> passed == planned
        }),
        passed_upto(config, refs, decisions, 0) == 0,
        passed_upto(config, refs, decisions, n + 1) == passed_upto(config, refs, decisions, n) + (
        if config.account_of(refs[n].order.account_id@) is Some && decisions[n] is Approved {
            1int
        } else {
            0int
        }),
{
}

/// A plan goes on exactly where it is a reduction, or where its account is
/// configured, the risk gateway approved it, and the order that was approved is a
/// reduction or is known to be worth ten dollars up to a billionth once the
/// exchange rounded it. Any other plan is held back, and every plan is in one of
/// the two lists, in order.
pub proof fn plans_below_the_minimum_are_held_back(
    config: AppConfig,
    refs: Seq<CopyLiveDaemonWouldSubmitRef>,
    quotes: Seq<Option<OrderQuote>>,
    n: int,
)
    requires
        0 <= n < refs.len(),
    ensures
        quoted_upto(config, refs, quotes, 0).len() == 0,
        unquoted_upto(config, refs, quotes, 0).len() == 0,
        ({
            let p = refs[n];
            let q = quotes[n]->0;
            let goes_on = p.order.reduce_only || (config.account_of(p.order.account_id@) is Some
                && q.decision is Approved && (q.decision->Approved_0.reduce_only || (
            q.effective_notional is Ok && q.effective_notional->Ok_0 >= 10_000_000_000 - 1)));
            let back = unquoted_upto(config, refs, quotes, n + 1);
            if goes_on {
                &&& quoted_upto(config, refs, quotes, n + 1) == quoted_upto(
                    config,
                    refs,
                    quotes,
                    n,
                ).push(p)
                &&& back == unquoted_upto(config, refs, quotes, n)
            } else {
                &&& quoted_upto(config, refs, quotes, n + 1) == quoted_upto(
                    config,
                    refs,
                    quotes,
                    n,
                )
                &&& back == unquoted_upto(config, refs, quotes, n).push(back.last())
                &&& back.last().plan == p
            }
        }),
        needs_quote(config, refs[n]) <==> !refs[n].order.reduce_only && config.account_of(
            refs[n].order.account_id@,
        ) is Some,
{
    let back = unquoted_upto(config, refs, quotes, n + 1);
    let before = unquoted_upto(config, refs, quotes, n);
    if back.len() > before.len() {
        assert(back =~= before.push(back.last()));
    }
}

} // verus!
