//! Which plans of a window are sent: what is still pending, what fits, and what
//! the contract lets through.

use vstd::prelude::*;

use crate::checks::{all_ok, Check};
use crate::config::AppConfig;
use crate::contract::{
    a_contract_covers_every_plan, an_accepted_plan_respects_every_cap, contract_for,
    copy_live_daemon_submit_plan_contract,
    copy_live_daemon_suppress_refs_rejected_by_submit_contract, cut_down, disjoint_cloids,
    exposure_ok, only_openings_are_cut_from_a_plan, openings_held, openings_refusal, plan_checks,
    plan_size, prorated_fees, CopyLiveDaemonSubmitPlanContract,
};
use crate::decimal::{fees_fit, Fees, Total};
use crate::follow::{copy_live_daemon_executable_refs_for_snapshot, executable};
use crate::intent::{is_approved_record, leads_to_orders, CopyDryRunShadowRecord};
use crate::ledger::{worth_saving, CopyPersistenceSnapshot};
use crate::margin::margin_ok;
use crate::merge::{copy_live_daemon_merge_persistence_snapshots_for_save, merged_entries};
use crate::options::CopyLiveDaemonSupervisorOptions;
use crate::partition::{estimated_fees, fee_estimate};
use crate::plan::{
    append_held, clone_held, clone_plans, copy_live_daemon_open_notional_usd_from_orders,
    copy_live_daemon_open_notional_usd_from_refs, copy_live_daemon_order_refs_to_orders,
    copy_live_daemon_pending_plan_refs, copy_live_daemon_pending_suppressed_refs, distinct_cloids,
    held, held_orders, not_submitted, open_notional, open_notional_of_orders, opens, orders_held,
    orders_of, reduces, still_held, suppressed_orders_of, Chosen, CopyExecutionCanaryWouldSubmit,
    CopyLiveDaemonSuppressedWouldSubmit, CopyLiveDaemonSuppressedWouldSubmitRef,
    CopyLiveDaemonWouldSubmitRef, HeldPlan,
};
use crate::reconcile::CopyBoundedLiveWindowReconcile;
use crate::rehearse::{
    copy_live_daemon_suppress_refs_below_effective_min, needs_quote, quoted_upto, unquoted_upto,
    OrderQuote,
};
use crate::seqs::{filter_members, filter_step, total, whole};
use crate::sorted::sorted_texts;
use crate::submit::{
    cloid_submitted, copy_live_daemon_persistent_submit_snapshot_safe_to_save,
    copy_live_daemon_submitted_report_cloids, evidence_ok, live_orders, safe_to_save,
    CopyLiveDaemonPersistentLiveSubmitReport,
};
use crate::text::{lists, texts};

verus! {

/// The records that lead to orders, in order.
pub fn approved_records(records: Vec<CopyDryRunShadowRecord>) -> (r: Vec<CopyDryRunShadowRecord>)
    ensures
        r@ == records@.filter(leads_to_orders()),
{
    let ghost all = records@;
    let n: usize = records.len();
    let mut rest: Vec<CopyDryRunShadowRecord> = records;
    let mut turned: Vec<CopyDryRunShadowRecord> = Vec::new();
    while rest.len() > 0
        invariant
            rest@.len() + turned@.len() == n,
            all.len() == n,
            rest@ == all.subrange(0, rest@.len() as int),
            forall|k: int| 0 <= k < turned@.len() ==> #[trigger] turned@[k] == all[n - 1 - k],
        decreases rest@.len(),
    {
        let ghost before = rest@;
        match rest.pop() {
            Some(x) => {
                assert(x == all[before.len() - 1]);
                turned.push(x);
                assert(rest@ =~= all.subrange(0, rest@.len() as int));
            },
            None => {},
        }
    }
    let mut out: Vec<CopyDryRunShadowRecord> = Vec::new();
    let mut i: usize = 0;
    assert(all.subrange(0, 0).filter(leads_to_orders()) =~= Seq::empty()) by {
        reveal(Seq::filter);
    }
    while i < n
        invariant
            i <= n,
            all.len() == n,
            turned@.len() == n - i,
            forall|k: int| 0 <= k < turned@.len() ==> #[trigger] turned@[k] == all[n - 1 - k],
            out@ == all.subrange(0, i as int).filter(leads_to_orders()),
        decreases n - i,
    {
        proof {
            filter_step(all, leads_to_orders(), i as int);
        }
        match turned.pop() {
            Some(x) => {
                assert(x == all[i as int]);
                if is_approved_record(&x) {
                    out.push(x);
                }
            },
            None => {},
        }
        i += 1;
    }
    proof {
        whole(all);
    }
    out
}

/// The plans of a window that were not submitted yet and may be sent, and those
/// that are held back.
pub fn pending_candidates(
    plans: &Vec<CopyLiveDaemonWouldSubmitRef>,
    submitted_cloids: &Vec<String>,
    options: &CopyLiveDaemonSupervisorOptions,
    snapshot: &CopyPersistenceSnapshot,
    reconciliations: &Vec<CopyBoundedLiveWindowReconcile>,
) -> (r: (Vec<CopyLiveDaemonWouldSubmitRef>, Vec<CopyLiveDaemonSuppressedWouldSubmitRef>))
    ensures
        ({
            let e = executable(
                plans@.filter(not_submitted(submitted_cloids@)),
                *options,
                snapshot.ledger_entries@,
                reconciliations@,
            );
            r.0@ == e.executable && held(r.1@) == e.suppressed
        }),
{
    let pending: Vec<CopyLiveDaemonWouldSubmitRef> = copy_live_daemon_pending_plan_refs(
        plans,
        submitted_cloids,
    );
    copy_live_daemon_executable_refs_for_snapshot(&pending, options, snapshot, reconciliations)
}

/// The plans that are sent, those that are held back, and the contract on which
/// this rests.
#[derive(Debug)]
pub struct SubmitSelection {
    pub executable: Vec<CopyLiveDaemonWouldSubmitRef>,
    pub suppressed: Vec<CopyLiveDaemonSuppressedWouldSubmitRef>,
    pub contract: CopyLiveDaemonSubmitPlanContract,
}

/// The notional that a list of plans opens.
pub open spec fn opened(refs: Seq<CopyLiveDaemonWouldSubmitRef>) -> int {
    open_notional(refs)
}

/// The fees that a list of plans is expected to cost.
pub open spec fn opening_fees(refs: Seq<CopyLiveDaemonWouldSubmitRef>) -> int {
    fee_estimate(opened(refs))
}

/// The checks of the contract on a list of plans as it was put together.
pub open spec fn first_checks(
    options: CopyLiveDaemonSupervisorOptions,
    refs: Seq<CopyLiveDaemonWouldSubmitRef>,
    back: Seq<HeldPlan>,
    s: Seq<CopyBoundedLiveWindowReconcile>,
) -> Seq<Check> {
    plan_checks(options, refs, back, opened(refs), opening_fees(refs), s)
}

/// Whether nothing but the openings of a list of plans failed its contract.
pub open spec fn only_reductions_pass(
    options: CopyLiveDaemonSupervisorOptions,
    refs: Seq<CopyLiveDaemonWouldSubmitRef>,
    back: Seq<HeldPlan>,
    s: Seq<CopyBoundedLiveWindowReconcile>,
) -> bool {
    let checks = first_checks(options, refs, back, s);
    cut_down(all_ok(checks), checks, refs)
}

/// What the contract lets through of a list of plans: its reductions where
/// nothing but its openings failed, and otherwise all of it.
pub open spec fn let_through(
    options: CopyLiveDaemonSupervisorOptions,
    refs: Seq<CopyLiveDaemonWouldSubmitRef>,
    back: Seq<HeldPlan>,
    s: Seq<CopyBoundedLiveWindowReconcile>,
) -> Chosen {
    if only_reductions_pass(options, refs, back, s) {
        let why = openings_refusal(first_checks(options, refs, back, s));
        Chosen {
            executable: refs.filter(reduces()),
            suppressed: back + openings_held(refs, why.0, why.1),
        }
    } else {
        Chosen { executable: refs, suppressed: back }
    }
}

/// Whether a contract is the one on which a selection rests.
pub open spec fn selection_contract(
    c: CopyLiveDaemonSubmitPlanContract,
    options: CopyLiveDaemonSupervisorOptions,
    refs: Seq<CopyLiveDaemonWouldSubmitRef>,
    back: Seq<HeldPlan>,
    s: Seq<CopyBoundedLiveWindowReconcile>,
) -> bool {
    let chosen = let_through(options, refs, back, s);
    if only_reductions_pass(options, refs, back, s) {
        let part = total(chosen.executable, plan_size());
        let fees = prorated_fees(opening_fees(refs), part, opened(refs));
        contract_for(
            c,
            options,
            chosen.executable,
            chosen.suppressed,
            part,
            fees,
            s,
        )
    } else {
        contract_for(c, options, refs, back, opened(refs), opening_fees(refs), s)
    }
}

/// Whether a selection is what the contract lets through of a list of plans.
pub open spec fn selection_for(
    r: SubmitSelection,
    options: CopyLiveDaemonSupervisorOptions,
    refs: Seq<CopyLiveDaemonWouldSubmitRef>,
    back: Seq<HeldPlan>,
    s: Seq<CopyBoundedLiveWindowReconcile>,
) -> bool {
    let chosen = let_through(options, refs, back, s);
    &&& r.executable@ == chosen.executable
    &&& held(r.suppressed@) == chosen.suppressed
    &&& selection_contract(r.contract, options, refs, back, s)
}

fn select(
    options: &CopyLiveDaemonSupervisorOptions,
    refs: Vec<CopyLiveDaemonWouldSubmitRef>,
    back: Vec<CopyLiveDaemonSuppressedWouldSubmitRef>,
    reconciliations: &Vec<CopyBoundedLiveWindowReconcile>,
) -> (r: SubmitSelection)
    ensures
        selection_for(r, *options, refs@, held(back@), reconciliations@),
{
    let planned: Total = copy_live_daemon_open_notional_usd_from_refs(&refs);
    let fees: Fees = estimated_fees(planned);
    let contract: CopyLiveDaemonSubmitPlanContract = copy_live_daemon_submit_plan_contract(
        options,
        &refs,
        &back,
        planned,
        fees,
        reconciliations,
    );
    let kept: Vec<CopyLiveDaemonSuppressedWouldSubmitRef> = clone_held(&back);
    let (executable, more, contract) =
        copy_live_daemon_suppress_refs_rejected_by_submit_contract(
        options,
        refs,
        kept,
        planned,
        fees,
        reconciliations,
        contract,
    );
    let mut suppressed: Vec<CopyLiveDaemonSuppressedWouldSubmitRef> = back;
    append_held(&mut suppressed, more);
    proof {
        if more@.len() == 0 {
            assert(held(suppressed@) =~= held(back@));
        }
    }
    SubmitSelection { executable, suppressed, contract }
}

/// Whether there is a quote for each plan that needs one.
pub open spec fn quotes_cover(
    config: AppConfig,
    refs: Seq<CopyLiveDaemonWouldSubmitRef>,
    quotes: Seq<Option<OrderQuote>>,
) -> bool {
    &&& quotes.len() == refs.len()
    &&& forall|i: int|
        0 <= i < refs.len() && needs_quote(config, #[trigger] refs[i]) ==> quotes[i] is Some
}

/// The plans that are sent as soon as they were decided on, if any are left.
pub fn select_immediate(
    config: &AppConfig,
    options: &CopyLiveDaemonSupervisorOptions,
    candidates: &Vec<CopyLiveDaemonWouldSubmitRef>,
    suppressed: Vec<CopyLiveDaemonSuppressedWouldSubmitRef>,
    quotes: &Vec<Option<OrderQuote>>,
    submitted_cloids: &Vec<String>,
    reconciliations: &Vec<CopyBoundedLiveWindowReconcile>,
) -> (r: Option<SubmitSelection>)
    requires
        quotes_cover(*config, candidates@, quotes@),
    ensures
        ({
            let n = candidates@.len() as int;
            let refs = quoted_upto(*config, candidates@, quotes@, n).filter(
                not_submitted(submitted_cloids@),
            );
            let back = held(suppressed@) + unquoted_upto(*config, candidates@, quotes@, n);
            &&& (r is Some) == (refs.len() > 0)
            &&& r is Some ==> selection_for(r->0, *options, refs, back, reconciliations@)
        }),
{
    let (quoted, unquoted) = copy_live_daemon_suppress_refs_below_effective_min(
        config,
        candidates,
        quotes,
    );
    let mut back: Vec<CopyLiveDaemonSuppressedWouldSubmitRef> = suppressed;
    append_held(&mut back, unquoted);
    let refs: Vec<CopyLiveDaemonWouldSubmitRef> = copy_live_daemon_pending_plan_refs(
        &quoted,
        submitted_cloids,
    );
    if refs.len() == 0 {
        return None;
    }
    Some(select(options, refs, back, reconciliations))
}

/// The plans that are left at the end of a window.
#[derive(Debug)]
pub struct FinalPlan {
    pub executable_submit_plan_refs: Vec<CopyLiveDaemonWouldSubmitRef>,
    pub suppressed_submit_plan_refs: Vec<CopyLiveDaemonSuppressedWouldSubmitRef>,
    pub executable_would_submit_orders: Vec<CopyExecutionCanaryWouldSubmit>,
    pub suppressed_would_submit_orders: Vec<CopyLiveDaemonSuppressedWouldSubmit>,
    pub planned_notional_usd: Total,
    pub estimated_fees_usd: Fees,
    pub submit_plan_contract: CopyLiveDaemonSubmitPlanContract,
    pub pending_refs: Vec<CopyLiveDaemonWouldSubmitRef>,
}

/// Whether the figures of a final plan are those of its plans.
pub open spec fn figures_match(p: FinalPlan) -> bool {
    let refs = p.executable_submit_plan_refs@;
    &&& p.executable_would_submit_orders@ == orders_of(refs)
    &&& held_orders(p.suppressed_would_submit_orders@) == orders_held(
        held(p.suppressed_submit_plan_refs@),
    )
    &&& p.planned_notional_usd == opened(refs)
    &&& p.estimated_fees_usd == opening_fees(refs)
}

/// Whether a final plan is what the contract lets through of a list of plans,
/// without the held back plans that were submitted meanwhile.
pub open spec fn final_plan_for(
    p: FinalPlan,
    options: CopyLiveDaemonSupervisorOptions,
    refs: Seq<CopyLiveDaemonWouldSubmitRef>,
    back: Seq<HeldPlan>,
    submitted: Seq<String>,
    s: Seq<CopyBoundedLiveWindowReconcile>,
) -> bool {
    &&& figures_match(p)
    &&& p.pending_refs@ == p.executable_submit_plan_refs@.filter(not_submitted(submitted))
    &&& p.executable_submit_plan_refs@ == let_through(options, refs, back, s).executable
    &&& held(p.suppressed_submit_plan_refs@) == let_through(
        options,
        refs,
        back,
        s,
    ).suppressed.filter(still_held(submitted))
    &&& selection_contract(p.submit_plan_contract, options, refs, back, s)
}

/// The plans that are left at the end of a window.
pub fn select_final(
    config: &AppConfig,
    options: &CopyLiveDaemonSupervisorOptions,
    candidates: &Vec<CopyLiveDaemonWouldSubmitRef>,
    suppressed: Vec<CopyLiveDaemonSuppressedWouldSubmitRef>,
    quotes: &Vec<Option<OrderQuote>>,
    submitted_cloids: &Vec<String>,
    reconciliations: &Vec<CopyBoundedLiveWindowReconcile>,
) -> (r: FinalPlan)
    requires
        quotes_cover(*config, candidates@, quotes@),
    ensures
        ({
            let n = candidates@.len() as int;
            final_plan_for(
                r,
                *options,
                quoted_upto(*config, candidates@, quotes@, n),
                held(suppressed@) + unquoted_upto(*config, candidates@, quotes@, n),
                submitted_cloids@,
                reconciliations@,
            )
        }),
{
    let (quoted, unquoted) = copy_live_daemon_suppress_refs_below_effective_min(
        config,
        candidates,
        quotes,
    );
    let mut back: Vec<CopyLiveDaemonSuppressedWouldSubmitRef> = suppressed;
    append_held(&mut back, unquoted);
    let chosen: SubmitSelection = select(options, quoted, back, reconciliations);
    let suppressed_refs: Vec<CopyLiveDaemonSuppressedWouldSubmitRef> =
        copy_live_daemon_pending_suppressed_refs(&chosen.suppressed, submitted_cloids);
    let orders: Vec<CopyExecutionCanaryWouldSubmit> = copy_live_daemon_order_refs_to_orders(
        &chosen.executable,
    );
    let suppressed_orders: Vec<CopyLiveDaemonSuppressedWouldSubmit> = suppressed_orders_of(
        &suppressed_refs,
    );
    let planned: Total = copy_live_daemon_open_notional_usd_from_orders(&orders);
    proof {
        open_notional_of_orders(chosen.executable@);
    }
    let pending: Vec<CopyLiveDaemonWouldSubmitRef> = copy_live_daemon_pending_plan_refs(
        &chosen.executable,
        submitted_cloids,
    );
    FinalPlan {
        executable_submit_plan_refs: chosen.executable,
        suppressed_submit_plan_refs: suppressed_refs,
        executable_would_submit_orders: orders,
        suppressed_would_submit_orders: suppressed_orders,
        planned_notional_usd: planned,
        estimated_fees_usd: estimated_fees(planned),
        submit_plan_contract: chosen.contract,
        pending_refs: pending,
    }
}

/// What is done with the plans that are left at the end of a window.
#[derive(Clone, Copy, Debug, PartialEq, Eq, Structural)]
pub enum FinalSubmit {
    Send,
    ReportPending,
    ReportNone,
    Nothing,
}

/// What is done with the plans that are left: they are sent where that was asked
/// for; a window that sends nothing reports once all the same.
pub open spec fn final_submit(submit: bool, pending: int, chunks: int) -> FinalSubmit {
    if submit && pending > 0 {
        FinalSubmit::Send
    } else if !submit {
        FinalSubmit::ReportPending
    } else if chunks == 0 {
        FinalSubmit::ReportNone
    } else {
        FinalSubmit::Nothing
    }
}

/// What is done with the plans that are left at the end of a window.
pub fn next_final_submit(submit: bool, pending: usize, chunks: usize) -> (r: FinalSubmit)
    ensures
        r == final_submit(submit, pending as int, chunks as int),
{
    if submit && pending > 0 {
        FinalSubmit::Send
    } else if !submit {
        FinalSubmit::ReportPending
    } else if chunks == 0 {
        FinalSubmit::ReportNone
    } else {
        FinalSubmit::Nothing
    }
}

/// The plans with which the last submission of a window is made, if there is
/// one.
pub fn final_submit_refs(
    submit: bool,
    pending: &Vec<CopyLiveDaemonWouldSubmitRef>,
    chunks: usize,
) -> (r: Option<Vec<CopyLiveDaemonWouldSubmitRef>>)
    ensures
        match final_submit(submit, pending@.len() as int, chunks as int) {
            FinalSubmit::Send | FinalSubmit::ReportPending => r is Some && r->0@ == pending@,
            FinalSubmit::ReportNone => r is Some && r->0@.len() == 0,
            FinalSubmit::Nothing => r is None,
        },
{
    match next_final_submit(submit, pending.len(), chunks) {
        FinalSubmit::Send | FinalSubmit::ReportPending => Some(clone_plans(pending)),
        FinalSubmit::ReportNone => Some(Vec::new()),
        FinalSubmit::Nothing => None,
    }
}

/// Appends the client ids of plans that were handed on.
pub fn note_submitted(
    submitted_cloids: &mut Vec<String>,
    refs: &Vec<CopyLiveDaemonWouldSubmitRef>,
)
    ensures
        final(submitted_cloids)@ == old(submitted_cloids)@ + refs@.map_values(
            |p: CopyLiveDaemonWouldSubmitRef| p.order.cloid,
        ),
{
    let ghost start = submitted_cloids@;
    let ghost ids = refs@.map_values(|p: CopyLiveDaemonWouldSubmitRef| p.order.cloid);
    let mut i: usize = 0;
    assert(submitted_cloids@ =~= start + ids.subrange(0, 0));
    while i < refs.len()
        invariant
            i <= refs@.len(),
            ids == refs@.map_values(|p: CopyLiveDaemonWouldSubmitRef| p.order.cloid),
            submitted_cloids@ == start + ids.subrange(0, i as int),
        decreases refs@.len() - i,
    {
        submitted_cloids.push(refs[i].order.cloid.clone());
        assert(submitted_cloids@ =~= start + ids.subrange(0, i as int + 1));
        i += 1;
    }
    assert(ids.subrange(0, i as int) =~= ids);
}

/// Whether anything in a list of reports was submitted under a client id.
pub open spec fn any_submitted(live: CopyLiveDaemonPersistentLiveSubmitReport) -> bool {
    exists|c: Seq<char>| #[trigger] cloid_submitted(live.submitted_reports@, c)
}

/// Whether a held back plan is not among the submissions of a report.
pub open spec fn held_after(live: CopyLiveDaemonPersistentLiveSubmitReport) -> spec_fn(
    HeldPlan,
) -> bool {
    |h: HeldPlan| !cloid_submitted(live.submitted_reports@, h.plan.order.cloid@)
}

/// Whether a final plan is what is left of another once the window was sent:
/// held back plans that went out after all are dropped, and the contract is
/// drawn up again.
pub open spec fn settled(
    r: FinalPlan,
    p: FinalPlan,
    options: CopyLiveDaemonSupervisorOptions,
    live: CopyLiveDaemonPersistentLiveSubmitReport,
    s: Seq<CopyBoundedLiveWindowReconcile>,
) -> bool {
    if any_submitted(live) {
        &&& r.executable_submit_plan_refs == p.executable_submit_plan_refs
        &&& held(r.suppressed_submit_plan_refs@) == held(p.suppressed_submit_plan_refs@).filter(
            held_after(live),
        )
        &&& r.executable_would_submit_orders == p.executable_would_submit_orders
        &&& held_orders(r.suppressed_would_submit_orders@) == orders_held(
            held(r.suppressed_submit_plan_refs@),
        )
        &&& r.planned_notional_usd == p.planned_notional_usd
        &&& r.estimated_fees_usd == p.estimated_fees_usd
        &&& r.pending_refs == p.pending_refs
        &&& contract_for(
            r.submit_plan_contract,
            options,
            p.executable_submit_plan_refs@,
            held(r.suppressed_submit_plan_refs@),
            p.planned_notional_usd as int,
            p.estimated_fees_usd as int,
            s,
        )
    } else {
        r == p
    }
}

/// What is left of a final plan once the window was sent.
pub fn settle_final_plan(
    plan: FinalPlan,
    options: &CopyLiveDaemonSupervisorOptions,
    live: &CopyLiveDaemonPersistentLiveSubmitReport,
    reconciliations: &Vec<CopyBoundedLiveWindowReconcile>,
) -> (r: FinalPlan)
    ensures
        settled(r, plan, *options, *live, reconciliations@),
{
    let cloids: Vec<String> = copy_live_daemon_submitted_report_cloids(live);
    if cloids.len() == 0 {
        proof {
            if any_submitted(*live) {
                let c = choose|c: Seq<char>| #[trigger]
                    cloid_submitted(live.submitted_reports@, c);
                assert(lists(cloids@, c));
            }
        }
        return plan;
    }
    proof {
        assert(lists(cloids@, cloids@[0]@));
        assert(cloid_submitted(live.submitted_reports@, cloids@[0]@));
        assert(still_held(cloids@) =~= held_after(*live));
    }
    let mut plan: FinalPlan = plan;
    let suppressed: Vec<CopyLiveDaemonSuppressedWouldSubmitRef> =
        copy_live_daemon_pending_suppressed_refs(&plan.suppressed_submit_plan_refs, &cloids);
    plan.suppressed_would_submit_orders = suppressed_orders_of(&suppressed);
    plan.submit_plan_contract = copy_live_daemon_submit_plan_contract(
        options,
        &plan.executable_submit_plan_refs,
        &suppressed,
        plan.planned_notional_usd,
        plan.estimated_fees_usd,
        reconciliations,
    );
    plan.suppressed_submit_plan_refs = suppressed;
    plan
}

/// Whether the ledger of a window is saved: orders were to be sent, something
/// was reported, and what was sent is proved.
pub open spec fn saves_ledger(
    submit: bool,
    live: CopyLiveDaemonPersistentLiveSubmitReport,
) -> bool {
    submit && live.submitted_reports@.len() > 0 && safe_to_save(live)
}

/// Whether the ledger of a window is saved.
pub fn is_ledger_saved(submit: bool, live: &CopyLiveDaemonPersistentLiveSubmitReport) -> (r: bool)
    ensures
        r == saves_ledger(submit, *live),
{
    submit && live.submitted_reports.len() > 0
        && copy_live_daemon_persistent_submit_snapshot_safe_to_save(live)
}

/// The snapshot that is saved after a window, if one is: what was saved before
/// and what the window added, as one.
pub fn snapshot_after_submit(
    submit: bool,
    existing: CopyPersistenceSnapshot,
    live: &CopyLiveDaemonPersistentLiveSubmitReport,
    now_ms: u64,
) -> (r: Option<CopyPersistenceSnapshot>)
    ensures
        (r is Some) == saves_ledger(submit, *live),
        r is Some ==> {
            let added = live.ledger_reconciliation_snapshot;
            &&& r->0.schema_version == 1
            &&& r->0.saved_at_ms == now_ms
            &&& texts(r->0.seen_event_keys@) == sorted_texts(
                texts(existing.seen_event_keys@ + added.seen_event_keys@),
            )
            &&& r->0.ledger_entries@ == merged_entries(
                existing.ledger_entries@,
                added.ledger_entries@,
            ).filter(worth_saving())
        },
{
    if is_ledger_saved(submit, live) {
        Some(
            copy_live_daemon_merge_persistence_snapshots_for_save(
                existing,
                live.ledger_reconciliation_snapshot.copied(),
                now_ms,
            ),
        )
    } else {
        None
    }
}

/// No plan that was already submitted is sent again.
pub proof fn nothing_is_sent_twice(
    r: SubmitSelection,
    options: CopyLiveDaemonSupervisorOptions,
    refs: Seq<CopyLiveDaemonWouldSubmitRef>,
    back: Seq<HeldPlan>,
    submitted: Seq<String>,
    s: Seq<CopyBoundedLiveWindowReconcile>,
    i: int,
)
    requires
        selection_for(r, options, refs.filter(not_submitted(submitted)), back, s),
        0 <= i < r.executable@.len(),
    ensures
        !lists(submitted, r.executable@[i].order.cloid@),
        refs.contains(r.executable@[i]),
{
    let pending = refs.filter(not_submitted(submitted));
    filter_members(refs, not_submitted(submitted));
    filter_members(pending, reduces());
    let p = r.executable@[i];
    assert(pending.contains(p));
    let k = choose|k: int| 0 <= k < pending.len() && pending[k] == p;
    assert(not_submitted(submitted)(pending[k]));
}

/// The plans that are sent at the end of a window were not submitted before.
pub proof fn the_last_plans_were_not_submitted(
    p: FinalPlan,
    options: CopyLiveDaemonSupervisorOptions,
    refs: Seq<CopyLiveDaemonWouldSubmitRef>,
    back: Seq<HeldPlan>,
    submitted: Seq<String>,
    s: Seq<CopyBoundedLiveWindowReconcile>,
    i: int,
)
    requires
        final_plan_for(p, options, refs, back, submitted, s),
        0 <= i < p.pending_refs@.len(),
    ensures
        !lists(submitted, p.pending_refs@[i].order.cloid@),
{
    filter_members(p.executable_submit_plan_refs@, not_submitted(submitted));
}

/// Where the contract does not let all of a list of plans through, what is left
/// are reductions of that list.
pub proof fn a_cut_down_selection_only_reduces(
    r: SubmitSelection,
    options: CopyLiveDaemonSupervisorOptions,
    refs: Seq<CopyLiveDaemonWouldSubmitRef>,
    back: Seq<HeldPlan>,
    s: Seq<CopyBoundedLiveWindowReconcile>,
    i: int,
)
    requires
        selection_for(r, options, refs, back, s),
        r.executable@ != refs,
        0 <= i < r.executable@.len(),
    ensures
        r.executable@[i].order.reduce_only,
        refs.contains(r.executable@[i]),
{
    filter_members(refs, reduces());
}

/// What is sent under a contract that holds keeps to every cap of the window.
pub proof fn what_is_sent_keeps_to_the_caps(
    r: SubmitSelection,
    options: CopyLiveDaemonSupervisorOptions,
    refs: Seq<CopyLiveDaemonWouldSubmitRef>,
    back: Seq<HeldPlan>,
    s: Seq<CopyBoundedLiveWindowReconcile>,
)
    requires
        selection_for(r, options, refs, back, s),
        r.contract.ok,
    ensures
        distinct_cloids(r.executable@),
        disjoint_cloids(r.executable@, held(r.suppressed@)),
        r.executable@.filter(opens()).len() <= options.max_live_orders,
        r.contract.planned_notional_usd <= options.max_total_notional_usd,
        fees_fit(r.contract.estimated_fees_usd as int, options.max_total_fees_usd),
        exposure_ok(options, r.executable@, s),
        margin_ok(r.executable@, s),
{
    an_accepted_plan_respects_every_cap(
        options,
        r.executable@,
        held(r.suppressed@),
        r.contract.planned_notional_usd as int,
        r.contract.estimated_fees_usd as int,
        s,
    );
}

/// What goes through a contract is decided by the contract alone: where it holds,
/// or failed for more than the exposure and margin of openings, the list goes
/// through as it is and nothing more is held back. Otherwise its reductions go
/// through, in order, and its openings join what is held back.
pub proof fn a_contract_lets_through_all_or_the_reductions(
    options: CopyLiveDaemonSupervisorOptions,
    refs: Seq<CopyLiveDaemonWouldSubmitRef>,
    back: Seq<HeldPlan>,
    s: Seq<CopyBoundedLiveWindowReconcile>,
)
    ensures
        ({
            let c = plan_checks(
                options,
                refs,
                back,
                open_notional(refs),
                open_notional(refs),
                s,
            );
            let cut = (exists|i: int| 0 <= i < c.len() && !(#[trigger] c[i]).ok) && (forall|i: int|
                0 <= i < c.len() && (#[trigger] c[i]).name != "bounded_account_total_exposure"@
                    && c[i].name != "bounded_open_margin_available"@ ==> c[i].ok) && exists|
                i: int,
            |
                0 <= i < refs.len() && !(#[trigger] refs[i]).order.reduce_only;
            let out = let_through(options, refs, back, s);
            if cut {
                &&& out.executable == refs.filter(reduces())
                &&& out.suppressed.len() == back.len() + refs.filter(opens()).len()
                &&& out.suppressed.subrange(0, back.len() as int) == back
                &&& forall|i: int|
                    0 <= i < refs.filter(opens()).len() ==> (#[trigger] out.suppressed[back.len()
                        + i]).plan == refs.filter(opens())[i]
            } else {
                out.executable == refs && out.suppressed == back
            }
        }),
{
    let c = first_checks(options, refs, back, s);
    only_openings_are_cut_from_a_plan(all_ok(c), c, refs);
    let out = let_through(options, refs, back, s);
    assert(c == plan_checks(options, refs, back, open_notional(refs), open_notional(refs), s));
    if only_reductions_pass(options, refs, back, s) {
        let why = openings_refusal(c);
        let more = openings_held(refs, why.0, why.1);
        assert(out.suppressed.subrange(0, back.len() as int) =~= back);
        assert forall|i: int| 0 <= i < refs.filter(opens()).len() implies (
        #[trigger] out.suppressed[back.len() + i]).plan == refs.filter(opens())[i] by {
            assert(out.suppressed[back.len() + i] == more[i]);
        }
    }
}

/// What is left at the end of a window is sent where that was asked for and
/// something is left. A window that was not asked to send reports what is left
/// all the same, and one that was and has nothing left reports once where it has
/// reported nothing yet.
pub proof fn the_last_submission_is_made_where_asked_for(submit: bool, pending: int, chunks: int)
    requires
        0 <= pending,
        0 <= chunks,
    ensures
        final_submit(submit, pending, chunks) == FinalSubmit::Send <==> submit && pending > 0,
        final_submit(submit, pending, chunks) == FinalSubmit::ReportPending <==> !submit,
        final_submit(submit, pending, chunks) == FinalSubmit::ReportNone <==> submit && pending
            == 0 && chunks == 0,
        final_submit(submit, pending, chunks) == FinalSubmit::Nothing <==> submit && pending == 0
            && chunks > 0,
{
}

/// The ledger of a window is saved exactly where orders were asked for, some were
/// really sent, each of them is proved, and nothing failed in cleanup.
pub proof fn only_proved_windows_are_saved(
    submit: bool,
    live: CopyLiveDaemonPersistentLiveSubmitReport,
)
    ensures
        saves_ledger(submit, live) <==> submit && live.submitted_reports@.len() > 0 && live_orders(
            live.submitted_reports@,
        ).len() > 0 && live.order_evidence@.len() == live_orders(live.submitted_reports@).len()
            && live.cleanup_errors@.len() == 0 && forall|i: int|
            0 <= i < live.order_evidence@.len() ==> (#[trigger] live.order_evidence@[i]).error
                is None && live.order_evidence@[i].order_status is Some
                && live.order_evidence@[i].matching_fill_count > 0,
{
    if saves_ledger(submit, live) {
        assert forall|i: int| 0 <= i < live.order_evidence@.len() implies (
        #[trigger] live.order_evidence@[i]).error is None
            && live.order_evidence@[i].order_status is Some
            && live.order_evidence@[i].matching_fill_count > 0 by {
            assert(evidence_ok(live.order_evidence@[i]));
        }
    }
    if forall|i: int|
        0 <= i < live.order_evidence@.len() ==> (#[trigger] live.order_evidence@[i]).error is None
            && live.order_evidence@[i].order_status is Some
            && live.order_evidence@[i].matching_fill_count > 0 {
        assert forall|i: int| 0 <= i < live.order_evidence@.len() implies evidence_ok(
            #[trigger] live.order_evidence@[i],
        ) by {}
    }
}

/// Once a window was sent, the plan that is left keeps what it would send and its
/// figures, and no longer holds back what was submitted meanwhile.
pub proof fn a_settled_plan_forgets_what_was_submitted(
    r: FinalPlan,
    p: FinalPlan,
    options: CopyLiveDaemonSupervisorOptions,
    live: CopyLiveDaemonPersistentLiveSubmitReport,
    s: Seq<CopyBoundedLiveWindowReconcile>,
)
    requires
        settled(r, p, options, live, s),
    ensures
        r.executable_submit_plan_refs == p.executable_submit_plan_refs,
        r.planned_notional_usd == p.planned_notional_usd,
        r.estimated_fees_usd == p.estimated_fees_usd,
        r.pending_refs == p.pending_refs,
        any_submitted(live) ==> forall|i: int|
            0 <= i < held(r.suppressed_submit_plan_refs@).len() ==> !cloid_submitted(
                live.submitted_reports@,
                (#[trigger] held(r.suppressed_submit_plan_refs@)[i]).plan.order.cloid@,
            ),
        !any_submitted(live) ==> r == p,
{
    filter_members(held(p.suppressed_submit_plan_refs@), held_after(live));
    if any_submitted(live) {
        assert forall|i: int| 0 <= i < held(r.suppressed_submit_plan_refs@).len() implies
        !cloid_submitted(
            live.submitted_reports@,
            (#[trigger] held(r.suppressed_submit_plan_refs@)[i]).plan.order.cloid@,
        ) by {
            assert(held_after(live)(held(r.suppressed_submit_plan_refs@)[i]));
        }
    }
}

/// The figures of a final plan are those of its plans: each order is the order of
/// its plan, each order that was held back that of a plan held back for the same
/// reason, and the notional and the fees are those of what it opens.
pub proof fn a_final_plan_lists_the_orders_of_its_plans(p: FinalPlan)
    requires
        figures_match(p),
    ensures
        p.executable_would_submit_orders@.len() == p.executable_submit_plan_refs@.len(),
        forall|i: int|
            0 <= i < p.executable_would_submit_orders@.len() ==> (
            #[trigger] p.executable_would_submit_orders@[i])
                == p.executable_submit_plan_refs@[i].order,
        p.suppressed_would_submit_orders@.len() == p.suppressed_submit_plan_refs@.len(),
        forall|i: int|
            0 <= i < p.suppressed_would_submit_orders@.len() ==> (
            #[trigger] p.suppressed_would_submit_orders@[i])@.order
                == p.suppressed_submit_plan_refs@[i]@.plan.order
                && p.suppressed_would_submit_orders@[i]@.reason_code
                == p.suppressed_submit_plan_refs@[i]@.reason_code
                && p.suppressed_would_submit_orders@[i]@.message
                == p.suppressed_submit_plan_refs@[i]@.message,
        p.planned_notional_usd == open_notional(p.executable_submit_plan_refs@),
        p.estimated_fees_usd == fee_estimate(open_notional(p.executable_submit_plan_refs@)),
{
    let a = held_orders(p.suppressed_would_submit_orders@);
    let b = held(p.suppressed_submit_plan_refs@);
    assert(a.len() == p.suppressed_would_submit_orders@.len());
    assert(orders_held(b).len() == b.len());
    assert forall|i: int| 0 <= i < p.suppressed_would_submit_orders@.len() implies (
    #[trigger] p.suppressed_would_submit_orders@[i])@.order
        == p.suppressed_submit_plan_refs@[i]@.plan.order
        && p.suppressed_would_submit_orders@[i]@.reason_code
        == p.suppressed_submit_plan_refs@[i]@.reason_code
        && p.suppressed_would_submit_orders@[i]@.message
        == p.suppressed_submit_plan_refs@[i]@.message by {
        assert(a[i] == p.suppressed_would_submit_orders@[i]@);
        assert(b[i] == p.suppressed_submit_plan_refs@[i]@);
        assert(orders_held(b)[i].order == b[i].plan.order);
    }
}

/// The contract of a selection covers all plans, or, where only reductions pass,
/// the reductions, with everything else counted as held back.
pub proof fn the_contract_covers_what_is_let_through(
    c: CopyLiveDaemonSubmitPlanContract,
    options: CopyLiveDaemonSupervisorOptions,
    refs: Seq<CopyLiveDaemonWouldSubmitRef>,
    back: Seq<HeldPlan>,
    s: Seq<CopyBoundedLiveWindowReconcile>,
)
    requires
        selection_contract(c, options, refs, back, s),
    ensures
        ({
            let chosen = let_through(options, refs, back, s);
            &&& c.executable_plan_count == chosen.executable.len()
            &&& c.suppressed_plan_count == chosen.suppressed.len()
            &&& only_reductions_pass(options, refs, back, s) ==> c.executable_open_plan_count == 0
                && c.executable_reduce_only_plan_count == chosen.executable.len()
                && c.planned_notional_usd == total(chosen.executable, plan_size())
                && c.estimated_fees_usd == prorated_fees(
                fee_estimate(open_notional(refs)),
                total(chosen.executable, plan_size()),
                open_notional(refs),
            )
            &&& !only_reductions_pass(options, refs, back, s) ==> c.planned_notional_usd
                == open_notional(refs) && c.estimated_fees_usd == fee_estimate(open_notional(refs))
                && c.executable_plan_count == refs.len() && c.suppressed_plan_count == back.len()
        }),
{
    if only_reductions_pass(options, refs, back, s) {
        let chosen = let_through(options, refs, back, s);
        let part = total(chosen.executable, plan_size());
        let fees = prorated_fees(opening_fees(refs), part, opened(refs));
        filter_members(refs, reduces());
        assert forall|i: int| 0 <= i < chosen.executable.len() implies (
        #[trigger] chosen.executable[i]).order.reduce_only by {
            assert(reduces()(refs.filter(reduces())[i]));
        }
        a_contract_covers_every_plan(
            c,
            options,
            chosen.executable,
            chosen.suppressed,
            part,
            fees,
            s,
        );
    }
}

} // verus!
