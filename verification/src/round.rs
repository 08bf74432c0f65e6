//! What a supervised window carries from event to event: the records that led to
//! orders, the plans, the client ids that were handed on, and what came of them.

use vstd::prelude::*;

use crate::checks::{views, CopyShadowSmokeCheck};
use crate::config::AppConfig;
use crate::intent::{
    approvals, plan_copy_daemon_acceptance_order_refs_with_offset, plan_for, requests_of,
    CopyDryRunShadowRecord, Request, RiskDecision,
};
use crate::options::CopyLiveDaemonSupervisorOptions;
use crate::plan::{
    append_keeps_and_covers, append_unique_copy_daemon_would_submit_refs, distinct_cloids,
    not_submitted, plans_with_new, CopyLiveDaemonWouldSubmitRef, HeldPlan,
};
use crate::reconcile::CopyBoundedLiveWindowReconcile;
use crate::select::{
    note_submitted, nothing_is_sent_twice, selection_for, what_is_sent_keeps_to_the_caps,
    SubmitSelection,
};
use crate::submit::{
    chunks_sent_nothing, copy_live_daemon_merge_persistent_live_submit_reports, merged_from,
    sent_nothing, submit_healthy, CopyLiveDaemonPersistentLiveSubmitReport,
};
use crate::supervisor::{after_immediate_submit, immediate_failure};
use crate::watch::WatchStatus;

verus! {

/// A window on its way.
#[derive(Debug)]
pub struct WindowRun {
    pub submit: bool,
    pub approved: Vec<CopyDryRunShadowRecord>,
    pub plans: Vec<CopyLiveDaemonWouldSubmitRef>,
    pub submitted: Vec<String>,
    pub chunks: Vec<CopyLiveDaemonPersistentLiveSubmitReport>,
}

/// Whether every plan of a window has a client id of its own, and nothing was
/// sent in a window that was not asked to send.
pub open spec fn run_valid(run: WindowRun) -> bool {
    &&& distinct_cloids(run.plans@)
    &&& !run.submit ==> chunks_sent_nothing(run.chunks@)
}

/// A window that has not seen anything yet.
pub fn new_run(submit: bool) -> (r: WindowRun)
    ensures
        r.submit == submit,
        r.approved@.len() == 0,
        r.plans@.len() == 0,
        r.submitted@.len() == 0,
        r.chunks@.len() == 0,
        run_valid(r),
{
    WindowRun {
        submit,
        approved: Vec::new(),
        plans: Vec::new(),
        submitted: Vec::new(),
        chunks: Vec::new(),
    }
}

/// Whether plans are those that follow from the answers of the risk gateway.
pub open spec fn plans_follow(
    plans: Seq<CopyLiveDaemonWouldSubmitRef>,
    requests: Seq<Request>,
    decisions: Seq<RiskDecision>,
    base: int,
) -> bool {
    &&& plans.len() == approvals(decisions).len()
    &&& forall|k: int|
        0 <= k < plans.len() ==> plan_for(
            #[trigger] plans[k],
            requests[approvals(decisions)[k]],
            decisions[approvals(decisions)[k]]->Approved_0,
            base,
        )
}

/// Takes in records that lead to orders, with the answers of the risk gateway:
/// their plans join the window unless their client id is known already. Records
/// for an account that is not configured leave the window as it is. Otherwise
/// the answer is whether plans are handed on at once.
pub fn take_records(
    run: &mut WindowRun,
    config: &AppConfig,
    records: Vec<CopyDryRunShadowRecord>,
    decisions: &Vec<RiskDecision>,
) -> (r: Result<bool, String>)
    requires
        run_valid(*old(run)),
        requests_of(*config, records@) matches Ok(q) ==> decisions@.len() == q.len(),
        old(run).approved@.len() + records@.len() <= usize::MAX,
    ensures
        run_valid(*final(run)),
        final(run).submit == old(run).submit,
        final(run).submitted == old(run).submitted,
        final(run).chunks == old(run).chunks,
        match requests_of(*config, records@) {
            Err(e) => {
                &&& r is Err
                &&& r->Err_0@ == e
                &&& final(run).approved == old(run).approved
                &&& final(run).plans == old(run).plans
            },
            Ok(q) => {
                &&& r == Ok::<bool, String>(old(run).submit)
                &&& final(run).approved@ == old(run).approved@ + records@
                &&& exists|new: Seq<CopyLiveDaemonWouldSubmitRef>| #[trigger]
                    plans_follow(new, q, decisions@, old(run).approved@.len() as int)
                        && final(run).plans@ == plans_with_new(old(run).plans@, new)
            },
        },
{
    let base: usize = run.approved.len();
    let new: Vec<CopyLiveDaemonWouldSubmitRef> =
        match plan_copy_daemon_acceptance_order_refs_with_offset(
        config,
        &records,
        decisions,
        base,
    ) {
        Err(e) => {
            return Err(e);
        },
        Ok(v) => v,
    };
    proof {
        let q = requests_of(*config, records@)->Ok_0;
        assert(plans_follow(new@, q, decisions@, base as int));
        append_keeps_and_covers(run.plans@, new@);
    }
    append_unique_copy_daemon_would_submit_refs(&mut run.plans, new);
    let mut more: Vec<CopyDryRunShadowRecord> = records;
    run.approved.append(&mut more);
    Ok(run.submit)
}

/// The client ids of plans.
pub open spec fn cloids_of(refs: Seq<CopyLiveDaemonWouldSubmitRef>) -> Seq<String> {
    refs.map_values(|p: CopyLiveDaemonWouldSubmitRef| p.order.cloid)
}

/// Takes in what came of plans that were handed on at once. Where they did not
/// go well, the watch ends with a failed check.
pub fn take_chunk(
    run: &mut WindowRun,
    checks: &mut Vec<CopyShadowSmokeCheck>,
    sent: &Vec<CopyLiveDaemonWouldSubmitRef>,
    report: CopyLiveDaemonPersistentLiveSubmitReport,
) -> (r: Option<WatchStatus>)
    requires
        run_valid(*old(run)),
        old(run).submit || sent_nothing(report),
    ensures
        run_valid(*final(run)),
        final(run).submit == old(run).submit,
        final(run).approved == old(run).approved,
        final(run).plans == old(run).plans,
        final(run).submitted@ == old(run).submitted@ + cloids_of(sent@),
        final(run).chunks@ == old(run).chunks@.push(report),
        submit_healthy(report) ==> r is None && views(final(checks)@) == views(old(checks)@),
        !submit_healthy(report) ==> r == Some(WatchStatus::StoppedImmediateSubmitFailed)
            && views(final(checks)@) == views(old(checks)@).push(immediate_failure()),
{
    note_submitted(&mut run.submitted, sent);
    let stop: Option<WatchStatus> = after_immediate_submit(checks, &report);
    run.chunks.push(report);
    stop
}

/// Takes in what came of the plans that were left at the end.
pub fn take_last_chunk(run: &mut WindowRun, report: CopyLiveDaemonPersistentLiveSubmitReport)
    requires
        run_valid(*old(run)),
        old(run).submit || sent_nothing(report),
    ensures
        run_valid(*final(run)),
        final(run).submit == old(run).submit,
        final(run).approved == old(run).approved,
        final(run).plans == old(run).plans,
        final(run).submitted == old(run).submitted,
        final(run).chunks@ == old(run).chunks@.push(report),
{
    run.chunks.push(report);
}

/// The submissions of a window as one report. Where the window was not asked to
/// send, the report says that nothing was sent.
pub fn merge_run(
    run: WindowRun,
    submit_plan_contract_ok: bool,
    now_ms: u64,
) -> (r: CopyLiveDaemonPersistentLiveSubmitReport)
    requires
        run_valid(run),
    ensures
        merged_from(r, run.submit, submit_plan_contract_ok, run.chunks@, now_ms),
        !run.submit ==> sent_nothing(r),
{
    copy_live_daemon_merge_persistent_live_submit_reports(
        run.submit,
        submit_plan_contract_ok,
        run.chunks,
        now_ms,
    )
}

/// Whether no text of a list occurs twice.
pub open spec fn all_different(v: Seq<String>) -> bool {
    forall|i: int, j: int|
        0 <= i < j < v.len() ==> (#[trigger] v[i])@ != (#[trigger] v[j])@
}

/// No client id is handed on twice in a window: where what is sent passed its
/// contract, the client ids that were handed on stay different from each other.
pub proof fn no_client_id_is_handed_on_twice(
    r: SubmitSelection,
    options: CopyLiveDaemonSupervisorOptions,
    refs: Seq<CopyLiveDaemonWouldSubmitRef>,
    back: Seq<HeldPlan>,
    submitted: Seq<String>,
    s: Seq<CopyBoundedLiveWindowReconcile>,
)
    requires
        selection_for(r, options, refs.filter(not_submitted(submitted)), back, s),
        r.contract.ok,
        all_different(submitted),
    ensures
        all_different(submitted + cloids_of(r.executable@)),
{
    let pending = refs.filter(not_submitted(submitted));
    what_is_sent_keeps_to_the_caps(r, options, pending, back, s);
    let ids = cloids_of(r.executable@);
    let all = submitted + ids;
    assert forall|i: int, j: int| 0 <= i < j < all.len() implies (#[trigger] all[i])@ != (
    #[trigger] all[j])@ by {
        let n = submitted.len() as int;
        if j >= n {
            nothing_is_sent_twice(r, options, refs, back, submitted, s, j - n);
            assert(all[j] == r.executable@[j - n].order.cloid);
            if i < n {
                assert(all[i] == submitted[i]);
            } else {
                assert(all[i] == r.executable@[i - n].order.cloid);
            }
        } else {
            assert(all[i] == submitted[i] && all[j] == submitted[j]);
        }
    }
}

/// Handing plans on notes the client id of each of them, in order.
pub proof fn every_plan_handed_on_is_noted(
    refs: Seq<CopyLiveDaemonWouldSubmitRef>,
    p: CopyLiveDaemonWouldSubmitRef,
)
    ensures
        cloids_of(Seq::empty()) == Seq::<String>::empty(),
        cloids_of(refs.push(p)) == cloids_of(refs).push(p.order.cloid),
{
    assert(cloids_of(Seq::empty()) =~= Seq::<String>::empty());
    assert(cloids_of(refs.push(p)) =~= cloids_of(refs).push(p.order.cloid));
}

/// The plans of a window have different client ids, and a window that was not
/// asked to send has only reports in which nothing was sent.
pub proof fn a_window_that_may_not_send_sent_nothing(run: WindowRun)
    ensures
        run_valid(run) <==> (forall|i: int, j: int|
            0 <= i < j < run.plans@.len() ==> (#[trigger] run.plans@[i]).order.cloid@ != (
            #[trigger] run.plans@[j]).order.cloid@) && (!run.submit ==> forall|i: int|
            0 <= i < run.chunks@.len() ==> (#[trigger] run.chunks@[i]).submitted_reports@.len() == 0
                && run.chunks@[i].order_evidence@.len() == 0
                && run.chunks@[i].cleanup_runbooks@.len() == 0
                && run.chunks@[i].cleanup_errors@.len() == 0
                && run.chunks@[i].ledger_reconciliations@.len() == 0),
{
}

/// The plans that follow from answers are one for each order that was approved, in
/// order, each for its own request: it counts the records from where they begin.
pub proof fn each_approval_leads_to_its_own_plan(
    plans: Seq<CopyLiveDaemonWouldSubmitRef>,
    requests: Seq<Request>,
    decisions: Seq<RiskDecision>,
    base: int,
    k: int,
)
    requires
        plans_follow(plans, requests, decisions, base),
        0 <= k < plans.len(),
    ensures
        plans.len() == approvals(decisions).len(),
        ({
            let i = approvals(decisions)[k];
            let o = decisions[i]->Approved_0;
            &&& plans[k].record_index == base + requests[i].offset
            &&& plans[k].leader_id@ == requests[i].record.leader_id@
            &&& plans[k].signal_id@ == requests[i].record.signal->0.signal_id@
            &&& plans[k].order.account_id@ == o.account_id@
            &&& plans[k].order.coin@ == o.coin@
            &&& plans[k].order.side == o.side
            &&& plans[k].order.notional_usd == o.notional_usd
            &&& plans[k].order.reduce_only == o.reduce_only
            &&& plans[k].order.cloid@ == o.cloid@
        }),
{
}

} // verus!
