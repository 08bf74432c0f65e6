//! A trial from end to end: it is gated, recorded, planned and only then sent.
//! Every stage either goes on or ends the trial with a report.

use vstd::prelude::*;

use crate::canary::{
    a_trial_makes_every_check, canary_cleanup_check, canary_error, canary_gate_checks,
    canary_mode_checks, canary_order_checks, canary_outcome_checks, canary_party_checks,
    copy_execution_canary_report, each_check_before_a_trial_means_what_it_says, local_id,
    push_canary_cleanup_check, push_canary_order_checks, push_canary_record_checks, record_checks,
    report_for, start_copy_execution_canary, CanaryOutcome, CanaryStart, CopyExecutionCanaryReport,
};
use crate::checks::{all_ok, views, Check, CopyShadowSmokeCheck};
use crate::config::{target_accounts, worker_ids, AppConfig};
use crate::dispatch::{canary_dispatch, dispatch_of, DispatchStep};
use crate::domain::WorkerReport;
use crate::intent::{
    approved_plans, leads_to_orders, plan_copy_canary_orders, requests_of, CopyDryRunShadowRecord,
    RiskDecision,
};
use crate::leaders::{leaders_of, CopyShadowSmokeLeader, Leader};
use crate::ledger::CopyPersistenceSnapshot;
use crate::options::CopyExecutionCanaryOptions;
use crate::plan::CopyExecutionCanaryWouldSubmit;
use crate::submit::{
    copy_canary_has_live_submission, live_orders, CopyExecutionCanaryOrderEvidence,
    CopyLedgerReconcileResult, SignedRunbookResult,
};
use crate::text::texts;

verus! {

/// A trial on its way.
#[derive(Debug)]
pub struct TrialProgress {
    pub target_accounts: Vec<String>,
    pub leader: Option<CopyShadowSmokeLeader>,
    pub checks: Vec<CopyShadowSmokeCheck>,
    pub records: Vec<CopyDryRunShadowRecord>,
    pub would_submit_orders: Vec<CopyExecutionCanaryWouldSubmit>,
}

/// What becomes of a trial after a stage.
#[derive(Debug)]
pub enum TrialNext {
    Done(CopyExecutionCanaryReport),
    GoOn(TrialProgress),
}

/// Whether nothing was sent in an outcome.
pub open spec fn nothing_sent(
    c: CanaryOutcome,
    records: Seq<CopyDryRunShadowRecord>,
    orders: Seq<CopyExecutionCanaryWouldSubmit>,
) -> bool {
    &&& c.records@ == records
    &&& c.would_submit_orders@ == orders
    &&& c.submitted_reports@.len() == 0
    &&& c.order_evidence@.len() == 0
    &&& c.ledger_reconciliations@.len() == 0
    &&& c.cleanup_runbooks@.len() == 0
    &&& c.cleanup_errors@.len() == 0
}

/// Whether a trial goes on exactly where all its checks passed, and otherwise
/// ends with a report in which nothing was sent.
pub open spec fn stage_ends(
    next: TrialNext,
    config: AppConfig,
    o: CopyExecutionCanaryOptions,
    targets: Vec<String>,
    leader: Option<CopyShadowSmokeLeader>,
    checks: Seq<Check>,
    records: Seq<CopyDryRunShadowRecord>,
    orders: Seq<CopyExecutionCanaryWouldSubmit>,
) -> bool {
    if all_ok(checks) {
        next is GoOn && ({
            let p = next->GoOn_0;
            &&& p.target_accounts == targets
            &&& p.leader == leader
            &&& views(p.checks@) == checks
            &&& p.records@ == records
            &&& p.would_submit_orders@ == orders
        })
    } else {
        next is Done && exists|c: CanaryOutcome|
            #[trigger] nothing_sent(c, records, orders) && report_for(
                next->Done_0,
                config,
                o,
                !o.live,
                targets,
                leader,
                checks,
                c,
            )
    }
}

fn stopped(
    config: &AppConfig,
    options: &CopyExecutionCanaryOptions,
    p: TrialProgress,
    snapshot: CopyPersistenceSnapshot,
) -> (r: CopyExecutionCanaryReport)
    ensures
        exists|c: CanaryOutcome|
            #[trigger] nothing_sent(c, p.records@, p.would_submit_orders@) && report_for(
                r,
                *config,
                *options,
                !options.live,
                p.target_accounts,
                p.leader,
                views(p.checks@),
                c,
            ),
        r.ledger_reconciliation_snapshot == snapshot,
{
    let outcome: CanaryOutcome = CanaryOutcome {
        records: p.records,
        would_submit_orders: p.would_submit_orders,
        submitted_reports: Vec::new(),
        order_evidence: Vec::new(),
        ledger_reconciliations: Vec::new(),
        ledger_reconciliation_snapshot: snapshot,
        cleanup_runbooks: Vec::new(),
        cleanup_errors: Vec::new(),
    };
    let ghost c = outcome;
    assert(nothing_sent(c, p.records@, p.would_submit_orders@));
    let r: CopyExecutionCanaryReport = copy_execution_canary_report(
        config,
        options,
        !options.live,
        p.target_accounts,
        p.leader,
        p.checks,
        outcome,
    );
    r
}

/// What a leader that was picked is.
pub open spec fn picked(leader: Option<CopyShadowSmokeLeader>) -> Option<Leader> {
    match leader {
        Some(l) => Some(l@),
        None => None,
    }
}

/// The accounts of a trial after a stage.
pub open spec fn targets_of(next: TrialNext) -> Vec<String> {
    match next {
        TrialNext::Done(r) => r.target_accounts,
        TrialNext::GoOn(p) => p.target_accounts,
    }
}

/// The leader of a trial after a stage.
pub open spec fn leader_of(next: TrialNext) -> Option<CopyShadowSmokeLeader> {
    match next {
        TrialNext::Done(r) => r.leader,
        TrialNext::GoOn(p) => p.leader,
    }
}

/// Whether a trial was started for the first of the given leaders.
pub open spec fn trial_started(
    next: TrialNext,
    config: AppConfig,
    o: CopyExecutionCanaryOptions,
    leaders: Seq<Leader>,
) -> bool {
    &&& texts(targets_of(next)@) == target_accounts(
        config,
        o.account_ids@,
        local_id(o.local_account_id),
    )
    &&& picked(leader_of(next)) == if leaders.len() > 0 {
        Some(leaders[0])
    } else {
        None
    }
    &&& stage_ends(
        next,
        config,
        o,
        targets_of(next),
        leader_of(next),
        canary_gate_checks(config, o, leaders.len() as int),
        Seq::empty(),
        Seq::empty(),
    )
}

/// Starts a trial: the entry checks are made on the configuration.
pub fn run_copy_execution_canary(
    config: &AppConfig,
    options: &CopyExecutionCanaryOptions,
    now_ms: u64,
) -> (r: Result<TrialNext, String>)
    ensures
        match canary_error(*options) {
            Some(e) => r is Err && r->Err_0@ == e,
            None => match leaders_of(texts(options.leaders@)) {
                Err(e) => r is Err && r->Err_0@ == e,
                Ok(leaders) => {
                    &&& r is Ok
                    &&& trial_started(r->Ok_0, *config, *options, leaders)
                    &&& r->Ok_0 is Done ==> ({
                        let snapshot = r->Ok_0->Done_0.ledger_reconciliation_snapshot;
                        &&& snapshot.saved_at_ms == now_ms
                        &&& snapshot.ledger_entries@.len() == 0
                        &&& snapshot.seen_event_keys@.len() == 0
                    })
                },
            },
        },
{
    let start: CanaryStart = match start_copy_execution_canary(config, options) {
        Err(e) => {
            return Err(e);
        },
        Ok(s) => s,
    };
    let snapshot: CopyPersistenceSnapshot = CopyPersistenceSnapshot::new(
        now_ms,
        Vec::new(),
        Vec::new(),
    );
    let p: TrialProgress = TrialProgress {
        target_accounts: start.target_accounts,
        leader: start.leader,
        checks: start.checks,
        records: Vec::new(),
        would_submit_orders: Vec::new(),
    };
    assert(p.records@ =~= Seq::empty());
    assert(p.would_submit_orders@ =~= Seq::empty());
    if start.proceed {
        Ok(TrialNext::GoOn(p))
    } else {
        Ok(TrialNext::Done(stopped(config, options, p, snapshot)))
    }
}

/// Goes on with the records of the made-up leader trade. `snapshot` is the ledger
/// of these records with nothing reported on them.
pub fn trial_with_records(
    config: &AppConfig,
    options: &CopyExecutionCanaryOptions,
    progress: TrialProgress,
    records: Vec<CopyDryRunShadowRecord>,
    snapshot: CopyPersistenceSnapshot,
) -> (r: TrialNext)
    ensures
        stage_ends(
            r,
            *config,
            *options,
            progress.target_accounts,
            progress.leader,
            views(progress.checks@) + record_checks(
                records@.filter(leads_to_orders()).len() as int,
                options.max_orders as int,
            ),
            records@,
            Seq::empty(),
        ),
        r is Done ==> r->Done_0.ledger_reconciliation_snapshot == snapshot,
{
    let mut checks: Vec<CopyShadowSmokeCheck> = progress.checks;
    let proceed: bool = push_canary_record_checks(&mut checks, &records, options.max_orders);
    let p: TrialProgress = TrialProgress {
        target_accounts: progress.target_accounts,
        leader: progress.leader,
        checks,
        records,
        would_submit_orders: Vec::new(),
    };
    assert(p.would_submit_orders@ =~= Seq::empty());
    if proceed {
        TrialNext::GoOn(p)
    } else {
        TrialNext::Done(stopped(config, options, p, snapshot))
    }
}

/// Goes on with the answers of the risk gateway. `snapshot` is the ledger of the
/// records with nothing reported on them.
pub fn trial_with_decisions(
    config: &AppConfig,
    options: &CopyExecutionCanaryOptions,
    progress: TrialProgress,
    decisions: &Vec<RiskDecision>,
    snapshot: CopyPersistenceSnapshot,
) -> (r: Result<TrialNext, String>)
    ensures
        match requests_of(*config, progress.records@) {
            Err(e) => r is Err && r->Err_0@ == e,
            Ok(_q) => {
                &&& r is Ok
                &&& stage_ends(
                    r->Ok_0,
                    *config,
                    *options,
                    progress.target_accounts,
                    progress.leader,
                    views(progress.checks@) + canary_order_checks(
                        *config,
                        *options,
                        approved_plans(decisions@),
                    ),
                    progress.records@,
                    approved_plans(decisions@),
                )
                &&& r->Ok_0 is Done ==> r->Ok_0->Done_0.ledger_reconciliation_snapshot == snapshot
            },
        },
{
    let orders: Vec<CopyExecutionCanaryWouldSubmit> = match plan_copy_canary_orders(
        config,
        &progress.records,
        decisions,
    ) {
        Err(e) => {
            return Err(e);
        },
        Ok(v) => v,
    };
    let mut checks: Vec<CopyShadowSmokeCheck> = progress.checks;
    let proceed: bool = push_canary_order_checks(&mut checks, config, options, &orders);
    let p: TrialProgress = TrialProgress {
        target_accounts: progress.target_accounts,
        leader: progress.leader,
        checks,
        records: progress.records,
        would_submit_orders: orders,
    };
    if proceed {
        Ok(TrialNext::GoOn(p))
    } else {
        Ok(TrialNext::Done(stopped(config, options, p, snapshot)))
    }
}

/// Whether the evidence of a trial is collected and its positions are closed
/// again: only where an order was really sent.
pub fn trial_follows_up(
    options: &CopyExecutionCanaryOptions,
    submitted_reports: &Vec<WorkerReport>,
) -> (r: bool)
    ensures
        r == (options.live && live_orders(submitted_reports@).len() > 0),
{
    options.live && copy_canary_has_live_submission(submitted_reports)
}

/// What is done with the answers of the risk gateway at the end of a trial:
/// nothing where it only tries its checks. Otherwise approved orders are sent
/// and refusals are reported, in order.
pub fn trial_dispatch(
    options: &CopyExecutionCanaryOptions,
    decisions: Vec<RiskDecision>,
) -> (r: Vec<DispatchStep>)
    ensures
        options.preflight_only ==> r@.len() == 0,
        !options.preflight_only ==> r@ == decisions@.map_values(
            |d: RiskDecision| dispatch_of(d),
        ),
{
    let ghost goal = decisions@.map_values(|d: RiskDecision| dispatch_of(d));
    let mut steps: Vec<DispatchStep> = Vec::new();
    if options.preflight_only {
        return steps;
    }
    let mut rest: Vec<RiskDecision> = decisions;
    let ghost mut done: int = 0;
    assert(rest@ =~= decisions@.subrange(0, decisions@.len() as int));
    while rest.len() > 0
        invariant
            0 <= done <= decisions@.len(),
            rest@ == decisions@.subrange(done, decisions@.len() as int),
            goal == decisions@.map_values(|d: RiskDecision| dispatch_of(d)),
            steps@ == goal.subrange(0, done),
        decreases rest@.len(),
    {
        let decision: RiskDecision = rest.remove(0);
        proof {
            assert(decision == decisions@[done]);
            assert(rest@ =~= decisions@.subrange(done + 1, decisions@.len() as int));
            assert(goal.subrange(0, done + 1) =~= goal.subrange(0, done).push(goal[done]));
            done = done + 1;
        }
        steps.push(canary_dispatch(decision));
    }
    assert(goal.subrange(0, done) =~= goal);
    steps
}

/// Whether what was sent in a trial is possible: a trial that only tries its
/// checks sends nothing, and without a live order there is nothing to prove or
/// to close again.
pub open spec fn sent_as_asked(options: CopyExecutionCanaryOptions, sent: TrialSent) -> bool {
    &&& options.preflight_only ==> sent.submitted_reports@.len() == 0
    &&& !(options.live && live_orders(sent.submitted_reports@).len() > 0) ==> {
        &&& sent.order_evidence@.len() == 0
        &&& sent.cleanup_runbooks@.len() == 0
        &&& sent.cleanup_errors@.len() == 0
    }
}

/// What was sent in a trial, and what followed.
#[derive(Debug)]
pub struct TrialSent {
    pub submitted_reports: Vec<WorkerReport>,
    pub order_evidence: Vec<CopyExecutionCanaryOrderEvidence>,
    pub ledger_reconciliations: Vec<CopyLedgerReconcileResult>,
    pub ledger_reconciliation_snapshot: CopyPersistenceSnapshot,
    pub cleanup_runbooks: Vec<SignedRunbookResult>,
    pub cleanup_errors: Vec<String>,
}

/// Ends a trial that passed all its stages. One that only tries its checks
/// reports no order and nothing that would follow one.
pub fn finish_trial(
    config: &AppConfig,
    options: &CopyExecutionCanaryOptions,
    progress: TrialProgress,
    sent: TrialSent,
) -> (r: CopyExecutionCanaryReport)
    requires
        sent_as_asked(*options, sent),
    ensures
        options.preflight_only ==> {
            &&& r.submitted_reports@.len() == 0
            &&& r.order_evidence@.len() == 0
            &&& r.cleanup_runbooks@.len() == 0
            &&& r.cleanup_errors@.len() == 0
        },
        report_for(
            r,
            *config,
            *options,
            !options.live,
            progress.target_accounts,
            progress.leader,
            views(progress.checks@).push(
                canary_cleanup_check(*options, sent.cleanup_runbooks@, sent.cleanup_errors@),
            ),
            (CanaryOutcome {
                records: progress.records,
                would_submit_orders: progress.would_submit_orders,
                submitted_reports: sent.submitted_reports,
                order_evidence: sent.order_evidence,
                ledger_reconciliations: sent.ledger_reconciliations,
                ledger_reconciliation_snapshot: sent.ledger_reconciliation_snapshot,
                cleanup_runbooks: sent.cleanup_runbooks,
                cleanup_errors: sent.cleanup_errors,
            }),
        ),
{
    let mut checks: Vec<CopyShadowSmokeCheck> = progress.checks;
    push_canary_cleanup_check(
        &mut checks,
        options,
        &sent.cleanup_runbooks,
        &sent.cleanup_errors,
    );
    copy_execution_canary_report(
        config,
        options,
        !options.live,
        progress.target_accounts,
        progress.leader,
        checks,
        CanaryOutcome {
            records: progress.records,
            would_submit_orders: progress.would_submit_orders,
            submitted_reports: sent.submitted_reports,
            order_evidence: sent.order_evidence,
            ledger_reconciliations: sent.ledger_reconciliations,
            ledger_reconciliation_snapshot: sent.ledger_reconciliation_snapshot,
            cleanup_runbooks: sent.cleanup_runbooks,
            cleanup_errors: sent.cleanup_errors,
        },
    )
}

/// A trial that ends before its last stage sent nothing and did not go well.
pub proof fn a_stopped_trial_sent_nothing(
    r: CopyExecutionCanaryReport,
    config: AppConfig,
    o: CopyExecutionCanaryOptions,
    targets: Vec<String>,
    leader: Option<CopyShadowSmokeLeader>,
    checks: Seq<Check>,
    records: Seq<CopyDryRunShadowRecord>,
    orders: Seq<CopyExecutionCanaryWouldSubmit>,
)
    requires
        stage_ends(TrialNext::Done(r), config, o, targets, leader, checks, records, orders),
    ensures
        !r.ok,
        r.submitted_reports@.len() == 0,
        r.cleanup_runbooks@.len() == 0,
{
    let c = choose|c: CanaryOutcome|
        #[trigger] nothing_sent(c, records, orders) && report_for(
            r,
            config,
            o,
            !o.live,
            targets,
            leader,
            checks,
            c,
        );
    let i = choose|i: int| 0 <= i < checks.len() && !(#[trigger] checks[i]).ok;
    let all = checks + canary_outcome_checks(o, c);
    assert(all[i] == checks[i]);
}

/// A stage of a trial leads on exactly where every check so far passed, and the
/// trial then works on what it was given; otherwise the trial ends with a report
/// that names its accounts, what was recorded, and what would have been sent.
pub proof fn a_trial_goes_on_only_with_every_check_passed(
    next: TrialNext,
    config: AppConfig,
    o: CopyExecutionCanaryOptions,
    targets: Vec<String>,
    leader: Option<CopyShadowSmokeLeader>,
    checks: Seq<Check>,
    records: Seq<CopyDryRunShadowRecord>,
    orders: Seq<CopyExecutionCanaryWouldSubmit>,
)
    requires
        stage_ends(next, config, o, targets, leader, checks, records, orders),
    ensures
        next is GoOn <==> forall|i: int| 0 <= i < checks.len() ==> (#[trigger] checks[i]).ok,
        next is GoOn ==> next->GoOn_0.target_accounts == targets && next->GoOn_0.leader == leader
            && views(next->GoOn_0.checks@) == checks && next->GoOn_0.records@ == records
            && next->GoOn_0.would_submit_orders@ == orders,
        next is Done ==> next->Done_0.target_accounts == targets && next->Done_0.leader == leader
            && next->Done_0.shadow_records_written == records.len()
            && next->Done_0.would_submit_orders@ == orders && next->Done_0.order_evidence@.len()
            == 0 && next->Done_0.cleanup_errors@.len() == 0
            && next->Done_0.ledger_reconciliations@.len() == 0 && next->Done_0.live_requested
            == o.live && next->Done_0.execution_dry_run == !o.live,
{
}

/// A trial begins with the accounts that were asked for and the first leader, and
/// goes on only where who copies, its accounts and its mode are in order.
pub proof fn a_trial_begins_with_its_first_leader(
    next: TrialNext,
    config: AppConfig,
    o: CopyExecutionCanaryOptions,
    leaders: Seq<Leader>,
)
    requires
        trial_started(next, config, o, leaders),
    ensures
        next is GoOn ==> leaders.len() > 0 && next->GoOn_0.leader is Some
            && next->GoOn_0.leader->0@ == leaders[0] && next->GoOn_0.target_accounts@.len() > 0
            && next->GoOn_0.records@.len() == 0 && next->GoOn_0.would_submit_orders@.len() == 0,
        next is GoOn && o.live ==> !config.app.dry_run && o.allow_live_submit && o.max_orders == 1
            && next->GoOn_0.target_accounts@.len() == 1 && o.cleanup_after_submit
            && config.manual_ops.manual_live_enabled,
        next is Done ==> !next->Done_0.ok && next->Done_0.shadow_records_written == 0,
{
    let accounts = target_accounts(config, o.account_ids@, local_id(o.local_account_id));
    let checks = canary_gate_checks(config, o, leaders.len() as int);
    if next is GoOn {
        let p = next->GoOn_0;
        assert(texts(p.target_accounts@).len() == p.target_accounts@.len());
        a_trial_makes_every_check(config, o, leaders.len() as int);
        each_check_before_a_trial_means_what_it_says(
            config,
            o,
            leaders.len() as int,
            worker_ids(config.accounts@).len() as int,
            accounts.len() as int,
            0,
            Seq::empty(),
        );
        let party = canary_party_checks(
            leaders.len() as int,
            worker_ids(config.accounts@).len() as int,
            accounts.len() as int,
        );
        assert(party[0].ok && party[2].ok);
        let mode = canary_mode_checks(config, o, accounts.len() as int);
        if o.live {
            let live = mode.subrange(1, 11);
            assert(forall|i: int| 0 <= i < 10 ==> live[i] == mode[i + 1]);
            assert(mode[1].ok && mode[2].ok && mode[3].ok && mode[4].ok && mode[5].ok
                && mode[9].ok);
            assert(live[0].ok && live[1].ok && live[2].ok && live[3].ok && live[4].ok
                && live[8].ok);
        }
    } else {
        a_stopped_trial_sent_nothing(
            next->Done_0,
            config,
            o,
            targets_of(next),
            leader_of(next),
            checks,
            Seq::empty(),
            Seq::empty(),
        );
    }
}

} // verus!
