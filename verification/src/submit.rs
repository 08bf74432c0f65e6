//! What came of sent orders, and whether it is sound.

use vstd::prelude::*;

use crate::checks::{
    all_ok, append_checks, check, check_named, checks_all_ok, push_check, push_note, views, Check,
    CopyShadowSmokeCheck,
};
use crate::decimal::{dec, push_count};
use crate::domain::{OrderStatusResponse, OrderSubmitted, UserFill, WorkerReport};
use crate::ledger::{
    copy_live_daemon_persistence_snapshot_for_save, has_submission, worth_saving, CopyLedgerEntry,
    CopyLedgerStatus, CopyPersistenceSnapshot,
};
use crate::plan::CopyLiveDaemonWouldSubmitRef;
use crate::reconcile::{AccountReconciliationReport, CopyBoundedLiveWindowReconcile};
use crate::seqs::{filter_members, filter_step, whole};
use crate::text::{
    ascii_lower, blank_is_empty_trim, contains_text, has_text, is_blank, lists, lower, trim,
    trimmed,
};

verus! {

/// What is known of a sent order.
#[derive(Clone, Debug)]
pub struct CopyExecutionCanaryOrderEvidence {
    pub account_id: String,
    pub worker_id: String,
    pub signal_id: String,
    pub coin: String,
    pub oid: Option<u64>,
    pub cloid: String,
    pub order_status: Option<OrderStatusResponse>,
    pub user_fill_count: usize,
    pub matching_fill_count: usize,
    pub matching_fills: Vec<UserFill>,
    pub error: Option<String>,
}

/// The outcome of a cleanup order.
#[derive(Clone, Debug)]
pub struct SignedRunbookResult {
    pub account_id: String,
    pub coin: String,
    pub submitted: bool,
    pub post_submit_reconciliation: Option<AccountReconciliationReport>,
}

/// The outcome of entering a report into the ledger.
#[derive(Clone, Debug)]
pub struct CopyLedgerReconcileResult {
    pub applied: bool,
    pub reason_code: Option<String>,
    pub status: Option<CopyLedgerStatus>,
}

/// The outcome of sending the orders of a window.
#[derive(Clone, Debug)]
pub struct CopyLiveDaemonPersistentLiveSubmitReport {
    pub ok: bool,
    pub mode: String,
    pub submit_requested: bool,
    pub submit_plan_contract_ok: bool,
    pub submitted_reports: Vec<WorkerReport>,
    pub order_evidence: Vec<CopyExecutionCanaryOrderEvidence>,
    pub cleanup_runbooks: Vec<SignedRunbookResult>,
    pub cleanup_errors: Vec<String>,
    pub ledger_reconciliations: Vec<CopyLedgerReconcileResult>,
    pub ledger_reconciliation_snapshot: CopyPersistenceSnapshot,
    pub checks: Vec<CopyShadowSmokeCheck>,
}

/// The order behind a report, where it was really sent.
pub open spec fn live_order(r: WorkerReport) -> Option<OrderSubmitted> {
    match r {
        WorkerReport::Submitted(s) => if s.dry_run {
            None
        } else {
            Some(s)
        },
        _ => None,
    }
}

/// The orders that were really sent, in order.
pub open spec fn live_orders(reports: Seq<WorkerReport>) -> Seq<OrderSubmitted>
    decreases reports.len(),
{
    if reports.len() == 0 {
        Seq::empty()
    } else {
        let before = live_orders(reports.drop_last());
        match live_order(reports.last()) {
            Some(s) => before.push(s),
            None => before,
        }
    }
}

proof fn live_orders_length(reports: Seq<WorkerReport>)
    ensures
        live_orders(reports).len() <= reports.len(),
    decreases reports.len(),
{
    if reports.len() > 0 {
        live_orders_length(reports.drop_last());
    }
}

/// The orders that were really sent, in order.
pub fn copy_canary_live_submitted_reports(submitted_reports: &Vec<WorkerReport>) -> (r: Vec<
    OrderSubmitted,
>)
    ensures
        r@ == live_orders(submitted_reports@),
        r@.len() <= submitted_reports@.len(),
{
    let mut r: Vec<OrderSubmitted> = Vec::new();
    let mut i: usize = 0;
    while i < submitted_reports.len()
        invariant
            i <= submitted_reports@.len(),
            r@ == live_orders(submitted_reports@.subrange(0, i as int)),
        decreases submitted_reports@.len() - i,
    {
        assert(submitted_reports@.subrange(0, i as int + 1).drop_last()
            =~= submitted_reports@.subrange(0, i as int));
        match &submitted_reports[i] {
            WorkerReport::Submitted(s) => {
                if !s.dry_run {
                    r.push(s.clone());
                }
            },
            _ => {},
        }
        i += 1;
    }
    proof {
        whole(submitted_reports@);
        live_orders_length(submitted_reports@);
    }
    r
}

/// Whether an order was really sent.
pub fn copy_canary_has_live_submission(submitted_reports: &Vec<WorkerReport>) -> (r: bool)
    ensures
        r == (live_orders(submitted_reports@).len() > 0),
{
    copy_canary_live_submitted_reports(submitted_reports).len() > 0
}

/// Whether an error message says that nothing was sent: the leverage could not
/// be set, or the order is below the exchange minimum.
pub open spec fn safe_skip_message(message: Seq<char>) -> bool {
    let m = lower(message);
    ||| has_text(m, "failed to set "@) && has_text(m, " leverage to "@) && has_text(
        m,
        " before copy submit"@,
    )
    ||| has_text(m, "copy submit skipped before exchange"@) && has_text(
        m,
        "below exchange minimum"@,
    )
    ||| has_text(m, "exchange returned action-level order error"@) && has_text(m, "minimum value"@)
}

/// Whether an error message says that nothing was sent.
pub fn copy_live_daemon_error_is_safe_pre_submit_skip(message: &str) -> (r: bool)
    ensures
        r == safe_skip_message(message@),
{
    let lowered: String = ascii_lower(message);
    let m: &str = lowered.as_str();
    (contains_text(m, "failed to set ") && contains_text(m, " leverage to ") && contains_text(
        m,
        " before copy submit",
    )) || (contains_text(m, "copy submit skipped before exchange") && contains_text(
        m,
        "below exchange minimum",
    )) || (contains_text(m, "exchange returned action-level order error") && contains_text(
        m,
        "minimum value",
    ))
}

/// Whether a report says that nothing was sent, for a reason that is safe.
pub open spec fn safe_skip(r: WorkerReport) -> bool {
    match r {
        WorkerReport::Error(e) => safe_skip_message(e.message@),
        _ => false,
    }
}

/// Whether a report says that nothing was sent, for a reason that is safe.
pub fn copy_live_daemon_report_is_safe_pre_submit_skip(report: &WorkerReport) -> (r: bool)
    ensures
        r == safe_skip(*report),
{
    match report {
        WorkerReport::Error(e) => copy_live_daemon_error_is_safe_pre_submit_skip(
            e.message.as_str(),
        ),
        _ => false,
    }
}

/// Whether a report is that of a submission or of a safe skip.
pub open spec fn accounted_for(r: WorkerReport) -> bool {
    r is Submitted || safe_skip(r)
}

/// Whether every report is that of a submission or of a safe skip.
pub open spec fn all_accounted_for(reports: Seq<WorkerReport>) -> bool {
    forall|i: int| 0 <= i < reports.len() ==> accounted_for(#[trigger] reports[i])
}

/// Whether every report is that of a submission or of a safe skip.
pub fn reports_accounted_for(reports: &Vec<WorkerReport>) -> (r: bool)
    ensures
        r == all_accounted_for(reports@),
{
    let mut i: usize = 0;
    while i < reports.len()
        invariant
            i <= reports@.len(),
            forall|k: int| 0 <= k < i ==> accounted_for(#[trigger] reports@[k]),
        decreases reports@.len() - i,
    {
        let submitted: bool = match &reports[i] {
            WorkerReport::Submitted(_s) => true,
            _ => false,
        };
        if !submitted && !copy_live_daemon_report_is_safe_pre_submit_skip(&reports[i]) {
            return false;
        }
        i += 1;
    }
    true
}

/// Whether a report is that of a safe skip.
pub open spec fn is_safe_skip() -> spec_fn(WorkerReport) -> bool {
    |r: WorkerReport| safe_skip(r)
}

/// How many reports are those of safe skips.
pub fn count_safe_skips(reports: &Vec<WorkerReport>) -> (r: usize)
    ensures
        r == reports@.filter(is_safe_skip()).len(),
        r <= reports@.len(),
{
    let mut n: usize = 0;
    let mut i: usize = 0;
    assert(reports@.subrange(0, 0).filter(is_safe_skip()).len() == 0) by {
        reveal(Seq::filter);
    }
    while i < reports.len()
        invariant
            n <= i <= reports@.len(),
            n == reports@.subrange(0, i as int).filter(is_safe_skip()).len(),
        decreases reports@.len() - i,
    {
        proof {
            filter_step(reports@, is_safe_skip(), i as int);
        }
        if copy_live_daemon_report_is_safe_pre_submit_skip(&reports[i]) {
            n += 1;
        }
        i += 1;
    }
    proof {
        whole(reports@);
    }
    n
}

/// Whether an order is proved to have been filled: its status is known, a fill
/// matches it, and nothing went wrong on the way.
pub open spec fn evidence_ok(e: CopyExecutionCanaryOrderEvidence) -> bool {
    e.error is None && e.order_status is Some && e.matching_fill_count > 0
}

/// Whether an order is proved to have been filled.
pub fn copy_execution_canary_order_evidence_ok(evidence: &CopyExecutionCanaryOrderEvidence) -> (r:
    bool)
    ensures
        r == evidence_ok(*evidence),
{
    evidence.error.is_none() && evidence.order_status.is_some() && evidence.matching_fill_count > 0
}

/// Whether there are as many records as sent orders, and each proves its order.
pub open spec fn evidence_complete(
    evidence: Seq<CopyExecutionCanaryOrderEvidence>,
    live_count: int,
) -> bool {
    evidence.len() == live_count && forall|i: int|
        0 <= i < evidence.len() ==> evidence_ok(#[trigger] evidence[i])
}

/// Whether there are as many records as sent orders, and each proves its order.
pub fn evidence_is_complete(
    evidence: &Vec<CopyExecutionCanaryOrderEvidence>,
    live_count: usize,
) -> (r: bool)
    ensures
        r == evidence_complete(evidence@, live_count as int),
{
    if evidence.len() != live_count {
        return false;
    }
    let mut i: usize = 0;
    while i < evidence.len()
        invariant
            i <= evidence@.len(),
            forall|k: int| 0 <= k < i ==> evidence_ok(#[trigger] evidence@[k]),
        decreases evidence@.len() - i,
    {
        if !copy_execution_canary_order_evidence_ok(&evidence[i]) {
            return false;
        }
        i += 1;
    }
    true
}

/// Whether a cleanup order was sent and the account reconciled after it.
pub open spec fn runbook_ok(r: SignedRunbookResult) -> bool {
    r.submitted && r.post_submit_reconciliation is Some
}

/// Whether a cleanup order was sent and the account reconciled after it.
pub fn copy_execution_canary_cleanup_runbook_ok(runbook: &SignedRunbookResult) -> (r: bool)
    ensures
        r == runbook_ok(*runbook),
{
    runbook.submitted && runbook.post_submit_reconciliation.is_some()
}

/// Whether every cleanup order was sent and reconciled.
pub open spec fn all_runbooks_ok(v: Seq<SignedRunbookResult>) -> bool {
    forall|i: int| 0 <= i < v.len() ==> runbook_ok(#[trigger] v[i])
}

/// Whether every cleanup order was sent and reconciled.
pub fn runbooks_all_ok(v: &Vec<SignedRunbookResult>) -> (r: bool)
    ensures
        r == all_runbooks_ok(v@),
{
    let mut i: usize = 0;
    while i < v.len()
        invariant
            i <= v@.len(),
            forall|k: int| 0 <= k < i ==> runbook_ok(#[trigger] v@[k]),
        decreases v@.len() - i,
    {
        if !copy_execution_canary_cleanup_runbook_ok(&v[i]) {
            return false;
        }
        i += 1;
    }
    true
}

/// Whether every report was entered into the ledger.
pub open spec fn all_applied(v: Seq<CopyLedgerReconcileResult>) -> bool {
    forall|i: int| 0 <= i < v.len() ==> (#[trigger] v[i]).applied
}

/// Whether every report was entered into the ledger.
pub fn results_all_applied(v: &Vec<CopyLedgerReconcileResult>) -> (r: bool)
    ensures
        r == all_applied(v@),
{
    let mut i: usize = 0;
    while i < v.len()
        invariant
            i <= v@.len(),
            forall|k: int| 0 <= k < i ==> (#[trigger] v@[k]).applied,
        decreases v@.len() - i,
    {
        if !v[i].applied {
            return false;
        }
        i += 1;
    }
    true
}

/// Whether a failed check says no more than that reports are missing.
pub open spec fn non_critical(name: Seq<char>) -> bool {
    name == "submitted_reports"@ || name == "persistent_live_submit_chunks"@
}

/// Whether every check passed, or is one that may fail.
pub open spec fn critical_checks_ok(checks: Seq<Check>) -> bool {
    forall|i: int|
        0 <= i < checks.len() ==> (#[trigger] checks[i]).ok || non_critical(checks[i].name)
}

/// Whether the orders of a window went well enough to go on. It holds where the
/// report is in order; otherwise nothing may have gone wrong in cleanup, every
/// report is a submission or a safe skip, only checks that may fail have failed,
/// and every order that was really sent is proved.
pub open spec fn submit_healthy(r: CopyLiveDaemonPersistentLiveSubmitReport) -> bool {
    let live = live_orders(r.submitted_reports@).len() as int;
    r.ok || {
        &&& r.cleanup_errors@.len() == 0
        &&& all_accounted_for(r.submitted_reports@)
        &&& critical_checks_ok(views(r.checks@))
        &&& live == 0 || evidence_complete(r.order_evidence@, live)
    }
}

fn critical_ok(checks: &Vec<CopyShadowSmokeCheck>) -> (r: bool)
    ensures
        r == critical_checks_ok(views(checks@)),
{
    let mut i: usize = 0;
    while i < checks.len()
        invariant
            i <= checks@.len(),
            forall|k: int|
                0 <= k < i ==> (#[trigger] views(checks@)[k]).ok || non_critical(
                    views(checks@)[k].name,
                ),
        decreases checks@.len() - i,
    {
        assert(views(checks@)[i as int] == checks@[i as int]@);
        if !checks[i].ok && !check_named(&checks[i], "submitted_reports") && !check_named(
            &checks[i],
            "persistent_live_submit_chunks",
        ) {
            return false;
        }
        i += 1;
    }
    true
}

/// Whether the orders of a window went well enough to go on.
pub fn copy_live_daemon_live_submit_health_ok(
    report: &CopyLiveDaemonPersistentLiveSubmitReport,
) -> (r: bool)
    ensures
        r == submit_healthy(*report),
{
    if report.ok {
        return true;
    }
    if report.cleanup_errors.len() != 0 || !reports_accounted_for(&report.submitted_reports)
        || !critical_ok(&report.checks) {
        return false;
    }
    let live: usize = copy_canary_live_submitted_reports(&report.submitted_reports).len();
    live == 0 || evidence_is_complete(&report.order_evidence, live)
}

/// Whether the ledger of a window may be saved: something was really sent, every
/// sent order is proved, and nothing went wrong in cleanup.
pub open spec fn safe_to_save(r: CopyLiveDaemonPersistentLiveSubmitReport) -> bool {
    let live = live_orders(r.submitted_reports@).len() as int;
    &&& live > 0
    &&& evidence_complete(r.order_evidence@, live)
    &&& r.cleanup_errors@.len() == 0
}

/// Whether the ledger of a window may be saved.
pub fn copy_live_daemon_persistent_submit_snapshot_safe_to_save(
    report: &CopyLiveDaemonPersistentLiveSubmitReport,
) -> (r: bool)
    ensures
        r == safe_to_save(*report),
{
    let live: usize = copy_canary_live_submitted_reports(&report.submitted_reports).len();
    live > 0 && evidence_is_complete(&report.order_evidence, live) && report.cleanup_errors.len()
        == 0
}

/// Whether a client id is that of a submission in a list of reports.
pub open spec fn cloid_submitted(reports: Seq<WorkerReport>, cloid: Seq<char>) -> bool {
    exists|i: int|
        0 <= i < reports.len() && match #[trigger] reports[i] {
            WorkerReport::Submitted(s) => trimmed(s.cloid@) == cloid && cloid.len() > 0,
            _ => false,
        }
}

/// The client ids of the submissions of a window.
pub fn copy_live_daemon_submitted_report_cloids(
    report: &CopyLiveDaemonPersistentLiveSubmitReport,
) -> (r: Vec<String>)
    ensures
        forall|c: Seq<char>| #[trigger]
            lists(r@, c) <==> cloid_submitted(report.submitted_reports@, c),
{
    let reports: &Vec<WorkerReport> = &report.submitted_reports;
    let mut r: Vec<String> = Vec::new();
    let mut i: usize = 0;
    assert(reports@.subrange(0, 0) =~= Seq::empty());
    assert(forall|c: Seq<char>| !lists(r@, c));
    while i < reports.len()
        invariant
            i <= reports@.len(),
            forall|c: Seq<char>| #[trigger]
                lists(r@, c) <==> cloid_submitted(reports@.subrange(0, i as int), c),
        decreases reports@.len() - i,
    {
        let ghost before = r@;
        let ghost a = reports@.subrange(0, i as int);
        let ghost b = reports@.subrange(0, i as int + 1);
        match &reports[i] {
            WorkerReport::Submitted(s) => {
                let c: String = trim(s.cloid.as_str());
                if !is_blank(s.cloid.as_str()) {
                    r.push(c);
                }
            },
            _ => {},
        }
        proof {
            assert forall|c: Seq<char>| #[trigger] lists(r@, c) <==> cloid_submitted(b, c) by {
                let hit = match reports@[i as int] {
                    WorkerReport::Submitted(s) => trimmed(s.cloid@) == c && c.len() > 0,
                    _ => false,
                };
                assert(cloid_submitted(b, c) <==> cloid_submitted(a, c) || hit) by {
                    if cloid_submitted(a, c) {
                        let k = choose|k: int|
                            0 <= k < a.len() && match #[trigger] a[k] {
                                WorkerReport::Submitted(s) => trimmed(s.cloid@) == c && c.len() > 0,
                                _ => false,
                            };
                        assert(b[k] == a[k]);
                    }
                    if hit {
                        assert(b[i as int] == reports@[i as int]);
                    }
                    if cloid_submitted(b, c) {
                        let k = choose|k: int|
                            0 <= k < b.len() && match #[trigger] b[k] {
                                WorkerReport::Submitted(s) => trimmed(s.cloid@) == c && c.len() > 0,
                                _ => false,
                            };
                        if k < i {
                            assert(a[k] == b[k]);
                        }
                    }
                }
                assert(lists(r@, c) <==> lists(before, c) || hit) by {
                    match reports@[i as int] {
                        WorkerReport::Submitted(s) => {
                            blank_is_empty_trim(s.cloid@);
                        },
                        _ => {},
                    }
                    if lists(before, c) {
                        let k = choose|k: int| 0 <= k < before.len() && (#[trigger] before[k])@ == c;
                        assert(r@[k]@ == c);
                    }
                    if r@.len() > before.len() {
                        assert(r@[r@.len() - 1]@ == r@.last()@);
                        if lists(r@, c) {
                            let k = choose|k: int| 0 <= k < r@.len() && (#[trigger] r@[k])@ == c;
                            if k < before.len() {
                                assert(before[k]@ == c);
                            }
                        }
                    } else {
                        assert(r@ =~= before);
                    }
                }
            }
        }
        i += 1;
    }
    proof {
        whole(reports@);
    }
    r
}

/// Whether an order with the given client id opens a position.
pub open spec fn opens_with(refs: Seq<CopyLiveDaemonWouldSubmitRef>, cloid: Seq<char>) -> bool {
    exists|i: int|
        0 <= i < refs.len() && !(#[trigger] refs[i]).order.reduce_only && refs[i].order.cloid@
            == cloid
}

/// Whether a report is that of an opening order that was really sent.
pub open spec fn needs_cleanup(refs: Seq<CopyLiveDaemonWouldSubmitRef>) -> spec_fn(
    WorkerReport,
) -> bool {
    |r: WorkerReport|
        match live_order(r) {
            Some(s) => opens_with(refs, s.cloid@),
            None => false,
        }
}

fn is_opened_with(refs: &Vec<CopyLiveDaemonWouldSubmitRef>, cloid: &String) -> (r: bool)
    ensures
        r == opens_with(refs@, cloid@),
{
    let mut i: usize = 0;
    while i < refs.len()
        invariant
            i <= refs@.len(),
            forall|k: int|
                0 <= k < i ==> (#[trigger] refs@[k]).order.reduce_only || refs@[k].order.cloid@
                    != cloid@,
        decreases refs@.len() - i,
    {
        if !refs[i].order.reduce_only && refs[i].order.cloid == *cloid {
            return true;
        }
        i += 1;
    }
    false
}

/// The reports of opening orders that were really sent, in order.
pub fn copy_daemon_submitted_reports_needing_cleanup(
    submitted_reports: &Vec<WorkerReport>,
    executable_refs: &Vec<CopyLiveDaemonWouldSubmitRef>,
) -> (r: Vec<WorkerReport>)
    ensures
        r@ == submitted_reports@.filter(needs_cleanup(executable_refs@)),
{
    let ghost p = needs_cleanup(executable_refs@);
    let mut r: Vec<WorkerReport> = Vec::new();
    let mut i: usize = 0;
    assert(submitted_reports@.subrange(0, 0).filter(p) =~= Seq::empty()) by {
        reveal(Seq::filter);
    }
    while i < submitted_reports.len()
        invariant
            i <= submitted_reports@.len(),
            p == needs_cleanup(executable_refs@),
            r@ == submitted_reports@.subrange(0, i as int).filter(p),
        decreases submitted_reports@.len() - i,
    {
        proof {
            filter_step(submitted_reports@, p, i as int);
        }
        match &submitted_reports[i] {
            WorkerReport::Submitted(s) => {
                if !s.dry_run && is_opened_with(executable_refs, &s.cloid) {
                    r.push(submitted_reports[i].clone());
                }
            },
            _ => {},
        }
        i += 1;
    }
    proof {
        whole(submitted_reports@);
    }
    r
}

/// Whether a check may fail in a round that only could not be reconciled.
pub open spec fn degraded_name(name: Seq<char>) -> bool {
    name == "exchange_submit_mode"@ || name == "final_reconcile_health"@
}

/// Whether a round failed for no other reason than that no account could be
/// reconciled, before anything was sent.
pub open spec fn reconcile_only_degraded(
    submit_requested: bool,
    checks: Seq<Check>,
    s: Seq<CopyBoundedLiveWindowReconcile>,
    report: CopyLiveDaemonPersistentLiveSubmitReport,
) -> bool {
    &&& submit_requested
    &&& report.submitted_reports@.len() == 0
    &&& report.order_evidence@.len() == 0
    &&& report.cleanup_errors@.len() == 0
    &&& report.ledger_reconciliations@.len() == 0
    &&& forall|i: int|
        0 <= i < checks.len() && !(#[trigger] checks[i]).ok ==> degraded_name(checks[i].name)
    &&& exists|i: int|
        0 <= i < checks.len() && !(#[trigger] checks[i]).ok && checks[i].name
            == "final_reconcile_health"@
    &&& s.len() > 0
    &&& forall|i: int| 0 <= i < s.len() ==> (#[trigger] s[i]).error is Some
}

/// Whether a round failed for no other reason than that no account could be
/// reconciled, before anything was sent.
pub fn copy_live_daemon_reconcile_only_degraded_round(
    submit_requested: bool,
    checks: &Vec<CopyShadowSmokeCheck>,
    final_reconciliations: &Vec<CopyBoundedLiveWindowReconcile>,
    persistent_live_submit: &CopyLiveDaemonPersistentLiveSubmitReport,
) -> (r: bool)
    ensures
        r == reconcile_only_degraded(
            submit_requested,
            views(checks@),
            final_reconciliations@,
            *persistent_live_submit,
        ),
{
    if !submit_requested || persistent_live_submit.submitted_reports.len() != 0
        || persistent_live_submit.order_evidence.len() != 0
        || persistent_live_submit.cleanup_errors.len() != 0
        || persistent_live_submit.ledger_reconciliations.len() != 0 {
        return false;
    }
    let ghost cs = views(checks@);
    let mut found: bool = false;
    let mut i: usize = 0;
    while i < checks.len()
        invariant
            i <= checks@.len(),
            cs == views(checks@),
            forall|k: int| 0 <= k < i && !(#[trigger] cs[k]).ok ==> degraded_name(cs[k].name),
            found == (exists|k: int|
                0 <= k < i && !(#[trigger] cs[k]).ok && cs[k].name == "final_reconcile_health"@),
        decreases checks@.len() - i,
    {
        assert(cs[i as int] == checks@[i as int]@);
        if !checks[i].ok {
            if check_named(&checks[i], "final_reconcile_health") {
                found = true;
            } else if !check_named(&checks[i], "exchange_submit_mode") {
                return false;
            }
        }
        i += 1;
    }
    if !found || final_reconciliations.len() == 0 {
        return false;
    }
    let mut j: usize = 0;
    while j < final_reconciliations.len()
        invariant
            j <= final_reconciliations@.len(),
            forall|k: int| 0 <= k < j ==> (#[trigger] final_reconciliations@[k]).error is Some,
        decreases final_reconciliations@.len() - j,
    {
        if final_reconciliations[j].error.is_none() {
            return false;
        }
        j += 1;
    }
    true
}

/// The reports of all chunks, in order.
pub open spec fn chunk_reports(v: Seq<CopyLiveDaemonPersistentLiveSubmitReport>) -> Seq<
    WorkerReport,
>
    decreases v.len(),
{
    if v.len() == 0 {
        Seq::empty()
    } else {
        chunk_reports(v.drop_last()) + v.last().submitted_reports@
    }
}

/// The evidence of all chunks, in order.
pub open spec fn chunk_evidence(v: Seq<CopyLiveDaemonPersistentLiveSubmitReport>) -> Seq<
    CopyExecutionCanaryOrderEvidence,
>
    decreases v.len(),
{
    if v.len() == 0 {
        Seq::empty()
    } else {
        chunk_evidence(v.drop_last()) + v.last().order_evidence@
    }
}

/// The cleanup orders of all chunks, in order.
pub open spec fn chunk_runbooks(v: Seq<CopyLiveDaemonPersistentLiveSubmitReport>) -> Seq<
    SignedRunbookResult,
>
    decreases v.len(),
{
    if v.len() == 0 {
        Seq::empty()
    } else {
        chunk_runbooks(v.drop_last()) + v.last().cleanup_runbooks@
    }
}

/// The cleanup errors of all chunks, in order.
pub open spec fn chunk_cleanup_errors(v: Seq<CopyLiveDaemonPersistentLiveSubmitReport>) -> Seq<
    String,
>
    decreases v.len(),
{
    if v.len() == 0 {
        Seq::empty()
    } else {
        chunk_cleanup_errors(v.drop_last()) + v.last().cleanup_errors@
    }
}

/// The ledger outcomes of all chunks, in order.
pub open spec fn chunk_results(v: Seq<CopyLiveDaemonPersistentLiveSubmitReport>) -> Seq<
    CopyLedgerReconcileResult,
>
    decreases v.len(),
{
    if v.len() == 0 {
        Seq::empty()
    } else {
        chunk_results(v.drop_last()) + v.last().ledger_reconciliations@
    }
}

/// The checks of all chunks, in order.
pub open spec fn chunk_checks(v: Seq<CopyLiveDaemonPersistentLiveSubmitReport>) -> Seq<Check>
    decreases v.len(),
{
    if v.len() == 0 {
        Seq::empty()
    } else {
        chunk_checks(v.drop_last()) + views(v.last().checks@)
    }
}

/// The handled events of all chunks, in order.
pub open spec fn chunk_keys(v: Seq<CopyLiveDaemonPersistentLiveSubmitReport>) -> Seq<String>
    decreases v.len(),
{
    if v.len() == 0 {
        Seq::empty()
    } else {
        chunk_keys(v.drop_last()) + v.last().ledger_reconciliation_snapshot.seen_event_keys@
    }
}

/// The ledger entries of all chunks, in order.
pub open spec fn chunk_entries(v: Seq<CopyLiveDaemonPersistentLiveSubmitReport>) -> Seq<
    CopyLedgerEntry,
>
    decreases v.len(),
{
    if v.len() == 0 {
        Seq::empty()
    } else {
        chunk_entries(v.drop_last()) + v.last().ledger_reconciliation_snapshot.ledger_entries@
    }
}

/// Whether a report says that nothing was sent: it holds no report, no
/// evidence, no cleanup and no ledger result.
pub open spec fn sent_nothing(r: CopyLiveDaemonPersistentLiveSubmitReport) -> bool {
    &&& r.submitted_reports@.len() == 0
    &&& r.order_evidence@.len() == 0
    &&& r.cleanup_runbooks@.len() == 0
    &&& r.cleanup_errors@.len() == 0
    &&& r.ledger_reconciliations@.len() == 0
}

/// Whether a report says that nothing was sent.
pub fn is_nothing_sent(r: &CopyLiveDaemonPersistentLiveSubmitReport) -> (b: bool)
    ensures
        b == sent_nothing(*r),
{
    r.submitted_reports.len() == 0 && r.order_evidence.len() == 0 && r.cleanup_runbooks.len() == 0
        && r.cleanup_errors.len() == 0 && r.ledger_reconciliations.len() == 0
}

/// Whether no chunk sent anything.
pub open spec fn chunks_sent_nothing(v: Seq<CopyLiveDaemonPersistentLiveSubmitReport>) -> bool {
    forall|i: int| 0 <= i < v.len() ==> sent_nothing(#[trigger] v[i])
}

/// Chunks that sent nothing add up to nothing.
pub proof fn parts_without_orders_merge_to_none(
    v: Seq<CopyLiveDaemonPersistentLiveSubmitReport>,
)
    requires
        chunks_sent_nothing(v),
    ensures
        chunk_reports(v).len() == 0,
        chunk_evidence(v).len() == 0,
        chunk_runbooks(v).len() == 0,
        chunk_cleanup_errors(v).len() == 0,
        chunk_results(v).len() == 0,
    decreases v.len(),
{
    if v.len() > 0 {
        assert forall|i: int| 0 <= i < v.drop_last().len() implies sent_nothing(
            #[trigger] v.drop_last()[i],
        ) by {
            assert(v.drop_last()[i] == v[i]);
        }
        parts_without_orders_merge_to_none(v.drop_last());
        assert(sent_nothing(v[v.len() - 1]));
    }
}

/// Whether every chunk is in order.
pub open spec fn chunks_ok(v: Seq<CopyLiveDaemonPersistentLiveSubmitReport>) -> bool {
    forall|i: int| 0 <= i < v.len() ==> (#[trigger] v[i]).ok
}

/// The checks of a merged report.
pub open spec fn merged_checks(
    submit_requested: bool,
    v: Seq<CopyLiveDaemonPersistentLiveSubmitReport>,
) -> Seq<Check> {
    if v.len() == 0 {
        seq![
            check(
                "persistent_live_submit_chunks"@,
                !submit_requested,
                "no persistent live submit chunks were produced"@,
            ),
        ]
    } else {
        chunk_checks(v).push(
            check(
                "persistent_live_submit_chunks"@,
                chunks_ok(v),
                dec(v.len()) + " persistent live submit chunk(s) merged"@,
            ),
        )
    }
}

/// What a report without a single submission holds.
pub fn empty_live_submit_report(
    submit_requested: bool,
    submit_plan_contract_ok: bool,
    ok: bool,
    checks: Vec<CopyShadowSmokeCheck>,
    now_ms: u64,
) -> (r: CopyLiveDaemonPersistentLiveSubmitReport)
    ensures
        r.ok == ok,
        r.mode@ == "persistent_live_submit"@,
        r.submit_requested == submit_requested,
        r.submit_plan_contract_ok == submit_plan_contract_ok,
        sent_nothing(r),
        r.ledger_reconciliation_snapshot.schema_version == 1,
        r.ledger_reconciliation_snapshot.saved_at_ms == now_ms,
        r.ledger_reconciliation_snapshot.seen_event_keys@.len() == 0,
        r.ledger_reconciliation_snapshot.ledger_entries@.len() == 0,
        r.checks == checks,
{
    CopyLiveDaemonPersistentLiveSubmitReport {
        ok,
        mode: "persistent_live_submit".to_owned(),
        submit_requested,
        submit_plan_contract_ok,
        submitted_reports: Vec::new(),
        order_evidence: Vec::new(),
        cleanup_runbooks: Vec::new(),
        cleanup_errors: Vec::new(),
        ledger_reconciliations: Vec::new(),
        ledger_reconciliation_snapshot: CopyPersistenceSnapshot::new(
            now_ms,
            Vec::new(),
            Vec::new(),
        ),
        checks,
    }
}

fn all_chunks_ok(v: &Vec<CopyLiveDaemonPersistentLiveSubmitReport>) -> (r: bool)
    ensures
        r == chunks_ok(v@),
{
    let mut i: usize = 0;
    while i < v.len()
        invariant
            i <= v@.len(),
            forall|k: int| 0 <= k < i ==> (#[trigger] v@[k]).ok,
        decreases v@.len() - i,
    {
        if !v[i].ok {
            return false;
        }
        i += 1;
    }
    true
}

/// Whether a report is what several chunks add up to.
pub open spec fn merged_from(
    r: CopyLiveDaemonPersistentLiveSubmitReport,
    submit_requested: bool,
    submit_plan_contract_ok: bool,
    chunks: Seq<CopyLiveDaemonPersistentLiveSubmitReport>,
    now_ms: u64,
) -> bool {
    &&& r.ok == all_ok(merged_checks(submit_requested, chunks))
    &&& r.mode@ == "persistent_live_submit"@
    &&& r.submit_requested == submit_requested
    &&& r.submit_plan_contract_ok == submit_plan_contract_ok
    &&& r.submitted_reports@ == chunk_reports(chunks)
    &&& r.order_evidence@ == chunk_evidence(chunks)
    &&& r.cleanup_runbooks@ == chunk_runbooks(chunks)
    &&& r.cleanup_errors@ == chunk_cleanup_errors(chunks)
    &&& r.ledger_reconciliations@ == chunk_results(chunks)
    &&& r.ledger_reconciliation_snapshot.schema_version == 1
    &&& r.ledger_reconciliation_snapshot.saved_at_ms == now_ms
    &&& r.ledger_reconciliation_snapshot.seen_event_keys@ == chunk_keys(chunks)
    &&& r.ledger_reconciliation_snapshot.ledger_entries@ == chunk_entries(chunks).filter(
        worth_saving(),
    )
    &&& views(r.checks@) == merged_checks(submit_requested, chunks)
}

/// The reports of several submissions as one.
pub fn copy_live_daemon_merge_persistent_live_submit_reports(
    submit_requested: bool,
    submit_plan_contract_ok: bool,
    chunks: Vec<CopyLiveDaemonPersistentLiveSubmitReport>,
    now_ms: u64,
) -> (r: CopyLiveDaemonPersistentLiveSubmitReport)
    ensures
        merged_from(r, submit_requested, submit_plan_contract_ok, chunks@, now_ms),
        chunks_sent_nothing(chunks@) ==> sent_nothing(r),
{
    proof {
        if chunks_sent_nothing(chunks@) {
            parts_without_orders_merge_to_none(chunks@);
        }
    }
    let mut checks: Vec<CopyShadowSmokeCheck> = Vec::new();
    assert(views(checks@) =~= Seq::empty());
    if chunks.len() == 0 {
        push_note(
            &mut checks,
            "persistent_live_submit_chunks",
            !submit_requested,
            "no persistent live submit chunks were produced",
        );
        assert(views(checks@) =~= merged_checks(submit_requested, chunks@));
        let ok: bool = checks_all_ok(&checks);
        assert(chunk_entries(chunks@).filter(worth_saving()).len() == 0) by {
            reveal(Seq::filter);
        }
        let r: CopyLiveDaemonPersistentLiveSubmitReport = empty_live_submit_report(
            submit_requested,
            submit_plan_contract_ok,
            ok,
            checks,
            now_ms,
        );
        assert(r.submitted_reports@ =~= chunk_reports(chunks@));
        assert(r.order_evidence@ =~= chunk_evidence(chunks@));
        assert(r.cleanup_runbooks@ =~= chunk_runbooks(chunks@));
        assert(r.cleanup_errors@ =~= chunk_cleanup_errors(chunks@));
        assert(r.ledger_reconciliations@ =~= chunk_results(chunks@));
        assert(r.ledger_reconciliation_snapshot.seen_event_keys@ =~= chunk_keys(chunks@));
        assert(r.ledger_reconciliation_snapshot.ledger_entries@ =~= chunk_entries(chunks@).filter(
            worth_saving(),
        ));
        return r;
    }
    let chunk_count: usize = chunks.len();
    let every_chunk_ok: bool = all_chunks_ok(&chunks);
    let ghost all = chunks@;
    let mut rest: Vec<CopyLiveDaemonPersistentLiveSubmitReport> = chunks;
    let mut submitted_reports: Vec<WorkerReport> = Vec::new();
    let mut order_evidence: Vec<CopyExecutionCanaryOrderEvidence> = Vec::new();
    let mut cleanup_runbooks: Vec<SignedRunbookResult> = Vec::new();
    let mut cleanup_errors: Vec<String> = Vec::new();
    let mut ledger_reconciliations: Vec<CopyLedgerReconcileResult> = Vec::new();
    let mut seen_event_keys: Vec<String> = Vec::new();
    let mut ledger_entries: Vec<CopyLedgerEntry> = Vec::new();
    let ghost mut done: int = 0;
    while rest.len() > 0
        invariant
            0 <= done <= all.len(),
            rest@ == all.subrange(done, all.len() as int),
            submitted_reports@ == chunk_reports(all.subrange(0, done)),
            order_evidence@ == chunk_evidence(all.subrange(0, done)),
            cleanup_runbooks@ == chunk_runbooks(all.subrange(0, done)),
            cleanup_errors@ == chunk_cleanup_errors(all.subrange(0, done)),
            ledger_reconciliations@ == chunk_results(all.subrange(0, done)),
            views(checks@) == chunk_checks(all.subrange(0, done)),
            seen_event_keys@ == chunk_keys(all.subrange(0, done)),
            ledger_entries@ == chunk_entries(all.subrange(0, done)),
        decreases rest@.len(),
    {
        let mut chunk: CopyLiveDaemonPersistentLiveSubmitReport = rest.remove(0);
        proof {
            assert(chunk == all[done]);
            assert(all.subrange(0, done + 1).drop_last() =~= all.subrange(0, done));
            assert(all.subrange(0, done + 1).last() == chunk);
            assert(rest@ =~= all.subrange(done + 1, all.len() as int));
            done = done + 1;
        }
        submitted_reports.append(&mut chunk.submitted_reports);
        order_evidence.append(&mut chunk.order_evidence);
        cleanup_runbooks.append(&mut chunk.cleanup_runbooks);
        cleanup_errors.append(&mut chunk.cleanup_errors);
        ledger_reconciliations.append(&mut chunk.ledger_reconciliations);
        append_checks(&mut checks, chunk.checks);
        seen_event_keys.append(&mut chunk.ledger_reconciliation_snapshot.seen_event_keys);
        ledger_entries.append(&mut chunk.ledger_reconciliation_snapshot.ledger_entries);
    }
    assert(all.subrange(0, done) =~= all);
    let mut detail: String = String::new();
    push_count(&mut detail, chunk_count);
    detail.append(" persistent live submit chunk(s) merged");
    assert(detail@ =~= dec(all.len()) + " persistent live submit chunk(s) merged"@);
    push_check(&mut checks, "persistent_live_submit_chunks", every_chunk_ok, detail);
    let snapshot: CopyPersistenceSnapshot = copy_live_daemon_persistence_snapshot_for_save(
        CopyPersistenceSnapshot {
            schema_version: 1,
            saved_at_ms: now_ms,
            seen_event_keys,
            ledger_entries,
        },
    );
    CopyLiveDaemonPersistentLiveSubmitReport {
        ok: checks_all_ok(&checks),
        mode: "persistent_live_submit".to_owned(),
        submit_requested,
        submit_plan_contract_ok,
        submitted_reports,
        order_evidence,
        cleanup_runbooks,
        cleanup_errors,
        ledger_reconciliations,
        ledger_reconciliation_snapshot: snapshot,
        checks,
    }
}

/// A merged report is in order only where every part is, and a window that sent
/// orders has at least one part.
pub proof fn a_merged_report_needs_every_part(
    submit_requested: bool,
    v: Seq<CopyLiveDaemonPersistentLiveSubmitReport>,
)
    requires
        all_ok(merged_checks(submit_requested, v)),
    ensures
        chunks_ok(v),
        submit_requested ==> v.len() > 0,
{
    let checks = merged_checks(submit_requested, v);
    if v.len() == 0 {
        assert(checks[0].ok);
    } else {
        assert(checks[checks.len() - 1].ok);
    }
}

/// The ledger of a window is saved only where an order was really sent and every
/// such order is proved.
pub proof fn only_proved_orders_are_saved(r: CopyLiveDaemonPersistentLiveSubmitReport)
    requires
        safe_to_save(r),
    ensures
        live_orders(r.submitted_reports@).len() > 0,
        r.order_evidence@.len() == live_orders(r.submitted_reports@).len(),
        forall|i: int|
            0 <= i < r.order_evidence@.len() ==> evidence_ok(#[trigger] r.order_evidence@[i]),
        r.cleanup_errors@.len() == 0,
{
}

/// The orders that were really sent are those of the reports of a submission
/// that was no dry run, in order.
pub proof fn live_orders_are_real_submissions(reports: Seq<WorkerReport>, r: WorkerReport)
    ensures
        live_orders(Seq::empty()).len() == 0,
        live_orders(reports.push(r)) == if r is Submitted && !r->Submitted_0.dry_run {
            live_orders(reports).push(r->Submitted_0)
        } else {
            live_orders(reports)
        },
{
    assert(reports.push(r).drop_last() =~= reports);
}

/// Only an error is a safe skip, and only one whose message, whatever its case,
/// says that the leverage could not be set, that the order was skipped below the
/// exchange minimum, or that the exchange refused it for its minimum value.
pub proof fn safe_skips_are_said_to_be_safe(r: WorkerReport)
    ensures
        safe_skip(r) <==> r is Error && ({
            let m = lower(r->Error_0.message@);
            ||| has_text(m, "failed to set "@) && has_text(m, " leverage to "@) && has_text(
                m,
                " before copy submit"@,
            )
            ||| has_text(m, "copy submit skipped before exchange"@) && has_text(
                m,
                "below exchange minimum"@,
            )
            ||| has_text(m, "exchange returned action-level order error"@) && has_text(
                m,
                "minimum value"@,
            )
        }),
{
}

/// An order is proved where its status and at least one fill were found without
/// an error, and a cleanup is done where it was sent and the account reconciled
/// after it.
pub proof fn proofs_need_a_status_and_a_fill(
    e: CopyExecutionCanaryOrderEvidence,
    r: SignedRunbookResult,
)
    ensures
        evidence_ok(e) <==> e.error is None && e.order_status is Some && e.matching_fill_count >= 1,
        runbook_ok(r) <==> r.submitted && r.post_submit_reconciliation is Some,
{
}

/// A submission went well enough to go on where its report is in order, or where
/// nothing failed in cleanup, every report is a submission or a safe skip, no
/// check failed but those on the reports and on the merging, and every order that
/// was really sent is proved. Its ledger may be saved where some order was really
/// sent, every such order is proved, and nothing failed in cleanup.
pub proof fn health_needs_proof_of_every_order(r: CopyLiveDaemonPersistentLiveSubmitReport)
    ensures
        submit_healthy(r) <==> r.ok || (r.cleanup_errors@.len() == 0 && (forall|i: int|
            0 <= i < r.submitted_reports@.len() ==> (#[trigger] r.submitted_reports@[i])
                is Submitted || safe_skip(r.submitted_reports@[i])) && (forall|i: int|
            0 <= i < r.checks@.len() && (#[trigger] r.checks@[i]).name@ != "submitted_reports"@
                && r.checks@[i].name@ != "persistent_live_submit_chunks"@ ==> r.checks@[i].ok) && (
        live_orders(r.submitted_reports@).len() == 0 || (r.order_evidence@.len() == live_orders(
            r.submitted_reports@,
        ).len() && forall|i: int|
            0 <= i < r.order_evidence@.len() ==> evidence_ok(#[trigger] r.order_evidence@[i])))),
        safe_to_save(r) <==> live_orders(r.submitted_reports@).len() > 0 && r.order_evidence@.len()
            == live_orders(r.submitted_reports@).len() && r.cleanup_errors@.len() == 0 && forall|
            i: int,
        |
            0 <= i < r.order_evidence@.len() ==> evidence_ok(#[trigger] r.order_evidence@[i]),
{
    let c = views(r.checks@);
    assert(forall|i: int| 0 <= i < c.len() ==> #[trigger] c[i] == r.checks@[i]@);
    if critical_checks_ok(c) {
        assert forall|i: int|
            0 <= i < r.checks@.len() && (#[trigger] r.checks@[i]).name@ != "submitted_reports"@
                && r.checks@[i].name@ != "persistent_live_submit_chunks"@ implies
        r.checks@[i].ok by {
            assert(c[i].ok || non_critical(c[i].name));
        }
    }
    if forall|i: int|
        0 <= i < r.checks@.len() && (#[trigger] r.checks@[i]).name@ != "submitted_reports"@
            && r.checks@[i].name@ != "persistent_live_submit_chunks"@ ==> r.checks@[i].ok {
        assert forall|i: int| 0 <= i < c.len() implies (#[trigger] c[i]).ok || non_critical(
            c[i].name,
        ) by {
            assert(c[i] == r.checks@[i]@);
        }
    }
}

/// A report needs cleanup exactly where it is that of an order that was really
/// sent under the client id of a plan that opens a position.
pub proof fn only_sent_openings_need_cleanup(
    refs: Seq<CopyLiveDaemonWouldSubmitRef>,
    r: WorkerReport,
)
    ensures
        needs_cleanup(refs)(r) <==> r is Submitted && !r->Submitted_0.dry_run && exists|i: int|
            0 <= i < refs.len() && !(#[trigger] refs[i]).order.reduce_only && refs[i].order.cloid@
                == r->Submitted_0.cloid@,
{
}

/// A round is degraded and nothing worse exactly where orders were asked for and
/// none left a trace, its last reconciliation failed with nothing else but the
/// submit mode, and not a single account could be reconciled.
pub proof fn a_degraded_round_only_misses_its_reconciliation(
    submit_requested: bool,
    checks: Seq<Check>,
    s: Seq<CopyBoundedLiveWindowReconcile>,
    report: CopyLiveDaemonPersistentLiveSubmitReport,
)
    ensures
        reconcile_only_degraded(submit_requested, checks, s, report) <==> submit_requested
            && report.submitted_reports@.len() == 0 && report.order_evidence@.len() == 0
            && report.cleanup_errors@.len() == 0 && report.ledger_reconciliations@.len() == 0
            && s.len() > 0 && (forall|i: int|
            0 <= i < s.len() ==> (#[trigger] s[i]).error is Some) && (exists|i: int|
            0 <= i < checks.len() && !(#[trigger] checks[i]).ok && checks[i].name
                == "final_reconcile_health"@) && (forall|i: int|
            0 <= i < checks.len() && (#[trigger] checks[i]).name != "exchange_submit_mode"@
                && checks[i].name != "final_reconcile_health"@ ==> checks[i].ok),
{
}

/// A client id counts as submitted exactly where it is not empty and is, but for
/// white space around it, that of a submission.
pub proof fn submitted_ids_are_those_of_submissions(
    reports: Seq<WorkerReport>,
    cloid: Seq<char>,
)
    ensures
        cloid_submitted(reports, cloid) <==> cloid.len() > 0 && exists|i: int|
            0 <= i < reports.len() && (#[trigger] reports[i]) is Submitted && trimmed(
                reports[i]->Submitted_0.cloid@,
            ) == cloid,
{
    if cloid_submitted(reports, cloid) {
        let i = choose|i: int|
            0 <= i < reports.len() && match #[trigger] reports[i] {
                WorkerReport::Submitted(s) => trimmed(s.cloid@) == cloid && cloid.len() > 0,
                _ => false,
            };
        assert(reports[i] is Submitted);
    }
}

/// A merged report holds all that its parts hold, in order, and nothing else:
/// one more part adds its own reports, evidence, cleanups, errors, results,
/// checks, keys and entries behind those of the parts before it.
pub proof fn parts_are_merged_in_order(
    v: Seq<CopyLiveDaemonPersistentLiveSubmitReport>,
    r: CopyLiveDaemonPersistentLiveSubmitReport,
)
    ensures
        chunk_reports(Seq::empty()).len() == 0,
        chunk_evidence(Seq::empty()).len() == 0,
        chunk_runbooks(Seq::empty()).len() == 0,
        chunk_cleanup_errors(Seq::empty()).len() == 0,
        chunk_results(Seq::empty()).len() == 0,
        chunk_checks(Seq::empty()).len() == 0,
        chunk_keys(Seq::empty()).len() == 0,
        chunk_entries(Seq::empty()).len() == 0,
        chunk_reports(v.push(r)) == chunk_reports(v) + r.submitted_reports@,
        chunk_evidence(v.push(r)) == chunk_evidence(v) + r.order_evidence@,
        chunk_runbooks(v.push(r)) == chunk_runbooks(v) + r.cleanup_runbooks@,
        chunk_cleanup_errors(v.push(r)) == chunk_cleanup_errors(v) + r.cleanup_errors@,
        chunk_results(v.push(r)) == chunk_results(v) + r.ledger_reconciliations@,
        chunk_checks(v.push(r)) == chunk_checks(v) + views(r.checks@),
        chunk_keys(v.push(r)) == chunk_keys(v) + r.ledger_reconciliation_snapshot.seen_event_keys@,
        chunk_entries(v.push(r)) == chunk_entries(v)
            + r.ledger_reconciliation_snapshot.ledger_entries@,
        merged_checks(true, v.push(r)).len() == chunk_checks(v.push(r)).len() + 1,
        merged_checks(true, v.push(r)).drop_last() == chunk_checks(v.push(r)),
        merged_checks(true, v.push(r)).last().name == "persistent_live_submit_chunks"@,
        merged_checks(true, v.push(r)).last().ok <==> r.ok && forall|i: int|
            0 <= i < v.len() ==> (#[trigger] v[i]).ok,
        merged_checks(false, v.push(r)) == merged_checks(true, v.push(r)),
        merged_checks(true, Seq::empty()).len() == 1,
        !merged_checks(true, Seq::empty())[0].ok,
        merged_checks(false, Seq::empty()).len() == 1,
        merged_checks(false, Seq::empty())[0].ok,
{
    let w = v.push(r);
    assert(w.drop_last() =~= v);
    assert(w.last() == r);
    let m = merged_checks(true, w);
    assert(m.drop_last() =~= chunk_checks(w));
    if chunks_ok(w) {
        assert forall|i: int| 0 <= i < v.len() implies (#[trigger] v[i]).ok by {
            assert(w[i] == v[i]);
        }
        assert(w[v.len() as int].ok);
    }
    if r.ok && forall|i: int| 0 <= i < v.len() ==> (#[trigger] v[i]).ok {
        assert forall|i: int| 0 <= i < w.len() implies (#[trigger] w[i]).ok by {
            if i < v.len() {
                assert(w[i] == v[i]);
            }
        }
    }
}

/// A report of several parts holds what each part holds, saves no opening that was
/// never submitted, and is in order exactly where every check is.
pub proof fn a_merged_report_holds_every_part(
    r: CopyLiveDaemonPersistentLiveSubmitReport,
    submit_requested: bool,
    submit_plan_contract_ok: bool,
    chunks: Seq<CopyLiveDaemonPersistentLiveSubmitReport>,
    now_ms: u64,
)
    requires
        merged_from(r, submit_requested, submit_plan_contract_ok, chunks, now_ms),
    ensures
        r.ok <==> forall|i: int| 0 <= i < r.checks@.len() ==> (#[trigger] r.checks@[i]).ok,
        r.mode@ == "persistent_live_submit"@,
        r.submit_requested == submit_requested,
        r.submit_plan_contract_ok == submit_plan_contract_ok,
        r.submitted_reports@ == chunk_reports(chunks),
        r.order_evidence@ == chunk_evidence(chunks),
        r.cleanup_runbooks@ == chunk_runbooks(chunks),
        r.cleanup_errors@ == chunk_cleanup_errors(chunks),
        r.ledger_reconciliations@ == chunk_results(chunks),
        r.ledger_reconciliation_snapshot.schema_version == 1,
        r.ledger_reconciliation_snapshot.saved_at_ms == now_ms,
        r.ledger_reconciliation_snapshot.seen_event_keys@ == chunk_keys(chunks),
        forall|e: CopyLedgerEntry| #[trigger]
            r.ledger_reconciliation_snapshot.ledger_entries@.contains(e) <==> chunk_entries(
                chunks,
            ).contains(e) && (e.status == CopyLedgerStatus::PendingOpen ==> has_submission(e)),
{
    let c = merged_checks(submit_requested, chunks);
    assert(views(r.checks@).len() == r.checks@.len());
    assert forall|i: int| 0 <= i < r.checks@.len() implies (#[trigger] r.checks@[i]).ok
        == c[i].ok by {
        assert(views(r.checks@)[i] == r.checks@[i]@);
    }
    if forall|i: int| 0 <= i < r.checks@.len() ==> (#[trigger] r.checks@[i]).ok {
        assert forall|i: int| 0 <= i < c.len() implies (#[trigger] c[i]).ok by {
            assert(r.checks@[i].ok);
        }
    }
    let all = chunk_entries(chunks);
    assert forall|e: CopyLedgerEntry| #[trigger]
        r.ledger_reconciliation_snapshot.ledger_entries@.contains(e) <==> all.contains(e) && (
        e.status == CopyLedgerStatus::PendingOpen ==> has_submission(e)) by {
        filter_members(all, worth_saving());
        let kept = all.filter(worth_saving());
        if kept.contains(e) {
            let i = choose|i: int| 0 <= i < kept.len() && kept[i] == e;
            assert(worth_saving()(kept[i]));
            assert(all.contains(kept[i]));
        }
        if all.contains(e) && worth_saving()(e) {
            let i = choose|i: int| 0 <= i < all.len() && all[i] == e;
            assert(kept.contains(all[i]));
        }
    }
}

} // verus!
