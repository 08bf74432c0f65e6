//! What a plan has to satisfy before it is sent, and what a window has to prove
//! before it may run unattended.

use vstd::prelude::*;

use crate::acceptance::{all_cloids_present, orders_have_cloids, CopyLiveDaemonAcceptanceReport};
use crate::checks::{
    all_ok, all_ok_concat, check, check_named, checks_all_ok, push_check, push_note, views, Check,
    CopyShadowSmokeCheck,
};
use crate::decimal::{
    amount_size, are_fees_within, at_least_zero, counted, dec, fees_fit, fine6, fixed6, floor_zero,
    push_count, push_fine6, push_fixed6, push_natural6, push_total6, share_of, share_up,
    size_is_natural, Fees, Total, WIDE_MAX,
};
use crate::margin::{
    copy_live_daemon_open_margin_check, covers, margin_detail, margin_is_there_for_every_opening,
    margin_ok, opened_in,
};
use crate::options::CopyLiveDaemonSupervisorOptions;
use crate::partition::{executable_plans_stay_under_the_caps, fee_estimate, split};
use crate::plan::{
    append_held, clone_held, copy_live_daemon_open_notional_usd_from_refs, count_open_orders,
    count_opens, count_reduce_orders, count_reduces, distinct_cloids, held, open_notional, opens,
    order_opens, order_reduces, push_held, reduces, CopyExecutionCanaryWouldSubmit,
    CopyLiveDaemonSuppressedWouldSubmitRef, CopyLiveDaemonWouldSubmitRef, HeldPlan,
};
use crate::reconcile::{
    all_healthy, copy_live_daemon_reconcile_health_detail,
    copy_live_daemon_reconciliations_healthy_for_mode,
    copy_live_daemon_reconciliations_ready_for_reduce_only,
    copy_live_daemon_reduce_only_reconcile_health_detail, health_detail, largest_exposure,
    max_exposure, ready_for_reduce, reduce_detail, some_exposure,
    the_largest_exposure_bounds_every_account, CopyBoundedLiveWindowReconcile,
};
use crate::seqs::{filter_members, filter_step, total, total_step, whole};
use crate::submit::CopyLiveDaemonPersistentLiveSubmitReport;
use crate::text::{blank, bool_text, is_blank, push_bool, texts};

use vstd::arithmetic::div_mod::{lemma_fundamental_div_mod, lemma_mod_bound};


verus! {

/// Whether a plan may be sent, and why.
#[derive(Clone, Debug)]
pub struct CopyLiveDaemonSubmitPlanContract {
    pub ok: bool,
    pub checks: Vec<CopyShadowSmokeCheck>,
    pub executable_plan_count: usize,
    pub suppressed_plan_count: usize,
    pub executable_open_plan_count: usize,
    pub executable_reduce_only_plan_count: usize,
    pub planned_notional_usd: Total,
    pub estimated_fees_usd: Fees,
}

/// Whether a window may run unattended, and why.
#[derive(Clone, Debug)]
pub struct CopyLiveDaemonSubmitEvidenceContract {
    pub ready_for_unattended_submit: bool,
    pub checks: Vec<CopyShadowSmokeCheck>,
    pub required_live_evidence: Vec<String>,
    pub blocker: Option<String>,
}

/// Whether every plan has a client id.
pub open spec fn cloids_present(refs: Seq<CopyLiveDaemonWouldSubmitRef>) -> bool {
    forall|i: int| 0 <= i < refs.len() ==> !blank((#[trigger] refs[i]).order.cloid@)
}

/// Whether every plan names its signal.
pub open spec fn signals_present(refs: Seq<CopyLiveDaemonWouldSubmitRef>) -> bool {
    forall|i: int| 0 <= i < refs.len() ==> !blank((#[trigger] refs[i]).signal_id@)
}

/// Whether two plans are for the same record, signal and account.
pub open spec fn same_origin(
    a: CopyLiveDaemonWouldSubmitRef,
    b: CopyLiveDaemonWouldSubmitRef,
) -> bool {
    a.record_index == b.record_index && a.signal_id@ == b.signal_id@ && a.order.account_id@
        == b.order.account_id@
}

/// Whether no two plans are for the same record, signal and account.
pub open spec fn distinct_origins(refs: Seq<CopyLiveDaemonWouldSubmitRef>) -> bool {
    forall|i: int, j: int|
        0 <= i < j < refs.len() ==> !same_origin(#[trigger] refs[i], #[trigger] refs[j])
}

/// Whether no plan to be sent shares its client id with one that is held back.
pub open spec fn disjoint_cloids(
    refs: Seq<CopyLiveDaemonWouldSubmitRef>,
    back: Seq<HeldPlan>,
) -> bool {
    forall|i: int, j: int|
        0 <= i < refs.len() && 0 <= j < back.len() ==> (#[trigger] refs[i]).order.cloid@ != (
        #[trigger] back[j]).plan.order.cloid@
}

/// Whether the exposure that a plan would lead to is known and within the cap,
/// or the plan opens nothing.
pub open spec fn exposure_ok(
    options: CopyLiveDaemonSupervisorOptions,
    refs: Seq<CopyLiveDaemonWouldSubmitRef>,
    s: Seq<CopyBoundedLiveWindowReconcile>,
) -> bool {
    let planned = open_notional(refs);
    planned <= 1 || (some_exposure(s) && max_exposure(s) + planned
        <= options.max_total_notional_usd + 1)
}

/// The line that says which exposure a plan would lead to.
pub open spec fn exposure_detail(
    options: CopyLiveDaemonSupervisorOptions,
    refs: Seq<CopyLiveDaemonWouldSubmitRef>,
    s: Seq<CopyBoundedLiveWindowReconcile>,
) -> Seq<char> {
    let planned = open_notional(refs);
    if planned <= 1 {
        "no open/increase notional in executable plan; reduce-only closes do not add exposure (existing_total_ntl_pos_usd="@
            + fixed6(max_exposure(s)) + ")"@
    } else if !some_exposure(s) {
        "planned_open_notional_usd="@ + fixed6(planned)
            + " requires a successful account total_ntl_pos reconciliation before live submit"@
    } else {
        "existing_total_ntl_pos_usd="@ + fixed6(max_exposure(s)) + " + planned_open_notional_usd="@
            + fixed6(planned) + " => projected_total_exposure_usd="@ + fixed6(
            max_exposure(s) + planned,
        ) + ", must be <= "@ + fixed6(options.max_total_notional_usd as int)
    }
}

/// The checks on where the plans come from.
pub open spec fn origin_checks(
    refs: Seq<CopyLiveDaemonWouldSubmitRef>,
    back: Seq<HeldPlan>,
) -> Seq<Check> {
    seq![
        check(
            "submit_from_executable_refs_only"@,
            cloids_present(refs) && distinct_cloids(refs),
            dec(refs.len()) + " executable submit plan ref(s) have unique deterministic cloids"@,
        ),
        check(
            "suppressed_refs_excluded_from_submit"@,
            disjoint_cloids(refs, back),
            dec(back.len()) + " suppressed plan ref(s) are retained as evidence only"@,
        ),
        check(
            "signal_refs_present"@,
            signals_present(refs),
            dec(refs.len()) + " executable plan ref(s) have non-empty signal ids"@,
        ),
        check(
            "account_signal_refs_unique"@,
            distinct_origins(refs),
            dec(refs.len())
                + " executable plan ref(s) map to unique record/signal/account tuples"@,
        ),
    ]
}

/// The checks on the caps of a window.
pub open spec fn cap_checks(
    options: CopyLiveDaemonSupervisorOptions,
    refs: Seq<CopyLiveDaemonWouldSubmitRef>,
    planned: int,
    fees: int,
) -> Seq<Check> {
    seq![
        check(
            "bounded_open_submit_plan_count"@,
            refs.filter(opens()).len() <= options.max_live_orders,
            dec(refs.filter(opens()).len()) + " executable open/increase plan(s), "@ + dec(
                refs.filter(reduces()).len(),
            ) + " reduce-only close plan(s), max_live_orders "@ + dec(
                options.max_live_orders as nat,
            ),
        ),
        check(
            "bounded_submit_plan_notional"@,
            planned <= options.max_total_notional_usd,
            "planned_open_notional_usd="@ + fixed6(planned) + " must be <= "@ + fixed6(
                options.max_total_notional_usd as int,
            ) + "; reduce-only closes do not add exposure"@,
        ),
        check(
            "bounded_submit_plan_fees"@,
            fees_fit(fees, options.max_total_fees_usd),
            "estimated_open_fees_usd="@ + fine6(fees) + " must be <= "@ + fixed6(
                options.max_total_fees_usd as int,
            ) + "; reduce-only closes are not blocked by open-order fee budget"@,
        ),
    ]
}

/// The checks on the accounts that the plans are for.
pub open spec fn standing_checks(
    options: CopyLiveDaemonSupervisorOptions,
    refs: Seq<CopyLiveDaemonWouldSubmitRef>,
    s: Seq<CopyBoundedLiveWindowReconcile>,
) -> Seq<Check> {
    let only_reduces = refs.filter(opens()).len() == 0 && refs.filter(reduces()).len() > 0;
    seq![
        check(
            "bounded_account_total_exposure"@,
            exposure_ok(options, refs, s),
            exposure_detail(options, refs, s),
        ),
        check("bounded_open_margin_available"@, margin_ok(refs, s), margin_detail(refs, s)),
        check(
            if options.hold_positions_after_submit {
                "pre_submit_reconcile_health"@
            } else {
                "pre_submit_reconcile_flat"@
            },
            if only_reduces {
                ready_for_reduce(s)
            } else {
                all_healthy(options, s)
            },
            if only_reduces {
                reduce_detail(s)
            } else {
                health_detail(options, s)
            },
        ),
    ]
}

/// All checks on a plan.
pub open spec fn plan_checks(
    options: CopyLiveDaemonSupervisorOptions,
    refs: Seq<CopyLiveDaemonWouldSubmitRef>,
    back: Seq<HeldPlan>,
    planned: int,
    fees: int,
    s: Seq<CopyBoundedLiveWindowReconcile>,
) -> Seq<Check> {
    origin_checks(refs, back) + cap_checks(options, refs, planned, fees) + standing_checks(
        options,
        refs,
        s,
    )
}

/// Whether a contract is the one for the given plan.
pub open spec fn contract_for(
    c: CopyLiveDaemonSubmitPlanContract,
    options: CopyLiveDaemonSupervisorOptions,
    refs: Seq<CopyLiveDaemonWouldSubmitRef>,
    back: Seq<HeldPlan>,
    planned: int,
    fees: int,
    s: Seq<CopyBoundedLiveWindowReconcile>,
) -> bool {
    let checks = plan_checks(options, refs, back, planned, fees, s);
    &&& views(c.checks@) == checks
    &&& c.ok == all_ok(checks)
    &&& c.executable_plan_count == refs.len()
    &&& c.suppressed_plan_count == back.len()
    &&& c.executable_open_plan_count == refs.filter(opens()).len()
    &&& c.executable_reduce_only_plan_count == refs.filter(reduces()).len()
    &&& c.planned_notional_usd == planned
    &&& c.estimated_fees_usd == fees
}

fn have_cloids(refs: &Vec<CopyLiveDaemonWouldSubmitRef>) -> (r: bool)
    ensures
        r == cloids_present(refs@),
{
    let mut i: usize = 0;
    while i < refs.len()
        invariant
            i <= refs@.len(),
            forall|k: int| 0 <= k < i ==> !blank((#[trigger] refs@[k]).order.cloid@),
        decreases refs@.len() - i,
    {
        if is_blank(refs[i].order.cloid.as_str()) {
            return false;
        }
        i += 1;
    }
    true
}

fn have_signals(refs: &Vec<CopyLiveDaemonWouldSubmitRef>) -> (r: bool)
    ensures
        r == signals_present(refs@),
{
    let mut i: usize = 0;
    while i < refs.len()
        invariant
            i <= refs@.len(),
            forall|k: int| 0 <= k < i ==> !blank((#[trigger] refs@[k]).signal_id@),
        decreases refs@.len() - i,
    {
        if is_blank(refs[i].signal_id.as_str()) {
            return false;
        }
        i += 1;
    }
    true
}

fn have_distinct_cloids(refs: &Vec<CopyLiveDaemonWouldSubmitRef>) -> (r: bool)
    ensures
        r == distinct_cloids(refs@),
{
    let mut j: usize = 0;
    while j < refs.len()
        invariant
            j <= refs@.len(),
            forall|a: int, b: int|
                0 <= a < b < j ==> (#[trigger] refs@[a]).order.cloid@ != (
                #[trigger] refs@[b]).order.cloid@,
        decreases refs@.len() - j,
    {
        let mut i: usize = 0;
        while i < j
            invariant
                i <= j < refs@.len(),
                forall|a: int|
                    0 <= a < i ==> (#[trigger] refs@[a]).order.cloid@
                        != refs@[j as int].order.cloid@,
            decreases j - i,
        {
            if refs[i].order.cloid == refs[j].order.cloid {
                return false;
            }
            i += 1;
        }
        j += 1;
    }
    true
}

fn come_from_same(a: &CopyLiveDaemonWouldSubmitRef, b: &CopyLiveDaemonWouldSubmitRef) -> (r: bool)
    ensures
        r == same_origin(*a, *b),
{
    a.record_index == b.record_index && a.signal_id == b.signal_id && a.order.account_id
        == b.order.account_id
}

fn have_distinct_origins(refs: &Vec<CopyLiveDaemonWouldSubmitRef>) -> (r: bool)
    ensures
        r == distinct_origins(refs@),
{
    let mut j: usize = 0;
    while j < refs.len()
        invariant
            j <= refs@.len(),
            forall|a: int, b: int|
                0 <= a < b < j ==> !same_origin(#[trigger] refs@[a], #[trigger] refs@[b]),
        decreases refs@.len() - j,
    {
        let mut i: usize = 0;
        while i < j
            invariant
                i <= j < refs@.len(),
                forall|a: int| 0 <= a < i ==> !same_origin(#[trigger] refs@[a], refs@[j as int]),
            decreases j - i,
        {
            if come_from_same(&refs[i], &refs[j]) {
                return false;
            }
            i += 1;
        }
        j += 1;
    }
    true
}

/// Whether no plan to be sent shares its client id with one that is held back.
pub fn are_cloids_disjoint(
    refs: &Vec<CopyLiveDaemonWouldSubmitRef>,
    back: &Vec<CopyLiveDaemonSuppressedWouldSubmitRef>,
) -> (r: bool)
    ensures
        r == disjoint_cloids(refs@, held(back@)),
{
    let mut i: usize = 0;
    while i < refs.len()
        invariant
            i <= refs@.len(),
            forall|a: int, b: int|
                0 <= a < i && 0 <= b < held(back@).len() ==> (#[trigger] refs@[a]).order.cloid@
                    != (#[trigger] held(back@)[b]).plan.order.cloid@,
        decreases refs@.len() - i,
    {
        let mut j: usize = 0;
        while j < back.len()
            invariant
                i < refs@.len(),
                j <= back@.len(),
                forall|b: int|
                    0 <= b < j ==> refs@[i as int].order.cloid@ != (
                    #[trigger] held(back@)[b]).plan.order.cloid@,
            decreases back@.len() - j,
        {
            assert(held(back@)[j as int] == back@[j as int]@);
            if refs[i].order.cloid == back[j].plan.order.cloid {
                assert(refs@[i as int].order.cloid@ == held(back@)[j as int].plan.order.cloid@);
                return false;
            }
            j += 1;
        }
        i += 1;
    }
    true
}

fn push_origin_checks(
    checks: &mut Vec<CopyShadowSmokeCheck>,
    refs: &Vec<CopyLiveDaemonWouldSubmitRef>,
    back: &Vec<CopyLiveDaemonSuppressedWouldSubmitRef>,
)
    ensures
        views(final(checks)@) == views(old(checks)@) + origin_checks(refs@, held(back@)),
{
    let ghost start = views(checks@);
    push_check(
        checks,
        "submit_from_executable_refs_only",
        have_cloids(refs) && have_distinct_cloids(refs),
        counted(refs.len(), " executable submit plan ref(s) have unique deterministic cloids"),
    );
    push_check(
        checks,
        "suppressed_refs_excluded_from_submit",
        are_cloids_disjoint(refs, back),
        counted(back.len(), " suppressed plan ref(s) are retained as evidence only"),
    );
    push_check(
        checks,
        "signal_refs_present",
        have_signals(refs),
        counted(refs.len(), " executable plan ref(s) have non-empty signal ids"),
    );
    push_check(
        checks,
        "account_signal_refs_unique",
        have_distinct_origins(refs),
        counted(
            refs.len(),
            " executable plan ref(s) map to unique record/signal/account tuples",
        ),
    );
    assert(held(back@).len() == back@.len());
    assert(views(checks@) =~= start + origin_checks(refs@, held(back@)));
}

fn push_cap_checks(
    checks: &mut Vec<CopyShadowSmokeCheck>,
    options: &CopyLiveDaemonSupervisorOptions,
    refs: &Vec<CopyLiveDaemonWouldSubmitRef>,
    planned: Total,
    fees: Fees,
)
    ensures
        views(final(checks)@) == views(old(checks)@) + cap_checks(*options, refs@, planned as int, fees as int),
{
    let ghost start = views(checks@);
    let open_count: usize = count_opens(refs);
    let mut d: String = counted(open_count, " executable open/increase plan(s), ");
    push_count(&mut d, count_reduces(refs));
    d.append(" reduce-only close plan(s), max_live_orders ");
    push_count(&mut d, options.max_live_orders);
    push_check(
        checks,
        "bounded_open_submit_plan_count",
        open_count <= options.max_live_orders,
        d,
    );
    let mut d: String = "planned_open_notional_usd=".to_owned();
    push_total6(&mut d, planned);
    d.append(" must be <= ");
    push_fixed6(&mut d, options.max_total_notional_usd);
    d.append("; reduce-only closes do not add exposure");
    push_check(
        checks,
        "bounded_submit_plan_notional",
        planned <= options.max_total_notional_usd as i128,
        d,
    );
    let mut d: String = "estimated_open_fees_usd=".to_owned();
    push_fine6(&mut d, fees);
    d.append(" must be <= ");
    push_fixed6(&mut d, options.max_total_fees_usd);
    d.append("; reduce-only closes are not blocked by open-order fee budget");
    push_check(checks, "bounded_submit_plan_fees", are_fees_within(fees, options.max_total_fees_usd), d);
    assert(views(checks@) =~= start + cap_checks(*options, refs@, planned as int, fees as int));
}

fn push_exposure_check(
    checks: &mut Vec<CopyShadowSmokeCheck>,
    options: &CopyLiveDaemonSupervisorOptions,
    refs: &Vec<CopyLiveDaemonWouldSubmitRef>,
    s: &Vec<CopyBoundedLiveWindowReconcile>,
)
    ensures
        views(final(checks)@) == views(old(checks)@).push(
            check(
                "bounded_account_total_exposure"@,
                exposure_ok(*options, refs@, s@),
                exposure_detail(*options, refs@, s@),
            ),
        ),
{
    let planned: Total = copy_live_daemon_open_notional_usd_from_refs(refs);
    let (existing, known) = largest_exposure(s);
    let projected: u128 = existing as u128 + planned as u128;
    let cap: i128 = options.max_total_notional_usd as i128 + 1;
    let ok: bool = planned <= 1 || (known && cap >= 0 && projected <= cap as u128);
    let mut d: String = String::new();
    if planned <= 1 {
        d.append(
            "no open/increase notional in executable plan; reduce-only closes do not add exposure (existing_total_ntl_pos_usd=",
        );
        push_total6(&mut d, existing);
        d.append(")");
    } else if !known {
        d.append("planned_open_notional_usd=");
        push_total6(&mut d, planned);
        d.append(" requires a successful account total_ntl_pos reconciliation before live submit");
    } else {
        d.append("existing_total_ntl_pos_usd=");
        push_total6(&mut d, existing);
        d.append(" + planned_open_notional_usd=");
        push_total6(&mut d, planned);
        d.append(" => projected_total_exposure_usd=");
        push_natural6(&mut d, projected);
        d.append(", must be <= ");
        push_fixed6(&mut d, options.max_total_notional_usd);
    }
    assert(d@ =~= exposure_detail(*options, refs@, s@));
    push_check(checks, "bounded_account_total_exposure", ok, d);
}

fn push_standing_checks(
    checks: &mut Vec<CopyShadowSmokeCheck>,
    options: &CopyLiveDaemonSupervisorOptions,
    refs: &Vec<CopyLiveDaemonWouldSubmitRef>,
    s: &Vec<CopyBoundedLiveWindowReconcile>,
)
    ensures
        views(final(checks)@) == views(old(checks)@) + standing_checks(*options, refs@, s@),
{
    let ghost start = views(checks@);
    push_exposure_check(checks, options, refs, s);
    let margin = copy_live_daemon_open_margin_check(refs, s);
    push_check(checks, "bounded_open_margin_available", margin.ok, margin.detail);
    let only_reduces: bool = count_opens(refs) == 0 && count_reduces(refs) > 0;
    let name: &str = if options.hold_positions_after_submit {
        "pre_submit_reconcile_health"
    } else {
        "pre_submit_reconcile_flat"
    };
    if only_reduces {
        push_check(
            checks,
            name,
            copy_live_daemon_reconciliations_ready_for_reduce_only(s),
            copy_live_daemon_reduce_only_reconcile_health_detail(s),
        );
    } else {
        push_check(
            checks,
            name,
            copy_live_daemon_reconciliations_healthy_for_mode(options, s),
            copy_live_daemon_reconcile_health_detail(options, s),
        );
    }
    assert(views(checks@) =~= start + standing_checks(*options, refs@, s@));
}

/// Checks a plan before it is sent.
pub fn copy_live_daemon_submit_plan_contract(
    options: &CopyLiveDaemonSupervisorOptions,
    executable_refs: &Vec<CopyLiveDaemonWouldSubmitRef>,
    suppressed_refs: &Vec<CopyLiveDaemonSuppressedWouldSubmitRef>,
    planned_notional_usd: Total,
    estimated_fees_usd: Fees,
    final_reconciliations: &Vec<CopyBoundedLiveWindowReconcile>,
) -> (r: CopyLiveDaemonSubmitPlanContract)
    ensures
        contract_for(
            r,
            *options,
            executable_refs@,
            held(suppressed_refs@),
            planned_notional_usd as int,
            estimated_fees_usd as int,
            final_reconciliations@,
        ),
{
    let mut checks: Vec<CopyShadowSmokeCheck> = Vec::new();
    assert(views(checks@) =~= Seq::empty());
    push_origin_checks(&mut checks, executable_refs, suppressed_refs);
    assert(views(checks@) =~= origin_checks(executable_refs@, held(suppressed_refs@)));
    push_cap_checks(
        &mut checks,
        options,
        executable_refs,
        planned_notional_usd,
        estimated_fees_usd,
    );
    push_standing_checks(&mut checks, options, executable_refs, final_reconciliations);
    assert(held(suppressed_refs@).len() == suppressed_refs@.len());
    CopyLiveDaemonSubmitPlanContract {
        ok: checks_all_ok(&checks),
        checks,
        executable_plan_count: executable_refs.len(),
        suppressed_plan_count: suppressed_refs.len(),
        executable_open_plan_count: count_opens(executable_refs),
        executable_reduce_only_plan_count: count_reduces(executable_refs),
        planned_notional_usd,
        estimated_fees_usd,
    }
}

/// A plan that passes its contract has distinct client ids, none of them held
/// back, and stays under every cap of the window.
pub proof fn an_accepted_plan_respects_every_cap(
    options: CopyLiveDaemonSupervisorOptions,
    refs: Seq<CopyLiveDaemonWouldSubmitRef>,
    back: Seq<HeldPlan>,
    planned: int,
    fees: int,
    s: Seq<CopyBoundedLiveWindowReconcile>,
)
    requires
        all_ok(plan_checks(options, refs, back, planned, fees, s)),
    ensures
        cloids_present(refs),
        distinct_cloids(refs),
        disjoint_cloids(refs, back),
        distinct_origins(refs),
        refs.filter(opens()).len() <= options.max_live_orders,
        planned <= options.max_total_notional_usd,
        fees_fit(fees, options.max_total_fees_usd),
        exposure_ok(options, refs, s),
        margin_ok(refs, s),
{
    let a = origin_checks(refs, back);
    let b = cap_checks(options, refs, planned, fees);
    let c = standing_checks(options, refs, s);
    all_ok_concat(a + b, c);
    all_ok_concat(a, b);
    assert(a[0].ok && a[1].ok && a[2].ok && a[3].ok);
    assert(b[0].ok && b[1].ok && b[2].ok);
    assert(c[0].ok && c[1].ok);
}

/// What the split of a window lets through passes the cap checks of the
/// contract, with its own notional and its expected fees.
pub proof fn split_plans_pass_the_cap_checks(
    refs: Seq<CopyLiveDaemonWouldSubmitRef>,
    options: CopyLiveDaemonSupervisorOptions,
    planned: int,
    fees: int,
)
    requires
        split(refs, options).executable.filter(opens()).len() > 0,
        planned == open_notional(split(refs, options).executable),
        fees == fee_estimate(planned),
    ensures
        all_ok(cap_checks(options, split(refs, options).executable, planned, fees)),
{
    executable_plans_stay_under_the_caps(refs, options);
}

/// The detail of the first check with the given name, or of the first failed
/// one.
pub open spec fn detail_of(
    checks: Seq<Check>,
    name: Seq<char>,
    failed_only: bool,
    i: int,
) -> Option<Seq<char>>
    decreases checks.len() - i,
{
    if i < 0 || i >= checks.len() {
        None
    } else if checks[i].name == name && !(failed_only && checks[i].ok) {
        Some(checks[i].detail)
    } else {
        detail_of(checks, name, failed_only, i + 1)
    }
}

/// Whether a plan failed for no other reason than the exposure or the margin of
/// its openings.
pub open spec fn only_openings_failed(checks: Seq<Check>) -> bool {
    &&& exists|i: int| 0 <= i < checks.len() && !(#[trigger] checks[i]).ok
    &&& forall|i: int|
        0 <= i < checks.len() && !(#[trigger] checks[i]).ok ==> checks[i].name
            == "bounded_account_total_exposure"@ || checks[i].name
            == "bounded_open_margin_available"@
}

/// Why the openings of a plan are held back.
pub open spec fn openings_refusal(checks: Seq<Check>) -> (Seq<char>, Seq<char>) {
    match detail_of(checks, "bounded_open_margin_available"@, true, 0) {
        Some(d) => ("COPY_DAEMON_INSUFFICIENT_MARGIN"@, d),
        None => (
            "COPY_DAEMON_MAX_ACCOUNT_EXPOSURE"@,
            match detail_of(checks, "bounded_account_total_exposure"@, false, 0) {
                Some(d) => d,
                None =>
                    "candidate would exceed account total exposure cap; kept as observation only"@,
            },
        ),
    }
}

/// Openings that are held back for one reason.
pub open spec fn openings_held(
    refs: Seq<CopyLiveDaemonWouldSubmitRef>,
    code: Seq<char>,
    message: Seq<char>,
) -> Seq<HeldPlan> {
    refs.filter(opens()).map_values(
        |p: CopyLiveDaemonWouldSubmitRef| HeldPlan { plan: p, reason_code: code, message },
    )
}

/// The notional of a plan, whether it opens or reduces.
pub open spec fn plan_size() -> spec_fn(CopyLiveDaemonWouldSubmitRef) -> int {
    |p: CopyLiveDaemonWouldSubmitRef| floor_zero(p.order.notional_usd as int)
}

/// The fees of a part of a plan, in proportion to its notional, rounded up.
pub open spec fn prorated_fees(fees: int, part: int, planned: int) -> int {
    if planned <= 0 {
        0
    } else {
        share_up(fees, part, planned)
    }
}

/// Whether a plan whose openings failed is cut down to its reductions.
pub open spec fn cut_down(
    contract_ok: bool,
    checks: Seq<Check>,
    refs: Seq<CopyLiveDaemonWouldSubmitRef>,
) -> bool {
    !contract_ok && only_openings_failed(checks) && refs.filter(opens()).len() > 0
}

fn find_detail(
    checks: &Vec<CopyShadowSmokeCheck>,
    name: &str,
    failed_only: bool,
) -> (r: Option<String>)
    ensures
        match detail_of(views(checks@), name@, failed_only, 0) {
            Some(d) => r is Some && r->0@ == d,
            None => r is None,
        },
{
    let mut i: usize = 0;
    while i < checks.len()
        invariant
            i <= checks@.len(),
            detail_of(views(checks@), name@, failed_only, 0) == detail_of(
                views(checks@),
                name@,
                failed_only,
                i as int,
            ),
        decreases checks@.len() - i,
    {
        assert(views(checks@)[i as int] == checks@[i as int]@);
        if check_named(&checks[i], name) && !(failed_only && checks[i].ok) {
            return Some(checks[i].detail.clone());
        }
        i += 1;
    }
    None
}

fn have_only_openings_failed(checks: &Vec<CopyShadowSmokeCheck>) -> (r: bool)
    ensures
        r == only_openings_failed(views(checks@)),
{
    let ghost cs = views(checks@);
    let mut found: bool = false;
    let mut i: usize = 0;
    while i < checks.len()
        invariant
            i <= checks@.len(),
            cs == views(checks@),
            found == (exists|k: int| 0 <= k < i && !(#[trigger] cs[k]).ok),
            forall|k: int|
                0 <= k < i && !(#[trigger] cs[k]).ok ==> cs[k].name
                    == "bounded_account_total_exposure"@ || cs[k].name
                    == "bounded_open_margin_available"@,
        decreases checks@.len() - i,
    {
        assert(cs[i as int] == checks@[i as int]@);
        if !checks[i].ok {
            if !check_named(&checks[i], "bounded_account_total_exposure") && !check_named(
                &checks[i],
                "bounded_open_margin_available",
            ) {
                return false;
            }
            found = true;
        }
        i += 1;
    }
    found
}

fn share_of_fees(fees: Fees, part: Total, planned: Total) -> (r: Fees)
    requires
        part >= 0,
    ensures
        r == prorated_fees(fees as int, part as int, planned as int),
{
    if planned <= 0 {
        0
    } else {
        share_of(fees, part, planned)
    }
}

fn retained_size(refs: &Vec<CopyLiveDaemonWouldSubmitRef>) -> (r: Total)
    ensures
        r == total(refs@, plan_size()),
        r >= 0,
{
    let mut sum: i128 = 0;
    let mut i: usize = 0;
    while i < refs.len()
        invariant
            i <= refs@.len(),
            sum == total(refs@.subrange(0, i as int), plan_size()),
            0 <= sum <= 0x7fff_ffff_ffff_ffff * i,
        decreases refs@.len() - i,
    {
        proof {
            total_step(refs@, plan_size(), i as int);
        }
        sum = sum + at_least_zero(refs[i].order.notional_usd) as i128;
        i += 1;
    }
    proof {
        whole(refs@);
    }
    sum
}

fn keep_reductions(
    refs: &Vec<CopyLiveDaemonWouldSubmitRef>,
    code: &str,
    message: &String,
) -> (r: (Vec<CopyLiveDaemonWouldSubmitRef>, Vec<CopyLiveDaemonSuppressedWouldSubmitRef>))
    ensures
        r.0@ == refs@.filter(reduces()),
        held(r.1@) == openings_held(refs@, code@, message@),
{
    let mut kept: Vec<CopyLiveDaemonWouldSubmitRef> = Vec::new();
    let mut back: Vec<CopyLiveDaemonSuppressedWouldSubmitRef> = Vec::new();
    let mut i: usize = 0;
    proof {
        reveal(Seq::filter);
        assert(refs@.subrange(0, 0).filter(reduces()) =~= Seq::empty());
        assert(held(back@) =~= openings_held(refs@.subrange(0, 0), code@, message@));
    }
    while i < refs.len()
        invariant
            i <= refs@.len(),
            kept@ == refs@.subrange(0, i as int).filter(reduces()),
            held(back@) == openings_held(refs@.subrange(0, i as int), code@, message@),
        decreases refs@.len() - i,
    {
        proof {
            filter_step(refs@, reduces(), i as int);
            filter_step(refs@, opens(), i as int);
        }
        if refs[i].order.reduce_only {
            kept.push(refs[i].clone());
        } else {
            push_held(&mut back, refs[i].clone(), code, message.clone());
        }
        assert(held(back@) =~= openings_held(refs@.subrange(0, i as int + 1), code@, message@));
        i += 1;
    }
    proof {
        whole(refs@);
    }
    (kept, back)
}

/// Cuts a plan down to its reductions where nothing but the exposure or the
/// margin of its openings failed; any other plan stays as it is. The openings
/// are held back with the reason that the contract gave, and the rest is
/// checked again.
pub fn copy_live_daemon_suppress_refs_rejected_by_submit_contract(
    options: &CopyLiveDaemonSupervisorOptions,
    executable_refs: Vec<CopyLiveDaemonWouldSubmitRef>,
    suppressed_refs: Vec<CopyLiveDaemonSuppressedWouldSubmitRef>,
    planned_notional_usd: Total,
    estimated_fees_usd: Fees,
    reconciliations: &Vec<CopyBoundedLiveWindowReconcile>,
    contract: CopyLiveDaemonSubmitPlanContract,
) -> (r: (
    Vec<CopyLiveDaemonWouldSubmitRef>,
    Vec<CopyLiveDaemonSuppressedWouldSubmitRef>,
    CopyLiveDaemonSubmitPlanContract,
))
    ensures
        !cut_down(contract.ok, views(contract.checks@), executable_refs@) ==> r.0@
            == executable_refs@ && r.1@.len() == 0 && r.2 == contract,
        cut_down(contract.ok, views(contract.checks@), executable_refs@) ==> ({
            let why = openings_refusal(views(contract.checks@));
            let back = openings_held(executable_refs@, why.0, why.1);
            let rest = executable_refs@.filter(reduces());
            let planned = total(rest, plan_size());
            &&& r.0@ == rest
            &&& held(r.1@) == back
            &&& contract_for(
                r.2,
                *options,
                rest,
                held(suppressed_refs@) + back,
                planned,
                prorated_fees(
                    estimated_fees_usd as int,
                    planned,
                    planned_notional_usd as int,
                ),
                reconciliations@,
            )
        }),
{
    if contract.ok || !have_only_openings_failed(&contract.checks) {
        return (executable_refs, Vec::new(), contract);
    }
    let margin: Option<String> = find_detail(
        &contract.checks,
        "bounded_open_margin_available",
        true,
    );
    let code: &str = if margin.is_some() {
        "COPY_DAEMON_INSUFFICIENT_MARGIN"
    } else {
        "COPY_DAEMON_MAX_ACCOUNT_EXPOSURE"
    };
    let message: String = match margin {
        Some(d) => d,
        None => match find_detail(&contract.checks, "bounded_account_total_exposure", false) {
            Some(d) => d,
            None => "candidate would exceed account total exposure cap; kept as observation only".to_owned(),
        },
    };
    let (kept, back) = keep_reductions(&executable_refs, code, &message);
    assert(held(back@).len() == back@.len());
    if back.len() == 0 {
        return (executable_refs, Vec::new(), contract);
    }
    let mut all: Vec<CopyLiveDaemonSuppressedWouldSubmitRef> = suppressed_refs;
    append_held(&mut all, clone_held(&back));
    let planned: Total = retained_size(&kept);
    let fees: Fees = share_of_fees(estimated_fees_usd, planned, planned_notional_usd);
    let adjusted: CopyLiveDaemonSubmitPlanContract = copy_live_daemon_submit_plan_contract(
        options,
        &kept,
        &all,
        planned,
        fees,
        reconciliations,
    );
    (kept, back, adjusted)
}

/// What an unattended window has to prove for each order.
pub open spec fn required_evidence(hold: bool) -> Seq<Seq<char>> {
    seq![
        "every submitted order has an owned deterministic cloid"@,
        "every submitted order has orderStatus evidence by oid or cloid"@,
        "every filled order has at least one matching userFills/userFillsByTime fill"@,
        if hold {
            "every accepted open is held under follow-position health gates until a mapped target close signal"@
        } else {
            "every accepted open has a bundled reduce-only cleanup or mapped close path"@
        },
        "cumulative submitted notional and conservative fee estimate remain under operator caps"@,
        if hold {
            "final reconciliation proves every target account has no open orders and bounded notional exposure"@
        } else {
            "final reconciliation proves every target account is flat with no open orders"@
        },
    ]
}

/// Whether orders were really sent and proved.
pub open spec fn real_evidence(r: CopyLiveDaemonPersistentLiveSubmitReport) -> bool {
    r.ok && r.submitted_reports@.len() > 0 && r.order_evidence@.len() > 0
}

/// The checks on what the window planned.
pub open spec fn evidence_plan_checks(
    options: CopyLiveDaemonSupervisorOptions,
    acceptance: CopyLiveDaemonAcceptanceReport,
    orders: Seq<CopyExecutionCanaryWouldSubmit>,
    planned: int,
    fees: int,
) -> Seq<Check> {
    seq![
        check(
            "acceptance_gate"@,
            acceptance.ok,
            "copy-live-daemon-acceptance ok="@ + bool_text(acceptance.ok),
        ),
        check(
            "deterministic_cloids"@,
            all_cloids_present(orders),
            dec(orders.len()) + " planned order(s) have cloid ownership refs"@,
        ),
        check(
            "bounded_live_orders"@,
            orders.filter(order_opens()).len() <= options.max_live_orders,
            dec(orders.filter(order_opens()).len()) + " planned open/increase order(s), "@ + dec(
                orders.filter(order_reduces()).len(),
            ) + " reduce-only close order(s), max_live_orders "@ + dec(
                options.max_live_orders as nat,
            ),
        ),
        check(
            "bounded_total_notional"@,
            planned <= options.max_total_notional_usd,
            "planned_notional_usd="@ + fixed6(planned) + " must be <= "@ + fixed6(
                options.max_total_notional_usd as int,
            ),
        ),
        check(
            "bounded_total_fees"@,
            fees_fit(fees, options.max_total_fees_usd),
            "estimated_fees_usd="@ + fine6(fees) + " must be <= "@ + fixed6(
                options.max_total_fees_usd as int,
            ),
        ),
    ]
}

/// The checks on how the window is wound up.
pub open spec fn evidence_policy_checks(
    options: CopyLiveDaemonSupervisorOptions,
    acceptance: CopyLiveDaemonAcceptanceReport,
    s: Seq<CopyBoundedLiveWindowReconcile>,
) -> Seq<Check> {
    seq![
        check(
            "cleanup_policy"@,
            acceptance.require_cleanup_after_submit || options.hold_positions_after_submit,
            if options.hold_positions_after_submit {
                "follow-position mode intentionally skips immediate cleanup and waits for mapped target close signals"@
            } else {
                "unattended submit requires bundled reduce-only cleanup or mapped close handling"@
            },
        ),
        check(
            "flat_reconcile_policy"@,
            acceptance.require_flat_reconcile_after_submit && all_healthy(options, s),
            health_detail(options, s),
        ),
        check(
            "strict_order_evidence_policy"@,
            true,
            "future persistent submit must require orderStatus plus matching userFillsByTime-backed fill evidence"@,
        ),
    ]
}

/// The checks on what was really sent.
pub open spec fn evidence_live_checks(
    live: Option<CopyLiveDaemonPersistentLiveSubmitReport>,
) -> Seq<Check> {
    match live {
        Some(r) => seq![
            check(
                "persistent_live_submit_path_connected"@,
                r.ok,
                "persistent live submit report ok="@ + bool_text(r.ok) + " submitted_reports="@
                    + dec(r.submitted_reports@.len()) + " order_evidence="@ + dec(
                    r.order_evidence@.len(),
                ),
            ),
            check(
                "real_live_submit_evidence_present"@,
                real_evidence(r),
                "unattended readiness requires at least one real submitted order with evidence; submitted_reports="@
                    + dec(r.submitted_reports@.len()) + " order_evidence="@ + dec(
                    r.order_evidence@.len(),
                ),
            ),
        ],
        None => seq![
            check(
                "persistent_live_submit_path_connected"@,
                false,
                "copy-live-daemon-supervisor ran no-submit; persistent live submit evidence was not requested"@,
            ),
            check(
                "real_live_submit_evidence_present"@,
                false,
                "no persistent live submit report was requested"@,
            ),
        ],
    }
}

/// What keeps a window from running unattended.
pub open spec fn evidence_blocker(
    live: Option<CopyLiveDaemonPersistentLiveSubmitReport>,
) -> Seq<char> {
    match live {
        None =>
            "Persistent daemon no-submit passed its local gates, but unattended live submit remains gated until the daemon submit path records owned orderStatus, matching fill evidence, cleanup, and final reconcile per submitted order."@,
        Some(r) => if r.ok && !real_evidence(r) {
            "Persistent daemon submit path is connected and the window was healthy, but no real order was submitted in this window; unattended readiness remains gated until a real submit records owned orderStatus, matching fill evidence, cleanup, and final reconcile."@
        } else {
            "Persistent daemon live submit was requested but did not satisfy every evidence contract check."@
        },
    }
}

/// All checks on whether a window may run unattended.
pub open spec fn evidence_checks(
    options: CopyLiveDaemonSupervisorOptions,
    acceptance: CopyLiveDaemonAcceptanceReport,
    orders: Seq<CopyExecutionCanaryWouldSubmit>,
    planned: int,
    fees: int,
    s: Seq<CopyBoundedLiveWindowReconcile>,
    live: Option<CopyLiveDaemonPersistentLiveSubmitReport>,
) -> Seq<Check> {
    evidence_plan_checks(options, acceptance, orders, planned, fees) + evidence_policy_checks(
        options,
        acceptance,
        s,
    ) + evidence_live_checks(live)
}

/// What a borrowed optional report is.
pub open spec fn opt_report(
    r: Option<&CopyLiveDaemonPersistentLiveSubmitReport>,
) -> Option<CopyLiveDaemonPersistentLiveSubmitReport> {
    match r {
        Some(x) => Some(*x),
        None => None,
    }
}

fn push_evidence_plan_checks(
    checks: &mut Vec<CopyShadowSmokeCheck>,
    options: &CopyLiveDaemonSupervisorOptions,
    acceptance: &CopyLiveDaemonAcceptanceReport,
    orders: &Vec<CopyExecutionCanaryWouldSubmit>,
    planned: Total,
    fees: Fees,
)
    ensures
        views(final(checks)@) == views(old(checks)@) + evidence_plan_checks(
            *options,
            *acceptance,
            orders@,
            planned as int,
            fees as int,
        ),
{
    let ghost start = views(checks@);
    let mut d: String = "copy-live-daemon-acceptance ok=".to_owned();
    push_bool(&mut d, acceptance.ok);
    push_check(checks, "acceptance_gate", acceptance.ok, d);
    push_check(
        checks,
        "deterministic_cloids",
        orders_have_cloids(orders),
        counted(orders.len(), " planned order(s) have cloid ownership refs"),
    );
    let open_count: usize = count_open_orders(orders);
    let mut d: String = counted(open_count, " planned open/increase order(s), ");
    push_count(&mut d, count_reduce_orders(orders));
    d.append(" reduce-only close order(s), max_live_orders ");
    push_count(&mut d, options.max_live_orders);
    push_check(checks, "bounded_live_orders", open_count <= options.max_live_orders, d);
    let mut d: String = "planned_notional_usd=".to_owned();
    push_total6(&mut d, planned);
    d.append(" must be <= ");
    push_fixed6(&mut d, options.max_total_notional_usd);
    push_check(checks, "bounded_total_notional", planned <= options.max_total_notional_usd as i128, d);
    let mut d: String = "estimated_fees_usd=".to_owned();
    push_fine6(&mut d, fees);
    d.append(" must be <= ");
    push_fixed6(&mut d, options.max_total_fees_usd);
    push_check(checks, "bounded_total_fees", are_fees_within(fees, options.max_total_fees_usd), d);
    assert(views(checks@) =~= start + evidence_plan_checks(
        *options,
        *acceptance,
        orders@,
        planned as int,
        fees as int,
    ));
}

fn push_evidence_policy_checks(
    checks: &mut Vec<CopyShadowSmokeCheck>,
    options: &CopyLiveDaemonSupervisorOptions,
    acceptance: &CopyLiveDaemonAcceptanceReport,
    s: &Vec<CopyBoundedLiveWindowReconcile>,
)
    ensures
        views(final(checks)@) == views(old(checks)@) + evidence_policy_checks(
            *options,
            *acceptance,
            s@,
        ),
{
    let ghost start = views(checks@);
    let cleanup: &str = if options.hold_positions_after_submit {
        "follow-position mode intentionally skips immediate cleanup and waits for mapped target close signals"
    } else {
        "unattended submit requires bundled reduce-only cleanup or mapped close handling"
    };
    push_note(
        checks,
        "cleanup_policy",
        acceptance.require_cleanup_after_submit || options.hold_positions_after_submit,
        cleanup,
    );
    let healthy: bool = copy_live_daemon_reconciliations_healthy_for_mode(options, s);
    push_check(
        checks,
        "flat_reconcile_policy",
        acceptance.require_flat_reconcile_after_submit && healthy,
        copy_live_daemon_reconcile_health_detail(options, s),
    );
    push_note(
        checks,
        "strict_order_evidence_policy",
        true,
        "future persistent submit must require orderStatus plus matching userFillsByTime-backed fill evidence",
    );
    assert(views(checks@) =~= start + evidence_policy_checks(*options, *acceptance, s@));
}

fn push_evidence_live_checks(
    checks: &mut Vec<CopyShadowSmokeCheck>,
    live: Option<&CopyLiveDaemonPersistentLiveSubmitReport>,
)
    ensures
        views(final(checks)@) == views(old(checks)@) + evidence_live_checks(opt_report(live)),
{
    let ghost start = views(checks@);
    match live {
        Some(r) => {
            let mut d: String = "persistent live submit report ok=".to_owned();
            push_bool(&mut d, r.ok);
            d.append(" submitted_reports=");
            push_count(&mut d, r.submitted_reports.len());
            d.append(" order_evidence=");
            push_count(&mut d, r.order_evidence.len());
            push_check(checks, "persistent_live_submit_path_connected", r.ok, d);
            let mut d: String =
                "unattended readiness requires at least one real submitted order with evidence; submitted_reports=".to_owned();
            push_count(&mut d, r.submitted_reports.len());
            d.append(" order_evidence=");
            push_count(&mut d, r.order_evidence.len());
            push_check(
                checks,
                "real_live_submit_evidence_present",
                r.ok && r.submitted_reports.len() > 0 && r.order_evidence.len() > 0,
                d,
            );
        },
        None => {
            push_note(
                checks,
                "persistent_live_submit_path_connected",
                false,
                "copy-live-daemon-supervisor ran no-submit; persistent live submit evidence was not requested",
            );
            push_note(
                checks,
                "real_live_submit_evidence_present",
                false,
                "no persistent live submit report was requested",
            );
        },
    }
    assert(views(checks@) =~= start + evidence_live_checks(opt_report(live)));
}

fn list_required_evidence(hold: bool) -> (r: Vec<String>)
    ensures
        texts(r@) == required_evidence(hold),
{
    let cleanup: &str = if hold {
        "every accepted open is held under follow-position health gates until a mapped target close signal"
    } else {
        "every accepted open has a bundled reduce-only cleanup or mapped close path"
    };
    let last: &str = if hold {
        "final reconciliation proves every target account has no open orders and bounded notional exposure"
    } else {
        "final reconciliation proves every target account is flat with no open orders"
    };
    let r: Vec<String> = vec![
        "every submitted order has an owned deterministic cloid".to_owned(),
        "every submitted order has orderStatus evidence by oid or cloid".to_owned(),
        "every filled order has at least one matching userFills/userFillsByTime fill".to_owned(),
        cleanup.to_owned(),
        "cumulative submitted notional and conservative fee estimate remain under operator caps".to_owned(),
        last.to_owned(),
    ];
    assert(texts(r@) =~= required_evidence(hold));
    r
}

fn name_blocker(live: Option<&CopyLiveDaemonPersistentLiveSubmitReport>) -> (r: String)
    ensures
        r@ == evidence_blocker(opt_report(live)),
{
    match live {
        None => "Persistent daemon no-submit passed its local gates, but unattended live submit remains gated until the daemon submit path records owned orderStatus, matching fill evidence, cleanup, and final reconcile per submitted order.".to_owned(),
        Some(r) => if r.ok && !(r.submitted_reports.len() > 0 && r.order_evidence.len() > 0) {
            "Persistent daemon submit path is connected and the window was healthy, but no real order was submitted in this window; unattended readiness remains gated until a real submit records owned orderStatus, matching fill evidence, cleanup, and final reconcile.".to_owned()
        } else {
            "Persistent daemon live submit was requested but did not satisfy every evidence contract check.".to_owned()
        },
    }
}

/// Whether a contract says of a window whether it may run unattended.
pub open spec fn evidence_contract_for(
    c: CopyLiveDaemonSubmitEvidenceContract,
    options: CopyLiveDaemonSupervisorOptions,
    acceptance: CopyLiveDaemonAcceptanceReport,
    orders: Seq<CopyExecutionCanaryWouldSubmit>,
    planned: int,
    fees: int,
    s: Seq<CopyBoundedLiveWindowReconcile>,
    live: Option<CopyLiveDaemonPersistentLiveSubmitReport>,
) -> bool {
    let checks = evidence_checks(options, acceptance, orders, planned, fees, s, live);
    &&& views(c.checks@) == checks
    &&& c.ready_for_unattended_submit == all_ok(checks)
    &&& texts(c.required_live_evidence@) == required_evidence(options.hold_positions_after_submit)
    &&& if all_ok(checks) {
        c.blocker is None
    } else {
        c.blocker is Some && c.blocker->0@ == evidence_blocker(live)
    }
}

/// Checks whether a window may run unattended.
pub fn copy_live_daemon_submit_evidence_contract(
    options: &CopyLiveDaemonSupervisorOptions,
    acceptance: &CopyLiveDaemonAcceptanceReport,
    would_submit_orders: &Vec<CopyExecutionCanaryWouldSubmit>,
    planned_notional_usd: Total,
    estimated_fees_usd: Fees,
    final_reconciliations: &Vec<CopyBoundedLiveWindowReconcile>,
    persistent_live_submit: Option<&CopyLiveDaemonPersistentLiveSubmitReport>,
) -> (r: CopyLiveDaemonSubmitEvidenceContract)
    ensures
        evidence_contract_for(
            r,
            *options,
            *acceptance,
            would_submit_orders@,
            planned_notional_usd as int,
            estimated_fees_usd as int,
            final_reconciliations@,
            opt_report(persistent_live_submit),
        ),
{
    let mut checks: Vec<CopyShadowSmokeCheck> = Vec::new();
    assert(views(checks@) =~= Seq::empty());
    push_evidence_plan_checks(
        &mut checks,
        options,
        acceptance,
        would_submit_orders,
        planned_notional_usd,
        estimated_fees_usd,
    );
    assert(views(checks@) =~= evidence_plan_checks(
        *options,
        *acceptance,
        would_submit_orders@,
        planned_notional_usd as int,
        estimated_fees_usd as int,
    ));
    push_evidence_policy_checks(&mut checks, options, acceptance, final_reconciliations);
    push_evidence_live_checks(&mut checks, persistent_live_submit);
    let ready: bool = checks_all_ok(&checks);
    let blocker: Option<String> = if ready {
        None
    } else {
        Some(name_blocker(persistent_live_submit))
    };
    CopyLiveDaemonSubmitEvidenceContract {
        ready_for_unattended_submit: ready,
        checks,
        required_live_evidence: list_required_evidence(options.hold_positions_after_submit),
        blocker,
    }
}

/// No window is ready to run unattended unless it really sent an order and
/// proved it.
pub proof fn readiness_needs_real_evidence(
    options: CopyLiveDaemonSupervisorOptions,
    acceptance: CopyLiveDaemonAcceptanceReport,
    orders: Seq<CopyExecutionCanaryWouldSubmit>,
    planned: int,
    fees: int,
    s: Seq<CopyBoundedLiveWindowReconcile>,
    live: Option<CopyLiveDaemonPersistentLiveSubmitReport>,
)
    requires
        all_ok(evidence_checks(options, acceptance, orders, planned, fees, s, live)),
    ensures
        live is Some,
        real_evidence(live->0),
        acceptance.ok,
        all_healthy(options, s),
{
    let a = evidence_plan_checks(options, acceptance, orders, planned, fees);
    let b = evidence_policy_checks(options, acceptance, s);
    let c = evidence_live_checks(live);
    all_ok_concat(a + b, c);
    all_ok_concat(a, b);
    assert(a[0].ok && b[1].ok && c[0].ok && c[1].ok);
}

/// What each check on a plan means. Client ids are there and differ, also from
/// those held back; signals are named; no two plans share record, signal and
/// account; orders, notional and fees are within the caps; a plan that opens
/// something keeps every account whose exposure can be read within the cap, and
/// there is one; its margin is there; and the accounts are in order, or ready
/// for reductions where there are only such.
pub proof fn each_check_on_a_plan_means_what_it_says(
    options: CopyLiveDaemonSupervisorOptions,
    refs: Seq<CopyLiveDaemonWouldSubmitRef>,
    back: Seq<HeldPlan>,
    planned: int,
    fees: int,
    s: Seq<CopyBoundedLiveWindowReconcile>,
)
    ensures
        ({
            let c = plan_checks(options, refs, back, planned, fees, s);
            &&& c.len() == 10
            &&& c[0].name == "submit_from_executable_refs_only"@
            &&& c[0].ok <==> ((forall|i: int|
                0 <= i < refs.len() ==> !blank((#[trigger] refs[i]).order.cloid@)) && (forall|
                i: int,
                j: int,
            |
                0 <= i < j < refs.len() ==> (#[trigger] refs[i]).order.cloid@ != (
                #[trigger] refs[j]).order.cloid@))
            &&& c[1].name == "suppressed_refs_excluded_from_submit"@
            &&& c[1].ok <==> (forall|i: int, j: int|
                0 <= i < refs.len() && 0 <= j < back.len() ==> (#[trigger] refs[i]).order.cloid@
                    != (#[trigger] back[j]).plan.order.cloid@)
            &&& c[2].name == "signal_refs_present"@
            &&& c[2].ok <==> (forall|i: int|
                0 <= i < refs.len() ==> !blank((#[trigger] refs[i]).signal_id@))
            &&& c[3].name == "account_signal_refs_unique"@
            &&& c[3].ok <==> (forall|i: int, j: int|
                0 <= i < j < refs.len() ==> (#[trigger] refs[i]).record_index != (
                #[trigger] refs[j]).record_index || refs[i].signal_id@ != refs[j].signal_id@
                    || refs[i].order.account_id@ != refs[j].order.account_id@)
            &&& c[4].name == "bounded_open_submit_plan_count"@
            &&& c[4].ok <==> refs.filter(opens()).len() <= options.max_live_orders
            &&& c[5].name == "bounded_submit_plan_notional"@
            &&& c[5].ok <==> planned <= options.max_total_notional_usd
            &&& c[6].name == "bounded_submit_plan_fees"@
            &&& c[6].ok <==> fees <= 1000 * options.max_total_fees_usd
            &&& c[7].name == "bounded_account_total_exposure"@
            &&& c[7].ok <==> (open_notional(refs) <= 1 || ((exists|i: int|
                0 <= i < s.len() && (#[trigger] s[i]).total_ntl_pos is Some && amount_size(
                    s[i].total_ntl_pos->0@,
                ) is Some) && (forall|i: int|
                0 <= i < s.len() && (#[trigger] s[i]).total_ntl_pos is Some && amount_size(
                    s[i].total_ntl_pos->0@,
                ) is Some ==> amount_size(s[i].total_ntl_pos->0@)->0 + open_notional(refs)
                    <= options.max_total_notional_usd + 1)))
            &&& c[8].name == "bounded_open_margin_available"@
            &&& c[8].ok <==> (forall|i: int|
                0 <= i < refs.len() && !(#[trigger] refs[i]).order.reduce_only ==> covers(
                    s,
                    refs[i].order.account_id@,
                    total(refs, opened_in(refs[i].order.account_id@)),
                ))
            &&& c[9].ok <==> (if refs.filter(opens()).len() == 0 && refs.len() > 0 {
                ready_for_reduce(s)
            } else {
                all_healthy(options, s)
            })
        }),
{
    let c = plan_checks(options, refs, back, planned, fees, s);
    let a = origin_checks(refs, back);
    let b = cap_checks(options, refs, planned, fees);
    let d = standing_checks(options, refs, s);
    assert(c[0] == a[0] && c[1] == a[1] && c[2] == a[2] && c[3] == a[3]);
    assert(c[4] == b[0] && c[5] == b[1] && c[6] == b[2]);
    assert(c[7] == d[0] && c[8] == d[1] && c[9] == d[2]);
    the_largest_exposure_bounds_every_account(s);
    margin_is_there_for_every_opening(refs, s);
    if distinct_origins(refs) {
        assert forall|i: int, j: int| 0 <= i < j < refs.len() implies (
        #[trigger] refs[i]).record_index != (#[trigger] refs[j]).record_index
            || refs[i].signal_id@ != refs[j].signal_id@ || refs[i].order.account_id@
            != refs[j].order.account_id@ by {
            assert(!same_origin(refs[i], refs[j]));
        }
    }
    openings_and_reductions_are_all(refs);
    if some_exposure(s) {
        if max_exposure(s) == 0 {
            let i = choose|i: int|
                0 <= i < s.len() && (#[trigger] s[i]).total_ntl_pos is Some && amount_size(
                    s[i].total_ntl_pos->0@,
                ) is Some;
            size_is_natural(s[i].total_ntl_pos->0@, 9);
        }
    }
}

proof fn openings_and_reductions_are_all(refs: Seq<CopyLiveDaemonWouldSubmitRef>)
    ensures
        refs.filter(opens()).len() + refs.filter(reduces()).len() == refs.len(),
    decreases refs.len(),
{
    reveal(Seq::filter);
    if refs.len() > 0 {
        openings_and_reductions_are_all(refs.drop_last());
    }
}

/// What each check on an unattended window means.
pub proof fn each_check_on_unattended_submits_means_what_it_says(
    options: CopyLiveDaemonSupervisorOptions,
    acceptance: CopyLiveDaemonAcceptanceReport,
    orders: Seq<CopyExecutionCanaryWouldSubmit>,
    planned: int,
    fees: int,
    s: Seq<CopyBoundedLiveWindowReconcile>,
    live: Option<CopyLiveDaemonPersistentLiveSubmitReport>,
)
    ensures
        ({
            let c = evidence_checks(options, acceptance, orders, planned, fees, s, live);
            &&& c.len() == 10
            &&& c[0].name == "acceptance_gate"@
            &&& c[0].ok <==> acceptance.ok
            &&& c[1].name == "deterministic_cloids"@
            &&& c[1].ok <==> (forall|i: int|
                0 <= i < orders.len() ==> !blank((#[trigger] orders[i]).cloid@))
            &&& c[2].name == "bounded_live_orders"@
            &&& c[2].ok <==> orders.filter(order_opens()).len() <= options.max_live_orders
            &&& c[3].name == "bounded_total_notional"@
            &&& c[3].ok <==> planned <= options.max_total_notional_usd
            &&& c[4].name == "bounded_total_fees"@
            &&& c[4].ok <==> fees <= 1000 * options.max_total_fees_usd
            &&& c[5].name == "cleanup_policy"@
            &&& c[5].ok <==> acceptance.require_cleanup_after_submit
                || options.hold_positions_after_submit
            &&& c[6].name == "flat_reconcile_policy"@
            &&& c[6].ok <==> acceptance.require_flat_reconcile_after_submit && all_healthy(
                options,
                s,
            )
            &&& c[7].ok
            &&& c[8].name == "persistent_live_submit_path_connected"@
            &&& c[8].ok <==> live is Some && live->0.ok
            &&& c[9].name == "real_live_submit_evidence_present"@
            &&& c[9].ok <==> live is Some && live->0.ok && live->0.submitted_reports@.len() > 0
                && live->0.order_evidence@.len() > 0
        }),
{
    let c = evidence_checks(options, acceptance, orders, planned, fees, s, live);
    let a = evidence_plan_checks(options, acceptance, orders, planned, fees);
    let b = evidence_policy_checks(options, acceptance, s);
    let d = evidence_live_checks(live);
    assert(c[0] == a[0] && c[1] == a[1] && c[2] == a[2] && c[3] == a[3] && c[4] == a[4]);
    assert(c[5] == b[0] && c[6] == b[1] && c[7] == b[2]);
    assert(c[8] == d[0] && c[9] == d[1]);
}

/// The fees of a part of a plan are the least number of trillionths that is not
/// below the fees of the plan in the proportion of the part to the plan.
pub proof fn part_fees_are_in_proportion(fees: int, part: int, planned: int)
    requires
        planned > 0,
        part >= 0,
        -WIDE_MAX < prorated_fees(fees, part, planned) < WIDE_MAX,
    ensures
        prorated_fees(fees, part, planned) * planned >= fees * part,
        (prorated_fees(fees, part, planned) - 1) * planned < fees * part,
{
    let x = fees * part + planned - 1;
    let r = prorated_fees(fees, part, planned);
    assert(r == x / planned);
    lemma_fundamental_div_mod(x, planned);
    lemma_mod_bound(x, planned);
    assert(planned * r == r * planned) by (nonlinear_arith);
    assert((r - 1) * planned == r * planned - planned) by (nonlinear_arith);
}

proof fn detail_is_of_a_check(
    checks: Seq<Check>,
    name: Seq<char>,
    failed_only: bool,
    i: int,
)
    requires
        0 <= i,
    ensures
        detail_of(checks, name, failed_only, i) is Some <==> exists|k: int|
            i <= k < checks.len() && (#[trigger] checks[k]).name == name && (!failed_only
                || !checks[k].ok),
    decreases checks.len() - i,
{
    if i < checks.len() {
        detail_is_of_a_check(checks, name, failed_only, i + 1);
        if checks[i].name == name && !(failed_only && checks[i].ok) {
            assert(checks[i].name == name);
        }
    }
}

/// A plan is cut down to its reductions exactly where its contract failed for
/// the exposure or the margin of its openings alone, and it has openings. These
/// are held back, in order and as they are, for want of margin where the margin
/// failed, and otherwise for the exposure.
pub proof fn only_openings_are_cut_from_a_plan(
    contract_ok: bool,
    checks: Seq<Check>,
    refs: Seq<CopyLiveDaemonWouldSubmitRef>,
)
    ensures
        cut_down(contract_ok, checks, refs) <==> !contract_ok && (exists|i: int|
            0 <= i < refs.len() && !(#[trigger] refs[i]).order.reduce_only) && (exists|i: int|
            0 <= i < checks.len() && !(#[trigger] checks[i]).ok) && forall|i: int|
            0 <= i < checks.len() && (#[trigger] checks[i]).name
                != "bounded_account_total_exposure"@ && checks[i].name
                != "bounded_open_margin_available"@ ==> checks[i].ok,
        openings_refusal(checks).0 == if exists|i: int|
            0 <= i < checks.len() && (#[trigger] checks[i]).name == "bounded_open_margin_available"@
                && !checks[i].ok {
            "COPY_DAEMON_INSUFFICIENT_MARGIN"@
        } else {
            "COPY_DAEMON_MAX_ACCOUNT_EXPOSURE"@
        },
        ({
            let why = openings_refusal(checks);
            let out = openings_held(refs, why.0, why.1);
            &&& out.len() == refs.filter(opens()).len()
            &&& forall|i: int|
                0 <= i < out.len() ==> (#[trigger] out[i]).plan == refs.filter(opens())[i]
                    && out[i].reason_code == why.0
        }),
{
    filter_members(refs, opens());
    if refs.filter(opens()).len() > 0 {
        let x = refs.filter(opens())[0];
        assert(opens()(x) && refs.contains(x));
        let i = choose|i: int| 0 <= i < refs.len() && refs[i] == x;
        assert(!refs[i].order.reduce_only);
    }
    if exists|i: int| 0 <= i < refs.len() && !(#[trigger] refs[i]).order.reduce_only {
        let i = choose|i: int| 0 <= i < refs.len() && !(#[trigger] refs[i]).order.reduce_only;
        assert(opens()(refs[i]));
        assert(refs.filter(opens()).contains(refs[i]));
    }
    detail_is_of_a_check(checks, "bounded_open_margin_available"@, true, 0);
}

/// A contract counts the plans that it covers, each as an opening or a reduction,
/// gives the sums that it was held to, and stands exactly where every check does.
pub proof fn a_contract_covers_every_plan(
    c: CopyLiveDaemonSubmitPlanContract,
    options: CopyLiveDaemonSupervisorOptions,
    refs: Seq<CopyLiveDaemonWouldSubmitRef>,
    back: Seq<HeldPlan>,
    planned: int,
    fees: int,
    s: Seq<CopyBoundedLiveWindowReconcile>,
)
    requires
        contract_for(c, options, refs, back, planned, fees, s),
    ensures
        c.ok <==> forall|i: int| 0 <= i < c.checks@.len() ==> (#[trigger] c.checks@[i]).ok,
        c.checks@.len() == plan_checks(options, refs, back, planned, fees, s).len(),
        c.executable_plan_count == refs.len(),
        c.suppressed_plan_count == back.len(),
        c.executable_open_plan_count + c.executable_reduce_only_plan_count == refs.len(),
        (forall|i: int| 0 <= i < refs.len() ==> (#[trigger] refs[i]).order.reduce_only)
            ==> c.executable_open_plan_count == 0,
        (forall|i: int| 0 <= i < refs.len() ==> !(#[trigger] refs[i]).order.reduce_only)
            ==> c.executable_reduce_only_plan_count == 0,
        c.planned_notional_usd == planned,
        c.estimated_fees_usd == fees,
{
    openings_and_reductions_are_all(refs);
    filter_members(refs, opens());
    filter_members(refs, reduces());
    let o = refs.filter(opens());
    let d = refs.filter(reduces());
    if o.len() > 0 {
        assert(opens()(o[0]) && refs.contains(o[0]));
    }
    if d.len() > 0 {
        assert(reduces()(d[0]) && refs.contains(d[0]));
    }
    let checks = plan_checks(options, refs, back, planned, fees, s);
    assert(views(c.checks@).len() == c.checks@.len());
    assert forall|i: int| 0 <= i < c.checks@.len() implies (#[trigger] c.checks@[i]).ok
        == checks[i].ok by {
        assert(views(c.checks@)[i] == c.checks@[i]@);
    }
    if forall|i: int| 0 <= i < c.checks@.len() ==> (#[trigger] c.checks@[i]).ok {
        assert forall|i: int| 0 <= i < checks.len() implies (#[trigger] checks[i]).ok by {
            assert(c.checks@[i].ok);
        }
    }
}

/// Unattended submits are ready exactly where every check passed, and otherwise
/// something is named that stands in the way.
pub proof fn what_is_not_ready_is_blocked(
    c: CopyLiveDaemonSubmitEvidenceContract,
    options: CopyLiveDaemonSupervisorOptions,
    acceptance: CopyLiveDaemonAcceptanceReport,
    orders: Seq<CopyExecutionCanaryWouldSubmit>,
    planned: int,
    fees: int,
    s: Seq<CopyBoundedLiveWindowReconcile>,
    live: Option<CopyLiveDaemonPersistentLiveSubmitReport>,
)
    requires
        evidence_contract_for(c, options, acceptance, orders, planned, fees, s, live),
    ensures
        c.ready_for_unattended_submit <==> forall|i: int|
            0 <= i < c.checks@.len() ==> (#[trigger] c.checks@[i]).ok,
        c.ready_for_unattended_submit <==> c.blocker is None,
        c.checks@.len() == evidence_checks(
            options,
            acceptance,
            orders,
            planned,
            fees,
            s,
            live,
        ).len(),
        c.required_live_evidence@.len() == 6,
{
    let checks = evidence_checks(options, acceptance, orders, planned, fees, s, live);
    assert(views(c.checks@).len() == c.checks@.len());
    assert(texts(c.required_live_evidence@).len() == c.required_live_evidence@.len());
    assert forall|i: int| 0 <= i < c.checks@.len() implies (#[trigger] c.checks@[i]).ok
        == checks[i].ok by {
        assert(views(c.checks@)[i] == c.checks@[i]@);
    }
    if forall|i: int| 0 <= i < c.checks@.len() ==> (#[trigger] c.checks@[i]).ok {
        assert forall|i: int| 0 <= i < checks.len() implies (#[trigger] checks[i]).ok by {
            assert(c.checks@[i].ok);
        }
    }
}

} // verus!
