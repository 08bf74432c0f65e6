//! What the exchange says about an account, and whether that is healthy.

use vstd::prelude::*;

use crate::decimal::{
    a_decimal_has_the_value_of_its_digits, a_decimal_is_read_as_written, all_digits, amount_size,
    amount_worth, at_least_zero, ceiling_value, dec, digits_value, fixed6, floor_zero,
    is_negative_text, is_sign, parse_amount_size, parse_amount_worth, parse_size, pow10, push_count,
    push_fixed6, push_total6, read_decimal, reads_negative, size_value, Fixed, Total, WIDE_MAX,
};
use crate::domain::{opposite, opposite_order_side, OrderSide};
use crate::options::CopyLiveDaemonSupervisorOptions;
use crate::plan::CopyLiveDaemonWouldSubmitRef;
use crate::seqs::{filter_step, whole};
use crate::text::{clone_opt, lower, same_text_ignoring_case};

verus! {

/// How often a failed account reconciliation is tried again.
pub const COPY_RECONCILE_RETRIES: usize = 3;

/// The pause before a reconciliation is tried again, in milliseconds.
pub const COPY_RECONCILE_RETRY_DELAY_MS: u64 = 1_500;

/// One open position of an account.
#[derive(Debug)]
pub struct CopyBoundedLiveWindowPositionSummary {
    pub coin: String,
    pub szi: String,
    pub position_value: Option<String>,
}

/// The state of an account as the exchange reports it.
#[derive(Clone, Debug)]
pub struct CopyBoundedLiveWindowReconcile {
    pub account_id: String,
    pub ok: bool,
    pub open_order_count: Option<usize>,
    pub asset_positions: Option<usize>,
    pub position_summaries: Vec<CopyBoundedLiveWindowPositionSummary>,
    pub account_value: Option<String>,
    pub withdrawable: Option<String>,
    pub total_ntl_pos: Option<String>,
    pub total_margin_used: Option<String>,
    pub error: Option<String>,
}

/// Margin figures of an account.
#[derive(Clone, Debug)]
pub struct MarginSummary {
    pub account_value: String,
    pub total_ntl_pos: String,
    pub total_margin_used: String,
}

/// A perpetual position.
#[derive(Clone, Debug)]
pub struct PerpPosition {
    pub coin: String,
    pub szi: String,
    pub position_value: Option<String>,
}

/// A position in one asset.
#[derive(Clone, Debug)]
pub struct AssetPosition {
    pub position: PerpPosition,
}

/// The clearinghouse's view of an account.
#[derive(Clone, Debug)]
pub struct ClearinghouseState {
    pub margin_summary: MarginSummary,
    pub withdrawable: Option<String>,
    pub asset_positions: Vec<AssetPosition>,
}

/// The outcome of reconciling an account.
#[derive(Clone, Debug)]
pub struct AccountReconciliationReport {
    pub account_id: String,
    pub open_order_count: usize,
    pub clearinghouse_state: ClearinghouseState,
}

impl Clone for CopyBoundedLiveWindowPositionSummary {
    fn clone(&self) -> (r: Self)
        ensures
            r == *self,
    {
        CopyBoundedLiveWindowPositionSummary {
            coin: self.coin.clone(),
            szi: self.szi.clone(),
            position_value: clone_opt(&self.position_value),
        }
    }
}

/// The total position notional of an account in billionths, rounded up, where
/// it can be read.
pub open spec fn exposure(r: CopyBoundedLiveWindowReconcile) -> Option<int> {
    match r.total_ntl_pos {
        Some(t) => amount_size(t@),
        None => None,
    }
}

/// The total position notional of an account, where it can be read.
pub fn exposure_of(r: &CopyBoundedLiveWindowReconcile) -> (x: Option<Total>)
    ensures
        match exposure(*r) {
            Some(v) => x is Some && x->0 == v && 0 <= v <= WIDE_MAX,
            None => x is None,
        },
{
    match &r.total_ntl_pos {
        Some(t) => parse_amount_size(t.as_str()),
        None => None,
    }
}

/// Whether an account is in order for the mode of a window. Where positions are
/// held, it has no open orders and its exposure stays within the cap; otherwise
/// it is flat.
pub open spec fn healthy(
    options: CopyLiveDaemonSupervisorOptions,
    r: CopyBoundedLiveWindowReconcile,
) -> bool {
    if !options.hold_positions_after_submit {
        r.ok
    } else {
        &&& r.error is None
        &&& r.open_order_count == Some(0usize)
        &&& match exposure(r) {
            Some(x) => x <= options.max_total_notional_usd + 1000,
            None => false,
        }
    }
}

/// Whether an account is in order for the mode of a window.
pub fn copy_live_daemon_reconcile_healthy_for_mode(
    options: &CopyLiveDaemonSupervisorOptions,
    reconcile: &CopyBoundedLiveWindowReconcile,
) -> (r: bool)
    ensures
        r == healthy(*options, *reconcile),
{
    if !options.hold_positions_after_submit {
        return reconcile.ok;
    }
    if reconcile.error.is_some() {
        return false;
    }
    match reconcile.open_order_count {
        Some(n) => {
            if n != 0 {
                return false;
            }
        },
        None => {
            return false;
        },
    }
    match exposure_of(reconcile) {
        Some(x) => x <= options.max_total_notional_usd as i128 + 1000,
        None => false,
    }
}

/// Whether there is at least one account and all are in order.
pub open spec fn all_healthy(
    options: CopyLiveDaemonSupervisorOptions,
    s: Seq<CopyBoundedLiveWindowReconcile>,
) -> bool {
    s.len() > 0 && forall|i: int| 0 <= i < s.len() ==> healthy(options, #[trigger] s[i])
}

/// Whether there is at least one account and all are in order.
pub fn copy_live_daemon_reconciliations_healthy_for_mode(
    options: &CopyLiveDaemonSupervisorOptions,
    reconciliations: &Vec<CopyBoundedLiveWindowReconcile>,
) -> (r: bool)
    ensures
        r == all_healthy(*options, reconciliations@),
{
    if reconciliations.len() == 0 {
        return false;
    }
    let mut i: usize = 0;
    while i < reconciliations.len()
        invariant
            i <= reconciliations@.len(),
            forall|k: int| 0 <= k < i ==> healthy(*options, #[trigger] reconciliations@[k]),
        decreases reconciliations@.len() - i,
    {
        if !copy_live_daemon_reconcile_healthy_for_mode(options, &reconciliations[i]) {
            return false;
        }
        i += 1;
    }
    true
}

/// Whether an account has no open orders, for sure.
pub open spec fn no_open_orders() -> spec_fn(CopyBoundedLiveWindowReconcile) -> bool {
    |r: CopyBoundedLiveWindowReconcile| r.open_order_count == Some(0usize)
}

/// Whether an account is in order for the mode of a window.
pub open spec fn is_healthy(options: CopyLiveDaemonSupervisorOptions) -> spec_fn(
    CopyBoundedLiveWindowReconcile,
) -> bool {
    |r: CopyBoundedLiveWindowReconcile| healthy(options, r)
}

/// Whether an account is flat.
pub open spec fn is_flat() -> spec_fn(CopyBoundedLiveWindowReconcile) -> bool {
    |r: CopyBoundedLiveWindowReconcile| r.ok
}

/// Whether an account could be read.
pub open spec fn is_readable() -> spec_fn(CopyBoundedLiveWindowReconcile) -> bool {
    |r: CopyBoundedLiveWindowReconcile| r.error is None
}

fn without_open_orders(r: &CopyBoundedLiveWindowReconcile) -> (b: bool)
    ensures
        b == no_open_orders()(*r),
{
    match r.open_order_count {
        Some(n) => n == 0,
        None => false,
    }
}

fn count_no_open_orders(v: &Vec<CopyBoundedLiveWindowReconcile>) -> (r: usize)
    ensures
        r == v@.filter(no_open_orders()).len(),
{
    let mut n: usize = 0;
    let mut i: usize = 0;
    assert(v@.subrange(0, 0).filter(no_open_orders()).len() == 0) by {
        reveal(Seq::filter);
    }
    while i < v.len()
        invariant
            n <= i <= v@.len(),
            n == v@.subrange(0, i as int).filter(no_open_orders()).len(),
        decreases v@.len() - i,
    {
        proof {
            filter_step(v@, no_open_orders(), i as int);
        }
        if without_open_orders(&v[i]) {
            n += 1;
        }
        i += 1;
    }
    proof {
        whole(v@);
    }
    n
}

fn count_healthy(
    options: &CopyLiveDaemonSupervisorOptions,
    v: &Vec<CopyBoundedLiveWindowReconcile>,
) -> (r: usize)
    ensures
        r == v@.filter(is_healthy(*options)).len(),
{
    let mut n: usize = 0;
    let mut i: usize = 0;
    assert(v@.subrange(0, 0).filter(is_healthy(*options)).len() == 0) by {
        reveal(Seq::filter);
    }
    while i < v.len()
        invariant
            n <= i <= v@.len(),
            n == v@.subrange(0, i as int).filter(is_healthy(*options)).len(),
        decreases v@.len() - i,
    {
        proof {
            filter_step(v@, is_healthy(*options), i as int);
        }
        if copy_live_daemon_reconcile_healthy_for_mode(options, &v[i]) {
            n += 1;
        }
        i += 1;
    }
    proof {
        whole(v@);
    }
    n
}

/// How many accounts are flat.
pub fn count_flat(v: &Vec<CopyBoundedLiveWindowReconcile>) -> (r: usize)
    ensures
        r == v@.filter(is_flat()).len(),
{
    let mut n: usize = 0;
    let mut i: usize = 0;
    assert(v@.subrange(0, 0).filter(is_flat()).len() == 0) by {
        reveal(Seq::filter);
    }
    while i < v.len()
        invariant
            n <= i <= v@.len(),
            n == v@.subrange(0, i as int).filter(is_flat()).len(),
        decreases v@.len() - i,
    {
        proof {
            filter_step(v@, is_flat(), i as int);
        }
        if v[i].ok {
            n += 1;
        }
        i += 1;
    }
    proof {
        whole(v@);
    }
    n
}

fn count_readable(v: &Vec<CopyBoundedLiveWindowReconcile>) -> (r: usize)
    ensures
        r == v@.filter(is_readable()).len(),
{
    let mut n: usize = 0;
    let mut i: usize = 0;
    assert(v@.subrange(0, 0).filter(is_readable()).len() == 0) by {
        reveal(Seq::filter);
    }
    while i < v.len()
        invariant
            n <= i <= v@.len(),
            n == v@.subrange(0, i as int).filter(is_readable()).len(),
        decreases v@.len() - i,
    {
        proof {
            filter_step(v@, is_readable(), i as int);
        }
        if v[i].error.is_none() {
            n += 1;
        }
        i += 1;
    }
    proof {
        whole(v@);
    }
    n
}

/// The largest exposure that could be read, or zero.
pub open spec fn max_exposure(s: Seq<CopyBoundedLiveWindowReconcile>) -> int
    decreases s.len(),
{
    if s.len() == 0 {
        0
    } else {
        let m = max_exposure(s.drop_last());
        match exposure(s.last()) {
            Some(x) => if x > m {
                x
            } else {
                m
            },
            None => m,
        }
    }
}

/// Whether the exposure of some account could be read.
pub open spec fn some_exposure(s: Seq<CopyBoundedLiveWindowReconcile>) -> bool {
    exists|i: int| 0 <= i < s.len() && exposure(#[trigger] s[i]) is Some
}

/// The largest exposure that could be read, and whether one could.
pub fn largest_exposure(v: &Vec<CopyBoundedLiveWindowReconcile>) -> (r: (Total, bool))
    ensures
        r.0 == max_exposure(v@),
        0 <= r.0 <= WIDE_MAX,
        r.1 == some_exposure(v@),
{
    let mut m: Total = 0;
    let mut some: bool = false;
    let mut i: usize = 0;
    while i < v.len()
        invariant
            i <= v@.len(),
            0 <= m <= WIDE_MAX,
            m == max_exposure(v@.subrange(0, i as int)),
            some == (exists|k: int| 0 <= k < i && exposure(#[trigger] v@[k]) is Some),
        decreases v@.len() - i,
    {
        assert(v@.subrange(0, i as int + 1).drop_last() =~= v@.subrange(0, i as int));
        match exposure_of(&v[i]) {
            Some(x) => {
                assert(exposure(v@[i as int]) is Some);
                some = true;
                if x > m {
                    m = x;
                }
            },
            None => {},
        }
        i += 1;
    }
    proof {
        whole(v@);
    }
    (m, some)
}

/// The line that says how many accounts are flat.
pub open spec fn flat_detail(s: Seq<CopyBoundedLiveWindowReconcile>) -> Seq<char> {
    dec(s.filter(is_flat()).len()) + "/"@ + dec(s.len())
        + " account(s) flat with no open orders"@
}

/// The line that says how many accounts are flat.
pub fn flat_detail_of(v: &Vec<CopyBoundedLiveWindowReconcile>) -> (r: String)
    ensures
        r@ == flat_detail(v@),
{
    let mut s: String = String::new();
    push_count(&mut s, count_flat(v));
    s.append("/");
    push_count(&mut s, v.len());
    s.append(" account(s) flat with no open orders");
    assert(s@ =~= flat_detail(v@));
    s
}

/// Whether every account is flat.
pub open spec fn all_flat(s: Seq<CopyBoundedLiveWindowReconcile>) -> bool {
    forall|i: int| 0 <= i < s.len() ==> (#[trigger] s[i]).ok
}

/// Whether every account is flat.
pub fn reconciliations_all_flat(v: &Vec<CopyBoundedLiveWindowReconcile>) -> (r: bool)
    ensures
        r == all_flat(v@),
{
    let mut i: usize = 0;
    while i < v.len()
        invariant
            i <= v@.len(),
            forall|k: int| 0 <= k < i ==> (#[trigger] v@[k]).ok,
        decreases v@.len() - i,
    {
        if !v[i].ok {
            return false;
        }
        i += 1;
    }
    true
}

/// The line that sums up the health of the accounts of a window.
pub open spec fn health_detail(
    options: CopyLiveDaemonSupervisorOptions,
    s: Seq<CopyBoundedLiveWindowReconcile>,
) -> Seq<char> {
    if options.hold_positions_after_submit {
        "follow-position mode: "@ + dec(s.filter(is_healthy(options)).len()) + "/"@ + dec(s.len())
            + " account(s) healthy, "@ + dec(s.filter(no_open_orders()).len()) + "/"@ + dec(s.len())
            + " account(s) have no open orders, max_total_ntl_pos="@ + fixed6(max_exposure(s))
            + " must be <= "@ + fixed6(options.max_total_notional_usd as int)
            + "; positions may remain until target close signals"@
    } else {
        flat_detail(s)
    }
}

/// The line that sums up the health of the accounts of a window.
pub fn copy_live_daemon_reconcile_health_detail(
    options: &CopyLiveDaemonSupervisorOptions,
    reconciliations: &Vec<CopyBoundedLiveWindowReconcile>,
) -> (r: String)
    ensures
        r@ == health_detail(*options, reconciliations@),
{
    if options.hold_positions_after_submit {
        let (max, _some) = largest_exposure(reconciliations);
        let mut s: String = "follow-position mode: ".to_owned();
        push_count(&mut s, count_healthy(options, reconciliations));
        s.append("/");
        push_count(&mut s, reconciliations.len());
        s.append(" account(s) healthy, ");
        push_count(&mut s, count_no_open_orders(reconciliations));
        s.append("/");
        push_count(&mut s, reconciliations.len());
        s.append(" account(s) have no open orders, max_total_ntl_pos=");
        push_total6(&mut s, max);
        s.append(" must be <= ");
        push_fixed6(&mut s, options.max_total_notional_usd);
        s.append("; positions may remain until target close signals");
        s
    } else {
        flat_detail_of(reconciliations)
    }
}

/// Whether there is at least one account, all could be read, and none has open
/// orders.
pub open spec fn ready_for_reduce(s: Seq<CopyBoundedLiveWindowReconcile>) -> bool {
    s.len() > 0 && forall|i: int|
        0 <= i < s.len() ==> (#[trigger] s[i]).error is None && no_open_orders()(s[i])
}

/// Whether reductions may be sent for the accounts of a window.
pub fn copy_live_daemon_reconciliations_ready_for_reduce_only(
    reconciliations: &Vec<CopyBoundedLiveWindowReconcile>,
) -> (r: bool)
    ensures
        r == ready_for_reduce(reconciliations@),
{
    if reconciliations.len() == 0 {
        return false;
    }
    let mut i: usize = 0;
    while i < reconciliations.len()
        invariant
            i <= reconciliations@.len(),
            forall|k: int|
                0 <= k < i ==> (#[trigger] reconciliations@[k]).error is None && no_open_orders()(
                    reconciliations@[k],
                ),
        decreases reconciliations@.len() - i,
    {
        if reconciliations[i].error.is_some() || !without_open_orders(&reconciliations[i]) {
            assert(!(reconciliations@[i as int].error is None && no_open_orders()(
                reconciliations@[i as int],
            )));
            return false;
        }
        i += 1;
    }
    true
}

/// The line that sums up whether reductions may be sent.
pub open spec fn reduce_detail(s: Seq<CopyBoundedLiveWindowReconcile>) -> Seq<char> {
    "reduce-only submit precheck: "@ + dec(s.filter(is_readable()).len()) + "/"@ + dec(s.len())
        + " account(s) readable, "@ + dec(s.filter(no_open_orders()).len()) + "/"@ + dec(s.len())
        + " account(s) have no open orders; total exposure cap is intentionally not applied to risk-reducing closes"@
}

/// The line that sums up whether reductions may be sent.
pub fn copy_live_daemon_reduce_only_reconcile_health_detail(
    reconciliations: &Vec<CopyBoundedLiveWindowReconcile>,
) -> (r: String)
    ensures
        r@ == reduce_detail(reconciliations@),
{
    let mut s: String = "reduce-only submit precheck: ".to_owned();
    push_count(&mut s, count_readable(reconciliations));
    s.append("/");
    push_count(&mut s, reconciliations.len());
    s.append(" account(s) readable, ");
    push_count(&mut s, count_no_open_orders(reconciliations));
    s.append("/");
    push_count(&mut s, reconciliations.len());
    s.append(
        " account(s) have no open orders; total exposure cap is intentionally not applied to risk-reducing closes",
    );
    s
}

/// Accounts that are in order where positions are held may also be reduced.
pub proof fn held_and_healthy_is_ready_for_reduce(
    options: CopyLiveDaemonSupervisorOptions,
    s: Seq<CopyBoundedLiveWindowReconcile>,
)
    requires
        options.hold_positions_after_submit,
        all_healthy(options, s),
    ensures
        ready_for_reduce(s),
{
    assert forall|i: int| 0 <= i < s.len() implies (#[trigger] s[i]).error is None
        && no_open_orders()(s[i]) by {
        assert(healthy(options, s[i]));
    }
}

/// Whether a figure can be read and is zero up to a billionth.
pub open spec fn reads_zero(text: Seq<char>) -> bool {
    match amount_size(text) {
        Some(x) => x <= 1,
        None => false,
    }
}

fn is_zero_text(text: &str) -> (r: bool)
    ensures
        r == reads_zero(text@),
{
    match parse_amount_size(text) {
        Some(x) => x <= 1,
        None => false,
    }
}

/// The summary of a position.
pub open spec fn summary_of(p: AssetPosition) -> CopyBoundedLiveWindowPositionSummary {
    CopyBoundedLiveWindowPositionSummary {
        coin: p.position.coin,
        szi: p.position.szi,
        position_value: p.position.position_value,
    }
}

/// The state of an account from a reconciliation report. The account is flat
/// where it has no open orders and no positions, and both its notional and its
/// used margin read zero.
pub fn copy_bounded_live_window_reconcile_from_report(report: &AccountReconciliationReport) -> (r:
    CopyBoundedLiveWindowReconcile)
    ensures
        r.account_id == report.account_id,
        r.ok == (report.open_order_count == 0
            && report.clearinghouse_state.asset_positions@.len() == 0 && reads_zero(
            report.clearinghouse_state.margin_summary.total_ntl_pos@,
        ) && reads_zero(report.clearinghouse_state.margin_summary.total_margin_used@)),
        r.open_order_count == Some(report.open_order_count),
        r.asset_positions is Some,
        r.asset_positions->0 == report.clearinghouse_state.asset_positions@.len(),
        r.position_summaries@ == report.clearinghouse_state.asset_positions@.map_values(
            |p: AssetPosition| summary_of(p),
        ),
        r.account_value == Some(report.clearinghouse_state.margin_summary.account_value),
        r.withdrawable == report.clearinghouse_state.withdrawable,
        r.total_ntl_pos == Some(report.clearinghouse_state.margin_summary.total_ntl_pos),
        r.total_margin_used == Some(report.clearinghouse_state.margin_summary.total_margin_used),
        r.error is None,
{
    let positions: &Vec<AssetPosition> = &report.clearinghouse_state.asset_positions;
    let margin: &MarginSummary = &report.clearinghouse_state.margin_summary;
    let ghost goal = positions@.map_values(|p: AssetPosition| summary_of(p));
    let mut summaries: Vec<CopyBoundedLiveWindowPositionSummary> = Vec::new();
    let mut i: usize = 0;
    while i < positions.len()
        invariant
            i <= positions@.len(),
            goal == positions@.map_values(|p: AssetPosition| summary_of(p)),
            summaries@ == goal.subrange(0, i as int),
        decreases positions@.len() - i,
    {
        summaries.push(
            CopyBoundedLiveWindowPositionSummary {
                coin: positions[i].position.coin.clone(),
                szi: positions[i].position.szi.clone(),
                position_value: clone_opt(&positions[i].position.position_value),
            },
        );
        assert(goal[i as int] == summary_of(positions@[i as int]));
        assert(goal.subrange(0, i as int + 1) =~= goal.subrange(0, i as int).push(goal[i as int]));
        i += 1;
    }
    proof {
        whole(goal);
    }
    let ok: bool = report.open_order_count == 0 && positions.len() == 0 && is_zero_text(
        margin.total_ntl_pos.as_str(),
    ) && is_zero_text(margin.total_margin_used.as_str());
    CopyBoundedLiveWindowReconcile {
        account_id: report.account_id.clone(),
        ok,
        open_order_count: Some(report.open_order_count),
        asset_positions: Some(positions.len()),
        position_summaries: summaries,
        account_value: Some(margin.account_value.clone()),
        withdrawable: clone_opt(&report.clearinghouse_state.withdrawable),
        total_ntl_pos: Some(margin.total_ntl_pos.clone()),
        total_margin_used: Some(margin.total_margin_used.clone()),
        error: None,
    }
}

/// The state of an account that could not be reconciled: nothing is known of it.
pub fn unreadable_reconcile(account_id: &str, error: String) -> (r: CopyBoundedLiveWindowReconcile)
    ensures
        r.account_id@ == account_id@,
        !r.ok,
        r.open_order_count is None,
        r.asset_positions is None,
        r.position_summaries@.len() == 0,
        r.account_value is None,
        r.withdrawable is None,
        r.total_ntl_pos is None,
        r.total_margin_used is None,
        r.error == Some(error),
{
    CopyBoundedLiveWindowReconcile {
        account_id: account_id.to_owned(),
        ok: false,
        open_order_count: None,
        asset_positions: None,
        position_summaries: Vec::new(),
        account_value: None,
        withdrawable: None,
        total_ntl_pos: None,
        total_margin_used: None,
        error: Some(error),
    }
}

/// An account that could not be reconciled is healthy in no mode.
pub proof fn unreadable_is_never_healthy(
    options: CopyLiveDaemonSupervisorOptions,
    r: CopyBoundedLiveWindowReconcile,
)
    requires
        !r.ok,
        r.error is Some,
    ensures
        !healthy(options, r),
{
}

/// What follows a failed reconciliation attempt.
#[derive(Clone, Copy, Debug, PartialEq, Eq, Structural)]
pub enum RetryStep {
    RetryAfterMs(u64),
    GiveUp,
}

/// What follows the failed attempt with the given number, counted from zero.
pub fn reconcile_retry_step(attempt: usize) -> (r: RetryStep)
    ensures
        r == if attempt < COPY_RECONCILE_RETRIES {
            RetryStep::RetryAfterMs(COPY_RECONCILE_RETRY_DELAY_MS)
        } else {
            RetryStep::GiveUp
        },
        attempt < 3 ==> r == RetryStep::RetryAfterMs(1_500),
        attempt >= 3 ==> r == RetryStep::GiveUp,
{
    if attempt < COPY_RECONCILE_RETRIES {
        RetryStep::RetryAfterMs(COPY_RECONCILE_RETRY_DELAY_MS)
    } else {
        RetryStep::GiveUp
    }
}

/// A size within this many trillionths of zero counts as none.
pub const FLAT_SIZE: i128 = 1;

/// The side of the position with the given signed size, unless it is flat.
pub open spec fn position_side(szi: Seq<char>) -> Option<OrderSide> {
    match size_value(szi, 12) {
        Some(x) => if x <= FLAT_SIZE {
            None
        } else if reads_negative(szi) {
            Some(OrderSide::Sell)
        } else {
            Some(OrderSide::Buy)
        },
        None => None,
    }
}

/// The side of the position with the given signed size, unless it is flat.
pub fn copy_live_daemon_local_side_from_position_szi(szi: &str) -> (r: Option<OrderSide>)
    ensures
        r == position_side(szi@),
{
    match parse_size(szi, 12) {
        Some(x) => if x <= FLAT_SIZE {
            None
        } else if is_negative_text(szi) {
            Some(OrderSide::Sell)
        } else {
            Some(OrderSide::Buy)
        },
        None => None,
    }
}

/// The notional of a position that an order of the given side would reduce.
pub open spec fn reducible(p: AssetPosition, coin: Seq<char>, side: OrderSide) -> Option<int> {
    if lower(p.position.coin@) == lower(coin) && position_side(p.position.szi@) == Some(
        opposite(side),
    ) {
        match p.position.position_value {
            Some(v) => amount_worth(v@),
            None => None,
        }
    } else {
        None
    }
}

/// The largest notional among the positions that an order would reduce.
pub open spec fn largest_reducible(
    positions: Seq<AssetPosition>,
    coin: Seq<char>,
    side: OrderSide,
) -> Option<int>
    decreases positions.len(),
{
    if positions.len() == 0 {
        None
    } else {
        let best = largest_reducible(positions.drop_last(), coin, side);
        match reducible(positions.last(), coin, side) {
            None => best,
            Some(x) => match best {
                None => Some(x),
                Some(b) => Some(
                    if x >= b {
                        x
                    } else {
                        b
                    },
                ),
            },
        }
    }
}

/// The local notional that stands behind a plan: that of the position which a
/// reduction reduces, or the plan's own notional where it opens.
pub open spec fn backing(
    positions: Seq<AssetPosition>,
    plan: CopyLiveDaemonWouldSubmitRef,
) -> Option<int> {
    if plan.order.reduce_only {
        largest_reducible(positions, plan.order.coin@, plan.order.side)
    } else {
        Some(floor_zero(plan.order.notional_usd as int))
    }
}

/// The local notional that stands behind a plan.
pub fn copy_live_daemon_reduce_only_matching_position_notional_usd(
    state: &ClearinghouseState,
    plan: &CopyLiveDaemonWouldSubmitRef,
) -> (r: Option<Fixed>)
    ensures
        match backing(state.asset_positions@, *plan) {
            Some(x) => r is Some && r->0 == x && x >= 0,
            None => r is None,
        },
{
    if !plan.order.reduce_only {
        return Some(at_least_zero(plan.order.notional_usd));
    }
    let positions: &Vec<AssetPosition> = &state.asset_positions;
    let side: OrderSide = opposite_order_side(plan.order.side);
    let mut best: Option<Fixed> = None;
    let mut i: usize = 0;
    while i < positions.len()
        invariant
            i <= positions@.len(),
            side == opposite(plan.order.side),
            match largest_reducible(
                positions@.subrange(0, i as int),
                plan.order.coin@,
                plan.order.side,
            ) {
                Some(x) => best is Some && best->0 == x && x >= 0,
                None => best is None,
            },
        decreases positions@.len() - i,
    {
        assert(positions@.subrange(0, i as int + 1).drop_last() =~= positions@.subrange(
            0,
            i as int,
        ));
        let p: &PerpPosition = &positions[i].position;
        if same_text_ignoring_case(p.coin.as_str(), plan.order.coin.as_str()) {
            match copy_live_daemon_local_side_from_position_szi(p.szi.as_str()) {
                Some(held_side) => {
                    if held_side == side {
                        match &p.position_value {
                            Some(v) => {
                                match parse_amount_worth(v.as_str()) {
                                    Some(m) => {
                                        best = match best {
                                            Some(b) => if m >= b {
                                                Some(m)
                                            } else {
                                                Some(b)
                                            },
                                            None => Some(m),
                                        };
                                    },
                                    None => {},
                                }
                            },
                            None => {},
                        }
                    }
                },
                None => {},
            }
        }
        i += 1;
    }
    proof {
        whole(positions@);
    }
    best
}

/// Whether a local position stands behind a plan.
pub fn copy_live_daemon_reduce_only_ref_has_matching_position(
    state: &ClearinghouseState,
    plan: &CopyLiveDaemonWouldSubmitRef,
) -> (r: bool)
    ensures
        r == match backing(state.asset_positions@, *plan) {
            Some(x) => x > 0,
            None => false,
        },
{
    match copy_live_daemon_reduce_only_matching_position_notional_usd(state, plan) {
        Some(x) => x > 0,
        None => false,
    }
}

/// The largest exposure is at least the exposure of every account that has a
/// readable one, is one of these unless it is zero, and is known exactly where
/// some account has a readable one.
pub proof fn the_largest_exposure_bounds_every_account(s: Seq<CopyBoundedLiveWindowReconcile>)
    ensures
        forall|i: int|
            0 <= i < s.len() && (#[trigger] s[i]).total_ntl_pos is Some && amount_size(
                s[i].total_ntl_pos->0@,
            ) is Some ==> amount_size(s[i].total_ntl_pos->0@)->0 <= max_exposure(s),
        max_exposure(s) == 0 || exists|i: int|
            0 <= i < s.len() && (#[trigger] s[i]).total_ntl_pos is Some && amount_size(
                s[i].total_ntl_pos->0@,
            ) == Some(max_exposure(s)),
        some_exposure(s) <==> exists|i: int|
            0 <= i < s.len() && (#[trigger] s[i]).total_ntl_pos is Some && amount_size(
                s[i].total_ntl_pos->0@,
            ) is Some,
    decreases s.len(),
{
    if s.len() > 0 {
        let t = s.drop_last();
        let r = s.last();
        the_largest_exposure_bounds_every_account(t);
        assert(s[s.len() - 1] == r);
        assert forall|i: int|
            0 <= i < s.len() && (#[trigger] s[i]).total_ntl_pos is Some && amount_size(
                s[i].total_ntl_pos->0@,
            ) is Some implies amount_size(s[i].total_ntl_pos->0@)->0 <= max_exposure(s) by {
            if i < t.len() {
                assert(t[i] == s[i]);
            }
        }
        if max_exposure(s) == max_exposure(t) {
            if max_exposure(t) != 0 {
                let i = choose|i: int|
                    0 <= i < t.len() && (#[trigger] t[i]).total_ntl_pos is Some && amount_size(
                        t[i].total_ntl_pos->0@,
                    ) == Some(max_exposure(t));
                assert(s[i] == t[i]);
            }
        }
    }
    if some_exposure(s) {
        let i = choose|i: int| 0 <= i < s.len() && exposure(#[trigger] s[i]) is Some;
        assert(s[i].total_ntl_pos is Some);
    }
    if exists|i: int|
        0 <= i < s.len() && (#[trigger] s[i]).total_ntl_pos is Some && amount_size(
            s[i].total_ntl_pos->0@,
        ) is Some {
        let i = choose|i: int|
            0 <= i < s.len() && (#[trigger] s[i]).total_ntl_pos is Some && amount_size(
                s[i].total_ntl_pos->0@,
            ) is Some;
        assert(exposure(s[i]) is Some);
    }
}

/// The accounts of a window are in order exactly where there is one and each of
/// them is: where positions are held it was read, has no open orders, and its
/// exposure is known and within the cap up to a millionth; otherwise it is flat.
pub proof fn health_is_the_health_of_every_account(
    options: CopyLiveDaemonSupervisorOptions,
    s: Seq<CopyBoundedLiveWindowReconcile>,
)
    ensures
        all_healthy(options, s) && options.hold_positions_after_submit <==> s.len() > 0
            && options.hold_positions_after_submit && forall|i: int|
            0 <= i < s.len() ==> (#[trigger] s[i]).error is None && s[i].open_order_count
                == Some(0usize) && s[i].total_ntl_pos is Some && amount_size(
                s[i].total_ntl_pos->0@,
            ) is Some && amount_size(s[i].total_ntl_pos->0@)->0 <= options.max_total_notional_usd
                + 1000,
        all_healthy(options, s) && !options.hold_positions_after_submit <==> s.len() > 0
            && !options.hold_positions_after_submit && forall|i: int|
            0 <= i < s.len() ==> (#[trigger] s[i]).ok,
        ready_for_reduce(s) <==> s.len() > 0 && forall|i: int|
            0 <= i < s.len() ==> (#[trigger] s[i]).error is None && s[i].open_order_count == Some(
                0usize,
            ),
{
    if all_healthy(options, s) {
        assert forall|i: int| 0 <= i < s.len() implies healthy(options, #[trigger] s[i]) by {}
    }
    if ready_for_reduce(s) {
        assert forall|i: int| 0 <= i < s.len() implies (#[trigger] s[i]).open_order_count == Some(
            0usize,
        ) by {
            assert(no_open_orders()(s[i]));
        }
    }
}

/// A position is long where its size is a number above a trillionth, short where
/// it is one below minus a trillionth, and otherwise flat.
pub proof fn sides_follow_the_sign_of_the_size(szi: Seq<char>)
    ensures
        position_side(szi) == Some(OrderSide::Buy) <==> read_decimal(szi) is Some && !read_decimal(
            szi,
        )->0.negative && ceiling_value(
            read_decimal(szi)->0.digits,
            read_decimal(szi)->0.point + 12,
        ) > 1,
        position_side(szi) == Some(OrderSide::Sell) <==> read_decimal(szi) is Some && read_decimal(
            szi,
        )->0.negative && ceiling_value(
            read_decimal(szi)->0.digits,
            read_decimal(szi)->0.point + 12,
        ) > 1,
{
}

/// A reduction is backed by the position it faces, and an opening by itself: a
/// position backs a reduction exactly where it is of the same coin, on the other
/// side, and has a readable notional; of several the largest counts.
pub proof fn backing_is_the_largest_position_faced(
    positions: Seq<AssetPosition>,
    at: AssetPosition,
    plan: CopyLiveDaemonWouldSubmitRef,
)
    ensures
        !plan.order.reduce_only && plan.order.notional_usd >= 0 ==> backing(positions, plan)
            == Some(plan.order.notional_usd as int),
        !plan.order.reduce_only && plan.order.notional_usd < 0 ==> backing(positions, plan)
            == Some(0int),
        plan.order.reduce_only ==> backing(Seq::empty(), plan) is None,
        plan.order.reduce_only ==> backing(positions.push(at), plan) == (if lower(
            at.position.coin@,
        ) == lower(plan.order.coin@) && position_side(at.position.szi@) is Some && position_side(
            at.position.szi@,
        ) != Some(plan.order.side) && at.position.position_value is Some && amount_worth(
            at.position.position_value->0@,
        ) is Some && (backing(positions, plan) is None || amount_worth(
            at.position.position_value->0@,
        )->0 > backing(positions, plan)->0) {
            amount_worth(at.position.position_value->0@)
        } else {
            backing(positions, plan)
        }),
{
    assert(positions.push(at).drop_last() =~= positions);
}

/// A position is on the side of its sign, and there is none where its size is no
/// more than a trillionth.
pub proof fn a_position_is_on_the_side_of_its_sign(sign: Seq<char>, w: Seq<char>, f: Seq<char>)
    requires
        is_sign(sign),
        all_digits(w),
        all_digits(f),
        w.len() + f.len() > 0,
        f.len() <= 12,
    ensures
        ({
            let m = digits_value(w) * pow10(12) + digits_value(f) * pow10((12 - f.len()) as nat);
            let side = position_side(sign + (w + (seq!['.'] + f)));
            &&& m <= 1 ==> side is None
            &&& m > 1 && sign == seq!['-'] ==> side == Some(OrderSide::Sell)
            &&& m > 1 && sign != seq!['-'] ==> side == Some(OrderSide::Buy)
        }),
{
    a_decimal_has_the_value_of_its_digits(sign, w, f, 12);
    let x = Seq::<char>::empty();
    a_decimal_is_read_as_written(sign, w, f, x, 0);
    assert(f + x =~= f);
}

/// The summary of a position names its coin and keeps its size and value as they
/// were reported, so that it is on the same side.
pub proof fn a_summary_keeps_its_position(p: AssetPosition)
    ensures
        summary_of(p).coin@ == p.position.coin@,
        summary_of(p).szi@ == p.position.szi@,
        summary_of(p).position_value == p.position.position_value,
        position_side(summary_of(p).szi@) == position_side(p.position.szi@),
{
}

/// A figure counts as zero exactly where it is read and is no more than a
/// billionth, on either side.
pub proof fn only_figures_near_zero_read_as_zero(sign: Seq<char>, w: Seq<char>, f: Seq<char>)
    requires
        is_sign(sign),
        all_digits(w),
        all_digits(f),
        w.len() + f.len() > 0,
        f.len() <= 9,
    ensures
        reads_zero(sign + (w + (seq!['.'] + f))) <==> digits_value(w) * pow10(9) + digits_value(f)
            * pow10((9 - f.len()) as nat) <= 1,
        forall|s: Seq<char>| read_decimal(s) is None ==> !#[trigger] reads_zero(s),
{
    a_decimal_has_the_value_of_its_digits(sign, w, f, 9);
}

} // verus!
