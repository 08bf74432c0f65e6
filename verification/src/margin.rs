//! Opening margin: what new positions need, and what an account can afford.
//!
//! A position takes a tenth of its notional as margin, with a buffer of a tenth
//! on top, and a thousandth of its notional for fees: 111 thousandths in all.
//! Margins count in trillionths of a dollar, in which this ratio is exact.

use vstd::prelude::*;

use crate::decimal::{
    at_least_zero, decimal_value, fixed6, floor_zero, parse_decimal, push_fixed6, push_total6,
    Fixed, Total, WIDE_MAX,
};
use crate::ledger::HYPERLIQUID_MIN_ORDER_NOTIONAL_USD;
use crate::plan::{
    held, opened_by, push_held, reduces, CopyExecutionCanaryWouldSubmit,
    CopyLiveDaemonSuppressedWouldSubmitRef, CopyLiveDaemonWouldSubmitRef, HeldPlan,
};
use crate::reconcile::CopyBoundedLiveWindowReconcile;
use crate::seqs::{total, total_concat, total_not_negative, total_push, total_step, whole};
use crate::tally::{Slot, SlotKey, Tally};
use crate::text::{join, joined, list_has, lists, texts};

verus! {

/// What an account can withdraw, in trillionths of a dollar, where it can be
/// read.
pub open spec fn withdrawable(r: CopyBoundedLiveWindowReconcile) -> Option<int> {
    match r.withdrawable {
        Some(t) => decimal_value(t@, 12),
        None => None,
    }
}

fn withdrawable_of(r: &CopyBoundedLiveWindowReconcile) -> (x: Option<i128>)
    ensures
        match withdrawable(*r) {
            Some(v) => x is Some && x->0 == v && -WIDE_MAX <= v <= WIDE_MAX,
            None => x is None,
        },
{
    match &r.withdrawable {
        Some(t) => parse_decimal(t.as_str(), 12),
        None => None,
    }
}

/// A number of trillionths in billionths; what is less than a billionth is cut
/// off.
pub open spec fn to_billionths(x: int) -> int {
    if x < 0 {
        -((-x) / 1000)
    } else {
        x / 1000
    }
}

fn in_billionths(x: i128) -> (r: Total)
    requires
        -WIDE_MAX <= x <= WIDE_MAX,
    ensures
        r == to_billionths(x as int),
{
    if x < 0 {
        -((-x) / 1000)
    } else {
        x / 1000
    }
}

/// The margin that each account has to spend, in trillionths of a dollar.
/// Where an account occurs twice the later figure counts.
pub open spec fn margins(s: Seq<CopyBoundedLiveWindowReconcile>) -> Map<Slot, int>
    decreases s.len(),
{
    if s.len() == 0 {
        Map::empty()
    } else {
        let before = margins(s.drop_last());
        match withdrawable(s.last()) {
            Some(x) => before.insert(
                Slot::Account(s.last().account_id@),
                floor_zero(x),
            ),
            None => before,
        }
    }
}

/// How far a list of plans was fitted to the margin.
pub struct Fitted {
    pub prepared: Seq<CopyLiveDaemonWouldSubmitRef>,
    pub suppressed: Seq<HeldPlan>,
    pub left: Map<Slot, int>,
}

/// A plan with another notional.
pub open spec fn resized(p: CopyLiveDaemonWouldSubmitRef, notional: int) -> CopyLiveDaemonWouldSubmitRef {
    CopyLiveDaemonWouldSubmitRef {
        order: CopyExecutionCanaryWouldSubmit {
            notional_usd: notional as Fixed,
            ..p.order
        },
        ..p
    }
}

/// A plan whose account has no known margin.
pub open spec fn margin_unavailable(p: CopyLiveDaemonWouldSubmitRef) -> HeldPlan {
    HeldPlan {
        plan: p,
        reason_code: "COPY_DAEMON_MARGIN_UNAVAILABLE"@,
        message: p.order.account_id@
            + " withdrawable unavailable; cannot prove opening margin for "@ + fixed6(
            p.order.notional_usd as int,
        ) + " notional"@,
    }
}

/// A plan for which the margin does not reach the exchange minimum.
pub open spec fn margin_too_small(p: CopyLiveDaemonWouldSubmitRef, left: int) -> HeldPlan {
    HeldPlan {
        plan: p,
        reason_code: "COPY_DAEMON_MARGIN_RESIZED_BELOW_MIN"@,
        message: p.order.account_id@ + " withdrawable="@ + fixed6(left / 1000)
            + " supports resized_notional="@ + fixed6(left / 111)
            + ", below exchange minimum "@ + fixed6(HYPERLIQUID_MIN_ORDER_NOTIONAL_USD as int)
            + "; requested_notional="@ + fixed6(floor_zero(p.order.notional_usd as int)),
    }
}

/// What is left of `left` after `spent`.
pub open spec fn after_spending(left: int, spent: int) -> int {
    floor_zero(left - spent)
}

/// Fitting one more plan. Reductions pass as they are. An opening plan passes
/// where the margin suffices; otherwise it shrinks to what the margin affords,
/// or is held back where that is too small for the exchange.
pub open spec fn fit_step(st: Fitted, p: CopyLiveDaemonWouldSubmitRef) -> Fitted {
    let slot = Slot::Account(p.order.account_id@);
    let wanted = floor_zero(p.order.notional_usd as int);
    if p.order.reduce_only {
        Fitted { prepared: st.prepared.push(p), ..st }
    } else if !st.left.dom().contains(slot) {
        Fitted { suppressed: st.suppressed.push(margin_unavailable(p)), ..st }
    } else if st.left[slot] + 1000 >= wanted * 111 {
        Fitted {
            prepared: st.prepared.push(p),
            left: st.left.insert(slot, after_spending(st.left[slot], wanted * 111)),
            ..st
        }
    } else if st.left[slot] / 111 + 1 < HYPERLIQUID_MIN_ORDER_NOTIONAL_USD {
        Fitted { suppressed: st.suppressed.push(margin_too_small(p, st.left[slot])), ..st }
    } else {
        let notional = if st.left[slot] / 111 < wanted {
            st.left[slot] / 111
        } else {
            wanted
        };
        Fitted {
            prepared: st.prepared.push(resized(p, notional)),
            left: st.left.insert(slot, after_spending(st.left[slot], notional * 110)),
            ..st
        }
    }
}

/// The first `n` plans of a list, fitted to the margin.
pub open spec fn fitted_upto(
    refs: Seq<CopyLiveDaemonWouldSubmitRef>,
    s: Seq<CopyBoundedLiveWindowReconcile>,
    n: int,
) -> Fitted
    decreases n,
{
    if n <= 0 {
        Fitted { prepared: Seq::empty(), suppressed: Seq::empty(), left: margins(s) }
    } else {
        fit_step(fitted_upto(refs, s, n - 1), refs[n - 1])
    }
}

/// A list of plans, fitted to the margin.
pub open spec fn fitted(
    refs: Seq<CopyLiveDaemonWouldSubmitRef>,
    s: Seq<CopyBoundedLiveWindowReconcile>,
) -> Fitted {
    fitted_upto(refs, s, refs.len() as int)
}

/// Whether no account has a negative margin, or one out of range.
pub open spec fn margins_in_range(m: Map<Slot, int>) -> bool {
    forall|s: Slot| #[trigger] m.dom().contains(s) ==> 0 <= m[s] <= WIDE_MAX
}

fn read_margins(v: &Vec<CopyBoundedLiveWindowReconcile>) -> (r: Tally)
    ensures
        r.wf(),
        r@ == margins(v@),
        margins_in_range(r@),
{
    let mut r: Tally = Tally::new();
    let mut i: usize = 0;
    while i < v.len()
        invariant
            i <= v@.len(),
            r.wf(),
            r@ == margins(v@.subrange(0, i as int)),
            margins_in_range(r@),
        decreases v@.len() - i,
    {
        assert(v@.subrange(0, i as int + 1).drop_last() =~= v@.subrange(0, i as int));
        match withdrawable_of(&v[i]) {
            Some(x) => {
                r.put(
                    SlotKey::Account(v[i].account_id.clone()),
                    if x < 0 {
                        0
                    } else {
                        x
                    },
                );
            },
            None => {},
        }
        i += 1;
    }
    proof {
        whole(v@);
    }
    r
}

fn too_small_message(p: &CopyLiveDaemonWouldSubmitRef, left: i128) -> (r: String)
    requires
        0 <= left <= WIDE_MAX,
    ensures
        r@ == margin_too_small(*p, left as int).message,
{
    let mut m: String = p.order.account_id.clone();
    m.append(" withdrawable=");
    push_total6(&mut m, left / 1000);
    m.append(" supports resized_notional=");
    push_total6(&mut m, left / 111);
    m.append(", below exchange minimum ");
    push_fixed6(&mut m, HYPERLIQUID_MIN_ORDER_NOTIONAL_USD);
    m.append("; requested_notional=");
    push_fixed6(&mut m, at_least_zero(p.order.notional_usd));
    m
}

/// Fits the plans of a window to the margin of their accounts, in order.
pub fn copy_live_daemon_resize_open_refs_for_margin(
    refs: &Vec<CopyLiveDaemonWouldSubmitRef>,
    reconciliations: &Vec<CopyBoundedLiveWindowReconcile>,
) -> (r: (Vec<CopyLiveDaemonWouldSubmitRef>, Vec<CopyLiveDaemonSuppressedWouldSubmitRef>))
    ensures
        r.0@ == fitted(refs@, reconciliations@).prepared,
        held(r.1@) == fitted(refs@, reconciliations@).suppressed,
{
    let mut prepared: Vec<CopyLiveDaemonWouldSubmitRef> = Vec::new();
    let mut suppressed: Vec<CopyLiveDaemonSuppressedWouldSubmitRef> = Vec::new();
    let mut left: Tally = read_margins(reconciliations);
    let mut i: usize = 0;
    assert(held(suppressed@) =~= Seq::empty());
    while i < refs.len()
        invariant
            i <= refs@.len(),
            left.wf(),
            margins_in_range(left@),
            prepared@ == fitted_upto(refs@, reconciliations@, i as int).prepared,
            held(suppressed@) == fitted_upto(refs@, reconciliations@, i as int).suppressed,
            left@ == fitted_upto(refs@, reconciliations@, i as int).left,
        decreases refs@.len() - i,
    {
        let p: &CopyLiveDaemonWouldSubmitRef = &refs[i];
        if p.order.reduce_only {
            prepared.push(p.clone());
        } else {
            let key: SlotKey = SlotKey::Account(p.order.account_id.clone());
            match left.get(&key) {
                None => {
                    let mut m: String = p.order.account_id.clone();
                    m.append(" withdrawable unavailable; cannot prove opening margin for ");
                    push_fixed6(&mut m, p.order.notional_usd);
                    m.append(" notional");
                    push_held(&mut suppressed, p.clone(), "COPY_DAEMON_MARGIN_UNAVAILABLE", m);
                },
                Some(have) => {
                    let wanted: i128 = at_least_zero(p.order.notional_usd) as i128;
                    if have + 1000 >= wanted * 111 {
                        let rest: i128 = if have > wanted * 111 {
                            have - wanted * 111
                        } else {
                            0
                        };
                        left.put(key, rest);
                        prepared.push(p.clone());
                    } else if have / 111 + 1 < HYPERLIQUID_MIN_ORDER_NOTIONAL_USD as i128 {
                        push_held(
                            &mut suppressed,
                            p.clone(),
                            "COPY_DAEMON_MARGIN_RESIZED_BELOW_MIN",
                            too_small_message(p, have),
                        );
                    } else {
                        let notional: i128 = if have / 111 < wanted {
                            have / 111
                        } else {
                            wanted
                        };
                        let mut q: CopyLiveDaemonWouldSubmitRef = p.clone();
                        q.order.notional_usd = notional as i64;
                        let rest: i128 = if have > notional * 110 {
                            have - notional * 110
                        } else {
                            0
                        };
                        left.put(key, rest);
                        prepared.push(q);
                        assert(q == resized(*p, notional as int));
                    }
                },
            }
        }
        i += 1;
    }
    (prepared, suppressed)
}

/// Whether two plans differ at most in their notional.
pub open spec fn same_but_notional(
    a: CopyLiveDaemonWouldSubmitRef,
    b: CopyLiveDaemonWouldSubmitRef,
) -> bool {
    a == resized(b, a.order.notional_usd as int)
}

proof fn margins_positive(s: Seq<CopyBoundedLiveWindowReconcile>)
    ensures
        margins_in_range(margins(s)),
    decreases s.len(),
{
    if s.len() > 0 {
        margins_positive(s.drop_last());
    }
}

proof fn fitted_upto_facts(
    refs: Seq<CopyLiveDaemonWouldSubmitRef>,
    s: Seq<CopyBoundedLiveWindowReconcile>,
    n: int,
)
    requires
        0 <= n <= refs.len(),
    ensures
        ({
            let st = fitted_upto(refs, s, n);
            &&& st.prepared.len() + st.suppressed.len() == n
            &&& margins_in_range(st.left)
            &&& st.left.dom() == margins(s).dom()
            &&& forall|a: Slot| #[trigger]
                st.left.dom().contains(a) ==> st.left[a] <= margins(s)[a]
            &&& st.prepared.filter(reduces()) == refs.subrange(0, n).filter(reduces())
            &&& forall|i: int|
                0 <= i < st.prepared.len() ==> exists|k: int|
                    0 <= k < n && same_but_notional(#[trigger] st.prepared[i], #[trigger] refs[k])
                        && floor_zero(st.prepared[i].order.notional_usd as int) <= floor_zero(
                        refs[k].order.notional_usd as int,
                    )
            &&& forall|i: int|
                0 <= i < st.suppressed.len() ==> !(#[trigger] st.suppressed[i]).plan.order.reduce_only
        }),
    decreases n,
{
    reveal(Seq::filter);
    if n <= 0 {
        margins_positive(s);
        assert(refs.subrange(0, 0) =~= Seq::empty());
    } else {
        fitted_upto_facts(refs, s, n - 1);
        let st = fitted_upto(refs, s, n - 1);
        let nx = fitted_upto(refs, s, n);
        let p = refs[n - 1];
        let slot = Slot::Account(p.order.account_id@);
        assert(refs.subrange(0, n).drop_last() =~= refs.subrange(0, n - 1));
        if nx.prepared.len() > st.prepared.len() {
            assert(nx.prepared.drop_last() =~= st.prepared);
            assert forall|i: int| 0 <= i < nx.prepared.len() implies exists|k: int|
                0 <= k < n && same_but_notional(#[trigger] nx.prepared[i], #[trigger] refs[k])
                    && floor_zero(nx.prepared[i].order.notional_usd as int) <= floor_zero(
                    refs[k].order.notional_usd as int,
                ) by {
                if i < st.prepared.len() {
                    assert(nx.prepared[i] == st.prepared[i]);
                    let k = choose|k: int|
                        0 <= k < n - 1 && same_but_notional(
                            #[trigger] st.prepared[i],
                            #[trigger] refs[k],
                        ) && floor_zero(st.prepared[i].order.notional_usd as int) <= floor_zero(
                            refs[k].order.notional_usd as int,
                        );
                    assert(same_but_notional(nx.prepared[i], refs[k]));
                } else {
                    assert(same_but_notional(nx.prepared[i], refs[n - 1]));
                }
            }
        }
        assert(nx.left.dom() =~= st.left.dom());
        if st.left.dom().contains(slot) {
            assert(0 <= st.left[slot]);
        }
    }
}

/// Fitting to the margin places every plan, never raises a notional, leaves
/// reductions as they are and in order, and holds none of them back.
pub proof fn fitting_never_raises_and_keeps_reductions(
    refs: Seq<CopyLiveDaemonWouldSubmitRef>,
    s: Seq<CopyBoundedLiveWindowReconcile>,
)
    ensures
        ({
            let st = fitted(refs, s);
            &&& st.prepared.len() + st.suppressed.len() == refs.len()
            &&& st.prepared.filter(reduces()) == refs.filter(reduces())
            &&& forall|i: int|
                0 <= i < st.prepared.len() ==> exists|k: int|
                    0 <= k < refs.len() && same_but_notional(
                        #[trigger] st.prepared[i],
                        #[trigger] refs[k],
                    ) && floor_zero(st.prepared[i].order.notional_usd as int) <= floor_zero(
                        refs[k].order.notional_usd as int,
                    )
            &&& forall|i: int|
                0 <= i < st.suppressed.len()
                    ==> !(#[trigger] st.suppressed[i]).plan.order.reduce_only
        }),
{
    fitted_upto_facts(refs, s, refs.len() as int);
    whole(refs);
}

/// Fitting never spends more margin than an account has: what is left is never
/// negative, and never more than there was.
pub proof fn fitting_never_overspends(
    refs: Seq<CopyLiveDaemonWouldSubmitRef>,
    s: Seq<CopyBoundedLiveWindowReconcile>,
    account: Seq<char>,
)
    requires
        margins(s).dom().contains(Slot::Account(account)),
    ensures
        fitted(refs, s).left.dom().contains(Slot::Account(account)),
        0 <= fitted(refs, s).left[Slot::Account(account)] <= margins(s)[Slot::Account(account)],
{
    fitted_upto_facts(refs, s, refs.len() as int);
}

/// The notional that a plan opens in an account.
pub open spec fn opened_in(account: Seq<char>) -> spec_fn(CopyLiveDaemonWouldSubmitRef) -> int {
    |p: CopyLiveDaemonWouldSubmitRef|
        if p.order.account_id@ == account {
            opened_by(p.order)
        } else {
            0
        }
}

/// The accounts in which a list of plans opens positions, in order of first
/// appearance.
pub open spec fn opening_accounts(refs: Seq<CopyLiveDaemonWouldSubmitRef>) -> Seq<Seq<char>>
    decreases refs.len(),
{
    if refs.len() == 0 {
        Seq::empty()
    } else {
        let before = opening_accounts(refs.drop_last());
        let a = refs.last().order.account_id@;
        if refs.last().order.reduce_only || before.contains(a) {
            before
        } else {
            before.push(a)
        }
    }
}

/// The margin that a notional needs, in billionths and rounded up.
pub open spec fn required_margin(notional: int) -> int {
    (notional * 111 + 999) / 1000
}

/// The margin that the plans of a list need in an account.
pub open spec fn account_requirement(
    refs: Seq<CopyLiveDaemonWouldSubmitRef>,
    account: Seq<char>,
) -> int {
    required_margin(total(refs, opened_in(account)))
}

/// The margin that an account needs for the plans of a window.
#[derive(Debug)]
pub struct OpenMarginRequirement {
    pub account_id: String,
    pub required: Total,
}

/// What the requirements of a window say: for each account that opens a
/// position, in order of first appearance, the margin that it needs.
pub open spec fn requirements_match(
    v: Seq<OpenMarginRequirement>,
    refs: Seq<CopyLiveDaemonWouldSubmitRef>,
) -> bool {
    &&& v.len() == opening_accounts(refs).len()
    &&& forall|i: int|
        0 <= i < v.len() ==> (#[trigger] v[i]).account_id@ == opening_accounts(refs)[i]
            && v[i].required == account_requirement(refs, v[i].account_id@)
}

fn open_accounts(refs: &Vec<CopyLiveDaemonWouldSubmitRef>) -> (r: Vec<String>)
    ensures
        texts(r@) == opening_accounts(refs@),
{
    let mut r: Vec<String> = Vec::new();
    let mut i: usize = 0;
    assert(texts(r@) =~= Seq::empty());
    while i < refs.len()
        invariant
            i <= refs@.len(),
            texts(r@) == opening_accounts(refs@.subrange(0, i as int)),
        decreases refs@.len() - i,
    {
        assert(refs@.subrange(0, i as int + 1).drop_last() =~= refs@.subrange(0, i as int));
        let ghost a = refs@[i as int].order.account_id@;
        proof {
            assert(lists(r@, a) <==> texts(r@).contains(a)) by {
                if lists(r@, a) {
                    let k = choose|k: int| 0 <= k < r@.len() && (#[trigger] r@[k])@ == a;
                    assert(texts(r@)[k] == a);
                }
                if texts(r@).contains(a) {
                    let k = choose|k: int| 0 <= k < texts(r@).len() && texts(r@)[k] == a;
                    assert(r@[k]@ == a);
                }
            }
        }
        if !refs[i].order.reduce_only && !list_has(&r, refs[i].order.account_id.as_str()) {
            let ghost before = texts(r@);
            r.push(refs[i].order.account_id.clone());
            assert(texts(r@) =~= before.push(a));
        }
        i += 1;
    }
    proof {
        whole(refs@);
    }
    r
}

fn opened_in_account(refs: &Vec<CopyLiveDaemonWouldSubmitRef>, account: &String) -> (r: i128)
    ensures
        r == total(refs@, opened_in(account@)),
        0 <= r <= 0x7fff_ffff_ffff_ffff * refs@.len(),
{
    let mut sum: i128 = 0;
    let mut i: usize = 0;
    while i < refs.len()
        invariant
            i <= refs@.len(),
            sum == total(refs@.subrange(0, i as int), opened_in(account@)),
            0 <= sum <= 0x7fff_ffff_ffff_ffff * i,
        decreases refs@.len() - i,
    {
        proof {
            total_step(refs@, opened_in(account@), i as int);
        }
        if !refs[i].order.reduce_only && refs[i].order.account_id == *account {
            sum = sum + at_least_zero(refs[i].order.notional_usd) as i128;
        }
        i += 1;
    }
    proof {
        whole(refs@);
    }
    sum
}

fn margin_for(notional: Total) -> (r: Total)
    requires
        notional >= 0,
    ensures
        r == required_margin(notional as int),
{
    notional / 1000 * 111 + (notional % 1000 * 111 + 999) / 1000
}

/// The margin that each account needs for the plans of a window.
pub fn copy_live_daemon_open_margin_requirements(
    executable_refs: &Vec<CopyLiveDaemonWouldSubmitRef>,
) -> (r: Vec<OpenMarginRequirement>)
    ensures
        requirements_match(r@, executable_refs@),
{
    let accounts: Vec<String> = open_accounts(executable_refs);
    let mut r: Vec<OpenMarginRequirement> = Vec::new();
    let mut i: usize = 0;
    assert(texts(accounts@).len() == accounts@.len());
    while i < accounts.len()
        invariant
            i <= accounts@.len(),
            r@.len() == i,
            texts(accounts@) == opening_accounts(executable_refs@),
            forall|k: int|
                0 <= k < i ==> (#[trigger] r@[k]).account_id@ == opening_accounts(
                    executable_refs@,
                )[k] && r@[k].required == account_requirement(
                    executable_refs@,
                    r@[k].account_id@,
                ),
        decreases accounts@.len() - i,
    {
        assert(texts(accounts@)[i as int] == accounts@[i as int]@);
        let sum: i128 = opened_in_account(executable_refs, &accounts[i]);
        r.push(
            OpenMarginRequirement { account_id: accounts[i].clone(), required: margin_for(sum) },
        );
        i += 1;
    }
    r
}

/// What the first account with the given id can withdraw.
pub open spec fn available_from(
    s: Seq<CopyBoundedLiveWindowReconcile>,
    account: Seq<char>,
    i: int,
) -> Option<int>
    decreases s.len() - i,
{
    if i < 0 || i >= s.len() {
        None
    } else if s[i].account_id@ == account {
        withdrawable(s[i])
    } else {
        available_from(s, account, i + 1)
    }
}

/// Whether an account can afford the margin for a notional, up to a billionth
/// of a dollar.
pub open spec fn affordable(available: Option<int>, notional: int) -> bool {
    match available {
        Some(x) => x + 1000 >= notional * 111,
        None => false,
    }
}

/// The line that compares what an account has with what a notional needs.
pub open spec fn margin_line(account: Seq<char>, available: Option<int>, notional: int) -> Seq<char> {
    let required = required_margin(notional);
    match available {
        Some(x) => if affordable(available, notional) {
            account + " withdrawable="@ + fixed6(to_billionths(x))
                + " >= required_open_margin="@ + fixed6(required)
        } else {
            account + " withdrawable="@ + fixed6(to_billionths(x)) + " < required_open_margin="@
                + fixed6(required)
        },
        None => account + " withdrawable unavailable; cannot prove required_open_margin="@
            + fixed6(required),
    }
}

/// The lines that compare what each account has with what it needs.
pub open spec fn margin_lines(
    refs: Seq<CopyLiveDaemonWouldSubmitRef>,
    s: Seq<CopyBoundedLiveWindowReconcile>,
) -> Seq<Seq<char>> {
    opening_accounts(refs).map_values(
        |a: Seq<char>|
            margin_line(a, available_from(s, a, 0), total(refs, opened_in(a))),
    )
}

/// Whether every account can afford the plans of a window.
pub open spec fn margin_ok(
    refs: Seq<CopyLiveDaemonWouldSubmitRef>,
    s: Seq<CopyBoundedLiveWindowReconcile>,
) -> bool {
    forall|i: int|
        0 <= i < opening_accounts(refs).len() ==> affordable(
            available_from(s, #[trigger] opening_accounts(refs)[i], 0),
            total(refs, opened_in(opening_accounts(refs)[i])),
        )
}

/// The line that says whether the accounts can afford the plans of a window.
pub open spec fn margin_detail(
    refs: Seq<CopyLiveDaemonWouldSubmitRef>,
    s: Seq<CopyBoundedLiveWindowReconcile>,
) -> Seq<char> {
    if opening_accounts(refs).len() == 0 {
        "no open/increase notional in executable plan; reduce-only closes do not require opening margin"@
    } else {
        "opening margin precheck uses notional/10x plus 10% buffer and fee estimate: "@ + joined(
            margin_lines(refs, s),
            "; "@,
        )
    }
}

/// Whether the accounts of a window can afford its plans, and why.
#[derive(Debug)]
pub struct CopyLiveDaemonOpenMarginCheck {
    pub ok: bool,
    pub detail: String,
}

fn available_for(v: &Vec<CopyBoundedLiveWindowReconcile>, account: &String) -> (r: Option<i128>)
    ensures
        match available_from(v@, account@, 0) {
            Some(x) => r is Some && r->0 == x && -WIDE_MAX <= x <= WIDE_MAX,
            None => r is None,
        },
{
    let mut i: usize = 0;
    while i < v.len()
        invariant
            i <= v@.len(),
            available_from(v@, account@, 0) == available_from(v@, account@, i as int),
        decreases v@.len() - i,
    {
        if v[i].account_id == *account {
            return withdrawable_of(&v[i]);
        }
        i += 1;
    }
    None
}

/// Whether the accounts of a window can afford its plans.
pub fn copy_live_daemon_open_margin_check(
    executable_refs: &Vec<CopyLiveDaemonWouldSubmitRef>,
    reconciliations: &Vec<CopyBoundedLiveWindowReconcile>,
) -> (r: CopyLiveDaemonOpenMarginCheck)
    ensures
        r.ok == margin_ok(executable_refs@, reconciliations@),
        r.detail@ == margin_detail(executable_refs@, reconciliations@),
{
    let requirements: Vec<OpenMarginRequirement> = copy_live_daemon_open_margin_requirements(
        executable_refs,
    );
    let ghost accounts = opening_accounts(executable_refs@);
    let ghost goal = margin_lines(executable_refs@, reconciliations@);
    if requirements.len() == 0 {
        return CopyLiveDaemonOpenMarginCheck {
            ok: true,
            detail: "no open/increase notional in executable plan; reduce-only closes do not require opening margin".to_owned(),
        };
    }
    let mut lines: Vec<String> = Vec::new();
    let mut ok: bool = true;
    let mut i: usize = 0;
    assert(texts(lines@) =~= goal.subrange(0, 0));
    while i < requirements.len()
        invariant
            i <= requirements@.len() == accounts.len(),
            accounts == opening_accounts(executable_refs@),
            goal == margin_lines(executable_refs@, reconciliations@),
            requirements_match(requirements@, executable_refs@),
            texts(lines@) == goal.subrange(0, i as int),
            ok == (forall|k: int|
                0 <= k < i ==> affordable(
                    available_from(reconciliations@, #[trigger] accounts[k], 0),
                    total(executable_refs@, opened_in(accounts[k])),
                )),
        decreases requirements@.len() - i,
    {
        let account: &String = &requirements[i].account_id;
        let required: Total = requirements[i].required;
        assert(requirements@[i as int].account_id@ == accounts[i as int]);
        let mut s: String = account.clone();
        match available_for(reconciliations, account) {
            Some(x) => {
                s.append(" withdrawable=");
                push_total6(&mut s, in_billionths(x));
                let opened: i128 = opened_in_account(executable_refs, account);
                if x + 1000 >= 0 && (x + 1000) / 111 >= opened {
                    s.append(" >= required_open_margin=");
                } else {
                    ok = false;
                    s.append(" < required_open_margin=");
                }
                push_total6(&mut s, required);
            },
            None => {
                ok = false;
                s.append(" withdrawable unavailable; cannot prove required_open_margin=");
                push_total6(&mut s, required);
            },
        }
        let ghost before = texts(lines@);
        lines.push(s);
        assert(texts(lines@) =~= before.push(s@));
        assert(goal[i as int] == s@);
        assert(goal.subrange(0, i as int + 1) =~= goal.subrange(0, i as int).push(goal[i as int]));
        i += 1;
    }
    proof {
        whole(goal);
    }
    let mut detail: String =
        "opening margin precheck uses notional/10x plus 10% buffer and fee estimate: ".to_owned();
    let list: String = join(&lines, "; ");
    detail.append(list.as_str());
    CopyLiveDaemonOpenMarginCheck { ok, detail }
}

/// What an account has to spend is what it can withdraw, or nothing where that
/// is negative; an account that says nothing readable keeps what was known of
/// it.
pub proof fn margins_are_what_can_be_withdrawn(
    s: Seq<CopyBoundedLiveWindowReconcile>,
    r: CopyBoundedLiveWindowReconcile,
)
    ensures
        margins(Seq::empty()) == Map::<Slot, int>::empty(),
        margins(s.push(r)) == match r.withdrawable {
            Some(t) => match decimal_value(t@, 12) {
                Some(x) => margins(s).insert(
                    Slot::Account(r.account_id@),
                    if x < 0 {
                        0
                    } else {
                        x
                    },
                ),
                None => margins(s),
            },
            None => margins(s),
        },
{
    assert(s.push(r).drop_last() =~= s);
}

proof fn fitted_prefix(
    refs: Seq<CopyLiveDaemonWouldSubmitRef>,
    p: CopyLiveDaemonWouldSubmitRef,
    s: Seq<CopyBoundedLiveWindowReconcile>,
    n: int,
)
    requires
        0 <= n <= refs.len(),
    ensures
        fitted_upto(refs.push(p), s, n) == fitted_upto(refs, s, n),
    decreases n,
{
    if n > 0 {
        fitted_prefix(refs, p, s, n - 1);
        assert(refs.push(p)[n - 1] == refs[n - 1]);
    }
}

/// Fitting one more plan spends what it takes and nothing else. A reduction
/// passes and takes nothing. An opening that fits, up to a billionth of a dollar,
/// passes as it is and takes 111 thousandths of its notional. One that does not
/// fit shrinks to what the margin supports and takes 110 thousandths of that, or
/// is held back and takes nothing.
pub proof fn a_plan_takes_its_margin_from_its_account(
    refs: Seq<CopyLiveDaemonWouldSubmitRef>,
    p: CopyLiveDaemonWouldSubmitRef,
    s: Seq<CopyBoundedLiveWindowReconcile>,
)
    ensures
        fitted(Seq::empty(), s).left == margins(s),
        fitted(Seq::empty(), s).prepared.len() == 0,
        fitted(Seq::empty(), s).suppressed.len() == 0,
        ({
            let a = fitted(refs, s);
            let b = fitted(refs.push(p), s);
            let slot = Slot::Account(p.order.account_id@);
            let had = a.left[slot];
            let cost = 111 * p.order.notional_usd;
            let q = b.prepared.last();
            &&& forall|other: Slot|
                other != slot ==> (#[trigger] b.left.dom().contains(other)
                    <==> a.left.dom().contains(other)) && b.left[other] == a.left[other]
            &&& a.prepared.len() + a.suppressed.len() == refs.len()
            &&& if p.order.reduce_only {
                b.prepared == a.prepared.push(p) && b.suppressed == a.suppressed && b.left
                    == a.left
            } else if !a.left.dom().contains(slot) {
                &&& b.prepared == a.prepared
                &&& b.left == a.left
                &&& b.suppressed == a.suppressed.push(b.suppressed.last())
                &&& b.suppressed.last().plan == p
                &&& b.suppressed.last().reason_code == "COPY_DAEMON_MARGIN_UNAVAILABLE"@
            } else if p.order.notional_usd <= 0 || cost <= had + 1000 {
                &&& b.prepared == a.prepared.push(p)
                &&& b.suppressed == a.suppressed
                &&& p.order.notional_usd >= 0 && cost <= had ==> b.left[slot] == had - cost
                &&& p.order.notional_usd >= 0 && cost > had ==> b.left[slot] == 0
                &&& p.order.notional_usd < 0 ==> b.left[slot] == had
            } else if had < 111 * (10_000_000_000 - 1) {
                &&& b.prepared == a.prepared
                &&& b.left == a.left
                &&& b.suppressed == a.suppressed.push(b.suppressed.last())
                &&& b.suppressed.last().plan == p
                &&& b.suppressed.last().reason_code == "COPY_DAEMON_MARGIN_RESIZED_BELOW_MIN"@
            } else {
                &&& b.prepared == a.prepared.push(q)
                &&& b.suppressed == a.suppressed
                &&& q == (CopyLiveDaemonWouldSubmitRef {
                    order: CopyExecutionCanaryWouldSubmit {
                        notional_usd: q.order.notional_usd,
                        ..p.order
                    },
                    ..p
                })
                &&& 111 * q.order.notional_usd <= had < 111 * (q.order.notional_usd + 1)
                &&& b.left[slot] == had - 110 * q.order.notional_usd
            }
        }),
{
    let n = refs.len() as int;
    fitted_prefix(refs, p, s, n);
    assert(refs.push(p)[n] == p);
    fitted_upto_facts(refs, s, n);
    let a = fitted(refs, s);
    let b = fitted(refs.push(p), s);
    assert(b == fit_step(a, p));
    let slot = Slot::Account(p.order.account_id@);
    if a.left.dom().contains(slot) {
        assert(0 <= a.left[slot] <= WIDE_MAX);
    }
    if b.prepared.len() > a.prepared.len() {
        assert(b.prepared =~= a.prepared.push(b.prepared.last()));
    }
    if b.suppressed.len() > a.suppressed.len() {
        assert(b.suppressed =~= a.suppressed.push(b.suppressed.last()));
    }
}

/// How many plans of a list open a position in an account.
pub open spec fn openings_in(refs: Seq<CopyLiveDaemonWouldSubmitRef>, account: Seq<char>) -> nat
    decreases refs.len(),
{
    if refs.len() == 0 {
        0
    } else {
        openings_in(refs.drop_last(), account) + (if !refs.last().order.reduce_only
            && refs.last().order.account_id@ == account {
            1nat
        } else {
            0nat
        })
    }
}

proof fn prepared_take_what_is_spent(
    refs: Seq<CopyLiveDaemonWouldSubmitRef>,
    s: Seq<CopyBoundedLiveWindowReconcile>,
    account: Seq<char>,
    n: int,
)
    requires
        0 <= n <= refs.len(),
    ensures
        ({
            let st = fitted_upto(refs, s, n);
            let slot = Slot::Account(account);
            let opened = total(st.prepared, opened_in(account));
            if margins(s).dom().contains(slot) {
                110 * opened <= margins(s)[slot] - st.left[slot] + 1000 * openings_in(
                    st.prepared,
                    account,
                )
            } else {
                opened == 0 && openings_in(st.prepared, account) == 0
            }
        }),
    decreases n,
{
    if n > 0 {
        prepared_take_what_is_spent(refs, s, account, n - 1);
        fitted_upto_facts(refs, s, n - 1);
        let st = fitted_upto(refs, s, n - 1);
        let nx = fitted_upto(refs, s, n);
        let p = refs[n - 1];
        let slot = Slot::Account(p.order.account_id@);
        if st.left.dom().contains(slot) {
            assert(0 <= st.left[slot] <= WIDE_MAX);
        }
        if nx.prepared.len() > st.prepared.len() {
            let q = nx.prepared.last();
            assert(nx.prepared =~= st.prepared.push(q));
            assert(nx.prepared.drop_last() =~= st.prepared);
            total_push(st.prepared, q, opened_in(account));
        }
    }
}

/// Fitted plans never need more margin together than their account can withdraw:
/// for each account, 110 thousandths of all that its prepared plans open is at
/// most what it has to spend, up to a billionth of a dollar for each of them. In
/// an account of which nothing is known, no plan that opens is prepared.
pub proof fn prepared_plans_share_one_margin(
    refs: Seq<CopyLiveDaemonWouldSubmitRef>,
    s: Seq<CopyBoundedLiveWindowReconcile>,
    account: Seq<char>,
)
    ensures
        ({
            let prepared = fitted(refs, s).prepared;
            let slot = Slot::Account(account);
            if margins(s).dom().contains(slot) {
                110 * total(prepared, opened_in(account)) <= margins(s)[slot] + 1000 * openings_in(
                    prepared,
                    account,
                )
            } else {
                openings_in(prepared, account) == 0
            }
        }),
{
    prepared_take_what_is_spent(refs, s, account, refs.len() as int);
    fitted_upto_facts(refs, s, refs.len() as int);
}

/// Nothing is shrunk or held back without need: where every opening is for an
/// account whose margin covers 111 thousandths of all that the list opens there,
/// the list comes out as it went in.
pub proof fn plans_that_fit_together_pass_as_they_are(
    refs: Seq<CopyLiveDaemonWouldSubmitRef>,
    s: Seq<CopyBoundedLiveWindowReconcile>,
)
    requires
        forall|i: int|
            0 <= i < refs.len() && !(#[trigger] refs[i]).order.reduce_only ==> margins(
                s,
            ).dom().contains(Slot::Account(refs[i].order.account_id@)) && 111 * total(
                refs,
                opened_in(refs[i].order.account_id@),
            ) <= margins(s)[Slot::Account(refs[i].order.account_id@)],
    ensures
        fitted(refs, s).prepared == refs,
        fitted(refs, s).suppressed.len() == 0,
{
    fits_throughout(refs, s, refs.len() as int);
    whole(refs);
}

proof fn fits_throughout(
    refs: Seq<CopyLiveDaemonWouldSubmitRef>,
    s: Seq<CopyBoundedLiveWindowReconcile>,
    n: int,
)
    requires
        0 <= n <= refs.len(),
        forall|i: int|
            0 <= i < refs.len() && !(#[trigger] refs[i]).order.reduce_only ==> margins(
                s,
            ).dom().contains(Slot::Account(refs[i].order.account_id@)) && 111 * total(
                refs,
                opened_in(refs[i].order.account_id@),
            ) <= margins(s)[Slot::Account(refs[i].order.account_id@)],
    ensures
        ({
            let st = fitted_upto(refs, s, n);
            &&& st.prepared == refs.subrange(0, n)
            &&& st.suppressed.len() == 0
            &&& st.left.dom() == margins(s).dom()
            &&& forall|a: Seq<char>|
                #[trigger] margins(s).dom().contains(Slot::Account(a)) && 111 * total(
                    refs,
                    opened_in(a),
                ) <= margins(s)[Slot::Account(a)] ==> st.left[Slot::Account(a)] == margins(
                    s,
                )[Slot::Account(a)] - 111 * total(refs.subrange(0, n), opened_in(a))
        }),
    decreases n,
{
    if n <= 0 {
        assert(refs.subrange(0, 0) =~= Seq::empty());
    } else {
        fits_throughout(refs, s, n - 1);
        let st = fitted_upto(refs, s, n - 1);
        let nx = fitted_upto(refs, s, n);
        let p = refs[n - 1];
        let slot = Slot::Account(p.order.account_id@);
        assert(refs.subrange(0, n) =~= refs.subrange(0, n - 1).push(p));
        assert forall|a: Seq<char>|
            #![trigger opened_in(a)]
            total(refs.subrange(0, n), opened_in(a)) == total(refs.subrange(0, n - 1), opened_in(a))
                + opened_in(a)(p) && total(refs.subrange(0, n), opened_in(a)) <= total(
            refs,
            opened_in(a),
        ) by {
            total_push(refs.subrange(0, n - 1), p, opened_in(a));
            let rest = refs.subrange(n, refs.len() as int);
            assert(refs =~= refs.subrange(0, n) + rest);
            total_concat(refs.subrange(0, n), rest, opened_in(a));
            total_not_negative(rest, opened_in(a));
        }
        if !p.order.reduce_only {
            assert(margins(s).dom().contains(Slot::Account(p.order.account_id@)));
            let spent = floor_zero(p.order.notional_usd as int) * 111;
            assert(st.left[slot] >= spent);
            assert(nx.left =~= st.left.insert(slot, st.left[slot] - spent));
            assert(nx.left.dom() =~= margins(s).dom());
        }
    }
}

/// What is opened in an account adds up plan by plan.
pub proof fn account_openings_add_up(
    refs: Seq<CopyLiveDaemonWouldSubmitRef>,
    p: CopyLiveDaemonWouldSubmitRef,
    account: Seq<char>,
)
    ensures
        total(Seq::empty(), opened_in(account)) == 0,
        total(refs.push(p), opened_in(account)) == total(refs, opened_in(account)) + (
        if p.order.reduce_only || p.order.account_id@ != account || p.order.notional_usd < 0 {
            0
        } else {
            p.order.notional_usd as int
        }),
{
    total_push(refs, p, opened_in(account));
}

proof fn openings_are_listed(refs: Seq<CopyLiveDaemonWouldSubmitRef>, i: int)
    requires
        0 <= i < refs.len(),
        !refs[i].order.reduce_only,
    ensures
        opening_accounts(refs).contains(refs[i].order.account_id@),
    decreases refs.len(),
{
    let t = refs.drop_last();
    let before = opening_accounts(t);
    let a = refs.last().order.account_id@;
    if i < t.len() {
        assert(t[i] == refs[i]);
        openings_are_listed(t, i);
        let k = choose|k: int| 0 <= k < before.len() && before[k] == refs[i].order.account_id@;
        assert(opening_accounts(refs)[k] == before[k]);
    } else {
        assert(refs.last() == refs[i]);
        if !before.contains(a) {
            assert(opening_accounts(refs)[before.len() as int] == a);
        }
    }
}

proof fn listed_accounts_open(refs: Seq<CopyLiveDaemonWouldSubmitRef>, k: int)
    requires
        0 <= k < opening_accounts(refs).len(),
    ensures
        exists|i: int|
            0 <= i < refs.len() && !(#[trigger] refs[i]).order.reduce_only
                && refs[i].order.account_id@ == opening_accounts(refs)[k],
    decreases refs.len(),
{
    let t = refs.drop_last();
    let before = opening_accounts(t);
    if k < before.len() {
        listed_accounts_open(t, k);
        let i = choose|i: int|
            0 <= i < t.len() && !(#[trigger] t[i]).order.reduce_only && t[i].order.account_id@
                == before[k];
        assert(refs[i] == t[i]);
        assert(opening_accounts(refs)[k] == before[k]);
    } else {
        assert(refs[refs.len() - 1] == refs.last());
    }
}

/// Whether the first account of the given name says, readably, that it can
/// withdraw the margin for a notional, up to a billionth of a dollar.
pub open spec fn covers(
    s: Seq<CopyBoundedLiveWindowReconcile>,
    account: Seq<char>,
    notional: int,
) -> bool {
    exists|k: int|
        0 <= k < s.len() && (#[trigger] s[k]).account_id@ == account && (forall|e: int|
            0 <= e < k ==> (#[trigger] s[e]).account_id@ != account) && s[k].withdrawable is Some
            && decimal_value(s[k].withdrawable->0@, 12) is Some && 111 * notional <= decimal_value(
            s[k].withdrawable->0@,
            12,
        )->0 + 1000
}

proof fn available_is_of_the_first(
    s: Seq<CopyBoundedLiveWindowReconcile>,
    account: Seq<char>,
    notional: int,
    i: int,
)
    requires
        0 <= i <= s.len(),
        forall|e: int| 0 <= e < i ==> (#[trigger] s[e]).account_id@ != account,
    ensures
        affordable(available_from(s, account, i), notional) <==> covers(s, account, notional),
    decreases s.len() - i,
{
    if i < s.len() {
        if s[i].account_id@ == account {
            if affordable(available_from(s, account, i), notional) {
                assert(s[i].account_id@ == account);
            }
            if covers(s, account, notional) {
                let k = choose|k: int|
                    0 <= k < s.len() && (#[trigger] s[k]).account_id@ == account && (forall|e: int|
                        0 <= e < k ==> (#[trigger] s[e]).account_id@ != account)
                        && s[k].withdrawable is Some && decimal_value(
                        s[k].withdrawable->0@,
                        12,
                    ) is Some && 111 * notional <= decimal_value(s[k].withdrawable->0@, 12)->0
                        + 1000;
                assert(k == i) by {
                    if k < i {
                        assert(s[k].account_id@ != account);
                    } else if k > i {
                        assert(s[i].account_id@ != account);
                    }
                }
            }
        } else {
            available_is_of_the_first(s, account, notional, i + 1);
        }
    } else if covers(s, account, notional) {
        let k = choose|k: int|
            0 <= k < s.len() && (#[trigger] s[k]).account_id@ == account && (forall|e: int|
                0 <= e < k ==> (#[trigger] s[e]).account_id@ != account) && s[k].withdrawable
                is Some && decimal_value(s[k].withdrawable->0@, 12) is Some && 111 * notional
                <= decimal_value(s[k].withdrawable->0@, 12)->0 + 1000;
        assert(s[k].account_id@ != account);
    }
}

/// The margin of a list of plans is there exactly where every account in which
/// it opens something can withdraw 111 thousandths of all that is opened there.
pub proof fn margin_is_there_for_every_opening(
    refs: Seq<CopyLiveDaemonWouldSubmitRef>,
    s: Seq<CopyBoundedLiveWindowReconcile>,
)
    ensures
        margin_ok(refs, s) <==> forall|i: int|
            0 <= i < refs.len() && !(#[trigger] refs[i]).order.reduce_only ==> covers(
                s,
                refs[i].order.account_id@,
                total(refs, opened_in(refs[i].order.account_id@)),
            ),
{
    let accounts = opening_accounts(refs);
    if margin_ok(refs, s) {
        assert forall|i: int|
            0 <= i < refs.len() && !(#[trigger] refs[i]).order.reduce_only implies covers(
            s,
            refs[i].order.account_id@,
            total(refs, opened_in(refs[i].order.account_id@)),
        ) by {
            openings_are_listed(refs, i);
            let k = choose|k: int|
                0 <= k < accounts.len() && accounts[k] == refs[i].order.account_id@;
            available_is_of_the_first(s, accounts[k], total(refs, opened_in(accounts[k])), 0);
        }
    }
    if forall|i: int|
        0 <= i < refs.len() && !(#[trigger] refs[i]).order.reduce_only ==> covers(
            s,
            refs[i].order.account_id@,
            total(refs, opened_in(refs[i].order.account_id@)),
        ) {
        assert forall|k: int| 0 <= k < accounts.len() implies affordable(
            available_from(s, #[trigger] accounts[k], 0),
            total(refs, opened_in(accounts[k])),
        ) by {
            listed_accounts_open(refs, k);
            let i = choose|i: int|
                0 <= i < refs.len() && !(#[trigger] refs[i]).order.reduce_only
                    && refs[i].order.account_id@ == accounts[k];
            assert(covers(s, accounts[k], total(refs, opened_in(accounts[k]))));
            available_is_of_the_first(s, accounts[k], total(refs, opened_in(accounts[k])), 0);
        }
    }
}

} // verus!
