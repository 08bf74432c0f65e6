//! Order plans of a run: what would be sent, and what is held back.

use vstd::prelude::*;

use crate::decimal::{at_least_zero, floor_zero, is_digit, Fixed, Total};
use crate::domain::{push_side_name, side_name, OrderSide};
use crate::seqs::{filter_step, total, total_push, total_step, whole};
use crate::text::{bool_text, chars_of, list_has, lists, push_bool};

verus! {

/// One order that would be sent.
#[derive(Debug)]
pub struct CopyExecutionCanaryWouldSubmit {
    pub account_id: String,
    pub worker_id: String,
    pub coin: String,
    pub side: OrderSide,
    pub notional_usd: Fixed,
    pub reduce_only: bool,
    pub cloid: String,
}

/// An order together with the record and the signal it comes from.
#[derive(Debug)]
pub struct CopyLiveDaemonWouldSubmitRef {
    pub record_index: usize,
    pub signal_id: String,
    pub leader_id: String,
    pub leader_address: String,
    pub order: CopyExecutionCanaryWouldSubmit,
}

/// An order that is held back, and why.
#[derive(Clone, Debug)]
pub struct CopyLiveDaemonSuppressedWouldSubmit {
    pub order: CopyExecutionCanaryWouldSubmit,
    pub reason_code: String,
    pub message: String,
}

/// A planned order that is held back, and why.
#[derive(Debug)]
pub struct CopyLiveDaemonSuppressedWouldSubmitRef {
    pub plan: CopyLiveDaemonWouldSubmitRef,
    pub reason_code: String,
    pub message: String,
}

/// What a held back order says.
pub struct HeldOrder {
    pub order: CopyExecutionCanaryWouldSubmit,
    pub reason_code: Seq<char>,
    pub message: Seq<char>,
}

/// What a held back plan says.
pub struct HeldPlan {
    pub plan: CopyLiveDaemonWouldSubmitRef,
    pub reason_code: Seq<char>,
    pub message: Seq<char>,
}

impl View for CopyLiveDaemonSuppressedWouldSubmit {
    type V = HeldOrder;

    open spec fn view(&self) -> HeldOrder {
        HeldOrder {
            order: self.order,
            reason_code: self.reason_code@,
            message: self.message@,
        }
    }
}

impl View for CopyLiveDaemonSuppressedWouldSubmitRef {
    type V = HeldPlan;

    open spec fn view(&self) -> HeldPlan {
        HeldPlan { plan: self.plan, reason_code: self.reason_code@, message: self.message@ }
    }
}

impl Clone for CopyExecutionCanaryWouldSubmit {
    fn clone(&self) -> (r: Self)
        ensures
            r == *self,
    {
        CopyExecutionCanaryWouldSubmit {
            account_id: self.account_id.clone(),
            worker_id: self.worker_id.clone(),
            coin: self.coin.clone(),
            side: self.side,
            notional_usd: self.notional_usd,
            reduce_only: self.reduce_only,
            cloid: self.cloid.clone(),
        }
    }
}

impl Clone for CopyLiveDaemonWouldSubmitRef {
    fn clone(&self) -> (r: Self)
        ensures
            r == *self,
    {
        CopyLiveDaemonWouldSubmitRef {
            record_index: self.record_index,
            signal_id: self.signal_id.clone(),
            leader_id: self.leader_id.clone(),
            leader_address: self.leader_address.clone(),
            order: self.order.clone(),
        }
    }
}

impl Clone for CopyLiveDaemonSuppressedWouldSubmitRef {
    fn clone(&self) -> (r: Self)
        ensures
            r == *self,
    {
        CopyLiveDaemonSuppressedWouldSubmitRef {
            plan: self.plan.clone(),
            reason_code: self.reason_code.clone(),
            message: self.message.clone(),
        }
    }
}

/// The plans that go on, and those that are held back.
pub struct Chosen {
    pub executable: Seq<CopyLiveDaemonWouldSubmitRef>,
    pub suppressed: Seq<HeldPlan>,
}

/// What a list of held back plans says.
pub open spec fn held(v: Seq<CopyLiveDaemonSuppressedWouldSubmitRef>) -> Seq<HeldPlan> {
    v.map_values(|s: CopyLiveDaemonSuppressedWouldSubmitRef| s@)
}

/// What a list of held back orders says.
pub open spec fn held_orders(v: Seq<CopyLiveDaemonSuppressedWouldSubmit>) -> Seq<HeldOrder> {
    v.map_values(|s: CopyLiveDaemonSuppressedWouldSubmit| s@)
}

/// Appends a held back plan.
pub fn push_held(
    v: &mut Vec<CopyLiveDaemonSuppressedWouldSubmitRef>,
    plan: CopyLiveDaemonWouldSubmitRef,
    reason_code: &str,
    message: String,
)
    ensures
        held(final(v)@) == held(old(v)@).push(
            HeldPlan { plan, reason_code: reason_code@, message: message@ },
        ),
{
    let ghost before = held(v@);
    v.push(
        CopyLiveDaemonSuppressedWouldSubmitRef {
            plan,
            reason_code: reason_code.to_owned(),
            message,
        },
    );
    assert(held(v@) =~= before.push(HeldPlan { plan, reason_code: reason_code@, message: message@ }));
}

/// Moves the held back plans of `more` to the end of `v`.
pub fn append_held(
    v: &mut Vec<CopyLiveDaemonSuppressedWouldSubmitRef>,
    more: Vec<CopyLiveDaemonSuppressedWouldSubmitRef>,
)
    ensures
        held(final(v)@) == held(old(v)@) + held(more@),
        final(v)@ == old(v)@ + more@,
{
    let ghost before = v@;
    let mut rest: Vec<CopyLiveDaemonSuppressedWouldSubmitRef> = more;
    v.append(&mut rest);
    assert(held(v@) =~= held(before) + held(more@));
}

/// A copy of a list of plans.
pub fn clone_plans(v: &Vec<CopyLiveDaemonWouldSubmitRef>) -> (r: Vec<CopyLiveDaemonWouldSubmitRef>)
    ensures
        r@ == v@,
{
    let mut r: Vec<CopyLiveDaemonWouldSubmitRef> = Vec::new();
    let mut i: usize = 0;
    while i < v.len()
        invariant
            i <= v@.len(),
            r@ == v@.subrange(0, i as int),
        decreases v@.len() - i,
    {
        r.push(v[i].clone());
        assert(v@.subrange(0, i as int + 1) =~= v@.subrange(0, i as int).push(v@[i as int]));
        i += 1;
    }
    proof {
        whole(v@);
    }
    r
}

/// A copy of a list of held back plans.
pub fn clone_held(v: &Vec<CopyLiveDaemonSuppressedWouldSubmitRef>) -> (r: Vec<
    CopyLiveDaemonSuppressedWouldSubmitRef,
>)
    ensures
        r@ == v@,
{
    let mut r: Vec<CopyLiveDaemonSuppressedWouldSubmitRef> = Vec::new();
    let mut i: usize = 0;
    while i < v.len()
        invariant
            i <= v@.len(),
            r@ == v@.subrange(0, i as int),
        decreases v@.len() - i,
    {
        r.push(v[i].clone());
        assert(v@.subrange(0, i as int + 1) =~= v@.subrange(0, i as int).push(v@[i as int]));
        i += 1;
    }
    proof {
        whole(v@);
    }
    r
}

/// Whether a plan opens or increases a position.
pub open spec fn opens() -> spec_fn(CopyLiveDaemonWouldSubmitRef) -> bool {
    |p: CopyLiveDaemonWouldSubmitRef| !p.order.reduce_only
}

/// Whether a plan only reduces a position.
pub open spec fn reduces() -> spec_fn(CopyLiveDaemonWouldSubmitRef) -> bool {
    |p: CopyLiveDaemonWouldSubmitRef| p.order.reduce_only
}

/// Whether an order opens or increases a position.
pub open spec fn order_opens() -> spec_fn(CopyExecutionCanaryWouldSubmit) -> bool {
    |o: CopyExecutionCanaryWouldSubmit| !o.reduce_only
}

/// Whether an order only reduces a position.
pub open spec fn order_reduces() -> spec_fn(CopyExecutionCanaryWouldSubmit) -> bool {
    |o: CopyExecutionCanaryWouldSubmit| o.reduce_only
}

/// The notional that an order adds to the opened exposure.
pub open spec fn opened_by(o: CopyExecutionCanaryWouldSubmit) -> int {
    if o.reduce_only {
        0
    } else {
        floor_zero(o.notional_usd as int)
    }
}

/// The notional that a plan adds to the opened exposure.
pub open spec fn plan_opened() -> spec_fn(CopyLiveDaemonWouldSubmitRef) -> int {
    |p: CopyLiveDaemonWouldSubmitRef| opened_by(p.order)
}

/// The notional that an order adds to the opened exposure.
pub open spec fn order_opened() -> spec_fn(CopyExecutionCanaryWouldSubmit) -> int {
    |o: CopyExecutionCanaryWouldSubmit| opened_by(o)
}

/// The notional that a list of plans opens.
pub open spec fn open_notional(refs: Seq<CopyLiveDaemonWouldSubmitRef>) -> int {
    total(refs, plan_opened())
}

/// How many plans open or increase a position.
pub fn count_opens(refs: &Vec<CopyLiveDaemonWouldSubmitRef>) -> (r: usize)
    ensures
        r == refs@.filter(opens()).len(),
        r <= refs@.len(),
{
    let mut n: usize = 0;
    let mut i: usize = 0;
    assert(refs@.subrange(0, 0).filter(opens()).len() == 0) by {
        reveal(Seq::filter);
    }
    while i < refs.len()
        invariant
            n <= i <= refs@.len(),
            n == refs@.subrange(0, i as int).filter(opens()).len(),
        decreases refs@.len() - i,
    {
        proof {
            filter_step(refs@, opens(), i as int);
        }
        if !refs[i].order.reduce_only {
            n += 1;
        }
        i += 1;
    }
    proof {
        whole(refs@);
    }
    n
}

/// How many plans only reduce a position.
pub fn count_reduces(refs: &Vec<CopyLiveDaemonWouldSubmitRef>) -> (r: usize)
    ensures
        r == refs@.filter(reduces()).len(),
        r <= refs@.len(),
{
    let mut n: usize = 0;
    let mut i: usize = 0;
    assert(refs@.subrange(0, 0).filter(reduces()).len() == 0) by {
        reveal(Seq::filter);
    }
    while i < refs.len()
        invariant
            n <= i <= refs@.len(),
            n == refs@.subrange(0, i as int).filter(reduces()).len(),
        decreases refs@.len() - i,
    {
        proof {
            filter_step(refs@, reduces(), i as int);
        }
        if refs[i].order.reduce_only {
            n += 1;
        }
        i += 1;
    }
    proof {
        whole(refs@);
    }
    n
}

/// How many orders open or increase a position.
pub fn count_open_orders(orders: &Vec<CopyExecutionCanaryWouldSubmit>) -> (r: usize)
    ensures
        r == orders@.filter(order_opens()).len(),
        r <= orders@.len(),
{
    let mut n: usize = 0;
    let mut i: usize = 0;
    assert(orders@.subrange(0, 0).filter(order_opens()).len() == 0) by {
        reveal(Seq::filter);
    }
    while i < orders.len()
        invariant
            n <= i <= orders@.len(),
            n == orders@.subrange(0, i as int).filter(order_opens()).len(),
        decreases orders@.len() - i,
    {
        proof {
            filter_step(orders@, order_opens(), i as int);
        }
        if !orders[i].reduce_only {
            n += 1;
        }
        i += 1;
    }
    proof {
        whole(orders@);
    }
    n
}

/// How many orders only reduce a position.
pub fn count_reduce_orders(orders: &Vec<CopyExecutionCanaryWouldSubmit>) -> (r: usize)
    ensures
        r == orders@.filter(order_reduces()).len(),
        r <= orders@.len(),
{
    let mut n: usize = 0;
    let mut i: usize = 0;
    assert(orders@.subrange(0, 0).filter(order_reduces()).len() == 0) by {
        reveal(Seq::filter);
    }
    while i < orders.len()
        invariant
            n <= i <= orders@.len(),
            n == orders@.subrange(0, i as int).filter(order_reduces()).len(),
        decreases orders@.len() - i,
    {
        proof {
            filter_step(orders@, order_reduces(), i as int);
        }
        if orders[i].reduce_only {
            n += 1;
        }
        i += 1;
    }
    proof {
        whole(orders@);
    }
    n
}

/// The notional that a list of plans opens; reductions count nothing.
pub fn copy_live_daemon_open_notional_usd_from_refs(
    refs: &Vec<CopyLiveDaemonWouldSubmitRef>,
) -> (r: Total)
    ensures
        r == open_notional(refs@),
        0 <= r <= 0x7fff_ffff_ffff_ffff * refs@.len(),
{
    let mut sum: i128 = 0;
    let mut i: usize = 0;
    while i < refs.len()
        invariant
            i <= refs@.len(),
            sum == total(refs@.subrange(0, i as int), plan_opened()),
            0 <= sum <= 0x7fff_ffff_ffff_ffff * i,
        decreases refs@.len() - i,
    {
        proof {
            total_step(refs@, plan_opened(), i as int);
        }
        if !refs[i].order.reduce_only {
            sum = sum + at_least_zero(refs[i].order.notional_usd) as i128;
        }
        i += 1;
    }
    proof {
        whole(refs@);
    }
    sum
}

/// The notional that a list of orders opens; reductions count nothing.
pub fn copy_live_daemon_open_notional_usd_from_orders(
    orders: &Vec<CopyExecutionCanaryWouldSubmit>,
) -> (r: Total)
    ensures
        r == total(orders@, order_opened()),
        0 <= r <= 0x7fff_ffff_ffff_ffff * orders@.len(),
{
    let mut sum: i128 = 0;
    let mut i: usize = 0;
    while i < orders.len()
        invariant
            i <= orders@.len(),
            sum == total(orders@.subrange(0, i as int), order_opened()),
            0 <= sum <= 0x7fff_ffff_ffff_ffff * i,
        decreases orders@.len() - i,
    {
        proof {
            total_step(orders@, order_opened(), i as int);
        }
        if !orders[i].reduce_only {
            sum = sum + at_least_zero(orders[i].notional_usd) as i128;
        }
        i += 1;
    }
    proof {
        whole(orders@);
    }
    sum
}

/// The notional of an order, whether it opens or reduces.
pub open spec fn order_size() -> spec_fn(CopyExecutionCanaryWouldSubmit) -> int {
    |o: CopyExecutionCanaryWouldSubmit| floor_zero(o.notional_usd as int)
}

/// The notional of all orders together, whether they open or reduce.
pub fn planned_notional_of(orders: &Vec<CopyExecutionCanaryWouldSubmit>) -> (r: Total)
    ensures
        r == total(orders@, order_size()),
        0 <= r <= 0x7fff_ffff_ffff_ffff * orders@.len(),
{
    let mut sum: i128 = 0;
    let mut i: usize = 0;
    while i < orders.len()
        invariant
            i <= orders@.len(),
            sum == total(orders@.subrange(0, i as int), order_size()),
            0 <= sum <= 0x7fff_ffff_ffff_ffff * i,
        decreases orders@.len() - i,
    {
        proof {
            total_step(orders@, order_size(), i as int);
        }
        sum = sum + at_least_zero(orders[i].notional_usd) as i128;
        i += 1;
    }
    proof {
        whole(orders@);
    }
    sum
}

/// The orders of a list of plans.
pub open spec fn orders_of(refs: Seq<CopyLiveDaemonWouldSubmitRef>) -> Seq<
    CopyExecutionCanaryWouldSubmit,
> {
    refs.map_values(|p: CopyLiveDaemonWouldSubmitRef| p.order)
}

/// The orders of a list of plans.
pub fn copy_live_daemon_order_refs_to_orders(refs: &Vec<CopyLiveDaemonWouldSubmitRef>) -> (r: Vec<
    CopyExecutionCanaryWouldSubmit,
>)
    ensures
        r@ == orders_of(refs@),
{
    let mut r: Vec<CopyExecutionCanaryWouldSubmit> = Vec::new();
    let mut i: usize = 0;
    while i < refs.len()
        invariant
            i <= refs@.len(),
            r@ == orders_of(refs@).subrange(0, i as int),
        decreases refs@.len() - i,
    {
        r.push(refs[i].order.clone());
        assert(orders_of(refs@).subrange(0, i as int + 1) =~= orders_of(refs@).subrange(
            0,
            i as int,
        ).push(refs@[i as int].order));
        i += 1;
    }
    proof {
        whole(orders_of(refs@));
    }
    r
}

/// What a plan opens is what its order opens.
pub proof fn open_notional_of_orders(refs: Seq<CopyLiveDaemonWouldSubmitRef>)
    ensures
        total(orders_of(refs), order_opened()) == open_notional(refs),
    decreases refs.len(),
{
    if refs.len() > 0 {
        open_notional_of_orders(refs.drop_last());
        assert(orders_of(refs).drop_last() =~= orders_of(refs.drop_last()));
        assert(orders_of(refs).last() == refs.last().order);
    }
}

/// Whether an order with the given client id is in a list.
pub open spec fn order_listed(
    orders: Seq<CopyExecutionCanaryWouldSubmit>,
    cloid: Seq<char>,
) -> bool {
    exists|i: int| 0 <= i < orders.len() && (#[trigger] orders[i]).cloid@ == cloid
}

/// Whether a plan with the given client id is in a list.
pub open spec fn plan_listed(refs: Seq<CopyLiveDaemonWouldSubmitRef>, cloid: Seq<char>) -> bool {
    exists|i: int| 0 <= i < refs.len() && (#[trigger] refs[i]).order.cloid@ == cloid
}

/// A list of orders, and behind it those of `more` whose client id is new.
pub open spec fn orders_with_new(
    orders: Seq<CopyExecutionCanaryWouldSubmit>,
    more: Seq<CopyExecutionCanaryWouldSubmit>,
) -> Seq<CopyExecutionCanaryWouldSubmit>
    decreases more.len(),
{
    if more.len() == 0 {
        orders
    } else {
        let s = orders_with_new(orders, more.drop_last());
        if order_listed(s, more.last().cloid@) {
            s
        } else {
            s.push(more.last())
        }
    }
}

/// A list of plans, and behind it those of `more` whose client id is new.
pub open spec fn plans_with_new(
    refs: Seq<CopyLiveDaemonWouldSubmitRef>,
    more: Seq<CopyLiveDaemonWouldSubmitRef>,
) -> Seq<CopyLiveDaemonWouldSubmitRef>
    decreases more.len(),
{
    if more.len() == 0 {
        refs
    } else {
        let s = plans_with_new(refs, more.drop_last());
        if plan_listed(s, more.last().order.cloid@) {
            s
        } else {
            s.push(more.last())
        }
    }
}

fn has_order(orders: &Vec<CopyExecutionCanaryWouldSubmit>, cloid: &String) -> (r: bool)
    ensures
        r == order_listed(orders@, cloid@),
{
    let mut i: usize = 0;
    while i < orders.len()
        invariant
            i <= orders@.len(),
            forall|k: int| 0 <= k < i ==> (#[trigger] orders@[k]).cloid@ != cloid@,
        decreases orders@.len() - i,
    {
        if orders[i].cloid == *cloid {
            return true;
        }
        i += 1;
    }
    false
}

/// Whether a plan with the given client id is in a list.
pub fn has_plan(refs: &Vec<CopyLiveDaemonWouldSubmitRef>, cloid: &String) -> (r: bool)
    ensures
        r == plan_listed(refs@, cloid@),
{
    let mut i: usize = 0;
    while i < refs.len()
        invariant
            i <= refs@.len(),
            forall|k: int| 0 <= k < i ==> (#[trigger] refs@[k]).order.cloid@ != cloid@,
        decreases refs@.len() - i,
    {
        if refs[i].order.cloid == *cloid {
            return true;
        }
        i += 1;
    }
    false
}

/// Appends the orders whose client id is not in the list yet.
pub fn append_unique_copy_daemon_would_submit_orders(
    existing: &mut Vec<CopyExecutionCanaryWouldSubmit>,
    new_orders: Vec<CopyExecutionCanaryWouldSubmit>,
)
    ensures
        final(existing)@ == orders_with_new(old(existing)@, new_orders@),
{
    let ghost before = existing@;
    let mut i: usize = 0;
    while i < new_orders.len()
        invariant
            i <= new_orders@.len(),
            existing@ == orders_with_new(before, new_orders@.subrange(0, i as int)),
        decreases new_orders@.len() - i,
    {
        if !has_order(existing, &new_orders[i].cloid) {
            existing.push(new_orders[i].clone());
        }
        assert(new_orders@.subrange(0, i as int + 1).drop_last() =~= new_orders@.subrange(
            0,
            i as int,
        ));
        i += 1;
    }
    proof {
        whole(new_orders@);
    }
}

/// Appends the plans whose client id is not in the list yet.
pub fn append_unique_copy_daemon_would_submit_refs(
    existing: &mut Vec<CopyLiveDaemonWouldSubmitRef>,
    new_refs: Vec<CopyLiveDaemonWouldSubmitRef>,
)
    ensures
        final(existing)@ == plans_with_new(old(existing)@, new_refs@),
{
    let ghost before = existing@;
    let mut i: usize = 0;
    while i < new_refs.len()
        invariant
            i <= new_refs@.len(),
            existing@ == plans_with_new(before, new_refs@.subrange(0, i as int)),
        decreases new_refs@.len() - i,
    {
        if !has_plan(existing, &new_refs[i].order.cloid) {
            existing.push(new_refs[i].clone());
        }
        assert(new_refs@.subrange(0, i as int + 1).drop_last() =~= new_refs@.subrange(0, i as int));
        i += 1;
    }
    proof {
        whole(new_refs@);
    }
}

/// Whether no two plans of a list share a client id.
pub open spec fn distinct_cloids(refs: Seq<CopyLiveDaemonWouldSubmitRef>) -> bool {
    forall|i: int, j: int|
        0 <= i < j < refs.len() ==> (#[trigger] refs[i]).order.cloid@ != (
        #[trigger] refs[j]).order.cloid@
}

/// Appending plans keeps those that were there, in place; it lists every client
/// id of both lists, and never lists one twice that was listed once.
pub proof fn append_keeps_and_covers(
    refs: Seq<CopyLiveDaemonWouldSubmitRef>,
    more: Seq<CopyLiveDaemonWouldSubmitRef>,
)
    ensures
        refs.len() <= plans_with_new(refs, more).len(),
        plans_with_new(refs, more).subrange(0, refs.len() as int) == refs,
        forall|c: Seq<char>|
            plan_listed(plans_with_new(refs, more), c) <==> plan_listed(refs, c) || plan_listed(
                more,
                c,
            ),
        distinct_cloids(refs) ==> distinct_cloids(plans_with_new(refs, more)),
    decreases more.len(),
{
    if more.len() == 0 {
        whole(refs);
        assert(forall|c: Seq<char>| !plan_listed(more, c));
    } else {
        let m = more.drop_last();
        let s = plans_with_new(refs, m);
        let r = plans_with_new(refs, more);
        let x = more.last();
        append_keeps_and_covers(refs, m);
        assert(r.subrange(0, refs.len() as int) =~= s.subrange(0, refs.len() as int));
        assert forall|c: Seq<char>| plan_listed(r, c) <==> plan_listed(refs, c) || plan_listed(
            more,
            c,
        ) by {
            assert(plan_listed(more, c) <==> plan_listed(m, c) || x.order.cloid@ == c) by {
                if plan_listed(m, c) {
                    let k = choose|k: int| 0 <= k < m.len() && (#[trigger] m[k]).order.cloid@ == c;
                    assert(more[k].order.cloid@ == c);
                }
                if x.order.cloid@ == c {
                    assert(more[more.len() - 1].order.cloid@ == c);
                }
                if plan_listed(more, c) {
                    let k = choose|k: int|
                        0 <= k < more.len() && (#[trigger] more[k]).order.cloid@ == c;
                    if k < m.len() {
                        assert(m[k].order.cloid@ == c);
                    }
                }
            }
            if !plan_listed(s, x.order.cloid@) {
                assert(plan_listed(r, c) <==> plan_listed(s, c) || x.order.cloid@ == c) by {
                    if plan_listed(s, c) {
                        let k = choose|k: int|
                            0 <= k < s.len() && (#[trigger] s[k]).order.cloid@ == c;
                        assert(r[k].order.cloid@ == c);
                    }
                    if x.order.cloid@ == c {
                        assert(r[r.len() - 1].order.cloid@ == c);
                    }
                    if plan_listed(r, c) {
                        let k = choose|k: int|
                            0 <= k < r.len() && (#[trigger] r[k]).order.cloid@ == c;
                        if k < s.len() {
                            assert(s[k].order.cloid@ == c);
                        }
                    }
                }
            }
        }
        if distinct_cloids(refs) && !plan_listed(s, x.order.cloid@) {
            assert forall|i: int, j: int| 0 <= i < j < r.len() implies (
            #[trigger] r[i]).order.cloid@ != (#[trigger] r[j]).order.cloid@ by {
                if j < s.len() {
                    assert(r[i] == s[i] && r[j] == s[j]);
                } else {
                    assert(r[i] == s[i] && r[j] == x);
                    assert(s[i].order.cloid@ != x.order.cloid@);
                }
            }
        }
    }
}

/// Appending the same plans a second time changes nothing.
pub proof fn append_twice_is_once(
    refs: Seq<CopyLiveDaemonWouldSubmitRef>,
    more: Seq<CopyLiveDaemonWouldSubmitRef>,
)
    ensures
        plans_with_new(plans_with_new(refs, more), more) == plans_with_new(refs, more),
{
    append_keeps_and_covers(refs, more);
    let r = plans_with_new(refs, more);
    assert forall|k: int| 0 <= k < more.len() implies plan_listed(
        r,
        (#[trigger] more[k]).order.cloid@,
    ) by {
        assert(plan_listed(more, more[k].order.cloid@));
    }
    append_listed(r, more);
}

proof fn append_listed(
    refs: Seq<CopyLiveDaemonWouldSubmitRef>,
    more: Seq<CopyLiveDaemonWouldSubmitRef>,
)
    requires
        forall|k: int|
            0 <= k < more.len() ==> plan_listed(refs, (#[trigger] more[k]).order.cloid@),
    ensures
        plans_with_new(refs, more) == refs,
    decreases more.len(),
{
    if more.len() > 0 {
        let m = more.drop_last();
        assert forall|k: int| 0 <= k < m.len() implies plan_listed(
            refs,
            (#[trigger] m[k]).order.cloid@,
        ) by {
            assert(m[k] == more[k]);
        }
        append_listed(refs, m);
        assert(plan_listed(refs, more[more.len() - 1].order.cloid@));
    }
}

/// Whether a plan's client id is not among the submitted ones.
pub open spec fn not_submitted(cloids: Seq<String>) -> spec_fn(CopyLiveDaemonWouldSubmitRef) -> bool {
    |p: CopyLiveDaemonWouldSubmitRef| !lists(cloids, p.order.cloid@)
}

/// Whether a held back plan's client id is not among the submitted ones.
pub open spec fn held_not_submitted(cloids: Seq<String>) -> spec_fn(
    CopyLiveDaemonSuppressedWouldSubmitRef,
) -> bool {
    |s: CopyLiveDaemonSuppressedWouldSubmitRef| !lists(cloids, s.plan.order.cloid@)
}

/// The plans that were not submitted yet, in order.
pub fn copy_live_daemon_pending_plan_refs(
    refs: &Vec<CopyLiveDaemonWouldSubmitRef>,
    submitted_plan_cloids: &Vec<String>,
) -> (r: Vec<CopyLiveDaemonWouldSubmitRef>)
    ensures
        r@ == refs@.filter(not_submitted(submitted_plan_cloids@)),
{
    let ghost p = not_submitted(submitted_plan_cloids@);
    let mut r: Vec<CopyLiveDaemonWouldSubmitRef> = Vec::new();
    let mut i: usize = 0;
    assert(refs@.subrange(0, 0).filter(p) =~= Seq::empty()) by {
        reveal(Seq::filter);
    }
    while i < refs.len()
        invariant
            i <= refs@.len(),
            p == not_submitted(submitted_plan_cloids@),
            r@ == refs@.subrange(0, i as int).filter(p),
        decreases refs@.len() - i,
    {
        proof {
            filter_step(refs@, p, i as int);
        }
        if !list_has(submitted_plan_cloids, refs[i].order.cloid.as_str()) {
            r.push(refs[i].clone());
        }
        i += 1;
    }
    proof {
        whole(refs@);
    }
    r
}

/// Whether what is said of a held back plan concerns one that was not submitted.
pub open spec fn still_held(cloids: Seq<String>) -> spec_fn(HeldPlan) -> bool {
    |h: HeldPlan| !lists(cloids, h.plan.order.cloid@)
}

proof fn held_of_pending(refs: Seq<CopyLiveDaemonSuppressedWouldSubmitRef>, cloids: Seq<String>)
    ensures
        held(refs.filter(held_not_submitted(cloids))) == held(refs).filter(still_held(cloids)),
    decreases refs.len(),
{
    reveal(Seq::filter);
    let p = held_not_submitted(cloids);
    if refs.len() == 0 {
        assert(held(refs.filter(p)) =~= held(refs).filter(still_held(cloids)));
    } else {
        let t = refs.drop_last();
        held_of_pending(t, cloids);
        assert(held(refs).drop_last() =~= held(t));
        assert(held(refs).last() == refs.last()@);
        if p(refs.last()) {
            assert(held(t.filter(p).push(refs.last())) =~= held(t.filter(p)).push(refs.last()@));
        }
    }
}

/// The held back plans that were not submitted meanwhile, in order.
pub fn copy_live_daemon_pending_suppressed_refs(
    refs: &Vec<CopyLiveDaemonSuppressedWouldSubmitRef>,
    submitted_plan_cloids: &Vec<String>,
) -> (r: Vec<CopyLiveDaemonSuppressedWouldSubmitRef>)
    ensures
        r@ == refs@.filter(held_not_submitted(submitted_plan_cloids@)),
        held(r@) == held(refs@).filter(still_held(submitted_plan_cloids@)),
{
    let ghost p = held_not_submitted(submitted_plan_cloids@);
    let mut r: Vec<CopyLiveDaemonSuppressedWouldSubmitRef> = Vec::new();
    let mut i: usize = 0;
    assert(refs@.subrange(0, 0).filter(p) =~= Seq::empty()) by {
        reveal(Seq::filter);
    }
    while i < refs.len()
        invariant
            i <= refs@.len(),
            p == held_not_submitted(submitted_plan_cloids@),
            r@ == refs@.subrange(0, i as int).filter(p),
        decreases refs@.len() - i,
    {
        proof {
            filter_step(refs@, p, i as int);
        }
        if !list_has(submitted_plan_cloids, refs[i].plan.order.cloid.as_str()) {
            r.push(refs[i].clone());
        }
        i += 1;
    }
    proof {
        whole(refs@);
        held_of_pending(refs@, submitted_plan_cloids@);
    }
    r
}

/// The held back orders of held back plans.
pub open spec fn orders_held(refs: Seq<HeldPlan>) -> Seq<HeldOrder> {
    refs.map_values(
        |h: HeldPlan|
            HeldOrder { order: h.plan.order, reason_code: h.reason_code, message: h.message },
    )
}

/// The held back orders of held back plans.
pub fn suppressed_orders_of(refs: &Vec<CopyLiveDaemonSuppressedWouldSubmitRef>) -> (r: Vec<
    CopyLiveDaemonSuppressedWouldSubmit,
>)
    ensures
        held_orders(r@) == orders_held(held(refs@)),
{
    let mut r: Vec<CopyLiveDaemonSuppressedWouldSubmit> = Vec::new();
    let mut i: usize = 0;
    let ghost goal = orders_held(held(refs@));
    assert(held_orders(r@) =~= goal.subrange(0, 0));
    while i < refs.len()
        invariant
            i <= refs@.len(),
            goal == orders_held(held(refs@)),
            held_orders(r@) == goal.subrange(0, i as int),
        decreases refs@.len() - i,
    {
        let ghost before = r@;
        r.push(
            CopyLiveDaemonSuppressedWouldSubmit {
                order: refs[i].plan.order.clone(),
                reason_code: refs[i].reason_code.clone(),
                message: refs[i].message.clone(),
            },
        );
        assert(held(refs@)[i as int] == refs@[i as int]@);
        assert(r@.last()@ == goal[i as int]);
        assert(held_orders(r@) =~= held_orders(before).push(goal[i as int]));
        assert(goal.subrange(0, i as int + 1) =~= goal.subrange(0, i as int).push(goal[i as int]));
        i += 1;
    }
    proof {
        whole(goal);
    }
    r
}

/// The position of the last `c` before position `n`, or -1 where there is none.
pub open spec fn last_of(s: Seq<char>, c: char, n: int) -> int
    decreases n,
{
    if n <= 0 {
        -1
    } else if s[n - 1] == c {
        n - 1
    } else {
        last_of(s, c, n - 1)
    }
}

/// Whether a text holds decimal digits only.
pub open spec fn digits_only(s: Seq<char>) -> bool {
    forall|i: int| 0 <= i < s.len() ==> is_digit(#[trigger] s[i])
}

/// A signal id without the dash and the digits that it ends in.
pub open spec fn signal_stem(id: Seq<char>) -> Seq<char> {
    let k = last_of(id, '-', id.len() as int);
    if 0 <= k < id.len() && digits_only(id.subrange(k + 1, id.len() as int)) {
        id.subrange(0, k)
    } else {
        id
    }
}

/// A signal id without the timestamp that it ends in.
pub fn copy_live_daemon_signal_id_without_timestamp<'a>(signal_id: &'a str) -> (r: &'a str)
    ensures
        r@ == signal_stem(signal_id@),
{
    let v: Vec<char> = chars_of(signal_id);
    let mut n: usize = v.len();
    let total_len: usize = v.len();
    while n > 0 && v[n - 1] != '-'
        invariant
            n <= v@.len() == total_len,
            v@ == signal_id@,
            last_of(v@, '-', total_len as int) == last_of(v@, '-', n as int),
            forall|i: int| n <= i < total_len ==> #[trigger] v@[i] != '-',
        decreases n,
    {
        n -= 1;
    }
    if n == 0 {
        return signal_id;
    }
    let mut i: usize = n;
    while i < total_len
        invariant
            n <= i <= total_len == v@.len(),
            n > 0,
            v@ == signal_id@,
            last_of(v@, '-', total_len as int) == n - 1,
            forall|k: int| n <= k < i ==> is_digit(#[trigger] v@[k]),
        decreases total_len - i,
    {
        if !('0' <= v[i] && v[i] <= '9') {
            assert(!is_digit(v@.subrange(n as int, total_len as int)[i - n]));
            return signal_id;
        }
        i += 1;
    }
    assert forall|k: int| 0 <= k < v@.subrange(n as int, total_len as int).len() implies is_digit(
        #[trigger] v@.subrange(n as int, total_len as int)[k],
    ) by {
        assert(v@.subrange(n as int, total_len as int)[k] == v@[k + n]);
    }
    signal_id.substring_char(0, n - 1)
}

/// What the plans of one signal share across accounts.
pub open spec fn fanout_key(p: CopyLiveDaemonWouldSubmitRef) -> Seq<char> {
    p.leader_id@ + "|"@ + p.order.coin@ + "|"@ + side_name(p.order.side) + "|"@ + bool_text(
        p.order.reduce_only,
    ) + "|"@ + signal_stem(p.signal_id@)
}

/// What the plans of one signal share across accounts.
pub fn copy_live_daemon_open_fanout_group_key(plan: &CopyLiveDaemonWouldSubmitRef) -> (r: String)
    ensures
        r@ == fanout_key(*plan),
{
    let mut s: String = plan.leader_id.clone();
    s.append("|");
    s.append(plan.order.coin.as_str());
    s.append("|");
    push_side_name(&mut s, plan.order.side);
    s.append("|");
    push_bool(&mut s, plan.order.reduce_only);
    s.append("|");
    s.append(copy_live_daemon_signal_id_without_timestamp(plan.signal_id.as_str()));
    s
}

/// What a list of plans opens adds up plan by plan: an opening counts as one
/// order with its notional, or with nothing where that is negative, and a
/// reduction counts neither as an order nor with a notional.
pub proof fn openings_add_up(
    refs: Seq<CopyLiveDaemonWouldSubmitRef>,
    p: CopyLiveDaemonWouldSubmitRef,
)
    ensures
        open_notional(Seq::empty()) == 0,
        Seq::<CopyLiveDaemonWouldSubmitRef>::empty().filter(opens()).len() == 0,
        Seq::<CopyLiveDaemonWouldSubmitRef>::empty().filter(reduces()).len() == 0,
        p.order.reduce_only ==> open_notional(refs.push(p)) == open_notional(refs),
        !p.order.reduce_only && p.order.notional_usd >= 0 ==> open_notional(refs.push(p))
            == open_notional(refs) + p.order.notional_usd,
        !p.order.reduce_only && p.order.notional_usd < 0 ==> open_notional(refs.push(p))
            == open_notional(refs),
        refs.push(p).filter(opens()) == if p.order.reduce_only {
            refs.filter(opens())
        } else {
            refs.filter(opens()).push(p)
        },
        refs.push(p).filter(reduces()) == if p.order.reduce_only {
            refs.filter(reduces()).push(p)
        } else {
            refs.filter(reduces())
        },
{
    reveal(Seq::filter);
    total_push(refs, p, plan_opened());
    assert(refs.push(p).drop_last() =~= refs);
}

/// The same holds of lists of orders.
pub proof fn opened_orders_add_up(
    orders: Seq<CopyExecutionCanaryWouldSubmit>,
    o: CopyExecutionCanaryWouldSubmit,
)
    ensures
        total(Seq::empty(), order_opened()) == 0,
        total(Seq::empty(), order_size()) == 0,
        total(orders.push(o), order_opened()) == total(orders, order_opened()) + (if o.reduce_only
            || o.notional_usd < 0 {
            0
        } else {
            o.notional_usd as int
        }),
        total(orders.push(o), order_size()) == total(orders, order_size()) + (if o.notional_usd
            < 0 {
            0
        } else {
            o.notional_usd as int
        }),
        orders.push(o).filter(order_opens()) == if o.reduce_only {
            orders.filter(order_opens())
        } else {
            orders.filter(order_opens()).push(o)
        },
        orders.push(o).filter(order_reduces()) == if o.reduce_only {
            orders.filter(order_reduces()).push(o)
        } else {
            orders.filter(order_reduces())
        },
{
    reveal(Seq::filter);
    total_push(orders, o, order_opened());
    total_push(orders, o, order_size());
    assert(orders.push(o).drop_last() =~= orders);
}

/// A plan or an order joins a list exactly where no member of the list has its
/// client id, and then behind all others.
pub proof fn only_new_client_ids_join(
    refs: Seq<CopyLiveDaemonWouldSubmitRef>,
    more: Seq<CopyLiveDaemonWouldSubmitRef>,
    p: CopyLiveDaemonWouldSubmitRef,
    orders: Seq<CopyExecutionCanaryWouldSubmit>,
    others: Seq<CopyExecutionCanaryWouldSubmit>,
    o: CopyExecutionCanaryWouldSubmit,
)
    ensures
        plans_with_new(refs, Seq::empty()) == refs,
        orders_with_new(orders, Seq::empty()) == orders,
        ({
            let s = plans_with_new(refs, more);
            plans_with_new(refs, more.push(p)) == if exists|i: int|
                0 <= i < s.len() && (#[trigger] s[i]).order.cloid@ == p.order.cloid@ {
                s
            } else {
                s.push(p)
            }
        }),
        ({
            let s = orders_with_new(orders, others);
            orders_with_new(orders, others.push(o)) == if exists|i: int|
                0 <= i < s.len() && (#[trigger] s[i]).cloid@ == o.cloid@ {
                s
            } else {
                s.push(o)
            }
        }),
{
    assert(more.push(p).drop_last() =~= more);
    assert(others.push(o).drop_last() =~= others);
}

/// What is still pending are the plans, sent or held back, under whose client id
/// nothing was submitted, in order.
pub proof fn pending_plans_were_not_submitted(
    refs: Seq<CopyLiveDaemonWouldSubmitRef>,
    p: CopyLiveDaemonWouldSubmitRef,
    back: Seq<HeldPlan>,
    h: HeldPlan,
    cloids: Seq<String>,
)
    ensures
        refs.push(p).filter(not_submitted(cloids)) == if exists|i: int|
            0 <= i < cloids.len() && (#[trigger] cloids[i])@ == p.order.cloid@ {
            refs.filter(not_submitted(cloids))
        } else {
            refs.filter(not_submitted(cloids)).push(p)
        },
        back.push(h).filter(still_held(cloids)) == if exists|i: int|
            0 <= i < cloids.len() && (#[trigger] cloids[i])@ == h.plan.order.cloid@ {
            back.filter(still_held(cloids))
        } else {
            back.filter(still_held(cloids)).push(h)
        },
        orders_of(refs.push(p)) == orders_of(refs).push(p.order),
        orders_held(back.push(h)) == orders_held(back).push(
            HeldOrder { order: h.plan.order, reason_code: h.reason_code, message: h.message },
        ),
{
    reveal(Seq::filter);
    assert(refs.push(p).drop_last() =~= refs);
    assert(back.push(h).drop_last() =~= back);
    assert(orders_of(refs.push(p)) =~= orders_of(refs).push(p.order));
    assert(orders_held(back.push(h)) =~= orders_held(back).push(
        HeldOrder { order: h.plan.order, reason_code: h.reason_code, message: h.message },
    ));
}

proof fn last_of_is_last(s: Seq<char>, c: char, n: int)
    requires
        0 <= n <= s.len(),
    ensures
        -1 <= last_of(s, c, n) < n || n == 0,
        last_of(s, c, n) >= -1,
        last_of(s, c, n) >= 0 ==> s[last_of(s, c, n)] == c,
        forall|i: int| last_of(s, c, n) < i < n ==> #[trigger] s[i] != c,
    decreases n,
{
    if n > 0 && s[n - 1] != c {
        last_of_is_last(s, c, n - 1);
    }
}

/// The stem of a signal id is what stands before a last dash with nothing but
/// digits behind it, and otherwise the whole id.
pub proof fn a_stem_drops_a_trailing_number(id: Seq<char>, stem: Seq<char>, number: Seq<char>)
    ensures
        digits_only(number) ==> signal_stem(stem + seq!['-'] + number) == stem,
        signal_stem(id) != id ==> exists|d: Seq<char>|
            digits_only(d) && id == #[trigger] (signal_stem(id) + seq!['-'] + d),
{
    if digits_only(number) {
        let s = stem + seq!['-'] + number;
        let k = last_of(s, '-', s.len() as int);
        last_of_is_last(s, '-', s.len() as int);
        assert(s[stem.len() as int] == '-');
        assert(k == stem.len()) by {
            if k < stem.len() {
                assert(s[stem.len() as int] != '-');
            } else if k > stem.len() {
                assert(s[k] == number[k - stem.len() - 1]);
                assert(is_digit(number[k - stem.len() - 1]));
            }
        }
        assert(s.subrange(k + 1, s.len() as int) =~= number);
        assert(s.subrange(0, k) =~= stem);
    }
    if signal_stem(id) != id {
        let k = last_of(id, '-', id.len() as int);
        last_of_is_last(id, '-', id.len() as int);
        let d = id.subrange(k + 1, id.len() as int);
        assert(id =~= signal_stem(id) + seq!['-'] + d);
    }
}

/// Plans of one leader, coin, side, kind and signal stem go together, and plans
/// that differ in just one of these do not.
pub proof fn fanout_keys_tell_signals_apart(
    a: CopyLiveDaemonWouldSubmitRef,
    b: CopyLiveDaemonWouldSubmitRef,
)
    ensures
        ({
            let leader = a.leader_id@ == b.leader_id@;
            let coin = a.order.coin@ == b.order.coin@;
            let side = a.order.side == b.order.side;
            let kind = a.order.reduce_only == b.order.reduce_only;
            let signal = signal_stem(a.signal_id@) == signal_stem(b.signal_id@);
            let same = fanout_key(a) == fanout_key(b);
            &&& leader && coin && side && kind && signal ==> same
            &&& same && coin && side && kind && signal ==> leader
            &&& same && leader && side && kind && signal ==> coin
            &&& same && leader && coin && kind && signal ==> side
            &&& same && leader && coin && side && signal ==> kind
            &&& same && leader && coin && side && kind ==> signal
        }),
{
    let sa = side_name(a.order.side);
    let ka = bool_text(a.order.reduce_only);
    let ga = signal_stem(a.signal_id@);
    let sb = side_name(b.order.side);
    let kb = bool_text(b.order.reduce_only);
    let gb = signal_stem(b.signal_id@);
    assert(sa == sb ==> a.order.side == b.order.side) by {
        reveal_strlit("Buy");
        reveal_strlit("Sell");
        assert("Buy"@.len() != "Sell"@.len());
    }
    assert(ka == kb ==> a.order.reduce_only == b.order.reduce_only) by {
        reveal_strlit("true");
        reveal_strlit("false");
        assert("true"@.len() != "false"@.len());
    }
    if fanout_key(a) == fanout_key(b) {
        if a.order.coin@ == b.order.coin@ && sa == sb && ka == kb && ga == gb {
            first_of_five(a.leader_id@, b.leader_id@, a.order.coin@, sa, ka, ga);
        }
        if a.leader_id@ == b.leader_id@ && sa == sb && ka == kb && ga == gb {
            second_of_five(a.leader_id@, a.order.coin@, b.order.coin@, sa, ka, ga);
        }
        if a.leader_id@ == b.leader_id@ && a.order.coin@ == b.order.coin@ {
            if ka == kb && ga == gb {
                third_of_five(a.leader_id@, a.order.coin@, sa, sb, ka, ga);
            }
            if sa == sb && ga == gb {
                fourth_of_five(a.leader_id@, a.order.coin@, sa, ka, kb, ga);
            }
            if sa == sb && ka == kb {
                fifth_of_five(a.leader_id@, a.order.coin@, sa, ka, ga, gb);
            }
        }
    }
}

/// Five texts with bars between them.
spec fn barred(
    a: Seq<char>,
    b: Seq<char>,
    c: Seq<char>,
    d: Seq<char>,
    e: Seq<char>,
) -> Seq<char> {
    a + "|"@ + b + "|"@ + c + "|"@ + d + "|"@ + e
}

proof fn first_of_five(
    x: Seq<char>,
    y: Seq<char>,
    b: Seq<char>,
    c: Seq<char>,
    d: Seq<char>,
    e: Seq<char>,
)
    requires
        barred(x, b, c, d, e) == barred(y, b, c, d, e),
    ensures
        x == y,
{
    part_is_fixed(
        Seq::empty(),
        x,
        y,
        "|"@ + b + "|"@ + c + "|"@ + d + "|"@ + e,
        barred(x, b, c, d, e),
    );
}

proof fn second_of_five(
    a: Seq<char>,
    x: Seq<char>,
    y: Seq<char>,
    c: Seq<char>,
    d: Seq<char>,
    e: Seq<char>,
)
    requires
        barred(a, x, c, d, e) == barred(a, y, c, d, e),
    ensures
        x == y,
{
    part_is_fixed(a + "|"@, x, y, "|"@ + c + "|"@ + d + "|"@ + e, barred(a, x, c, d, e));
}

proof fn third_of_five(
    a: Seq<char>,
    b: Seq<char>,
    x: Seq<char>,
    y: Seq<char>,
    d: Seq<char>,
    e: Seq<char>,
)
    requires
        barred(a, b, x, d, e) == barred(a, b, y, d, e),
    ensures
        x == y,
{
    part_is_fixed(a + "|"@ + b + "|"@, x, y, "|"@ + d + "|"@ + e, barred(a, b, x, d, e));
}

proof fn fourth_of_five(
    a: Seq<char>,
    b: Seq<char>,
    c: Seq<char>,
    x: Seq<char>,
    y: Seq<char>,
    e: Seq<char>,
)
    requires
        barred(a, b, c, x, e) == barred(a, b, c, y, e),
    ensures
        x == y,
{
    part_is_fixed(a + "|"@ + b + "|"@ + c + "|"@, x, y, "|"@ + e, barred(a, b, c, x, e));
}

proof fn fifth_of_five(
    a: Seq<char>,
    b: Seq<char>,
    c: Seq<char>,
    d: Seq<char>,
    x: Seq<char>,
    y: Seq<char>,
)
    requires
        barred(a, b, c, d, x) == barred(a, b, c, d, y),
    ensures
        x == y,
{
    part_is_fixed(
        a + "|"@ + b + "|"@ + c + "|"@ + d + "|"@,
        x,
        y,
        Seq::empty(),
        barred(a, b, c, d, x),
    );
}

proof fn part_is_fixed(
    head: Seq<char>,
    x: Seq<char>,
    y: Seq<char>,
    tail: Seq<char>,
    whole: Seq<char>,
)
    requires
        whole =~= head + x + tail,
        whole =~= head + y + tail,
    ensures
        x == y,
{
    assert((head + x + tail).len() == (head + y + tail).len());
    assert(x.len() == y.len());
    assert(x =~= whole.subrange(head.len() as int, (head.len() + x.len()) as int));
    assert(y =~= whole.subrange(head.len() as int, (head.len() + y.len()) as int));
}

} // verus!
