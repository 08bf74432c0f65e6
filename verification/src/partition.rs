//! Which planned orders fit under the caps of a window.
//!
//! The plans that one signal opens across accounts form a fan-out group. A
//! group is taken or held back as a whole; reductions are taken one by one and
//! count against no cap.

use vstd::prelude::*;

use crate::decimal::{
    are_fees_within, at_least_zero, dec, fees_fit, fine6, fixed6, push_count, push_fine6,
    push_fixed6, push_total6, Fees, Total,
};
use crate::market::{
    coin_market, copy_daemon_market_dex_for_coin, copy_daemon_market_scope_allows_open,
};
use crate::options::CopyLiveDaemonSupervisorOptions;
use crate::plan::{
    copy_live_daemon_open_fanout_group_key, copy_live_daemon_open_notional_usd_from_refs,
    fanout_key, held, held_orders, open_notional, opened_by, opens, order_opened, order_opens,
    plan_opened, push_held, CopyExecutionCanaryWouldSubmit, CopyLiveDaemonSuppressedWouldSubmit,
    CopyLiveDaemonSuppressedWouldSubmitRef, CopyLiveDaemonWouldSubmitRef, HeldOrder, HeldPlan,
};
use crate::seqs::{
    filter_all, filter_concat, filter_length, filter_members, filter_step, filter_twice,
    occurrences, occurrences_concat, occurrences_filter, occurrences_positive, total, total_concat,
    total_not_negative, total_push, whole,
};
use crate::text::{list_has, lists, texts};

verus! {

/// The fees that a notional is expected to cost: a thousandth of it, that is as
/// many trillionths as it has billionths.
pub open spec fn fee_estimate(notional: int) -> int {
    notional
}

/// The fees that a notional is expected to cost.
pub fn estimated_fees(notional: Total) -> (r: Fees)
    ensures
        r == fee_estimate(notional as int),
{
    notional
}

/// Why an order is held back.
pub struct Refusal {
    pub code: Seq<char>,
    pub message: Seq<char>,
}

/// Why an order is held back.
#[derive(Debug)]
pub struct SuppressionReason {
    pub reason_code: String,
    pub message: String,
}

impl View for SuppressionReason {
    type V = Refusal;

    open spec fn view(&self) -> Refusal {
        Refusal { code: self.reason_code@, message: self.message@ }
    }
}

/// What an optional reason says.
pub open spec fn reason(r: Option<SuppressionReason>) -> Option<Refusal> {
    match r {
        Some(x) => Some(x@),
        None => None,
    }
}

/// Why a candidate that raises the opened notional and the fees is held back.
pub open spec fn budget_refusal(
    options: CopyLiveDaemonSupervisorOptions,
    subject: Seq<char>,
    notional: int,
) -> Option<Refusal> {
    if notional > options.max_total_notional_usd {
        Some(
            Refusal {
                code: "COPY_DAEMON_MAX_TOTAL_NOTIONAL"@,
                message: subject + " would raise executable notional to "@ + fixed6(notional)
                    + ", above cap "@ + fixed6(options.max_total_notional_usd as int),
            },
        )
    } else if !fees_fit(fee_estimate(notional), options.max_total_fees_usd) {
        Some(
            Refusal {
                code: "COPY_DAEMON_MAX_TOTAL_FEES"@,
                message: subject + " would raise estimated fees to "@ + fine6(
                    fee_estimate(notional),
                ) + ", above cap "@ + fixed6(options.max_total_fees_usd as int),
            },
        )
    } else {
        None
    }
}

/// Why a fan-out group is held back that would bring the window to the given
/// count of opening orders and the given opened notional.
pub open spec fn open_refusal(
    options: CopyLiveDaemonSupervisorOptions,
    coin: Seq<char>,
    open_count: int,
    notional: int,
) -> Option<Refusal> {
    if !lists(options.markets@, coin_market(coin)) {
        Some(
            Refusal {
                code: "COPY_DAEMON_MARKET_EXIT_ONLY"@,
                message: coin_market(coin)
                    + " is not selected for new copy entries; reduce-only exits remain enabled"@,
            },
        )
    } else if open_count > options.max_live_orders {
        Some(
            Refusal {
                code: "COPY_DAEMON_MAX_LIVE_ORDERS"@,
                message: "open fan-out group would exceed max_live_orders "@ + dec(
                    options.max_live_orders as nat,
                ) + "; kept as observation only"@,
            },
        )
    } else {
        budget_refusal(options, "fan-out group"@, notional)
    }
}

fn check_budget(
    options: &CopyLiveDaemonSupervisorOptions,
    subject: &str,
    notional: i128,
) -> (r: Option<SuppressionReason>)
    requires
        notional >= 0,
    ensures
        reason(r) == budget_refusal(*options, subject@, notional as int),
{
    if notional > options.max_total_notional_usd as i128 {
        let mut s: String = subject.to_owned();
        s.append(" would raise executable notional to ");
        push_total6(&mut s, notional);
        s.append(", above cap ");
        push_fixed6(&mut s, options.max_total_notional_usd);
        return Some(
            SuppressionReason {
                reason_code: "COPY_DAEMON_MAX_TOTAL_NOTIONAL".to_owned(),
                message: s,
            },
        );
    }
    let fees: Fees = estimated_fees(notional);
    if !are_fees_within(fees, options.max_total_fees_usd) {
        let mut s: String = subject.to_owned();
        s.append(" would raise estimated fees to ");
        push_fine6(&mut s, fees);
        s.append(", above cap ");
        push_fixed6(&mut s, options.max_total_fees_usd);
        return Some(
            SuppressionReason {
                reason_code: "COPY_DAEMON_MAX_TOTAL_FEES".to_owned(),
                message: s,
            },
        );
    }
    None
}

fn check_open(
    options: &CopyLiveDaemonSupervisorOptions,
    coin: &str,
    open_count: i128,
    notional: i128,
) -> (r: Option<SuppressionReason>)
    requires
        notional >= 0,
    ensures
        reason(r) == open_refusal(*options, coin@, open_count as int, notional as int),
{
    if !copy_daemon_market_scope_allows_open(&options.markets, coin) {
        let (market, _dex) = copy_daemon_market_dex_for_coin(coin);
        let mut s: String = match market {
            Some(market) => market,
            None => "unknown_market".to_owned(),
        };
        s.append(" is not selected for new copy entries; reduce-only exits remain enabled");
        return Some(
            SuppressionReason {
                reason_code: "COPY_DAEMON_MARKET_EXIT_ONLY".to_owned(),
                message: s,
            },
        );
    }
    if open_count > options.max_live_orders as i128 {
        let mut s: String = "open fan-out group would exceed max_live_orders ".to_owned();
        push_count(&mut s, options.max_live_orders);
        s.append("; kept as observation only");
        return Some(
            SuppressionReason {
                reason_code: "COPY_DAEMON_MAX_LIVE_ORDERS".to_owned(),
                message: s,
            },
        );
    }
    check_budget(options, "fan-out group", notional)
}

/// Whether a plan opens and belongs to the fan-out group with the given key.
pub open spec fn in_group(key: Seq<char>) -> spec_fn(CopyLiveDaemonWouldSubmitRef) -> bool {
    |p: CopyLiveDaemonWouldSubmitRef| !p.order.reduce_only && fanout_key(p) == key
}

/// The plans of a fan-out group, in order.
pub open spec fn group_of(
    refs: Seq<CopyLiveDaemonWouldSubmitRef>,
    key: Seq<char>,
) -> Seq<CopyLiveDaemonWouldSubmitRef> {
    refs.filter(in_group(key))
}

/// Plans that are all held back for one reason.
pub open spec fn hold_all(
    group: Seq<CopyLiveDaemonWouldSubmitRef>,
    why: Refusal,
) -> Seq<HeldPlan> {
    group.map_values(
        |p: CopyLiveDaemonWouldSubmitRef|
            HeldPlan { plan: p, reason_code: why.code, message: why.message },
    )
}

/// How far a list of plans has been split.
pub struct Split {
    pub executable: Seq<CopyLiveDaemonWouldSubmitRef>,
    pub suppressed: Seq<HeldPlan>,
    pub notional: int,
    pub open_count: int,
    pub groups: Seq<Seq<char>>,
}

/// Splitting on by one plan.
pub open spec fn split_step(
    refs: Seq<CopyLiveDaemonWouldSubmitRef>,
    options: CopyLiveDaemonSupervisorOptions,
    st: Split,
    p: CopyLiveDaemonWouldSubmitRef,
) -> Split {
    if p.order.reduce_only {
        match budget_refusal(options, "candidate"@, st.notional) {
            Some(why) => Split {
                suppressed: st.suppressed + hold_all(seq![p], why),
                ..st
            },
            None => Split { executable: st.executable + seq![p], ..st },
        }
    } else if st.groups.contains(fanout_key(p)) {
        st
    } else {
        let group = group_of(refs, fanout_key(p));
        let notional = st.notional + open_notional(group);
        let open_count = st.open_count + group.len();
        match open_refusal(options, p.order.coin@, open_count, notional) {
            Some(why) => Split {
                suppressed: st.suppressed + hold_all(group, why),
                groups: st.groups.push(fanout_key(p)),
                ..st
            },
            None => Split {
                executable: st.executable + group,
                notional,
                open_count,
                groups: st.groups.push(fanout_key(p)),
                ..st
            },
        }
    }
}

/// The split of a list of plans after its first `n` were looked at.
pub open spec fn split_upto(
    refs: Seq<CopyLiveDaemonWouldSubmitRef>,
    options: CopyLiveDaemonSupervisorOptions,
    n: int,
) -> Split
    decreases n,
{
    if n <= 0 {
        Split {
            executable: Seq::empty(),
            suppressed: Seq::empty(),
            notional: 0,
            open_count: 0,
            groups: Seq::empty(),
        }
    } else {
        split_step(refs, options, split_upto(refs, options, n - 1), refs[n - 1])
    }
}

/// The plans that fit under the caps, and those that are held back.
pub open spec fn split(
    refs: Seq<CopyLiveDaemonWouldSubmitRef>,
    options: CopyLiveDaemonSupervisorOptions,
) -> Split {
    split_upto(refs, options, refs.len() as int)
}

fn group_refs(refs: &Vec<CopyLiveDaemonWouldSubmitRef>, key: &String) -> (r: Vec<
    CopyLiveDaemonWouldSubmitRef,
>)
    ensures
        r@ == group_of(refs@, key@),
        r@.len() <= refs@.len(),
{
    let ghost p = in_group(key@);
    let mut r: Vec<CopyLiveDaemonWouldSubmitRef> = Vec::new();
    let mut i: usize = 0;
    assert(refs@.subrange(0, 0).filter(p) =~= Seq::empty()) by {
        reveal(Seq::filter);
    }
    while i < refs.len()
        invariant
            i <= refs@.len(),
            p == in_group(key@),
            r@ == refs@.subrange(0, i as int).filter(p),
        decreases refs@.len() - i,
    {
        proof {
            filter_step(refs@, p, i as int);
        }
        if !refs[i].order.reduce_only && copy_live_daemon_open_fanout_group_key(&refs[i]) == *key {
            r.push(refs[i].clone());
        }
        i += 1;
    }
    proof {
        whole(refs@);
        filter_length(refs@, p);
    }
    r
}

fn hold_refs(
    v: &mut Vec<CopyLiveDaemonSuppressedWouldSubmitRef>,
    group: &Vec<CopyLiveDaemonWouldSubmitRef>,
    why: &SuppressionReason,
)
    ensures
        held(final(v)@) == held(old(v)@) + hold_all(group@, why@),
{
    let ghost before = held(v@);
    let ghost goal = hold_all(group@, why@);
    let mut i: usize = 0;
    assert(held(v@) =~= before + goal.subrange(0, 0));
    while i < group.len()
        invariant
            i <= group@.len(),
            goal == hold_all(group@, why@),
            held(v@) == before + goal.subrange(0, i as int),
        decreases group@.len() - i,
    {
        push_held(v, group[i].clone(), why.reason_code.as_str(), why.message.clone());
        assert(held(v@) =~= before + goal.subrange(0, i as int + 1));
        i += 1;
    }
    proof {
        whole(goal);
    }
}

/// The state of a split never leaves these bounds.
pub open spec fn split_bounded(options: CopyLiveDaemonSupervisorOptions, st: Split) -> bool {
    &&& 0 <= st.notional
    &&& st.notional == 0 || st.notional <= options.max_total_notional_usd
    &&& 0 <= st.open_count
    &&& st.open_count == 0 || st.open_count <= options.max_live_orders
}

proof fn split_upto_bounded(
    refs: Seq<CopyLiveDaemonWouldSubmitRef>,
    options: CopyLiveDaemonSupervisorOptions,
    n: int,
)
    requires
        0 <= n <= refs.len(),
    ensures
        split_bounded(options, split_upto(refs, options, n)),
    decreases n,
{
    if n > 0 {
        split_upto_bounded(refs, options, n - 1);
        let p = refs[n - 1];
        total_not_negative(group_of(refs, fanout_key(p)), plan_opened());
    }
}

/// Splits the plans of a window into those that fit under its caps and those
/// that are held back.
pub fn partition_copy_live_daemon_would_submit_refs(
    refs: &Vec<CopyLiveDaemonWouldSubmitRef>,
    options: &CopyLiveDaemonSupervisorOptions,
) -> (r: (Vec<CopyLiveDaemonWouldSubmitRef>, Vec<CopyLiveDaemonSuppressedWouldSubmitRef>))
    ensures
        r.0@ == split(refs@, *options).executable,
        held(r.1@) == split(refs@, *options).suppressed,
{
    let mut executable: Vec<CopyLiveDaemonWouldSubmitRef> = Vec::new();
    let mut suppressed: Vec<CopyLiveDaemonSuppressedWouldSubmitRef> = Vec::new();
    let mut notional: i64 = 0;
    let mut open_count: usize = 0;
    let mut groups: Vec<String> = Vec::new();
    let mut i: usize = 0;
    assert(held(suppressed@) =~= Seq::empty());
    assert(texts(groups@) =~= Seq::empty());
    while i < refs.len()
        invariant
            i <= refs@.len(),
            executable@ == split_upto(refs@, *options, i as int).executable,
            held(suppressed@) == split_upto(refs@, *options, i as int).suppressed,
            notional == split_upto(refs@, *options, i as int).notional,
            open_count == split_upto(refs@, *options, i as int).open_count,
            texts(groups@) == split_upto(refs@, *options, i as int).groups,
        decreases refs@.len() - i,
    {
        let ghost st = split_upto(refs@, *options, i as int);
        proof {
            split_upto_bounded(refs@, *options, i as int);
            split_upto_bounded(refs@, *options, i as int + 1);
            assert(split_upto(refs@, *options, i as int + 1) == split_step(
                refs@,
                *options,
                st,
                refs@[i as int],
            ));
        }
        if refs[i].order.reduce_only {
            let one: Vec<CopyLiveDaemonWouldSubmitRef> = vec![refs[i].clone()];
            assert(one@ =~= seq![refs@[i as int]]);
            match check_budget(options, "candidate", notional as i128) {
                Some(why) => {
                    hold_refs(&mut suppressed, &one, &why);
                },
                None => {
                    let mut one: Vec<CopyLiveDaemonWouldSubmitRef> = one;
                    executable.append(&mut one);
                },
            }
        } else {
            let key: String = copy_live_daemon_open_fanout_group_key(&refs[i]);
            proof {
                assert(lists(groups@, key@) <==> texts(groups@).contains(key@)) by {
                    if lists(groups@, key@) {
                        let k = choose|k: int|
                            0 <= k < groups@.len() && (#[trigger] groups@[k])@ == key@;
                        assert(texts(groups@)[k] == key@);
                    }
                    if texts(groups@).contains(key@) {
                        let k = choose|k: int|
                            0 <= k < texts(groups@).len() && texts(groups@)[k] == key@;
                        assert(groups@[k]@ == key@);
                    }
                }
            }
            if !list_has(&groups, key.as_str()) {
                let group: Vec<CopyLiveDaemonWouldSubmitRef> = group_refs(refs, &key);
                let next_notional: i128 = notional as i128 + copy_live_daemon_open_notional_usd_from_refs(&group);
                let next_count: i128 = open_count as i128 + group.len() as i128;
                match check_open(options, refs[i].order.coin.as_str(), next_count, next_notional) {
                    Some(why) => {
                        hold_refs(&mut suppressed, &group, &why);
                    },
                    None => {
                        notional = next_notional as i64;
                        open_count = next_count as usize;
                        let mut group: Vec<CopyLiveDaemonWouldSubmitRef> = group;
                        executable.append(&mut group);
                    },
                }
                let ghost before = texts(groups@);
                groups.push(key);
                assert(texts(groups@) =~= before.push(key@));
            }
        }
        i += 1;
    }
    (executable, suppressed)
}

/// Whether the counters of a split match its executable plans, and whether these
/// stay within the caps of the window as soon as one of them opens a position.
pub open spec fn within_caps(options: CopyLiveDaemonSupervisorOptions, st: Split) -> bool {
    &&& st.open_count == st.executable.filter(opens()).len()
    &&& st.notional == open_notional(st.executable)
    &&& st.open_count > 0 ==> {
        &&& st.open_count <= options.max_live_orders
        &&& st.notional <= options.max_total_notional_usd
        &&& fees_fit(fee_estimate(st.notional), options.max_total_fees_usd)
    }
}

proof fn reduction_opens_nothing(
    taken: Seq<CopyLiveDaemonWouldSubmitRef>,
    p: CopyLiveDaemonWouldSubmitRef,
)
    requires
        p.order.reduce_only,
    ensures
        (taken + seq![p]).filter(opens()) == taken.filter(opens()),
        open_notional(taken + seq![p]) == open_notional(taken),
{
    assert(taken + seq![p] =~= taken.push(p));
    assert(taken.push(p).drop_last() =~= taken);
    reveal(Seq::filter);
}

proof fn group_opens_all(
    refs: Seq<CopyLiveDaemonWouldSubmitRef>,
    taken: Seq<CopyLiveDaemonWouldSubmitRef>,
    key: Seq<char>,
)
    ensures
        (taken + group_of(refs, key)).filter(opens()).len() == taken.filter(opens()).len()
            + group_of(refs, key).len(),
        open_notional(taken + group_of(refs, key)) == open_notional(taken) + open_notional(
            group_of(refs, key),
        ),
{
    let g = group_of(refs, key);
    filter_members(refs, in_group(key));
    filter_concat(taken, g, opens());
    total_concat(taken, g, plan_opened());
    assert forall|i: int| 0 <= i < g.len() implies opens()(#[trigger] g[i]) by {
        assert(in_group(key)(g[i]));
    }
    filter_all(g, opens());
}

proof fn split_upto_within_caps(
    refs: Seq<CopyLiveDaemonWouldSubmitRef>,
    options: CopyLiveDaemonSupervisorOptions,
    n: int,
)
    requires
        0 <= n <= refs.len(),
    ensures
        within_caps(options, split_upto(refs, options, n)),
    decreases n,
{
    if n <= 0 {
        reveal(Seq::filter);
    } else {
        split_upto_within_caps(refs, options, n - 1);
        let st = split_upto(refs, options, n - 1);
        let p = refs[n - 1];
        if p.order.reduce_only {
            reduction_opens_nothing(st.executable, p);
        } else {
            group_opens_all(refs, st.executable, fanout_key(p));
        }
    }
}

/// The executable plans never open more orders, more notional or more expected
/// fees than the window allows.
pub proof fn executable_plans_stay_under_the_caps(
    refs: Seq<CopyLiveDaemonWouldSubmitRef>,
    options: CopyLiveDaemonSupervisorOptions,
)
    ensures
        ({
            let taken = split(refs, options).executable;
            taken.filter(opens()).len() > 0 ==> {
                &&& taken.filter(opens()).len() <= options.max_live_orders
                &&& open_notional(taken) <= options.max_total_notional_usd
                &&& fees_fit(fee_estimate(open_notional(taken)), options.max_total_fees_usd)
            }
        }),
{
    split_upto_within_caps(refs, options, refs.len() as int);
}

/// The plans behind held back plans.
pub open spec fn plans_of(v: Seq<HeldPlan>) -> Seq<CopyLiveDaemonWouldSubmitRef> {
    v.map_values(|h: HeldPlan| h.plan)
}

proof fn plans_of_hold_all(
    a: Seq<HeldPlan>,
    group: Seq<CopyLiveDaemonWouldSubmitRef>,
    why: Refusal,
)
    ensures
        plans_of(a + hold_all(group, why)) == plans_of(a) + group,
{
    assert(plans_of(a + hold_all(group, why)) =~= plans_of(a) + group);
}

/// How often a plan was placed so far: a reduction as often as it was looked at,
/// an opening plan as often as it occurs once its group was looked at.
pub open spec fn placed(
    refs: Seq<CopyLiveDaemonWouldSubmitRef>,
    st: Split,
    n: int,
    x: CopyLiveDaemonWouldSubmitRef,
) -> nat {
    if x.order.reduce_only {
        occurrences(refs.subrange(0, n), x)
    } else if st.groups.contains(fanout_key(x)) {
        occurrences(refs, x)
    } else {
        0
    }
}

proof fn split_upto_places(
    refs: Seq<CopyLiveDaemonWouldSubmitRef>,
    options: CopyLiveDaemonSupervisorOptions,
    n: int,
    x: CopyLiveDaemonWouldSubmitRef,
)
    requires
        0 <= n <= refs.len(),
    ensures
        ({
            let st = split_upto(refs, options, n);
            &&& occurrences(st.executable, x) + occurrences(
                plans_of(st.suppressed),
                x,
            ) == placed(refs, st, n, x)
            &&& forall|j: int|
                0 <= j < n && !(#[trigger] refs[j]).order.reduce_only ==> st.groups.contains(
                    fanout_key(refs[j]),
                )
        }),
    decreases n,
{
    if n <= 0 {
        assert(plans_of(split_upto(refs, options, n).suppressed) =~= Seq::empty());
        assert(refs.subrange(0, 0) =~= Seq::empty());
    } else {
        split_upto_places(refs, options, n - 1, x);
        let st = split_upto(refs, options, n - 1);
        let nx = split_upto(refs, options, n);
        let p = refs[n - 1];
        assert(refs.subrange(0, n).drop_last() =~= refs.subrange(0, n - 1));
        assert(refs.subrange(0, n).last() == p);
        if p.order.reduce_only {
            occurrences_concat(st.executable, seq![p], x);
            occurrences_concat(plans_of(st.suppressed), seq![p], x);
            assert(seq![p].drop_last() =~= Seq::empty());
            assert(occurrences(seq![p].drop_last(), x) == 0);
            match budget_refusal(options, "candidate"@, st.notional) {
                Some(why) => {
                    plans_of_hold_all(st.suppressed, seq![p], why);
                },
                None => {},
            }
        } else if st.groups.contains(fanout_key(p)) {
        } else {
            let key = fanout_key(p);
            let g = group_of(refs, key);
            occurrences_filter(refs, in_group(key), x);
            occurrences_concat(st.executable, g, x);
            occurrences_concat(plans_of(st.suppressed), g, x);
            match open_refusal(
                options,
                p.order.coin@,
                st.open_count + g.len(),
                st.notional + open_notional(g),
            ) {
                Some(why) => {
                    plans_of_hold_all(st.suppressed, g, why);
                },
                None => {},
            }
            assert(nx.groups == st.groups.push(key));
            assert(nx.groups[nx.groups.len() - 1] == key);
            assert forall|k: Seq<char>| nx.groups.contains(k) <==> st.groups.contains(k) || k
                == key by {
                if st.groups.contains(k) {
                    let m = choose|m: int| 0 <= m < st.groups.len() && st.groups[m] == k;
                    assert(nx.groups[m] == k);
                }
                if nx.groups.contains(k) {
                    let m = choose|m: int| 0 <= m < nx.groups.len() && nx.groups[m] == k;
                    if m < st.groups.len() {
                        assert(st.groups[m] == k);
                    }
                }
            }
        }
    }
}

/// Every plan is placed exactly once: as often as a plan occurs in the list, as
/// often it is executable or held back.
pub proof fn every_plan_is_placed_once(
    refs: Seq<CopyLiveDaemonWouldSubmitRef>,
    options: CopyLiveDaemonSupervisorOptions,
    x: CopyLiveDaemonWouldSubmitRef,
)
    ensures
        occurrences(split(refs, options).executable, x) + occurrences(
            plans_of(split(refs, options).suppressed),
            x,
        ) == occurrences(refs, x),
{
    split_upto_places(refs, options, refs.len() as int, x);
    whole(refs);
    occurrences_positive(refs, x);
    if !x.order.reduce_only && refs.contains(x) {
        let j = choose|j: int| 0 <= j < refs.len() && refs[j] == x;
        assert(split(refs, options).groups.contains(fanout_key(refs[j])));
    }
}

/// Where no cap is negative, every reduction is executable.
pub proof fn reductions_are_always_executable(
    refs: Seq<CopyLiveDaemonWouldSubmitRef>,
    options: CopyLiveDaemonSupervisorOptions,
    x: CopyLiveDaemonWouldSubmitRef,
)
    requires
        options.max_total_notional_usd >= 0,
        options.max_total_fees_usd >= 0,
        x.order.reduce_only,
    ensures
        occurrences(split(refs, options).executable, x) == occurrences(
            refs,
            x,
        ),
{
    split_upto_keeps_reductions(refs, options, refs.len() as int, x);
    whole(refs);
}

proof fn split_upto_keeps_reductions(
    refs: Seq<CopyLiveDaemonWouldSubmitRef>,
    options: CopyLiveDaemonSupervisorOptions,
    n: int,
    x: CopyLiveDaemonWouldSubmitRef,
)
    requires
        0 <= n <= refs.len(),
        options.max_total_notional_usd >= 0,
        options.max_total_fees_usd >= 0,
        x.order.reduce_only,
    ensures
        occurrences(split_upto(refs, options, n).executable, x)
            == occurrences(refs.subrange(0, n), x),
    decreases n,
{
    if n <= 0 {
        assert(refs.subrange(0, 0) =~= Seq::empty());
    } else {
        split_upto_keeps_reductions(refs, options, n - 1, x);
        split_upto_within_caps(refs, options, n - 1);
        split_upto_bounded(refs, options, n - 1);
        let st = split_upto(refs, options, n - 1);
        let p = refs[n - 1];
        assert(refs.subrange(0, n).drop_last() =~= refs.subrange(0, n - 1));
        assert(refs.subrange(0, n).last() == p);
        if p.order.reduce_only {
            occurrences_concat(st.executable, seq![p], x);
            assert(seq![p].drop_last() =~= Seq::empty());
            assert(occurrences(seq![p].drop_last(), x) == 0);
            if st.open_count == 0 {
                no_opens_no_notional(st.executable);
            }
        } else {
            occurrences_filter(refs, in_group(fanout_key(p)), x);
            occurrences_concat(st.executable, group_of(refs, fanout_key(p)), x);
        }
    }
}

proof fn no_opens_no_notional(refs: Seq<CopyLiveDaemonWouldSubmitRef>)
    requires
        refs.filter(opens()).len() == 0,
    ensures
        open_notional(refs) == 0,
    decreases refs.len(),
{
    reveal(Seq::filter);
    if refs.len() > 0 {
        no_opens_no_notional(refs.drop_last());
    }
}

/// The executable plans hold each fan-out group as a whole or not at all.
pub proof fn fanout_groups_stay_together(
    refs: Seq<CopyLiveDaemonWouldSubmitRef>,
    options: CopyLiveDaemonSupervisorOptions,
    key: Seq<char>,
)
    ensures
        ({
            let taken = group_of(split(refs, options).executable, key);
            taken == group_of(refs, key) || taken.len() == 0
        }),
{
    split_upto_groups(refs, options, refs.len() as int, key);
}

proof fn split_upto_groups(
    refs: Seq<CopyLiveDaemonWouldSubmitRef>,
    options: CopyLiveDaemonSupervisorOptions,
    n: int,
    key: Seq<char>,
)
    requires
        0 <= n <= refs.len(),
    ensures
        ({
            let st = split_upto(refs, options, n);
            let taken = group_of(st.executable, key);
            &&& taken == group_of(refs, key) || taken.len() == 0
            &&& !st.groups.contains(key) ==> taken.len() == 0
        }),
    decreases n,
{
    let q = in_group(key);
    if n <= 0 {
        reveal(Seq::filter);
    } else {
        split_upto_groups(refs, options, n - 1, key);
        let st = split_upto(refs, options, n - 1);
        let nx = split_upto(refs, options, n);
        let p = refs[n - 1];
        let g = if p.order.reduce_only {
            seq![p]
        } else {
            group_of(refs, fanout_key(p))
        };
        filter_concat(st.executable, g, q);
        filter_members(g, q);
        if p.order.reduce_only || fanout_key(p) != key {
            assert(g.filter(q).len() == 0) by {
                if g.filter(q).len() > 0 {
                    let x = g.filter(q)[0];
                    assert(q(x) && g.contains(x));
                    if !p.order.reduce_only {
                        filter_members(refs, in_group(fanout_key(p)));
                    }
                }
            }
            assert(st.executable.filter(q) + g.filter(q) =~= st.executable.filter(q));
        } else if !st.groups.contains(fanout_key(p)) {
            filter_twice(refs, q);
            assert(st.executable.filter(q) + g.filter(q) =~= g.filter(q));
            assert(nx.groups[nx.groups.len() - 1] == key);
        }
        if !nx.groups.contains(key) {
            if st.groups.contains(key) {
                let m = choose|m: int| 0 <= m < st.groups.len() && st.groups[m] == key;
                assert(nx.groups[m] == key);
            }
        }
    }
}

/// How far a list of orders has been split.
pub struct OrderSplit {
    pub executable: Seq<CopyExecutionCanaryWouldSubmit>,
    pub suppressed: Seq<HeldOrder>,
    pub notional: int,
    pub open_count: int,
}

/// Why a single order is held back.
pub open spec fn order_refusal(
    options: CopyLiveDaemonSupervisorOptions,
    reduce_only: bool,
    open_count: int,
    notional: int,
) -> Option<Refusal> {
    if !reduce_only && open_count > options.max_live_orders {
        Some(
            Refusal {
                code: "COPY_DAEMON_MAX_LIVE_ORDERS"@,
                message: "open candidate would exceed max_live_orders "@ + dec(
                    options.max_live_orders as nat,
                ) + "; kept as observation only"@,
            },
        )
    } else {
        budget_refusal(options, "candidate"@, notional)
    }
}

/// The split of a list of orders after its first `n` were looked at.
pub open spec fn order_split_upto(
    orders: Seq<CopyExecutionCanaryWouldSubmit>,
    options: CopyLiveDaemonSupervisorOptions,
    n: int,
) -> OrderSplit
    decreases n,
{
    if n <= 0 {
        OrderSplit {
            executable: Seq::empty(),
            suppressed: Seq::empty(),
            notional: 0,
            open_count: 0,
        }
    } else {
        let st = order_split_upto(orders, options, n - 1);
        let o = orders[n - 1];
        let open_count = st.open_count + if o.reduce_only {
            0int
        } else {
            1
        };
        let notional = st.notional + opened_by(o);
        match order_refusal(options, o.reduce_only, open_count, notional) {
            Some(why) => OrderSplit {
                suppressed: st.suppressed.push(
                    HeldOrder { order: o, reason_code: why.code, message: why.message },
                ),
                ..st
            },
            None => OrderSplit {
                executable: st.executable.push(o),
                suppressed: st.suppressed,
                notional,
                open_count,
            },
        }
    }
}

fn check_order(
    options: &CopyLiveDaemonSupervisorOptions,
    reduce_only: bool,
    open_count: i128,
    notional: i128,
) -> (r: Option<SuppressionReason>)
    requires
        notional >= 0,
    ensures
        reason(r) == order_refusal(*options, reduce_only, open_count as int, notional as int),
{
    if !reduce_only && open_count > options.max_live_orders as i128 {
        let mut s: String = "open candidate would exceed max_live_orders ".to_owned();
        push_count(&mut s, options.max_live_orders);
        s.append("; kept as observation only");
        return Some(
            SuppressionReason {
                reason_code: "COPY_DAEMON_MAX_LIVE_ORDERS".to_owned(),
                message: s,
            },
        );
    }
    check_budget(options, "candidate", notional)
}

/// Splits single orders into those that fit under the caps of a window and
/// those that are held back.
pub fn partition_copy_live_daemon_would_submit_orders(
    orders: &Vec<CopyExecutionCanaryWouldSubmit>,
    options: &CopyLiveDaemonSupervisorOptions,
) -> (r: (Vec<CopyExecutionCanaryWouldSubmit>, Vec<CopyLiveDaemonSuppressedWouldSubmit>))
    ensures
        r.0@ == order_split_upto(orders@, *options, orders@.len() as int).executable,
        held_orders(r.1@) == order_split_upto(orders@, *options, orders@.len() as int).suppressed,
{
    let mut executable: Vec<CopyExecutionCanaryWouldSubmit> = Vec::new();
    let mut suppressed: Vec<CopyLiveDaemonSuppressedWouldSubmit> = Vec::new();
    let mut notional: i64 = 0;
    let mut open_count: usize = 0;
    let mut i: usize = 0;
    assert(held_orders(suppressed@) =~= Seq::empty());
    while i < orders.len()
        invariant
            i <= orders@.len(),
            notional >= 0,
            open_count <= i,
            executable@ == order_split_upto(orders@, *options, i as int).executable,
            held_orders(suppressed@) == order_split_upto(orders@, *options, i as int).suppressed,
            notional == order_split_upto(orders@, *options, i as int).notional,
            open_count == order_split_upto(orders@, *options, i as int).open_count,
        decreases orders@.len() - i,
    {
        let mut next_count: usize = open_count;
        let mut next_notional: i128 = notional as i128;
        if !orders[i].reduce_only {
            next_count = open_count + 1;
            next_notional = notional as i128 + at_least_zero(orders[i].notional_usd) as i128;
        }
        match check_order(options, orders[i].reduce_only, next_count as i128, next_notional) {
            Some(why) => {
                let ghost before = held_orders(suppressed@);
                suppressed.push(
                    CopyLiveDaemonSuppressedWouldSubmit {
                        order: orders[i].clone(),
                        reason_code: why.reason_code,
                        message: why.message,
                    },
                );
                assert(held_orders(suppressed@) =~= before.push(suppressed@.last()@));
            },
            None => {
                notional = next_notional as i64;
                open_count = next_count;
                executable.push(orders[i].clone());
            },
        }
        i += 1;
    }
    (executable, suppressed)
}

proof fn order_split_within_caps(
    orders: Seq<CopyExecutionCanaryWouldSubmit>,
    options: CopyLiveDaemonSupervisorOptions,
    n: int,
)
    requires
        0 <= n <= orders.len(),
    ensures
        ({
            let st = order_split_upto(orders, options, n);
            &&& st.notional == total(st.executable, order_opened())
            &&& st.open_count == st.executable.filter(order_opens()).len()
            &&& st.open_count > 0 ==> {
                &&& st.open_count <= options.max_live_orders
                &&& st.notional <= options.max_total_notional_usd
                &&& fees_fit(fee_estimate(st.notional), options.max_total_fees_usd)
            }
        }),
    decreases n,
{
    reveal(Seq::filter);
    if n > 0 {
        order_split_within_caps(orders, options, n - 1);
        let st = order_split_upto(orders, options, n - 1);
        let o = orders[n - 1];
        total_push(st.executable, o, order_opened());
        assert(st.executable.push(o).drop_last() =~= st.executable);
    }
}

/// The executable orders never open more orders, more notional or more expected
/// fees than the window allows.
pub proof fn executable_orders_stay_under_the_caps(
    orders: Seq<CopyExecutionCanaryWouldSubmit>,
    options: CopyLiveDaemonSupervisorOptions,
)
    ensures
        ({
            let taken = order_split_upto(orders, options, orders.len() as int).executable;
            let notional = total(taken, order_opened());
            taken.filter(order_opens()).len() > 0 ==> {
                &&& taken.filter(order_opens()).len() <= options.max_live_orders
                &&& notional <= options.max_total_notional_usd
                &&& fees_fit(fee_estimate(notional), options.max_total_fees_usd)
            }
        }),
{
    order_split_within_caps(orders, options, orders.len() as int);
}

proof fn looked_at_groups(
    refs: Seq<CopyLiveDaemonWouldSubmitRef>,
    options: CopyLiveDaemonSupervisorOptions,
    n: int,
    key: Seq<char>,
)
    requires
        0 <= n <= refs.len(),
    ensures
        split_upto(refs, options, n).groups.contains(key) <==> exists|i: int|
            0 <= i < n && !(#[trigger] refs[i]).order.reduce_only && fanout_key(refs[i]) == key,
    decreases n,
{
    if n > 0 {
        looked_at_groups(refs, options, n - 1, key);
        let a = split_upto(refs, options, n - 1).groups;
        let b = split_upto(refs, options, n).groups;
        let p = refs[n - 1];
        if a.contains(key) {
            let k = choose|k: int| 0 <= k < a.len() && a[k] == key;
            assert(b[k] == key);
        }
        if !p.order.reduce_only && fanout_key(p) == key && !a.contains(key) {
            assert(b[a.len() as int] == key);
        }
        if b.contains(key) && !a.contains(key) {
            let k = choose|k: int| 0 <= k < b.len() && b[k] == key;
            assert(k == a.len());
            assert(!p.order.reduce_only && fanout_key(p) == key);
            assert(refs[n - 1] == p);
        }
    }
}

/// Splitting on by one plan. A reduction is executable where what is opened so
/// far is within the caps. An opening decides over all openings of its group the
/// first time the group is met: they are executable together where their market
/// is selected, and orders, notional and expected fees stay within the caps with
/// all of them; otherwise all of them are held back, for the first of these
/// reasons.
pub proof fn a_group_is_sent_where_all_of_it_fits(
    refs: Seq<CopyLiveDaemonWouldSubmitRef>,
    options: CopyLiveDaemonSupervisorOptions,
    n: int,
)
    requires
        0 <= n < refs.len(),
    ensures
        split(refs, options) == split_upto(refs, options, refs.len() as int),
        split_upto(refs, options, 0).executable.len() == 0,
        split_upto(refs, options, 0).suppressed.len() == 0,
        ({
            let a = split_upto(refs, options, n);
            let b = split_upto(refs, options, n + 1);
            let p = refs[n];
            let opened = open_notional(a.executable);
            let added = b.suppressed.subrange(
                a.suppressed.len() as int,
                b.suppressed.len() as int,
            );
            &&& b.suppressed.subrange(0, a.suppressed.len() as int) == a.suppressed
            &&& if p.order.reduce_only {
                if opened <= options.max_total_notional_usd && opened <= 1000
                    * options.max_total_fees_usd {
                    b.executable == a.executable.push(p) && b.suppressed == a.suppressed
                } else {
                    b.executable == a.executable && added.len() == 1 && added[0].plan == p
                }
            } else if exists|i: int|
                0 <= i < n && !(#[trigger] refs[i]).order.reduce_only && fanout_key(refs[i])
                    == fanout_key(p) {
                b.executable == a.executable && b.suppressed == a.suppressed
            } else {
                let group = refs.filter(
                    |q: CopyLiveDaemonWouldSubmitRef|
                        !q.order.reduce_only && fanout_key(q) == fanout_key(p),
                );
                let count = a.executable.filter(opens()).len() + group.len();
                let notional = opened + open_notional(group);
                let market = exists|i: int|
                    0 <= i < options.markets@.len() && (#[trigger] options.markets@[i])@
                        == coin_market(p.order.coin@);
                if market && count <= options.max_live_orders && notional
                    <= options.max_total_notional_usd && notional <= 1000
                    * options.max_total_fees_usd {
                    b.executable == a.executable + group && b.suppressed == a.suppressed
                } else {
                    &&& b.executable == a.executable
                    &&& added.len() == group.len()
                    &&& forall|i: int|
                        0 <= i < added.len() ==> (#[trigger] added[i]).plan == group[i]
                            && added[i].reason_code == if !market {
                            "COPY_DAEMON_MARKET_EXIT_ONLY"@
                        } else if count > options.max_live_orders {
                            "COPY_DAEMON_MAX_LIVE_ORDERS"@
                        } else if notional > options.max_total_notional_usd {
                            "COPY_DAEMON_MAX_TOTAL_NOTIONAL"@
                        } else {
                            "COPY_DAEMON_MAX_TOTAL_FEES"@
                        }
                }
            }
        }),
{
    let a = split_upto(refs, options, n);
    let b = split_upto(refs, options, n + 1);
    let p = refs[n];
    split_upto_within_caps(refs, options, n);
    looked_at_groups(refs, options, n, fanout_key(p));
    assert(b == split_step(refs, options, a, p));
    assert(b.suppressed.subrange(0, a.suppressed.len() as int) =~= a.suppressed);
    assert(a.executable + seq![p] =~= a.executable.push(p));
    let added = b.suppressed.subrange(a.suppressed.len() as int, b.suppressed.len() as int);
    if p.order.reduce_only {
        if b.suppressed.len() > a.suppressed.len() {
            assert(added[0] == b.suppressed[a.suppressed.len() as int]);
        }
    } else {
        let group = refs.filter(
            |q: CopyLiveDaemonWouldSubmitRef|
                !q.order.reduce_only && fanout_key(q) == fanout_key(p),
        );
        filter_same(
            refs,
            in_group(fanout_key(p)),
            |q: CopyLiveDaemonWouldSubmitRef|
                !q.order.reduce_only && fanout_key(q) == fanout_key(p),
        );
        assert(group == group_of(refs, fanout_key(p)));
    }
}

proof fn filter_same<T>(s: Seq<T>, f: spec_fn(T) -> bool, g: spec_fn(T) -> bool)
    requires
        forall|x: T| #[trigger] f(x) == g(x),
    ensures
        s.filter(f) == s.filter(g),
    decreases s.len(),
{
    reveal(Seq::filter);
    if s.len() > 0 {
        filter_same(s.drop_last(), f, g);
        assert(f(s.last()) == g(s.last()));
    }
}

/// Splitting single orders on by one: an order is executable where, with it, the
/// opening orders, their notional and their expected fees are within the caps;
/// the count of orders binds openings alone.
pub proof fn an_order_is_sent_where_it_fits(
    orders: Seq<CopyExecutionCanaryWouldSubmit>,
    options: CopyLiveDaemonSupervisorOptions,
    n: int,
)
    requires
        0 <= n < orders.len(),
    ensures
        order_split_upto(orders, options, 0).executable.len() == 0,
        order_split_upto(orders, options, 0).suppressed.len() == 0,
        ({
            let a = order_split_upto(orders, options, n);
            let b = order_split_upto(orders, options, n + 1);
            let o = orders[n];
            let count = a.executable.filter(order_opens()).len() + 1;
            let notional = total(a.executable, order_opened()) + (if o.reduce_only
                || o.notional_usd < 0 {
                0
            } else {
                o.notional_usd as int
            });
            if (o.reduce_only || count <= options.max_live_orders) && notional
                <= options.max_total_notional_usd && notional <= 1000
                * options.max_total_fees_usd {
                b.executable == a.executable.push(o) && b.suppressed == a.suppressed
            } else {
                &&& b.executable == a.executable
                &&& b.suppressed == a.suppressed.push(b.suppressed.last())
                &&& b.suppressed.last().order == o
                &&& b.suppressed.last().reason_code == if !o.reduce_only && count
                    > options.max_live_orders {
                    "COPY_DAEMON_MAX_LIVE_ORDERS"@
                } else if notional > options.max_total_notional_usd {
                    "COPY_DAEMON_MAX_TOTAL_NOTIONAL"@
                } else {
                    "COPY_DAEMON_MAX_TOTAL_FEES"@
                }
            }
        }),
{
    order_split_within_caps(orders, options, n);
    let a = order_split_upto(orders, options, n);
    let b = order_split_upto(orders, options, n + 1);
    if b.suppressed.len() > a.suppressed.len() {
        assert(b.suppressed =~= a.suppressed.push(b.suppressed.last()));
    }
}

} // verus!
