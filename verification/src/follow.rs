//! Exposure limits where positions are held, and reductions that wait until
//! they are large enough for the exchange.

use vstd::prelude::*;

use crate::decimal::{
    amount_size, at_least_zero, clamp_wide, clamped, fixed6, floor_zero, is_infinite_text,
    parse_amount_size, push_fixed6, push_total6, reads_infinite, size_is_natural, Fixed, Total,
    FIXED_MAX, WIDE_MAX,
};
use crate::domain::{opposite, opposite_order_side, OrderSide};
use crate::ledger::{
    copy_live_daemon_ledger_entry_has_submission, has_submission, CopyLedgerEntry, CopyLedgerStatus,
    CopyPersistenceSnapshot, HYPERLIQUID_MIN_ORDER_NOTIONAL_USD,
};
use crate::margin::{copy_live_daemon_resize_open_refs_for_margin, fitted, opened_in, resized};
use crate::options::CopyLiveDaemonSupervisorOptions;
use crate::partition::{partition_copy_live_daemon_would_submit_refs, split};
use crate::plan::{
    append_held, held, push_held, Chosen, CopyExecutionCanaryWouldSubmit,
    CopyLiveDaemonSuppressedWouldSubmitRef, CopyLiveDaemonWouldSubmitRef, HeldPlan,
};
use crate::reconcile::CopyBoundedLiveWindowReconcile;
use crate::seqs::{total, total_push, total_step, whole};
use crate::tally::{amount_at, increased, saturated, sum_of, Slot, SlotKey, Tally};
use crate::text::{blank, trim, trimmed};

verus! {

/// The exposure of an account that could be read, in billionths and rounded
/// up.
pub open spec fn live_exposure(r: CopyBoundedLiveWindowReconcile) -> Option<int> {
    if r.error is Some {
        None
    } else {
        match r.total_ntl_pos {
            Some(t) => if reads_infinite(trimmed(t@)) {
                None
            } else {
                amount_size(trimmed(t@))
            },
            None => None,
        }
    }
}

fn live_exposure_of(r: &CopyBoundedLiveWindowReconcile) -> (x: Option<Total>)
    ensures
        match live_exposure(*r) {
            Some(v) => x is Some && x->0 == v && 0 <= v <= WIDE_MAX,
            None => x is None,
        },
{
    if r.error.is_some() {
        return None;
    }
    match &r.total_ntl_pos {
        Some(t) => {
            let w: String = trim(t.as_str());
            if is_infinite_text(w.as_str()) {
                None
            } else {
                parse_amount_size(w.as_str())
            }
        },
        None => None,
    }
}

/// The live exposure of each account that could be read. Where an account occurs
/// twice the later figure counts.
pub open spec fn live_exposures(s: Seq<CopyBoundedLiveWindowReconcile>) -> Map<Slot, int>
    decreases s.len(),
{
    if s.len() == 0 {
        Map::empty()
    } else {
        let before = live_exposures(s.drop_last());
        match live_exposure(s.last()) {
            Some(x) => before.insert(Slot::Account(s.last().account_id@), x),
            None => before,
        }
    }
}

/// Whether a plan comes from the given signal.
pub open spec fn from_signal(refs: Seq<CopyLiveDaemonWouldSubmitRef>, signal: Seq<char>) -> bool {
    exists|i: int| 0 <= i < refs.len() && (#[trigger] refs[i]).signal_id@ == signal
}

/// Whether an entry waits for a reduction.
pub open spec fn pending_reduction(e: CopyLedgerEntry) -> bool {
    e.status == CopyLedgerStatus::PendingReduce || e.status == CopyLedgerStatus::PendingClose
}

/// What an entry contributes to the exposure of its coin.
pub open spec fn exposure_delta(e: CopyLedgerEntry) -> int {
    if e.status == CopyLedgerStatus::Open {
        floor_zero(e.remaining_notional_usd as int)
    } else if e.status == CopyLedgerStatus::PendingOpen && has_submission(e) {
        floor_zero(e.pending_notional_usd as int)
    } else if pending_reduction(e) && has_submission(e) {
        -floor_zero(e.pending_notional_usd as int)
    } else {
        0
    }
}

/// The amounts after one ledger entry was counted. Entries of the signals at
/// hand are passed over.
pub open spec fn entry_counted(
    m: Map<Slot, int>,
    refs: Seq<CopyLiveDaemonWouldSubmitRef>,
    e: CopyLedgerEntry,
) -> Map<Slot, int> {
    if from_signal(refs, e.signal_id@) {
        m
    } else {
        let a = if exposure_delta(e) != 0 {
            increased(m, Slot::Coin(e.local_account_id@, e.coin@), exposure_delta(e))
        } else {
            m
        };
        if pending_reduction(e) {
            increased(
                a,
                Slot::Position(e.local_account_id@, e.coin@, e.local_side),
                floor_zero(e.pending_notional_usd as int),
            )
        } else {
            a
        }
    }
}

/// The amounts that the limits start from: the live exposure of each account,
/// the exposure of each coin in the ledger, and the pending reductions.
pub open spec fn starting_amounts(
    refs: Seq<CopyLiveDaemonWouldSubmitRef>,
    entries: Seq<CopyLedgerEntry>,
    s: Seq<CopyBoundedLiveWindowReconcile>,
) -> Map<Slot, int>
    decreases entries.len(),
{
    if entries.len() == 0 {
        live_exposures(s)
    } else {
        entry_counted(starting_amounts(refs, entries.drop_last(), s), refs, entries.last())
    }
}

/// How far a list of plans was limited.
pub struct Limited {
    pub prepared: Seq<CopyLiveDaemonWouldSubmitRef>,
    pub suppressed: Seq<HeldPlan>,
    pub amounts: Map<Slot, int>,
}

/// The slot whose exposure limits an opening plan: its account where the live
/// exposure is known, else its coin in the ledger.
pub open spec fn exposure_slot(m: Map<Slot, int>, p: CopyLiveDaemonWouldSubmitRef) -> Slot {
    let account = Slot::Account(p.order.account_id@);
    if m.dom().contains(account) {
        account
    } else {
        Slot::Coin(p.order.account_id@, p.order.coin@)
    }
}

/// An opening plan that would exceed the exposure cap.
pub open spec fn over_exposed(
    options: CopyLiveDaemonSupervisorOptions,
    m: Map<Slot, int>,
    p: CopyLiveDaemonWouldSubmitRef,
) -> HeldPlan {
    let slot = exposure_slot(m, p);
    let current = floor_zero(amount_at(m, slot));
    let next = saturated(current + floor_zero(p.order.notional_usd as int));
    HeldPlan {
        plan: p,
        reason_code: "COPY_DAEMON_MAX_ACCOUNT_EXPOSURE"@,
        message: "follow-position "@ + (if slot is Account {
            "live account"@
        } else {
            "ledger effective"@
        }) + " exposure would become "@ + fixed6(next) + ", above cap "@ + fixed6(
            options.max_total_notional_usd as int,
        ) + "; existing exposure "@ + fixed6(current) + ", candidate "@ + fixed6(
            p.order.notional_usd as int,
        ),
    }
}

/// A reduction that waits until more of it has come together.
pub open spec fn still_too_small(p: CopyLiveDaemonWouldSubmitRef, pending: int) -> HeldPlan {
    HeldPlan {
        plan: p,
        reason_code: "COPY_DAEMON_PENDING_REDUCE_BELOW_MIN_NOTIONAL"@,
        message: "reduce-only notional "@ + fixed6(p.order.notional_usd as int)
            + " plus prior pending "@ + fixed6(pending) + " totals "@ + fixed6(
            saturated(pending + floor_zero(p.order.notional_usd as int)),
        ) + ", below exchange minimum "@ + fixed6(HYPERLIQUID_MIN_ORDER_NOTIONAL_USD as int)
            + "; pending reduce will accumulate before submit"@,
    }
}

/// The position that a reduction reduces.
pub open spec fn reduced_position(p: CopyLiveDaemonWouldSubmitRef) -> Slot {
    Slot::Position(p.order.account_id@, p.order.coin@, opposite(p.order.side))
}

/// Limiting one more plan. An opening plan passes where positions are not held
/// or its exposure stays within the cap. A reduction takes along what was
/// pending before it, and waits while all of it is below the exchange minimum.
pub open spec fn limit_step(
    options: CopyLiveDaemonSupervisorOptions,
    st: Limited,
    p: CopyLiveDaemonWouldSubmitRef,
) -> Limited {
    let size = floor_zero(p.order.notional_usd as int);
    if !p.order.reduce_only {
        let slot = exposure_slot(st.amounts, p);
        let next = saturated(floor_zero(amount_at(st.amounts, slot)) + size);
        if options.hold_positions_after_submit && next > options.max_total_notional_usd + 1 {
            Limited { suppressed: st.suppressed.push(over_exposed(options, st.amounts, p)), ..st }
        } else {
            Limited {
                prepared: st.prepared.push(p),
                amounts: st.amounts.insert(slot, next),
                ..st
            }
        }
    } else {
        let slot = reduced_position(p);
        let pending = amount_at(st.amounts, slot);
        let all = saturated(pending + size);
        if all < HYPERLIQUID_MIN_ORDER_NOTIONAL_USD {
            Limited {
                suppressed: st.suppressed.push(still_too_small(p, pending)),
                amounts: st.amounts.insert(slot, all),
                ..st
            }
        } else {
            Limited {
                prepared: st.prepared.push(resized(p, clamped(all))),
                amounts: st.amounts.insert(slot, 0),
                ..st
            }
        }
    }
}

/// The first `n` plans of a list, limited.
pub open spec fn limited_upto(
    refs: Seq<CopyLiveDaemonWouldSubmitRef>,
    options: CopyLiveDaemonSupervisorOptions,
    entries: Seq<CopyLedgerEntry>,
    s: Seq<CopyBoundedLiveWindowReconcile>,
    n: int,
) -> Limited
    decreases n,
{
    if n <= 0 {
        Limited {
            prepared: Seq::empty(),
            suppressed: Seq::empty(),
            amounts: starting_amounts(refs, entries, s),
        }
    } else {
        limit_step(options, limited_upto(refs, options, entries, s, n - 1), refs[n - 1])
    }
}

/// A list of plans, limited.
pub open spec fn limited(
    refs: Seq<CopyLiveDaemonWouldSubmitRef>,
    options: CopyLiveDaemonSupervisorOptions,
    entries: Seq<CopyLedgerEntry>,
    s: Seq<CopyBoundedLiveWindowReconcile>,
) -> Limited {
    limited_upto(refs, options, entries, s, refs.len() as int)
}

fn comes_from(refs: &Vec<CopyLiveDaemonWouldSubmitRef>, signal: &String) -> (r: bool)
    ensures
        r == from_signal(refs@, signal@),
{
    let mut i: usize = 0;
    while i < refs.len()
        invariant
            i <= refs@.len(),
            forall|k: int| 0 <= k < i ==> (#[trigger] refs@[k]).signal_id@ != signal@,
        decreases refs@.len() - i,
    {
        if refs[i].signal_id == *signal {
            return true;
        }
        i += 1;
    }
    false
}

fn count_entry(
    amounts: &mut Tally,
    refs: &Vec<CopyLiveDaemonWouldSubmitRef>,
    e: &CopyLedgerEntry,
)
    requires
        old(amounts).wf(),
    ensures
        final(amounts).wf(),
        final(amounts)@ == entry_counted(old(amounts)@, refs@, *e),
{
    if comes_from(refs, &e.signal_id) {
        return;
    }
    let waits: bool = e.status == CopyLedgerStatus::PendingReduce || e.status
        == CopyLedgerStatus::PendingClose;
    let pending: i128 = at_least_zero(e.pending_notional_usd) as i128;
    let delta: i128 = if e.status == CopyLedgerStatus::Open {
        at_least_zero(e.remaining_notional_usd) as i128
    } else if e.status == CopyLedgerStatus::PendingOpen
        && copy_live_daemon_ledger_entry_has_submission(e) {
        pending
    } else if waits && copy_live_daemon_ledger_entry_has_submission(e) {
        -pending
    } else {
        0
    };
    if delta != 0 {
        amounts.increase(SlotKey::Coin(e.local_account_id.clone(), e.coin.clone()), delta);
    }
    if waits {
        amounts.increase(
            SlotKey::Position(e.local_account_id.clone(), e.coin.clone(), e.local_side),
            pending,
        );
    }
}

fn start_amounts(
    refs: &Vec<CopyLiveDaemonWouldSubmitRef>,
    entries: &Vec<CopyLedgerEntry>,
    v: &Vec<CopyBoundedLiveWindowReconcile>,
) -> (r: Tally)
    ensures
        r.wf(),
        r@ == starting_amounts(refs@, entries@, v@),
{
    let mut r: Tally = Tally::new();
    let mut i: usize = 0;
    while i < v.len()
        invariant
            i <= v@.len(),
            r.wf(),
            r@ == live_exposures(v@.subrange(0, i as int)),
        decreases v@.len() - i,
    {
        assert(v@.subrange(0, i as int + 1).drop_last() =~= v@.subrange(0, i as int));
        match live_exposure_of(&v[i]) {
            Some(x) => {
                r.put(SlotKey::Account(v[i].account_id.clone()), x as i128);
            },
            None => {},
        }
        i += 1;
    }
    proof {
        whole(v@);
    }
    let mut j: usize = 0;
    assert(entries@.subrange(0, 0) =~= Seq::empty());
    while j < entries.len()
        invariant
            j <= entries@.len(),
            r.wf(),
            r@ == starting_amounts(refs@, entries@.subrange(0, j as int), v@),
        decreases entries@.len() - j,
    {
        assert(entries@.subrange(0, j as int + 1).drop_last() =~= entries@.subrange(0, j as int));
        count_entry(&mut r, refs, &entries[j]);
        j += 1;
    }
    proof {
        whole(entries@);
    }
    r
}

fn over_exposed_message(
    options: &CopyLiveDaemonSupervisorOptions,
    p: &CopyLiveDaemonWouldSubmitRef,
    live: bool,
    current: i128,
    next: i128,
) -> (r: String)
    ensures
        r@ == "follow-position "@ + (if live {
            "live account"@
        } else {
            "ledger effective"@
        }) + " exposure would become "@ + fixed6(next as int) + ", above cap "@ + fixed6(
            options.max_total_notional_usd as int,
        ) + "; existing exposure "@ + fixed6(current as int) + ", candidate "@ + fixed6(
            p.order.notional_usd as int,
        ),
{
    let mut s: String = "follow-position ".to_owned();
    if live {
        s.append("live account");
    } else {
        s.append("ledger effective");
    }
    s.append(" exposure would become ");
    push_total6(&mut s, next);
    s.append(", above cap ");
    push_fixed6(&mut s, options.max_total_notional_usd);
    s.append("; existing exposure ");
    push_total6(&mut s, current);
    s.append(", candidate ");
    push_fixed6(&mut s, p.order.notional_usd);
    s
}

fn too_small_message(p: &CopyLiveDaemonWouldSubmitRef, pending: i128, all: i128) -> (r: String)
    requires
        all == saturated(pending + floor_zero(p.order.notional_usd as int)),
    ensures
        r@ == still_too_small(*p, pending as int).message,
{
    let mut s: String = "reduce-only notional ".to_owned();
    push_fixed6(&mut s, p.order.notional_usd);
    s.append(" plus prior pending ");
    push_total6(&mut s, pending);
    s.append(" totals ");
    push_total6(&mut s, all);
    s.append(", below exchange minimum ");
    push_fixed6(&mut s, HYPERLIQUID_MIN_ORDER_NOTIONAL_USD);
    s.append("; pending reduce will accumulate before submit");
    s
}

fn limit_open(
    options: &CopyLiveDaemonSupervisorOptions,
    p: &CopyLiveDaemonWouldSubmitRef,
    amounts: &mut Tally,
    prepared: &mut Vec<CopyLiveDaemonWouldSubmitRef>,
    suppressed: &mut Vec<CopyLiveDaemonSuppressedWouldSubmitRef>,
)
    requires
        old(amounts).wf(),
        !p.order.reduce_only,
    ensures
        final(amounts).wf(),
        ({
            let st = Limited {
                prepared: old(prepared)@,
                suppressed: held(old(suppressed)@),
                amounts: old(amounts)@,
            };
            let nx = limit_step(*options, st, *p);
            &&& final(prepared)@ == nx.prepared
            &&& held(final(suppressed)@) == nx.suppressed
            &&& final(amounts)@ == nx.amounts
        }),
{
    let account: SlotKey = SlotKey::Account(p.order.account_id.clone());
    let coin: SlotKey = SlotKey::Coin(p.order.account_id.clone(), p.order.coin.clone());
    let live: Option<i128> = amounts.get(&account);
    let known: i128 = match live {
        Some(x) => x,
        None => match amounts.get(&coin) {
            Some(x) => x,
            None => 0,
        },
    };
    let current: i128 = if known < 0 {
        0
    } else {
        known
    };
    let next: i128 = sum_of(current, at_least_zero(p.order.notional_usd) as i128);
    if options.hold_positions_after_submit && next > options.max_total_notional_usd as i128 + 1 {
        let m: String = over_exposed_message(options, p, live.is_some(), current, next);
        push_held(suppressed, p.clone(), "COPY_DAEMON_MAX_ACCOUNT_EXPOSURE", m);
    } else {
        if live.is_some() {
            amounts.put(account, next);
        } else {
            amounts.put(coin, next);
        }
        prepared.push(p.clone());
    }
}

fn limit_reduce(
    options: &CopyLiveDaemonSupervisorOptions,
    p: &CopyLiveDaemonWouldSubmitRef,
    amounts: &mut Tally,
    prepared: &mut Vec<CopyLiveDaemonWouldSubmitRef>,
    suppressed: &mut Vec<CopyLiveDaemonSuppressedWouldSubmitRef>,
)
    requires
        old(amounts).wf(),
        p.order.reduce_only,
    ensures
        final(amounts).wf(),
        ({
            let st = Limited {
                prepared: old(prepared)@,
                suppressed: held(old(suppressed)@),
                amounts: old(amounts)@,
            };
            let nx = limit_step(*options, st, *p);
            &&& final(prepared)@ == nx.prepared
            &&& held(final(suppressed)@) == nx.suppressed
            &&& final(amounts)@ == nx.amounts
        }),
{
    let key: SlotKey = SlotKey::Position(
        p.order.account_id.clone(),
        p.order.coin.clone(),
        opposite_order_side(p.order.side),
    );
    let pending: i128 = match amounts.get(&key) {
        Some(x) => x,
        None => 0,
    };
    let all: i128 = sum_of(pending, at_least_zero(p.order.notional_usd) as i128);
    if all < HYPERLIQUID_MIN_ORDER_NOTIONAL_USD as i128 {
        let m: String = too_small_message(p, pending, all);
        amounts.put(key, all);
        push_held(
            suppressed,
            p.clone(),
            "COPY_DAEMON_PENDING_REDUCE_BELOW_MIN_NOTIONAL",
            m,
        );
    } else {
        let mut q: CopyLiveDaemonWouldSubmitRef = p.clone();
        q.order.notional_usd = clamp_wide(all);
        amounts.put(key, 0);
        prepared.push(q);
        assert(q == resized(*p, clamped(all as int)));
    }
}

/// Limits the plans of a window to the exposure cap, and lets small reductions
/// wait.
pub fn copy_live_daemon_prepare_refs_for_follow_position_limits(
    refs: &Vec<CopyLiveDaemonWouldSubmitRef>,
    options: &CopyLiveDaemonSupervisorOptions,
    persistence: &CopyPersistenceSnapshot,
    reconciliations: &Vec<CopyBoundedLiveWindowReconcile>,
) -> (r: (Vec<CopyLiveDaemonWouldSubmitRef>, Vec<CopyLiveDaemonSuppressedWouldSubmitRef>))
    ensures
        r.0@ == limited(
            refs@,
            *options,
            persistence.ledger_entries@,
            reconciliations@,
        ).prepared,
        held(r.1@) == limited(
            refs@,
            *options,
            persistence.ledger_entries@,
            reconciliations@,
        ).suppressed,
{
    let entries: &Vec<CopyLedgerEntry> = &persistence.ledger_entries;
    let mut prepared: Vec<CopyLiveDaemonWouldSubmitRef> = Vec::new();
    let mut suppressed: Vec<CopyLiveDaemonSuppressedWouldSubmitRef> = Vec::new();
    let mut amounts: Tally = start_amounts(refs, entries, reconciliations);
    let mut i: usize = 0;
    assert(held(suppressed@) =~= Seq::empty());
    while i < refs.len()
        invariant
            i <= refs@.len(),
            amounts.wf(),
            prepared@ == limited_upto(
                refs@,
                *options,
                entries@,
                reconciliations@,
                i as int,
            ).prepared,
            held(suppressed@) == limited_upto(
                refs@,
                *options,
                entries@,
                reconciliations@,
                i as int,
            ).suppressed,
            amounts@ == limited_upto(
                refs@,
                *options,
                entries@,
                reconciliations@,
                i as int,
            ).amounts,
        decreases refs@.len() - i,
    {
        if refs[i].order.reduce_only {
            limit_reduce(options, &refs[i], &mut amounts, &mut prepared, &mut suppressed);
        } else {
            limit_open(options, &refs[i], &mut amounts, &mut prepared, &mut suppressed);
        }
        i += 1;
    }
    (prepared, suppressed)
}

/// The plans of a window that may be sent, and those that are held back: the
/// plans are fitted to the margin, then limited, then split under the caps.
pub open spec fn executable(
    refs: Seq<CopyLiveDaemonWouldSubmitRef>,
    options: CopyLiveDaemonSupervisorOptions,
    entries: Seq<CopyLedgerEntry>,
    s: Seq<CopyBoundedLiveWindowReconcile>,
) -> Chosen {
    let a = fitted(refs, s);
    let b = limited(a.prepared, options, entries, s);
    let c = split(b.prepared, options);
    Chosen { executable: c.executable, suppressed: a.suppressed + b.suppressed + c.suppressed }
}

/// The plans of a window that may be sent, and those that are held back: the
/// plans are fitted to the margin, then limited, then split under the caps.
pub fn copy_live_daemon_executable_refs_for_snapshot(
    refs: &Vec<CopyLiveDaemonWouldSubmitRef>,
    options: &CopyLiveDaemonSupervisorOptions,
    persistence: &CopyPersistenceSnapshot,
    reconciliations: &Vec<CopyBoundedLiveWindowReconcile>,
) -> (r: (Vec<CopyLiveDaemonWouldSubmitRef>, Vec<CopyLiveDaemonSuppressedWouldSubmitRef>))
    ensures
        ({
            let e = executable(refs@, *options, persistence.ledger_entries@, reconciliations@);
            r.0@ == e.executable && held(r.1@) == e.suppressed
        }),
{
    let (affordable, mut suppressed) = copy_live_daemon_resize_open_refs_for_margin(
        refs,
        reconciliations,
    );
    let (prepared, limits) = copy_live_daemon_prepare_refs_for_follow_position_limits(
        &affordable,
        options,
        persistence,
        reconciliations,
    );
    append_held(&mut suppressed, limits);
    let (executable, caps) = partition_copy_live_daemon_would_submit_refs(&prepared, options);
    append_held(&mut suppressed, caps);
    (executable, suppressed)
}

proof fn live_exposures_in_range(s: Seq<CopyBoundedLiveWindowReconcile>)
    ensures
        forall|k: Slot| #[trigger]
            live_exposures(s).dom().contains(k) ==> k is Account && 0 <= live_exposures(s)[k]
                <= WIDE_MAX,
    decreases s.len(),
{
    if s.len() > 0 {
        live_exposures_in_range(s.drop_last());
        let before = live_exposures(s.drop_last());
        match live_exposure(s.last()) {
            Some(x) => {
                size_is_natural(trimmed(s.last().total_ntl_pos->0@), 9);
                assert(0 <= x <= WIDE_MAX);
            },
            None => {},
        }
        assert forall|k: Slot| #[trigger] live_exposures(s).dom().contains(k) implies k is Account
            && 0 <= live_exposures(s)[k] <= WIDE_MAX by {
            assert(before.dom().contains(k) || k == Slot::Account(s.last().account_id@));
        }
    }
}

proof fn starting_amounts_facts(
    refs: Seq<CopyLiveDaemonWouldSubmitRef>,
    entries: Seq<CopyLedgerEntry>,
    s: Seq<CopyBoundedLiveWindowReconcile>,
)
    ensures
        ({
            let m = starting_amounts(refs, entries, s);
            &&& forall|a: Seq<char>| #[trigger]
                m.dom().contains(Slot::Account(a)) <==> live_exposures(s).dom().contains(
                    Slot::Account(a),
                )
            &&& forall|a: Seq<char>| #[trigger]
                m.dom().contains(Slot::Account(a)) ==> m[Slot::Account(a)]
                    == live_exposures(s)[Slot::Account(a)]
            &&& forall|k: Slot| #[trigger] m.dom().contains(k) && k is Position ==> 0 <= m[k]
        }),
    decreases entries.len(),
{
    live_exposures_in_range(s);
    if entries.len() > 0 {
        starting_amounts_facts(refs, entries.drop_last(), s);
        let before = starting_amounts(refs, entries.drop_last(), s);
        let m = starting_amounts(refs, entries, s);
        assert forall|a: Seq<char>| #[trigger] m.dom().contains(Slot::Account(a)) implies m[Slot::Account(a)]
            == live_exposures(s)[Slot::Account(a)] by {
            assert(before.dom().contains(Slot::Account(a)));
        }
        assert forall|k: Slot| #[trigger] m.dom().contains(k) && k is Position implies 0 <= m[k] by {
            if before.dom().contains(k) {
                assert(0 <= before[k]);
            }
        }
    }
}

proof fn limited_upto_exposure(
    refs: Seq<CopyLiveDaemonWouldSubmitRef>,
    options: CopyLiveDaemonSupervisorOptions,
    entries: Seq<CopyLedgerEntry>,
    s: Seq<CopyBoundedLiveWindowReconcile>,
    account: Seq<char>,
    n: int,
)
    requires
        0 <= n <= refs.len(),
        options.hold_positions_after_submit,
        live_exposures(s).dom().contains(Slot::Account(account)),
    ensures
        ({
            let st = limited_upto(refs, options, entries, s, n);
            let slot = Slot::Account(account);
            let opened = total(st.prepared, opened_in(account));
            &&& st.amounts.dom().contains(slot)
            &&& st.amounts[slot] == live_exposures(s)[slot] + opened
            &&& 0 <= live_exposures(s)[slot] <= WIDE_MAX
            &&& opened >= 0
            &&& opened > 0 ==> st.amounts[slot] <= options.max_total_notional_usd + 1
        }),
    decreases n,
{
    let slot = Slot::Account(account);
    live_exposures_in_range(s);
    if n <= 0 {
        starting_amounts_facts(refs, entries, s);
        assert(starting_amounts(refs, entries, s).dom().contains(slot));
    } else {
        limited_upto_exposure(refs, options, entries, s, account, n - 1);
        let st = limited_upto(refs, options, entries, s, n - 1);
        let nx = limited_upto(refs, options, entries, s, n);
        if nx.prepared.len() > st.prepared.len() {
            total_push(st.prepared, nx.prepared.last(), opened_in(account));
            assert(nx.prepared =~= st.prepared.push(nx.prepared.last()));
        }
    }
}

/// Where positions are held and the live exposure of an account is known, the
/// prepared plans never bring the account above the cap of the window, up to a
/// billionth.
pub proof fn held_exposure_stays_under_the_cap(
    refs: Seq<CopyLiveDaemonWouldSubmitRef>,
    options: CopyLiveDaemonSupervisorOptions,
    entries: Seq<CopyLedgerEntry>,
    s: Seq<CopyBoundedLiveWindowReconcile>,
    account: Seq<char>,
)
    requires
        options.hold_positions_after_submit,
        live_exposures(s).dom().contains(Slot::Account(account)),
    ensures
        ({
            let opened = total(
                limited(refs, options, entries, s).prepared,
                opened_in(account),
            );
            opened > 0 ==> live_exposures(s)[Slot::Account(account)] + opened
                <= options.max_total_notional_usd + 1
        }),
{
    limited_upto_exposure(refs, options, entries, s, account, refs.len() as int);
}

/// By how much a plan reduces a position.
pub open spec fn reduced_in(position: Slot) -> spec_fn(CopyLiveDaemonWouldSubmitRef) -> int {
    |p: CopyLiveDaemonWouldSubmitRef|
        if p.order.reduce_only && reduced_position(p) == position {
            floor_zero(p.order.notional_usd as int)
        } else {
            0
        }
}

proof fn limited_upto_pending(
    refs: Seq<CopyLiveDaemonWouldSubmitRef>,
    options: CopyLiveDaemonSupervisorOptions,
    entries: Seq<CopyLedgerEntry>,
    s: Seq<CopyBoundedLiveWindowReconcile>,
    position: Slot,
    n: int,
)
    requires
        0 <= n <= refs.len(),
        position is Position,
        amount_at(starting_amounts(refs, entries, s), position) + total(
            refs.subrange(0, n),
            reduced_in(position),
        ) <= FIXED_MAX,
    ensures
        ({
            let st = limited_upto(refs, options, entries, s, n);
            &&& 0 <= amount_at(st.amounts, position)
            &&& 0 <= total(st.prepared, reduced_in(position))
            &&& amount_at(starting_amounts(refs, entries, s), position) + total(
                refs.subrange(0, n),
                reduced_in(position),
            ) == total(st.prepared, reduced_in(position)) + amount_at(st.amounts, position)
        }),
    decreases n,
{
    if n <= 0 {
        starting_amounts_facts(refs, entries, s);
        assert(refs.subrange(0, 0) =~= Seq::empty());
    } else {
        total_step(refs, reduced_in(position), n - 1);
        limited_upto_pending(refs, options, entries, s, position, n - 1);
        let st = limited_upto(refs, options, entries, s, n - 1);
        let nx = limited_upto(refs, options, entries, s, n);
        if nx.prepared.len() > st.prepared.len() {
            total_push(st.prepared, nx.prepared.last(), reduced_in(position));
            assert(nx.prepared =~= st.prepared.push(nx.prepared.last()));
        }
    }
}

/// Reductions are neither lost nor invented: for each position, what was pending
/// and what was asked for is either prepared or still pending.
pub proof fn pending_reductions_are_conserved(
    refs: Seq<CopyLiveDaemonWouldSubmitRef>,
    options: CopyLiveDaemonSupervisorOptions,
    entries: Seq<CopyLedgerEntry>,
    s: Seq<CopyBoundedLiveWindowReconcile>,
    position: Slot,
)
    requires
        position is Position,
        amount_at(starting_amounts(refs, entries, s), position) + total(
            refs,
            reduced_in(position),
        ) <= FIXED_MAX,
    ensures
        ({
            let st = limited(refs, options, entries, s);
            amount_at(starting_amounts(refs, entries, s), position) + total(
                refs,
                reduced_in(position),
            ) == total(st.prepared, reduced_in(position)) + amount_at(st.amounts, position)
        }),
{
    whole(refs);
    limited_upto_pending(refs, options, entries, s, position, refs.len() as int);
}

/// Every reduction that is prepared meets the exchange minimum.
pub proof fn prepared_reductions_meet_the_minimum(
    refs: Seq<CopyLiveDaemonWouldSubmitRef>,
    options: CopyLiveDaemonSupervisorOptions,
    entries: Seq<CopyLedgerEntry>,
    s: Seq<CopyBoundedLiveWindowReconcile>,
)
    ensures
        forall|i: int|
            0 <= i < limited(refs, options, entries, s).prepared.len() && (
            #[trigger] limited(refs, options, entries, s).prepared[i]).order.reduce_only
                ==> limited(refs, options, entries, s).prepared[i].order.notional_usd
                >= HYPERLIQUID_MIN_ORDER_NOTIONAL_USD,
{
    limited_upto_minimum(refs, options, entries, s, refs.len() as int);
}

proof fn limited_upto_minimum(
    refs: Seq<CopyLiveDaemonWouldSubmitRef>,
    options: CopyLiveDaemonSupervisorOptions,
    entries: Seq<CopyLedgerEntry>,
    s: Seq<CopyBoundedLiveWindowReconcile>,
    n: int,
)
    requires
        0 <= n <= refs.len(),
    ensures
        forall|i: int|
            0 <= i < limited_upto(refs, options, entries, s, n).prepared.len() && (
            #[trigger] limited_upto(refs, options, entries, s, n).prepared[i]).order.reduce_only
                ==> limited_upto(refs, options, entries, s, n).prepared[i].order.notional_usd
                >= HYPERLIQUID_MIN_ORDER_NOTIONAL_USD,
    decreases n,
{
    if n > 0 {
        limited_upto_minimum(refs, options, entries, s, n - 1);
        let st = limited_upto(refs, options, entries, s, n - 1);
        let nx = limited_upto(refs, options, entries, s, n);
        assert forall|i: int| 0 <= i < nx.prepared.len() && (
        #[trigger] nx.prepared[i]).order.reduce_only implies nx.prepared[i].order.notional_usd
            >= HYPERLIQUID_MIN_ORDER_NOTIONAL_USD by {
            if i < st.prepared.len() {
                assert(nx.prepared[i] == st.prepared[i]);
            }
        }
    }
}

/// The live exposure of an account is the size of its total position notional,
/// where the account was read and the figure is a finite number; an account that
/// says nothing readable keeps what was known of it.
pub proof fn live_exposures_are_what_accounts_report(
    s: Seq<CopyBoundedLiveWindowReconcile>,
    r: CopyBoundedLiveWindowReconcile,
)
    ensures
        live_exposures(Seq::empty()) == Map::<Slot, int>::empty(),
        live_exposures(s.push(r)) == if r.error is None && r.total_ntl_pos is Some
            && !reads_infinite(trimmed(r.total_ntl_pos->0@)) && amount_size(
            trimmed(r.total_ntl_pos->0@),
        ) is Some {
            live_exposures(s).insert(
                Slot::Account(r.account_id@),
                amount_size(trimmed(r.total_ntl_pos->0@))->0,
            )
        } else {
            live_exposures(s)
        },
{
    assert(s.push(r).drop_last() =~= s);
}

/// What of an amount is above zero.
pub open spec fn positive_part(x: Fixed) -> int {
    if x > 0 {
        x as int
    } else {
        0
    }
}

/// An amount after another was added to it.
pub open spec fn raised(m: Map<Slot, int>, s: Slot, by: int, n: Map<Slot, int>) -> bool {
    let sum = if m.dom().contains(s) {
        m[s] + by
    } else {
        by
    };
    &&& n.dom() == m.dom().insert(s)
    &&& forall|o: Slot| o != s && #[trigger] m.dom().contains(o) ==> n[o] == m[o]
    &&& -WIDE_MAX <= sum <= WIDE_MAX ==> n[s] == sum
    &&& sum > WIDE_MAX ==> n[s] == WIDE_MAX
    &&& sum < -WIDE_MAX ==> n[s] == -WIDE_MAX
}

/// What a ledger entry says of exposure. An open entry counts with what remains
/// of it, an opening that was sent with what is pending, and a reduction that was
/// sent takes off what is pending; a reduction, sent or not, is also pending for
/// its position. Entries of a signal at hand, closed or refused ones, and those
/// that were never sent count nothing.
pub proof fn ledger_entries_count_with_their_exposure(
    refs: Seq<CopyLiveDaemonWouldSubmitRef>,
    entries: Seq<CopyLedgerEntry>,
    e: CopyLedgerEntry,
    s: Seq<CopyBoundedLiveWindowReconcile>,
)
    ensures
        starting_amounts(refs, Seq::empty(), s) == live_exposures(s),
        ({
            let m = starting_amounts(refs, entries, s);
            let n = starting_amounts(refs, entries.push(e), s);
            let coin = Slot::Coin(e.local_account_id@, e.coin@);
            let position = Slot::Position(e.local_account_id@, e.coin@, e.local_side);
            let sent = e.submitted_at_ms is Some || e.order_oid is Some || (e.order_cloid is Some
                && !blank(e.order_cloid->0@));
            let remaining = positive_part(e.remaining_notional_usd);
            let pending = positive_part(e.pending_notional_usd);
            if exists|i: int| 0 <= i < refs.len() && (#[trigger] refs[i]).signal_id@ == e.signal_id@ {
                n == m
            } else {
                match e.status {
                    CopyLedgerStatus::Open => if remaining > 0 {
                        raised(m, coin, remaining, n)
                    } else {
                        n == m
                    },
                    CopyLedgerStatus::PendingOpen => if sent && pending > 0 {
                        raised(m, coin, pending, n)
                    } else {
                        n == m
                    },
                    CopyLedgerStatus::PendingReduce | CopyLedgerStatus::PendingClose => {
                        if sent && pending > 0 {
                            exists|k: Map<Slot, int>|
                                #[trigger] raised(m, coin, -pending, k) && raised(
                                    k,
                                    position,
                                    pending,
                                    n,
                                )
                        } else {
                            raised(m, position, pending, n)
                        }
                    },
                    _ => n == m,
                }
            }
        }),
{
    assert(entries.push(e).drop_last() =~= entries);
    let m = starting_amounts(refs, entries, s);
    let n = starting_amounts(refs, entries.push(e), s);
    assert(n == entry_counted(m, refs, e));
    let coin = Slot::Coin(e.local_account_id@, e.coin@);
    let position = Slot::Position(e.local_account_id@, e.coin@, e.local_side);
    if !from_signal(refs, e.signal_id@) {
        let d = exposure_delta(e);
        let a = if d != 0 {
            increased(m, coin, d)
        } else {
            m
        };
        if d != 0 {
            assert(a.dom() =~= m.dom().insert(coin));
            assert(raised(m, coin, d, a));
        }
        if pending_reduction(e) {
            assert(n.dom() =~= a.dom().insert(position));
            assert(raised(a, position, floor_zero(e.pending_notional_usd as int), n));
        }
        assert(e.status == CopyLedgerStatus::Open ==> (if floor_zero(
            e.remaining_notional_usd as int,
        ) > 0 {
            raised(m, coin, floor_zero(e.remaining_notional_usd as int), n)
        } else {
            n == m
        }));
        assert(e.status == CopyLedgerStatus::PendingOpen ==> (if has_submission(e) && floor_zero(
            e.pending_notional_usd as int,
        ) > 0 {
            raised(m, coin, floor_zero(e.pending_notional_usd as int), n)
        } else {
            n == m
        }));
        assert(e.status == CopyLedgerStatus::Closed ==> n == m);
        assert(e.status == CopyLedgerStatus::Rejected ==> n == m);
        if pending_reduction(e) {
            let size = floor_zero(e.pending_notional_usd as int);
            if has_submission(e) && size > 0 {
                assert(d == -size);
                assert(size == positive_part(e.pending_notional_usd));
                assert(raised(m, coin, -positive_part(e.pending_notional_usd), a));
                assert(raised(a, position, positive_part(e.pending_notional_usd), n));
            } else {
                assert(d == 0);
                assert(raised(m, position, size, n));
            }
        }
    }
}

/// Limiting one more plan. An opening starts from the live exposure of its
/// account where that is known, and else from the exposure of its coin in the
/// ledger. It is held back where positions are held and it would bring that
/// exposure above the cap by more than a billionth; otherwise it passes as it is
/// and raises the exposure. A reduction takes along what was pending for the
/// position on the other side. It waits, and adds to what is pending, while all
/// of that is below ten dollars, and otherwise passes with all of it and leaves
/// nothing pending.
pub proof fn a_plan_is_limited_by_its_own_exposure(
    refs: Seq<CopyLiveDaemonWouldSubmitRef>,
    options: CopyLiveDaemonSupervisorOptions,
    entries: Seq<CopyLedgerEntry>,
    s: Seq<CopyBoundedLiveWindowReconcile>,
    n: int,
)
    requires
        0 <= n < refs.len(),
    ensures
        limited(refs, options, entries, s) == limited_upto(
            refs,
            options,
            entries,
            s,
            refs.len() as int,
        ),
        limited_upto(refs, options, entries, s, 0).prepared.len() == 0,
        limited_upto(refs, options, entries, s, 0).suppressed.len() == 0,
        limited_upto(refs, options, entries, s, 0).amounts == starting_amounts(refs, entries, s),
        ({
            let a = limited_upto(refs, options, entries, s, n);
            let b = limited_upto(refs, options, entries, s, n + 1);
            let p = refs[n];
            let account = Slot::Account(p.order.account_id@);
            let coin = Slot::Coin(p.order.account_id@, p.order.coin@);
            let size = if p.order.notional_usd > 0 {
                p.order.notional_usd as int
            } else {
                0
            };
            let q = b.prepared.last();
            if !p.order.reduce_only {
                let slot = if a.amounts.dom().contains(account) {
                    account
                } else {
                    coin
                };
                let known = if a.amounts.dom().contains(slot) && a.amounts[slot] > 0 {
                    a.amounts[slot]
                } else {
                    0
                };
                if options.hold_positions_after_submit && known + size
                    > options.max_total_notional_usd + 1 {
                    &&& b.prepared == a.prepared
                    &&& b.amounts == a.amounts
                    &&& b.suppressed == a.suppressed.push(b.suppressed.last())
                    &&& b.suppressed.last().plan == p
                    &&& b.suppressed.last().reason_code == "COPY_DAEMON_MAX_ACCOUNT_EXPOSURE"@
                } else {
                    &&& b.prepared == a.prepared.push(p)
                    &&& b.suppressed == a.suppressed
                    &&& b.amounts == a.amounts.insert(slot, b.amounts[slot])
                    &&& known + size <= WIDE_MAX ==> b.amounts[slot] == known + size
                    &&& known + size > WIDE_MAX ==> b.amounts[slot] == WIDE_MAX
                }
            } else {
                let slot = Slot::Position(
                    p.order.account_id@,
                    p.order.coin@,
                    if p.order.side == OrderSide::Buy {
                        OrderSide::Sell
                    } else {
                        OrderSide::Buy
                    },
                );
                let pending = if a.amounts.dom().contains(slot) {
                    a.amounts[slot]
                } else {
                    0
                };
                if pending + size < 10_000_000_000 {
                    &&& b.prepared == a.prepared
                    &&& b.suppressed == a.suppressed.push(b.suppressed.last())
                    &&& b.suppressed.last().plan == p
                    &&& b.suppressed.last().reason_code
                        == "COPY_DAEMON_PENDING_REDUCE_BELOW_MIN_NOTIONAL"@
                    &&& b.amounts == a.amounts.insert(slot, b.amounts[slot])
                    &&& pending + size >= -WIDE_MAX ==> b.amounts[slot] == pending + size
                } else {
                    &&& b.prepared == a.prepared.push(q)
                    &&& b.suppressed == a.suppressed
                    &&& b.amounts == a.amounts.insert(slot, 0)
                    &&& q == (CopyLiveDaemonWouldSubmitRef {
                        order: CopyExecutionCanaryWouldSubmit {
                            notional_usd: q.order.notional_usd,
                            ..p.order
                        },
                        ..p
                    })
                    &&& pending + size <= FIXED_MAX ==> q.order.notional_usd == pending + size
                    &&& pending + size > FIXED_MAX ==> q.order.notional_usd == FIXED_MAX
                }
            }
        }),
{
    let a = limited_upto(refs, options, entries, s, n);
    let b = limited_upto(refs, options, entries, s, n + 1);
    let p = refs[n];
    assert(b == limit_step(options, a, p));
    if b.prepared.len() > a.prepared.len() {
        assert(b.prepared =~= a.prepared.push(b.prepared.last()));
    }
    if b.suppressed.len() > a.suppressed.len() {
        assert(b.suppressed =~= a.suppressed.push(b.suppressed.last()));
    }
    if !p.order.reduce_only {
        let slot = exposure_slot(a.amounts, p);
        if b.prepared.len() > a.prepared.len() {
            assert(b.amounts =~= a.amounts.insert(slot, b.amounts[slot]));
        }
    } else {
        let slot = reduced_position(p);
        assert(b.amounts =~= a.amounts.insert(slot, b.amounts[slot]));
    }
}

/// Plans pass margins, limits and caps in this order: what is executable is what
/// the caps leave of what the limits leave of what the margins leave, and what is
/// held back is all that any of them held back.
pub proof fn plans_pass_margins_limits_and_caps(
    refs: Seq<CopyLiveDaemonWouldSubmitRef>,
    options: CopyLiveDaemonSupervisorOptions,
    entries: Seq<CopyLedgerEntry>,
    s: Seq<CopyBoundedLiveWindowReconcile>,
)
    ensures
        ({
            let affordable = fitted(refs, s);
            let allowed = limited(affordable.prepared, options, entries, s);
            let capped = split(allowed.prepared, options);
            let out = executable(refs, options, entries, s);
            &&& out.executable == capped.executable
            &&& out.suppressed.len() == affordable.suppressed.len() + allowed.suppressed.len()
                + capped.suppressed.len()
            &&& out.suppressed.subrange(0, affordable.suppressed.len() as int)
                == affordable.suppressed
            &&& out.suppressed.subrange(
                out.suppressed.len() - capped.suppressed.len(),
                out.suppressed.len() as int,
            ) == capped.suppressed
            &&& out.suppressed.subrange(
                affordable.suppressed.len() as int,
                out.suppressed.len() - capped.suppressed.len(),
            ) == allowed.suppressed
        }),
{
    let affordable = fitted(refs, s);
    let allowed = limited(affordable.prepared, options, entries, s);
    let capped = split(allowed.prepared, options);
    let out = executable(refs, options, entries, s);
    assert(out.suppressed.subrange(0, affordable.suppressed.len() as int)
        =~= affordable.suppressed);
    assert(out.suppressed.subrange(
        out.suppressed.len() - capped.suppressed.len(),
        out.suppressed.len() as int,
    ) =~= capped.suppressed);
    assert(out.suppressed.subrange(
        affordable.suppressed.len() as int,
        out.suppressed.len() - capped.suppressed.len(),
    ) =~= allowed.suppressed);
}

} // verus!
