//! Merging ledgers, and closing positions that were reduced.

use vstd::prelude::*;

use crate::decimal::{floor_zero, Fixed};
use crate::domain::OrderSide;
use crate::ledger::{
    clone_entries, copy_live_daemon_persistence_snapshot_for_save, worth_saving, CopyLedgerEntry,
    CopyLedgerStatus, CopyPersistenceSnapshot,
};
use crate::seqs::{total, total_not_negative, total_same, total_step, whole};
use crate::sorted::{ascending, ascending_unique, sort_texts, sorted_texts, sorted_texts_meaning};
use crate::text::{contains_text, has_text, texts};

verus! {

/// What identifies a ledger entry.
pub open spec fn identity(e: CopyLedgerEntry) -> Seq<char> {
    "signal:"@ + e.local_account_id@ + ":"@ + e.coin@ + ":"@ + e.signal_id@ + ":"@ + e.leader_id@
}

/// What identifies a ledger entry.
pub fn copy_live_daemon_ledger_entry_identity(entry: &CopyLedgerEntry) -> (r: String)
    ensures
        r@ == identity(*entry),
{
    let mut s: String = "signal:".to_owned();
    s.append(entry.local_account_id.as_str());
    s.append(":");
    s.append(entry.coin.as_str());
    s.append(":");
    s.append(entry.signal_id.as_str());
    s.append(":");
    s.append(entry.leader_id.as_str());
    s
}

/// Whether an entry is a closing order that went through.
pub open spec fn closed_reduce(e: CopyLedgerEntry) -> bool {
    e.status == CopyLedgerStatus::Closed && has_text(e.signal_id@, "-close-"@)
}

/// Whether an entry is a closing order that went through.
pub fn copy_live_daemon_closed_reduce_entry_consumes_open(entry: &CopyLedgerEntry) -> (r: bool)
    ensures
        r == closed_reduce(*entry),
{
    entry.status == CopyLedgerStatus::Closed && contains_text(entry.signal_id.as_str(), "-close-")
}

/// Whether two entries concern the same position: account, coin and side.
pub open spec fn same_position(a: CopyLedgerEntry, b: CopyLedgerEntry) -> bool {
    a.local_account_id@ == b.local_account_id@ && a.coin@ == b.coin@ && a.local_side
        == b.local_side
}

fn concern_same_position(a: &CopyLedgerEntry, b: &CopyLedgerEntry) -> (r: bool)
    ensures
        r == same_position(*a, *b),
{
    a.local_account_id == b.local_account_id && a.coin == b.coin && a.local_side == b.local_side
}

/// The larger of two numbers.
pub open spec fn larger(a: int, b: int) -> int {
    if a > b {
        a
    } else {
        b
    }
}

/// By how much a closing order reduced the position of `of`.
pub open spec fn reduction(of: CopyLedgerEntry) -> spec_fn(CopyLedgerEntry) -> int {
    |e: CopyLedgerEntry|
        if closed_reduce(e) && same_position(e, of) {
            floor_zero(larger(e.planned_notional_usd as int, e.filled_notional_usd as int))
        } else {
            0
        }
}

/// By how much the position of an entry was reduced altogether.
pub open spec fn total_reduction(entries: Seq<CopyLedgerEntry>, of: CopyLedgerEntry) -> int {
    total(entries, reduction(of))
}

/// What an open entry holds before reductions.
pub open spec fn baseline(e: CopyLedgerEntry) -> int {
    floor_zero(larger(e.filled_notional_usd as int, e.remaining_notional_usd as int))
}

/// Whether an entry is open and concerns the position of another.
pub open spec fn open_at(e: CopyLedgerEntry, of: CopyLedgerEntry) -> bool {
    e.status == CopyLedgerStatus::Open && same_position(e, of)
}

/// What is left of the reductions of a position once its first `n` entries took
/// their share; a rest of a billionth is dropped.
pub open spec fn reduction_left(
    entries: Seq<CopyLedgerEntry>,
    of: CopyLedgerEntry,
    n: int,
) -> int
    decreases n,
{
    if n <= 0 {
        total_reduction(entries, of)
    } else {
        let left = reduction_left(entries, of, n - 1);
        if open_at(entries[n - 1], of) && left > 1 {
            floor_zero(left - baseline(entries[n - 1]))
        } else {
            left
        }
    }
}

/// An open entry after its position was reduced by up to `left`. With no more
/// than a billionth remaining it is closed.
pub open spec fn reduced(e: CopyLedgerEntry, left: int) -> CopyLedgerEntry {
    let remaining = floor_zero(baseline(e) - left);
    if remaining <= 1 {
        CopyLedgerEntry {
            remaining_notional_usd: 0,
            status: CopyLedgerStatus::Closed,
            ..e
        }
    } else {
        CopyLedgerEntry { remaining_notional_usd: remaining as Fixed, ..e }
    }
}

/// The entry at position `i` after the reductions were applied in order.
pub open spec fn entry_after(entries: Seq<CopyLedgerEntry>, i: int) -> CopyLedgerEntry {
    let e = entries[i];
    let left = reduction_left(entries, e, i);
    if e.status == CopyLedgerStatus::Open && left > 1 {
        reduced(e, left)
    } else {
        e
    }
}

/// The ledger after closing orders have consumed the open entries of their
/// positions, first entries first.
pub open spec fn reductions_applied(entries: Seq<CopyLedgerEntry>) -> Seq<CopyLedgerEntry> {
    Seq::new(entries.len(), |i: int| entry_after(entries, i))
}

fn larger_of(a: Fixed, b: Fixed) -> (r: Fixed)
    ensures
        r == floor_zero(larger(a as int, b as int)),
{
    let m: Fixed = if a > b {
        a
    } else {
        b
    };
    if m < 0 {
        0
    } else {
        m
    }
}

fn reduction_total(entries: &Vec<CopyLedgerEntry>, of: &CopyLedgerEntry) -> (r: i128)
    ensures
        r == total_reduction(entries@, *of),
        r >= 0,
{
    let mut sum: i128 = 0;
    let mut i: usize = 0;
    while i < entries.len()
        invariant
            i <= entries@.len(),
            sum == total(entries@.subrange(0, i as int), reduction(*of)),
            0 <= sum <= 0x7fff_ffff_ffff_ffff * i,
        decreases entries@.len() - i,
    {
        proof {
            total_step(entries@, reduction(*of), i as int);
        }
        if copy_live_daemon_closed_reduce_entry_consumes_open(&entries[i])
            && concern_same_position(&entries[i], of) {
            sum = sum + larger_of(
                entries[i].planned_notional_usd,
                entries[i].filled_notional_usd,
            ) as i128;
        }
        i += 1;
    }
    proof {
        whole(entries@);
    }
    sum
}

fn left_for(entries: &Vec<CopyLedgerEntry>, n: usize) -> (r: i128)
    requires
        n < entries@.len(),
    ensures
        r == reduction_left(entries@, entries@[n as int], n as int),
        r >= 0,
{
    let of: &CopyLedgerEntry = &entries[n];
    let mut left: i128 = reduction_total(entries, of);
    let mut i: usize = 0;
    while i < n
        invariant
            i <= n < entries@.len(),
            *of == entries@[n as int],
            left >= 0,
            left == reduction_left(entries@, *of, i as int),
        decreases n - i,
    {
        if left > 1 && entries[i].status == CopyLedgerStatus::Open && concern_same_position(
            &entries[i],
            of,
        ) {
            let b: i128 = larger_of(
                entries[i].filled_notional_usd,
                entries[i].remaining_notional_usd,
            ) as i128;
            left = if left > b {
                left - b
            } else {
                0
            };
        }
        i += 1;
    }
    left
}

/// Lets closing orders consume the open entries of their positions, in order.
pub fn copy_live_daemon_apply_closed_reduces_to_open_entries(
    ledger_entries: &mut Vec<CopyLedgerEntry>,
)
    ensures
        final(ledger_entries)@ == reductions_applied(old(ledger_entries)@),
{
    let original: Vec<CopyLedgerEntry> = clone_entries(ledger_entries);
    let ghost goal = reductions_applied(original@);
    let mut i: usize = 0;
    while i < original.len()
        invariant
            i <= original@.len() == ledger_entries@.len(),
            goal == reductions_applied(original@),
            forall|k: int| 0 <= k < i ==> ledger_entries@[k] == #[trigger] goal[k],
            forall|k: int|
                i <= k < original@.len() ==> ledger_entries@[k] == #[trigger] original@[k],
        decreases original@.len() - i,
    {
        if original[i].status == CopyLedgerStatus::Open {
            let left: i128 = left_for(&original, i);
            if left > 1 {
                let b: i128 = larger_of(
                    original[i].filled_notional_usd,
                    original[i].remaining_notional_usd,
                ) as i128;
                let remaining: i128 = if b > left {
                    b - left
                } else {
                    0
                };
                let mut e: CopyLedgerEntry = original[i].clone();
                if remaining <= 1 {
                    e.remaining_notional_usd = 0;
                    e.status = CopyLedgerStatus::Closed;
                } else {
                    e.remaining_notional_usd = remaining as i64;
                }
                assert(e == reduced(original@[i as int], left as int));
                ledger_entries.set(i, e);
            }
        }
        assert(goal[i as int] == entry_after(original@, i as int));
        i += 1;
    }
    assert(ledger_entries@ =~= goal);
}

/// What the open entries of a position held in total before reductions.
pub open spec fn open_baseline(of: CopyLedgerEntry) -> spec_fn(CopyLedgerEntry) -> int {
    |e: CopyLedgerEntry|
        if open_at(e, of) {
            baseline(e)
        } else {
            0
        }
}

proof fn reduction_left_meaning(entries: Seq<CopyLedgerEntry>, of: CopyLedgerEntry, n: int)
    requires
        0 <= n <= entries.len(),
    ensures
        ({
            let left = reduction_left(entries, of, n);
            let held = total(entries.subrange(0, n), open_baseline(of));
            &&& 0 <= left <= total_reduction(entries, of)
            &&& total_reduction(entries, of) - held <= left
            &&& left > 1 ==> left == total_reduction(entries, of) - held
        }),
    decreases n,
{
    if n <= 0 {
        total_not_negative(entries, reduction(of));
        assert(entries.subrange(0, 0) =~= Seq::empty());
    } else {
        reduction_left_meaning(entries, of, n - 1);
        total_step(entries, open_baseline(of), n - 1);
    }
}

/// Reductions are not lost: what is left of them once every open entry of the
/// position took its share is at most a billionth, or what they exceed all that
/// the position held.
pub proof fn reductions_are_conserved(entries: Seq<CopyLedgerEntry>, of: CopyLedgerEntry)
    ensures
        ({
            let left = reduction_left(entries, of, entries.len() as int);
            let held = total(entries, open_baseline(of));
            &&& 0 <= left <= total_reduction(entries, of)
            &&& left <= 1 || left == total_reduction(entries, of) - held
            &&& left >= total_reduction(entries, of) - held
        }),
{
    whole(entries);
    reduction_left_meaning(entries, of, entries.len() as int);
}

/// Applying reductions changes nothing of an entry but its remaining notional
/// and its status, and only where the entry was open. What remains is never
/// negative and never more than the entry held.
pub proof fn reductions_touch_only_open_entries(entries: Seq<CopyLedgerEntry>, i: int)
    requires
        0 <= i < entries.len(),
    ensures
        ({
            let a = reductions_applied(entries)[i];
            let e = entries[i];
            &&& identity(a) == identity(e)
            &&& a == CopyLedgerEntry {
                remaining_notional_usd: a.remaining_notional_usd,
                status: a.status,
                ..e
            }
            &&& e.status != CopyLedgerStatus::Open ==> a == e
            &&& a != e ==> 0 <= a.remaining_notional_usd <= baseline(e)
            &&& a.status == e.status || (a.status == CopyLedgerStatus::Closed
                && a.remaining_notional_usd == 0)
        }),
{
    reduction_left_meaning(entries, entries[i], i);
}

/// Without a closing order for its position an entry stays as it is.
pub proof fn no_reduction_no_change(entries: Seq<CopyLedgerEntry>, i: int)
    requires
        0 <= i < entries.len(),
        forall|k: int|
            0 <= k < entries.len() ==> !(closed_reduce(#[trigger] entries[k]) && same_position(
                entries[k],
                entries[i],
            )),
    ensures
        reductions_applied(entries)[i] == entries[i],
{
    total_of_zeros(entries, reduction(entries[i]));
    reduction_left_meaning(entries, entries[i], i);
}

/// Whether an entry holds no more than was filled, and is not used up by the
/// closing orders of its ledger.
pub open spec fn outlasts_reductions(entries: Seq<CopyLedgerEntry>, i: int) -> bool {
    entries[i].remaining_notional_usd <= entries[i].filled_notional_usd && entry_after(
        entries,
        i,
    ).status == CopyLedgerStatus::Open
}

/// Closing orders are not counted twice: where every open entry outlasts them,
/// applying them a second time changes nothing.
pub proof fn applying_reductions_twice_is_once(entries: Seq<CopyLedgerEntry>)
    requires
        forall|i: int|
            0 <= i < entries.len() && (#[trigger] entries[i]).status == CopyLedgerStatus::Open
                ==> outlasts_reductions(entries, i),
    ensures
        reductions_applied(reductions_applied(entries)) == reductions_applied(entries),
{
    let after = reductions_applied(entries);
    assert forall|i: int| 0 <= i < entries.len() implies #[trigger] reductions_applied(after)[i]
        == after[i] by {
        assert(entries[i].status == CopyLedgerStatus::Open ==> outlasts_reductions(entries, i));
        reductions_stay(entries, entries[i], after[i], i);
        reduction_left_meaning(entries, entries[i], i);
    }
    assert(reductions_applied(after) =~= after);
}

proof fn reductions_stay(
    entries: Seq<CopyLedgerEntry>,
    of: CopyLedgerEntry,
    now: CopyLedgerEntry,
    n: int,
)
    requires
        0 <= n <= entries.len(),
        same_position(of, now),
        forall|i: int|
            0 <= i < entries.len() && (#[trigger] entries[i]).status == CopyLedgerStatus::Open
                ==> outlasts_reductions(entries, i),
    ensures
        reduction_left(reductions_applied(entries), now, n) == reduction_left(entries, of, n),
    decreases n,
{
    let after = reductions_applied(entries);
    if n <= 0 {
        totals_stay(entries, of, now, entries.len() as int);
        whole(entries);
        whole(after);
    } else {
        reductions_stay(entries, of, now, n - 1);
        let e = entries[n - 1];
        assert(e.status == CopyLedgerStatus::Open ==> outlasts_reductions(entries, n - 1));
        reduction_left_meaning(entries, e, n - 1);
        assert(after[n - 1] == entry_after(entries, n - 1));
    }
}

proof fn totals_stay(
    entries: Seq<CopyLedgerEntry>,
    of: CopyLedgerEntry,
    now: CopyLedgerEntry,
    n: int,
)
    requires
        0 <= n <= entries.len(),
        same_position(of, now),
        forall|i: int|
            0 <= i < entries.len() && (#[trigger] entries[i]).status == CopyLedgerStatus::Open
                ==> outlasts_reductions(entries, i),
    ensures
        total(reductions_applied(entries).subrange(0, n), reduction(now)) == total(
            entries.subrange(0, n),
            reduction(of),
        ),
    decreases n,
{
    let after = reductions_applied(entries);
    if n > 0 {
        totals_stay(entries, of, now, n - 1);
        total_step(entries, reduction(of), n - 1);
        total_step(after, reduction(now), n - 1);
        let e = entries[n - 1];
        assert(e.status == CopyLedgerStatus::Open ==> outlasts_reductions(entries, n - 1));
        assert(after[n - 1] == entry_after(entries, n - 1));
    } else {
        assert(after.subrange(0, 0) =~= Seq::empty());
        assert(entries.subrange(0, 0) =~= Seq::empty());
    }
}

proof fn total_of_zeros<T>(s: Seq<T>, f: spec_fn(T) -> int)
    requires
        forall|k: int| 0 <= k < s.len() ==> f(#[trigger] s[k]) == 0,
    ensures
        total(s, f) == 0,
    decreases s.len(),
{
    if s.len() > 0 {
        let t = s.drop_last();
        assert forall|k: int| 0 <= k < t.len() implies f(#[trigger] t[k]) == 0 by {
            assert(t[k] == s[k]);
        }
        total_of_zeros(t, f);
        assert(f(s[s.len() - 1]) == 0);
    }
}

/// What identifies each entry of a ledger.
pub open spec fn identities(entries: Seq<CopyLedgerEntry>) -> Seq<Seq<char>> {
    entries.map_values(|e: CopyLedgerEntry| identity(e))
}

/// The last entry, before position `n`, with the given identity.
pub open spec fn last_with(entries: Seq<CopyLedgerEntry>, key: Seq<char>, n: int) -> CopyLedgerEntry
    decreases n,
{
    if n <= 1 || identity(entries[n - 1]) == key {
        entries[n - 1]
    } else {
        last_with(entries, key, n - 1)
    }
}

/// A ledger in which each identity occurs once, in order; of several entries
/// with one identity the last is kept.
pub open spec fn latest_entries(entries: Seq<CopyLedgerEntry>) -> Seq<CopyLedgerEntry> {
    let keys = sorted_texts(identities(entries));
    Seq::new(keys.len(), |k: int| last_with(entries, keys[k], entries.len() as int))
}

/// Two ledgers as one: later entries replace earlier ones of the same identity,
/// and closing orders consume what they closed.
pub open spec fn merged_entries(
    existing: Seq<CopyLedgerEntry>,
    incoming: Seq<CopyLedgerEntry>,
) -> Seq<CopyLedgerEntry> {
    reductions_applied(latest_entries(existing + incoming))
}

fn find_last(entries: &Vec<CopyLedgerEntry>, key: &String) -> (r: CopyLedgerEntry)
    requires
        entries@.len() > 0,
    ensures
        r == last_with(entries@, key@, entries@.len() as int),
{
    let mut n: usize = entries.len();
    while n > 1
        invariant
            1 <= n <= entries@.len(),
            last_with(entries@, key@, entries@.len() as int) == last_with(
                entries@,
                key@,
                n as int,
            ),
        decreases n,
    {
        if copy_live_daemon_ledger_entry_identity(&entries[n - 1]) == *key {
            return entries[n - 1].clone();
        }
        n -= 1;
    }
    entries[0].clone()
}

fn keep_latest(entries: &Vec<CopyLedgerEntry>) -> (r: Vec<CopyLedgerEntry>)
    ensures
        r@ == latest_entries(entries@),
{
    let mut ids: Vec<String> = Vec::new();
    let mut i: usize = 0;
    assert(texts(ids@) =~= identities(entries@).subrange(0, 0));
    while i < entries.len()
        invariant
            i <= entries@.len(),
            texts(ids@) == identities(entries@).subrange(0, i as int),
        decreases entries@.len() - i,
    {
        let ghost before = texts(ids@);
        ids.push(copy_live_daemon_ledger_entry_identity(&entries[i]));
        assert(texts(ids@) =~= before.push(identity(entries@[i as int])));
        assert(identities(entries@).subrange(0, i as int + 1) =~= identities(entries@).subrange(
            0,
            i as int,
        ).push(identity(entries@[i as int])));
        i += 1;
    }
    proof {
        whole(identities(entries@));
        sorted_texts_meaning(identities(entries@));
    }
    let keys: Vec<String> = sort_texts(&ids);
    assert(texts(keys@).len() == keys@.len());
    let ghost goal = latest_entries(entries@);
    let mut r: Vec<CopyLedgerEntry> = Vec::new();
    let mut k: usize = 0;
    while k < keys.len()
        invariant
            k <= keys@.len() == goal.len(),
            goal == latest_entries(entries@),
            texts(keys@) == sorted_texts(identities(entries@)),
            forall|y: Seq<char>|
                sorted_texts(identities(entries@)).contains(y) <==> identities(entries@).contains(
                    y,
                ),
            r@ == goal.subrange(0, k as int),
        decreases keys@.len() - k,
    {
        proof {
            assert(texts(keys@)[k as int] == keys@[k as int]@);
            assert(sorted_texts(identities(entries@)).contains(keys@[k as int]@));
            let m = choose|m: int|
                0 <= m < identities(entries@).len() && identities(entries@)[m]
                    == keys@[k as int]@;
            assert(entries@.len() > 0);
        }
        r.push(find_last(entries, &keys[k]));
        assert(goal.subrange(0, k as int + 1) =~= goal.subrange(0, k as int).push(goal[k as int]));
        k += 1;
    }
    proof {
        whole(goal);
    }
    r
}

/// Two snapshots as one: every handled event of both, in order and once, and
/// the merged ledger.
pub fn copy_live_daemon_merge_persistence_snapshots(
    existing: CopyPersistenceSnapshot,
    incoming: CopyPersistenceSnapshot,
    now_ms: u64,
) -> (r: CopyPersistenceSnapshot)
    ensures
        r.schema_version == 1,
        r.saved_at_ms == now_ms,
        texts(r.seen_event_keys@) == sorted_texts(
            texts(existing.seen_event_keys@ + incoming.seen_event_keys@),
        ),
        r.ledger_entries@ == merged_entries(existing.ledger_entries@, incoming.ledger_entries@),
{
    let mut keys: Vec<String> = existing.seen_event_keys;
    let mut more_keys: Vec<String> = incoming.seen_event_keys;
    keys.append(&mut more_keys);
    let mut entries: Vec<CopyLedgerEntry> = existing.ledger_entries;
    let mut more: Vec<CopyLedgerEntry> = incoming.ledger_entries;
    entries.append(&mut more);
    let mut latest: Vec<CopyLedgerEntry> = keep_latest(&entries);
    copy_live_daemon_apply_closed_reduces_to_open_entries(&mut latest);
    CopyPersistenceSnapshot {
        schema_version: 1,
        saved_at_ms: now_ms,
        seen_event_keys: sort_texts(&keys),
        ledger_entries: latest,
    }
}

/// Two snapshots as one, without the planned openings that were never submitted.
pub fn copy_live_daemon_merge_persistence_snapshots_for_save(
    existing: CopyPersistenceSnapshot,
    incoming: CopyPersistenceSnapshot,
    now_ms: u64,
) -> (r: CopyPersistenceSnapshot)
    ensures
        r.schema_version == 1,
        r.saved_at_ms == now_ms,
        texts(r.seen_event_keys@) == sorted_texts(
            texts(existing.seen_event_keys@ + incoming.seen_event_keys@),
        ),
        r.ledger_entries@ == merged_entries(
            existing.ledger_entries@,
            incoming.ledger_entries@,
        ).filter(worth_saving()),
{
    copy_live_daemon_persistence_snapshot_for_save(
        copy_live_daemon_merge_persistence_snapshots(existing, incoming, now_ms),
    )
}

proof fn last_with_meaning(entries: Seq<CopyLedgerEntry>, key: Seq<char>, n: int)
    requires
        0 < n <= entries.len(),
        exists|i: int| 0 <= i < n && identity(#[trigger] entries[i]) == key,
    ensures
        identity(last_with(entries, key, n)) == key,
        entries.contains(last_with(entries, key, n)),
        identity(entries[n - 1]) == key ==> last_with(entries, key, n) == entries[n - 1],
    decreases n,
{
    let i = choose|i: int| 0 <= i < n && identity(#[trigger] entries[i]) == key;
    if n > 1 && identity(entries[n - 1]) != key {
        assert(i < n - 1);
        last_with_meaning(entries, key, n - 1);
    }
}

/// The merged ledger lists each identity of either ledger once, in order, and
/// no other.
pub proof fn merging_lists_each_identity_once(
    existing: Seq<CopyLedgerEntry>,
    incoming: Seq<CopyLedgerEntry>,
)
    ensures
        identities(merged_entries(existing, incoming)) == sorted_texts(
            identities(existing + incoming),
        ),
        ascending(identities(merged_entries(existing, incoming))),
        forall|y: Seq<char>|
            identities(merged_entries(existing, incoming)).contains(y) <==> identities(
                existing,
            ).contains(y) || identities(incoming).contains(y),
{
    let all = existing + incoming;
    let ids = identities(all);
    let keys = sorted_texts(ids);
    sorted_texts_meaning(ids);
    let latest = latest_entries(all);
    assert forall|k: int| 0 <= k < keys.len() implies identity(#[trigger] latest[k]) == keys[k] by {
        assert(keys.contains(keys[k]));
        let m = choose|m: int| 0 <= m < ids.len() && ids[m] == keys[k];
        assert(identity(all[m]) == keys[k]);
        last_with_meaning(all, keys[k], all.len() as int);
    }
    assert(identities(merged_entries(existing, incoming)) =~= keys) by {
        assert forall|k: int| 0 <= k < keys.len() implies identities(
            merged_entries(existing, incoming),
        )[k] == keys[k] by {
            reductions_touch_only_open_entries(latest, k);
            assert(identity(latest[k]) == keys[k]);
        }
    }
    assert forall|y: Seq<char>| ids.contains(y) <==> identities(existing).contains(y)
        || identities(incoming).contains(y) by {
        if identities(existing).contains(y) {
            let m = choose|m: int| 0 <= m < existing.len() && identities(existing)[m] == y;
            assert(ids[m] == y);
        }
        if identities(incoming).contains(y) {
            let m = choose|m: int| 0 <= m < incoming.len() && identities(incoming)[m] == y;
            assert(ids[existing.len() + m] == y);
        }
        if ids.contains(y) {
            let m = choose|m: int| 0 <= m < ids.len() && ids[m] == y;
            if m < existing.len() {
                assert(identities(existing)[m] == y);
            } else {
                assert(identities(incoming)[m - existing.len()] == y);
            }
        }
    }
}

proof fn last_with_later(entries: Seq<CopyLedgerEntry>, key: Seq<char>, i: int, n: int)
    requires
        0 <= i < n <= entries.len(),
        identity(entries[i]) == key,
        forall|k: int| i < k < n ==> identity(#[trigger] entries[k]) != key,
    ensures
        last_with(entries, key, n) == entries[i],
    decreases n,
{
    if n - 1 > i {
        assert(identity(entries[n - 1]) != key);
        last_with_later(entries, key, i, n - 1);
    }
}

/// Of several entries with one identity the last one is merged: an incoming
/// entry replaces an existing one.
pub proof fn merging_prefers_the_last_entry(
    existing: Seq<CopyLedgerEntry>,
    incoming: Seq<CopyLedgerEntry>,
    i: int,
)
    requires
        0 <= i < existing.len() + incoming.len(),
        forall|k: int|
            i < k < existing.len() + incoming.len() ==> identity(
                #[trigger] (existing + incoming)[k],
            ) != identity((existing + incoming)[i]),
    ensures
        latest_entries(existing + incoming).contains((existing + incoming)[i]),
{
    let all = existing + incoming;
    let ids = identities(all);
    let key = identity(all[i]);
    sorted_texts_meaning(ids);
    assert(ids[i] == key);
    assert(ids.contains(key));
    let keys = sorted_texts(ids);
    let k = choose|k: int| 0 <= k < keys.len() && keys[k] == key;
    last_with_later(all, key, i, all.len() as int);
    assert(latest_entries(all)[k] == all[i]);
}

/// The handled events of two snapshots merge the same way in either order, and
/// merging a snapshot with itself adds none.
pub proof fn merging_events_is_commutative_and_idempotent(a: Seq<Seq<char>>, b: Seq<Seq<char>>)
    ensures
        sorted_texts(a + b) == sorted_texts(b + a),
        sorted_texts(a + a) == sorted_texts(a),
{
    sorted_texts_meaning(a + b);
    sorted_texts_meaning(b + a);
    sorted_texts_meaning(a + a);
    sorted_texts_meaning(a);
    assert forall|y: Seq<char>|
        #![trigger (a + b).contains(y)]
        #![trigger (b + a).contains(y)]
        (a + b).contains(y) <==> (b + a).contains(y) by {
        concat_contains(a, b, y);
        concat_contains(b, a, y);
    }
    assert forall|y: Seq<char>|
        #![trigger (a + a).contains(y)]
        #![trigger a.contains(y)]
        (a + a).contains(y) <==> a.contains(y) by {
        concat_contains(a, a, y);
    }
    ascending_unique(sorted_texts(a + b), sorted_texts(b + a));
    ascending_unique(sorted_texts(a + a), sorted_texts(a));
}

proof fn concat_contains<T>(a: Seq<T>, b: Seq<T>, y: T)
    ensures
        (a + b).contains(y) <==> a.contains(y) || b.contains(y),
{
    if a.contains(y) {
        let m = choose|m: int| 0 <= m < a.len() && a[m] == y;
        assert((a + b)[m] == y);
    }
    if b.contains(y) {
        let m = choose|m: int| 0 <= m < b.len() && b[m] == y;
        assert((a + b)[a.len() + m] == y);
    }
    if (a + b).contains(y) {
        let m = choose|m: int| 0 <= m < (a + b).len() && (a + b)[m] == y;
        if m < a.len() {
            assert(a[m] == y);
        } else {
            assert(b[m - a.len()] == y);
        }
    }
}

/// Entries with the same account, coin, signal and leader have one identity, and
/// entries that differ in just one of these have two.
pub proof fn identities_tell_entries_apart(a: CopyLedgerEntry, b: CopyLedgerEntry)
    ensures
        a.local_account_id@ == b.local_account_id@ && a.coin@ == b.coin@ && a.signal_id@
            == b.signal_id@ && a.leader_id@ == b.leader_id@ ==> identity(a) == identity(b),
        identity(a) == identity(b) && a.coin@ == b.coin@ && a.signal_id@ == b.signal_id@
            && a.leader_id@ == b.leader_id@ ==> a.local_account_id@ == b.local_account_id@,
        identity(a) == identity(b) && a.local_account_id@ == b.local_account_id@ && a.signal_id@
            == b.signal_id@ && a.leader_id@ == b.leader_id@ ==> a.coin@ == b.coin@,
        identity(a) == identity(b) && a.local_account_id@ == b.local_account_id@ && a.coin@
            == b.coin@ && a.leader_id@ == b.leader_id@ ==> a.signal_id@ == b.signal_id@,
        identity(a) == identity(b) && a.local_account_id@ == b.local_account_id@ && a.coin@
            == b.coin@ && a.signal_id@ == b.signal_id@ ==> a.leader_id@ == b.leader_id@,
{
    if identity(a) == identity(b) {
        let head = "signal:"@;
        let colon = ":"@;
        if a.coin@ == b.coin@ && a.signal_id@ == b.signal_id@ && a.leader_id@ == b.leader_id@ {
            middle_is_fixed(
                head,
                a.local_account_id@,
                b.local_account_id@,
                colon + a.coin@ + colon + a.signal_id@ + colon + a.leader_id@,
                identity(a),
            );
        }
        if a.local_account_id@ == b.local_account_id@ && a.signal_id@ == b.signal_id@
            && a.leader_id@ == b.leader_id@ {
            middle_is_fixed(
                head + a.local_account_id@ + colon,
                a.coin@,
                b.coin@,
                colon + a.signal_id@ + colon + a.leader_id@,
                identity(a),
            );
        }
        if a.local_account_id@ == b.local_account_id@ && a.coin@ == b.coin@ && a.leader_id@
            == b.leader_id@ {
            middle_is_fixed(
                head + a.local_account_id@ + colon + a.coin@ + colon,
                a.signal_id@,
                b.signal_id@,
                colon + a.leader_id@,
                identity(a),
            );
        }
        if a.local_account_id@ == b.local_account_id@ && a.coin@ == b.coin@ && a.signal_id@
            == b.signal_id@ {
            middle_is_fixed(
                head + a.local_account_id@ + colon + a.coin@ + colon + a.signal_id@ + colon,
                a.leader_id@,
                b.leader_id@,
                Seq::empty(),
                identity(a),
            );
        }
    }
}

proof fn middle_is_fixed(
    head: Seq<char>,
    x: Seq<char>,
    y: Seq<char>,
    tail: Seq<char>,
    whole: Seq<char>,
)
    requires
        whole =~= head + x + tail,
        whole =~= head + y + tail,
    ensures
        x == y,
{
    assert((head + x + tail).len() == (head + y + tail).len());
    assert(x.len() == y.len());
    assert(x =~= whole.subrange(head.len() as int, (head.len() + x.len()) as int));
    assert(y =~= whole.subrange(head.len() as int, (head.len() + y.len()) as int));
}

/// What an entry closes of one account, coin and side: the larger of its planned
/// and filled notional where it is a closing order of theirs, and otherwise
/// nothing.
pub open spec fn closes(account: Seq<char>, coin: Seq<char>, side: OrderSide) -> spec_fn(
    CopyLedgerEntry,
) -> int {
    |e: CopyLedgerEntry|
        if e.status != CopyLedgerStatus::Closed || !has_text(e.signal_id@, "-close-"@)
            || e.local_account_id@ != account || e.coin@ != coin || e.local_side != side {
            0
        } else if e.planned_notional_usd <= 0 && e.filled_notional_usd <= 0 {
            0
        } else if e.planned_notional_usd >= e.filled_notional_usd {
            e.planned_notional_usd as int
        } else {
            e.filled_notional_usd as int
        }
}

/// What an entry held of one account, coin and side before any of it was closed:
/// the larger of its filled and remaining notional where it is an open entry of
/// theirs, and otherwise nothing.
pub open spec fn holds(account: Seq<char>, coin: Seq<char>, side: OrderSide) -> spec_fn(
    CopyLedgerEntry,
) -> int {
    |e: CopyLedgerEntry|
        if e.status != CopyLedgerStatus::Open || e.local_account_id@ != account || e.coin@ != coin
            || e.local_side != side {
            0
        } else if e.filled_notional_usd <= 0 && e.remaining_notional_usd <= 0 {
            0
        } else if e.filled_notional_usd >= e.remaining_notional_usd {
            e.filled_notional_usd as int
        } else {
            e.remaining_notional_usd as int
        }
}

/// Closing orders consume open entries of their own account, coin and side, and
/// no others, in the order of the ledger. An entry that is not open stays as it
/// is, and so does an open one once the entries before it have taken all closing
/// orders up to a billionth. Any other open entry is left with what it held less
/// what the entries before it did not take, and is closed where no more than a
/// billionth remains.
pub proof fn closing_orders_consume_their_own_position(
    existing: Seq<CopyLedgerEntry>,
    incoming: Seq<CopyLedgerEntry>,
    i: int,
)
    requires
        0 <= i < latest_entries(existing + incoming).len(),
    ensures
        merged_entries(existing, incoming).len() == latest_entries(existing + incoming).len(),
        ({
            let base = latest_entries(existing + incoming);
            let was = base[i];
            let now = merged_entries(existing, incoming)[i];
            let held = holds(was.local_account_id@, was.coin@, was.local_side);
            let closed = closes(was.local_account_id@, was.coin@, was.local_side);
            let due = total(base, closed) - total(base.subrange(0, i), held);
            if was.status != CopyLedgerStatus::Open || due <= 1 {
                now == was
            } else if held(was) - due <= 1 {
                now == (CopyLedgerEntry {
                    remaining_notional_usd: 0,
                    status: CopyLedgerStatus::Closed,
                    ..was
                })
            } else {
                now == (CopyLedgerEntry { remaining_notional_usd: (held(was) - due) as Fixed, ..was })
            }
        }),
{
    let base = latest_entries(existing + incoming);
    let was = base[i];
    reduction_left_meaning(base, was, i);
    total_same(
        base,
        reduction(was),
        closes(was.local_account_id@, was.coin@, was.local_side),
    );
    total_same(
        base.subrange(0, i),
        open_baseline(was),
        holds(was.local_account_id@, was.coin@, was.local_side),
    );
}

/// An entry changes only where the ledger holds a closing order of the same
/// account, coin and side.
pub proof fn only_a_closing_order_changes_an_entry(entries: Seq<CopyLedgerEntry>, i: int)
    requires
        0 <= i < entries.len(),
        reductions_applied(entries)[i] != entries[i],
    ensures
        entries[i].status == CopyLedgerStatus::Open,
        exists|k: int|
            0 <= k < entries.len() && (#[trigger] entries[k]).status == CopyLedgerStatus::Closed
                && has_text(entries[k].signal_id@, "-close-"@) && entries[k].local_account_id@
                == entries[i].local_account_id@ && entries[k].coin@ == entries[i].coin@
                && entries[k].local_side == entries[i].local_side,
{
    if forall|k: int|
        0 <= k < entries.len() ==> !(closed_reduce(#[trigger] entries[k]) && same_position(
            entries[k],
            entries[i],
        )) {
        no_reduction_no_change(entries, i);
    }
    let k = choose|k: int|
        0 <= k < entries.len() && closed_reduce(#[trigger] entries[k]) && same_position(
            entries[k],
            entries[i],
        );
    assert(entries[k].status == CopyLedgerStatus::Closed);
}

} // verus!
