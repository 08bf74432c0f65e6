//! The copy ledger: which local positions follow which leader.

use vstd::prelude::*;

use crate::decimal::Fixed;
use crate::domain::OrderSide;
use crate::reconcile::{
    copy_live_daemon_local_side_from_position_szi, position_side,
    CopyBoundedLiveWindowPositionSummary, CopyBoundedLiveWindowReconcile,
};
use crate::seqs::{filter_all, filter_members, filter_step, filter_twice, whole};
use crate::text::{blank, clone_opt, clone_texts, is_blank};

verus! {

/// The smallest notional that the exchange accepts for an order.
pub const HYPERLIQUID_MIN_ORDER_NOTIONAL_USD: Fixed = 10_000_000_000;

/// Where a ledger entry stands.
#[derive(Clone, Copy, Debug, PartialEq, Eq, Structural)]
pub enum CopyLedgerStatus {
    PendingOpen,
    Open,
    PendingReduce,
    PendingClose,
    Closed,
    Rejected,
}

/// One order of a local account that copies a leader.
#[derive(Debug)]
pub struct CopyLedgerEntry {
    pub local_account_id: String,
    pub leader_id: String,
    pub leader_group: String,
    pub signal_id: String,
    pub coin: String,
    pub local_side: OrderSide,
    pub order_cloid: Option<String>,
    pub order_oid: Option<u64>,
    pub submitted_at_ms: Option<u64>,
    pub filled_at_ms: Option<u64>,
    pub planned_notional_usd: Fixed,
    pub pending_notional_usd: Fixed,
    pub filled_notional_usd: Fixed,
    pub remaining_notional_usd: Fixed,
    pub status: CopyLedgerStatus,
}

/// What survives a restart: the events that were handled, and the ledger.
#[derive(Clone, Debug)]
pub struct CopyPersistenceSnapshot {
    pub schema_version: u32,
    pub saved_at_ms: u64,
    pub seen_event_keys: Vec<String>,
    pub ledger_entries: Vec<CopyLedgerEntry>,
}

impl Clone for CopyLedgerEntry {
    fn clone(&self) -> (r: Self)
        ensures
            r == *self,
    {
        CopyLedgerEntry {
            local_account_id: self.local_account_id.clone(),
            leader_id: self.leader_id.clone(),
            leader_group: self.leader_group.clone(),
            signal_id: self.signal_id.clone(),
            coin: self.coin.clone(),
            local_side: self.local_side,
            order_cloid: clone_opt(&self.order_cloid),
            order_oid: self.order_oid,
            submitted_at_ms: self.submitted_at_ms,
            filled_at_ms: self.filled_at_ms,
            planned_notional_usd: self.planned_notional_usd,
            pending_notional_usd: self.pending_notional_usd,
            filled_notional_usd: self.filled_notional_usd,
            remaining_notional_usd: self.remaining_notional_usd,
            status: self.status,
        }
    }
}

/// A copy of a list of ledger entries.
pub fn clone_entries(v: &Vec<CopyLedgerEntry>) -> (r: Vec<CopyLedgerEntry>)
    ensures
        r@ == v@,
{
    let mut r: Vec<CopyLedgerEntry> = Vec::new();
    let mut i: usize = 0;
    while i < v.len()
        invariant
            i <= v@.len(),
            r@ == v@.subrange(0, i as int),
        decreases v@.len() - i,
    {
        r.push(v[i].clone());
        assert(v@.subrange(0, i as int + 1) =~= v@.subrange(0, i as int).push(v@[i as int]));
        i += 1;
    }
    proof {
        whole(v@);
    }
    r
}

impl CopyPersistenceSnapshot {
    /// A snapshot of the current schema.
    pub fn new(saved_at_ms: u64, seen_event_keys: Vec<String>, entries: Vec<CopyLedgerEntry>) -> (r:
        Self)
        ensures
            r.schema_version == 1,
            r.saved_at_ms == saved_at_ms,
            r.seen_event_keys == seen_event_keys,
            r.ledger_entries == entries,
    {
        CopyPersistenceSnapshot {
            schema_version: 1,
            saved_at_ms,
            seen_event_keys,
            ledger_entries: entries,
        }
    }

    /// A copy of a snapshot.
    pub fn copied(&self) -> (r: Self)
        ensures
            r.schema_version == self.schema_version,
            r.saved_at_ms == self.saved_at_ms,
            r.seen_event_keys@ == self.seen_event_keys@,
            r.ledger_entries@ == self.ledger_entries@,
    {
        CopyPersistenceSnapshot {
            schema_version: self.schema_version,
            saved_at_ms: self.saved_at_ms,
            seen_event_keys: clone_texts(&self.seen_event_keys),
            ledger_entries: clone_entries(&self.ledger_entries),
        }
    }
}

/// Whether an order of the entry reached the exchange.
pub open spec fn has_submission(e: CopyLedgerEntry) -> bool {
    ||| e.submitted_at_ms is Some
    ||| e.order_oid is Some
    ||| match e.order_cloid {
        Some(c) => !blank(c@),
        None => false,
    }
}

/// Whether an order of the entry reached the exchange.
pub fn copy_live_daemon_ledger_entry_has_submission(entry: &CopyLedgerEntry) -> (r: bool)
    ensures
        r == has_submission(*entry),
{
    if entry.submitted_at_ms.is_some() || entry.order_oid.is_some() {
        return true;
    }
    match &entry.order_cloid {
        Some(c) => !is_blank(c.as_str()),
        None => false,
    }
}

/// Whether an entry is kept when a snapshot is saved: all but planned openings
/// that were never submitted.
pub open spec fn worth_saving() -> spec_fn(CopyLedgerEntry) -> bool {
    |e: CopyLedgerEntry| e.status != CopyLedgerStatus::PendingOpen || has_submission(e)
}

fn is_worth_saving(entry: &CopyLedgerEntry) -> (r: bool)
    ensures
        r == worth_saving()(*entry),
{
    entry.status != CopyLedgerStatus::PendingOpen || copy_live_daemon_ledger_entry_has_submission(
        entry,
    )
}

/// The snapshot without the planned openings that were never submitted.
pub fn copy_live_daemon_persistence_snapshot_for_save(snapshot: CopyPersistenceSnapshot) -> (r:
    CopyPersistenceSnapshot)
    ensures
        r.schema_version == snapshot.schema_version,
        r.saved_at_ms == snapshot.saved_at_ms,
        r.seen_event_keys == snapshot.seen_event_keys,
        r.ledger_entries@ == snapshot.ledger_entries@.filter(worth_saving()),
{
    let entries: &Vec<CopyLedgerEntry> = &snapshot.ledger_entries;
    let mut kept: Vec<CopyLedgerEntry> = Vec::new();
    let mut i: usize = 0;
    assert(entries@.subrange(0, 0).filter(worth_saving()) =~= Seq::empty()) by {
        reveal(Seq::filter);
    }
    while i < entries.len()
        invariant
            i <= entries@.len(),
            kept@ == entries@.subrange(0, i as int).filter(worth_saving()),
        decreases entries@.len() - i,
    {
        proof {
            filter_step(entries@, worth_saving(), i as int);
        }
        if is_worth_saving(&entries[i]) {
            kept.push(entries[i].clone());
        }
        i += 1;
    }
    proof {
        whole(entries@);
    }
    CopyPersistenceSnapshot {
        schema_version: snapshot.schema_version,
        saved_at_ms: snapshot.saved_at_ms,
        seen_event_keys: snapshot.seen_event_keys,
        ledger_entries: kept,
    }
}

/// What was filtered for saving stays as it is when it is filtered again.
pub proof fn saving_twice_is_saving_once(entries: Seq<CopyLedgerEntry>)
    ensures
        entries.filter(worth_saving()).filter(worth_saving()) == entries.filter(worth_saving()),
{
    filter_twice(entries, worth_saving());
}

/// Saving drops planned openings without a submission, and nothing else.
pub proof fn saving_drops_only_unsubmitted_openings(entries: Seq<CopyLedgerEntry>, i: int)
    requires
        0 <= i < entries.len(),
    ensures
        entries.filter(worth_saving()).contains(entries[i]) <==> !(entries[i].status
            == CopyLedgerStatus::PendingOpen && !has_submission(entries[i])),
{
    filter_members(entries, worth_saving());
    if entries.filter(worth_saving()).contains(entries[i]) {
        let k = choose|k: int|
            0 <= k < entries.filter(worth_saving()).len() && entries.filter(worth_saving())[k]
                == entries[i];
        assert(worth_saving()(entries.filter(worth_saving())[k]));
    }
}

/// Whether some account with the given id could be read.
pub open spec fn account_readable(
    s: Seq<CopyBoundedLiveWindowReconcile>,
    account: Seq<char>,
) -> bool {
    exists|i: int|
        0 <= i < s.len() && (#[trigger] s[i]).error is None && s[i].account_id@ == account
}

/// Whether a list of positions holds one in the given coin and of the given side.
pub open spec fn holds_position(
    v: Seq<CopyBoundedLiveWindowPositionSummary>,
    coin: Seq<char>,
    side: OrderSide,
) -> bool {
    exists|j: int|
        0 <= j < v.len() && (#[trigger] v[j]).coin@ == coin && position_side(v[j].szi@) == Some(
            side,
        )
}

/// Whether an account that could be read holds the given position.
pub open spec fn position_live(
    s: Seq<CopyBoundedLiveWindowReconcile>,
    account: Seq<char>,
    coin: Seq<char>,
    side: OrderSide,
) -> bool {
    exists|i: int|
        0 <= i < s.len() && (#[trigger] s[i]).error is None && s[i].account_id@ == account
            && holds_position(s[i].position_summaries@, coin, side)
}

/// Whether an entry stands for a position that is or was on the exchange.
pub open spec fn claims_position(status: CopyLedgerStatus) -> bool {
    status == CopyLedgerStatus::Open || status == CopyLedgerStatus::PendingReduce || status
        == CopyLedgerStatus::PendingClose
}

/// Whether an entry is kept when the ledger is compared with the exchange: it
/// is dropped where its account could be read, it claims a position, and the
/// account holds no such position.
pub open spec fn still_backed(s: Seq<CopyBoundedLiveWindowReconcile>) -> spec_fn(
    CopyLedgerEntry,
) -> bool {
    |e: CopyLedgerEntry|
        !account_readable(s, e.local_account_id@) || !claims_position(e.status) || position_live(
            s,
            e.local_account_id@,
            e.coin@,
            e.local_side,
        )
}

pub(crate) fn can_read_account(v: &Vec<CopyBoundedLiveWindowReconcile>, account: &String) -> (r: bool)
    ensures
        r == account_readable(v@, account@),
{
    let mut i: usize = 0;
    while i < v.len()
        invariant
            i <= v@.len(),
            forall|k: int|
                0 <= k < i ==> !((#[trigger] v@[k]).error is None && v@[k].account_id@ == account@),
        decreases v@.len() - i,
    {
        if v[i].error.is_none() && v[i].account_id == *account {
            return true;
        }
        i += 1;
    }
    false
}

fn has_position(
    v: &Vec<CopyBoundedLiveWindowPositionSummary>,
    coin: &String,
    side: OrderSide,
) -> (r: bool)
    ensures
        r == holds_position(v@, coin@, side),
{
    let mut j: usize = 0;
    while j < v.len()
        invariant
            j <= v@.len(),
            forall|k: int|
                0 <= k < j ==> !((#[trigger] v@[k]).coin@ == coin@ && position_side(v@[k].szi@)
                    == Some(side)),
        decreases v@.len() - j,
    {
        if v[j].coin == *coin {
            match copy_live_daemon_local_side_from_position_szi(v[j].szi.as_str()) {
                Some(s) => {
                    if s == side {
                        return true;
                    }
                },
                None => {},
            }
        }
        j += 1;
    }
    false
}

pub(crate) fn is_position_live(
    v: &Vec<CopyBoundedLiveWindowReconcile>,
    account: &String,
    coin: &String,
    side: OrderSide,
) -> (r: bool)
    ensures
        r == position_live(v@, account@, coin@, side),
{
    let mut i: usize = 0;
    while i < v.len()
        invariant
            i <= v@.len(),
            forall|k: int|
                0 <= k < i ==> !((#[trigger] v@[k]).error is None && v@[k].account_id@ == account@
                    && holds_position(v@[k].position_summaries@, coin@, side)),
        decreases v@.len() - i,
    {
        if v[i].error.is_none() && v[i].account_id == *account && has_position(
            &v[i].position_summaries,
            coin,
            side,
        ) {
            return true;
        }
        i += 1;
    }
    false
}

fn is_still_backed(v: &Vec<CopyBoundedLiveWindowReconcile>, e: &CopyLedgerEntry) -> (r: bool)
    ensures
        r == still_backed(v@)(*e),
{
    let claims: bool = e.status == CopyLedgerStatus::Open || e.status
        == CopyLedgerStatus::PendingReduce || e.status == CopyLedgerStatus::PendingClose;
    !claims || !can_read_account(v, &e.local_account_id) || is_position_live(
        v,
        &e.local_account_id,
        &e.coin,
        e.local_side,
    )
}

/// The snapshot without the entries whose position is gone from the exchange.
pub fn copy_live_daemon_prune_snapshot_against_reconciliations(
    snapshot: CopyPersistenceSnapshot,
    reconciliations: &Vec<CopyBoundedLiveWindowReconcile>,
) -> (r: CopyPersistenceSnapshot)
    ensures
        r.schema_version == snapshot.schema_version,
        r.saved_at_ms == snapshot.saved_at_ms,
        r.seen_event_keys == snapshot.seen_event_keys,
        r.ledger_entries@ == snapshot.ledger_entries@.filter(still_backed(reconciliations@)),
{
    let entries: &Vec<CopyLedgerEntry> = &snapshot.ledger_entries;
    let ghost p = still_backed(reconciliations@);
    let mut kept: Vec<CopyLedgerEntry> = Vec::new();
    let mut i: usize = 0;
    assert(entries@.subrange(0, 0).filter(p) =~= Seq::empty()) by {
        reveal(Seq::filter);
    }
    while i < entries.len()
        invariant
            i <= entries@.len(),
            p == still_backed(reconciliations@),
            kept@ == entries@.subrange(0, i as int).filter(p),
        decreases entries@.len() - i,
    {
        proof {
            filter_step(entries@, p, i as int);
        }
        if is_still_backed(reconciliations, &entries[i]) {
            kept.push(entries[i].clone());
        }
        i += 1;
    }
    proof {
        whole(entries@);
    }
    CopyPersistenceSnapshot {
        schema_version: snapshot.schema_version,
        saved_at_ms: snapshot.saved_at_ms,
        seen_event_keys: snapshot.seen_event_keys,
        ledger_entries: kept,
    }
}

/// Where no account could be read, comparing the ledger with the exchange
/// changes nothing.
pub proof fn pruning_without_a_readable_account_keeps_all(
    entries: Seq<CopyLedgerEntry>,
    s: Seq<CopyBoundedLiveWindowReconcile>,
)
    requires
        forall|i: int| 0 <= i < s.len() ==> (#[trigger] s[i]).error is Some,
    ensures
        entries.filter(still_backed(s)) == entries,
{
    filter_all(entries, still_backed(s));
}

/// Entries of accounts that could not be read, and entries that claim no
/// position, are never dropped.
pub proof fn pruning_never_drops_unverifiable_entries(
    entries: Seq<CopyLedgerEntry>,
    s: Seq<CopyBoundedLiveWindowReconcile>,
    i: int,
)
    requires
        0 <= i < entries.len(),
        !account_readable(s, entries[i].local_account_id@) || !claims_position(entries[i].status),
    ensures
        entries.filter(still_backed(s)).contains(entries[i]),
{
    filter_members(entries, still_backed(s));
}

/// Whether an entry may stand for a live position.
pub open spec fn active(status: CopyLedgerStatus) -> bool {
    claims_position(status) || status == CopyLedgerStatus::PendingOpen
}

/// Whether the ledger knows of the given position.
pub open spec fn mapped(
    entries: Seq<CopyLedgerEntry>,
    account: Seq<char>,
    coin: Seq<char>,
    side: OrderSide,
) -> bool {
    exists|i: int|
        0 <= i < entries.len() && (#[trigger] entries[i]).local_account_id@ == account
            && entries[i].coin@ == coin && entries[i].local_side == side && active(
            entries[i].status,
        )
}

pub(crate) fn is_mapped(
    entries: &Vec<CopyLedgerEntry>,
    account: &String,
    coin: &String,
    side: OrderSide,
) -> (r: bool)
    ensures
        r == mapped(entries@, account@, coin@, side),
{
    let mut i: usize = 0;
    while i < entries.len()
        invariant
            i <= entries@.len(),
            forall|k: int|
                0 <= k < i ==> !((#[trigger] entries@[k]).local_account_id@ == account@
                    && entries@[k].coin@ == coin@ && entries@[k].local_side == side && active(
                    entries@[k].status,
                )),
        decreases entries@.len() - i,
    {
        let e: &CopyLedgerEntry = &entries[i];
        if e.local_account_id == *account && e.coin == *coin && e.local_side == side && (e.status
            == CopyLedgerStatus::Open || e.status == CopyLedgerStatus::PendingOpen || e.status
            == CopyLedgerStatus::PendingReduce || e.status == CopyLedgerStatus::PendingClose) {
            return true;
        }
        i += 1;
    }
    false
}

/// An entry is saved unless it is an opening that was never sent: one that waits
/// to be opened without a time of submission, an order number or a client id
/// that says anything.
pub proof fn only_unsent_openings_are_not_saved(
    entries: Seq<CopyLedgerEntry>,
    e: CopyLedgerEntry,
)
    ensures
        entries.push(e).filter(worth_saving()) == if e.status == CopyLedgerStatus::PendingOpen
            && e.submitted_at_ms is None && e.order_oid is None && (e.order_cloid is None || blank(
            e.order_cloid->0@,
        )) {
            entries.filter(worth_saving())
        } else {
            entries.filter(worth_saving()).push(e)
        },
{
    reveal(Seq::filter);
    assert(entries.push(e).drop_last() =~= entries);
}

/// An entry is dropped exactly where it claims a position, its account was read,
/// and no account of that name that was read holds a position of its coin and
/// side.
pub proof fn an_entry_goes_with_its_position(
    entries: Seq<CopyLedgerEntry>,
    e: CopyLedgerEntry,
    s: Seq<CopyBoundedLiveWindowReconcile>,
)
    ensures
        ({
            let claims = e.status == CopyLedgerStatus::Open || e.status
                == CopyLedgerStatus::PendingReduce || e.status == CopyLedgerStatus::PendingClose;
            let read = exists|i: int|
                0 <= i < s.len() && (#[trigger] s[i]).error is None && s[i].account_id@
                    == e.local_account_id@;
            let live = exists|i: int, j: int|
                0 <= i < s.len() && (#[trigger] s[i]).error is None && s[i].account_id@
                    == e.local_account_id@ && 0 <= j < s[i].position_summaries@.len() && (
                #[trigger] s[i].position_summaries@[j]).coin@ == e.coin@ && position_side(
                    s[i].position_summaries@[j].szi@,
                ) == Some(e.local_side);
            entries.push(e).filter(still_backed(s)) == if claims && read && !live {
                entries.filter(still_backed(s))
            } else {
                entries.filter(still_backed(s)).push(e)
            }
        }),
{
    reveal(Seq::filter);
    assert(entries.push(e).drop_last() =~= entries);
    let account = e.local_account_id@;
    if position_live(s, account, e.coin@, e.local_side) {
        let i = choose|i: int|
            0 <= i < s.len() && (#[trigger] s[i]).error is None && s[i].account_id@ == account
                && holds_position(s[i].position_summaries@, e.coin@, e.local_side);
        let v = s[i].position_summaries@;
        let j = choose|j: int|
            0 <= j < v.len() && (#[trigger] v[j]).coin@ == e.coin@ && position_side(v[j].szi@)
                == Some(e.local_side);
        assert(s[i].position_summaries@[j].coin@ == e.coin@);
    }
    if exists|i: int, j: int|
        0 <= i < s.len() && (#[trigger] s[i]).error is None && s[i].account_id@ == account && 0
            <= j < s[i].position_summaries@.len() && (
        #[trigger] s[i].position_summaries@[j]).coin@ == e.coin@ && position_side(
            s[i].position_summaries@[j].szi@,
        ) == Some(e.local_side) {
        let (i, j) = choose|i: int, j: int|
            0 <= i < s.len() && (#[trigger] s[i]).error is None && s[i].account_id@ == account && 0
                <= j < s[i].position_summaries@.len() && (
            #[trigger] s[i].position_summaries@[j]).coin@ == e.coin@ && position_side(
                s[i].position_summaries@[j].szi@,
            ) == Some(e.local_side);
        assert(holds_position(s[i].position_summaries@, e.coin@, e.local_side));
        assert(position_live(s, account, e.coin@, e.local_side));
    }
    if account_readable(s, account) {
        let i = choose|i: int|
            0 <= i < s.len() && (#[trigger] s[i]).error is None && s[i].account_id@ == account;
        assert(s[i].error is None);
    }
}

/// A ledger knows a position exactly where it holds an entry of the same
/// account, coin and side that is open or on its way.
pub proof fn a_known_position_has_an_entry_of_its_own(
    entries: Seq<CopyLedgerEntry>,
    account: Seq<char>,
    coin: Seq<char>,
    side: OrderSide,
)
    ensures
        mapped(entries, account, coin, side) <==> exists|i: int|
            0 <= i < entries.len() && (#[trigger] entries[i]).local_account_id@ == account
                && entries[i].coin@ == coin && entries[i].local_side == side && entries[i].status
                != CopyLedgerStatus::Closed && entries[i].status != CopyLedgerStatus::Rejected,
{
}

} // verus!
