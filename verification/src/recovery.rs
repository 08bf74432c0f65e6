//! Positions that the ledger does not know, and how it learns of them.

use vstd::prelude::*;

use crate::decimal::{
    amount_worth, at_least_zero, floor_zero, is_infinite_text, parse_amount_worth, reads_infinite,
    Fixed, FIXED_MAX,
};
use crate::domain::{copy_live_daemon_order_side_key, side_key, OrderSide};
use crate::ledger::{
    active, is_mapped, mapped, CopyLedgerEntry, CopyLedgerStatus, CopyPersistenceSnapshot,
    HYPERLIQUID_MIN_ORDER_NOTIONAL_USD,
};
use crate::options::CopyLiveDaemonSupervisorOptions;
use crate::reconcile::{
    all_healthy, copy_live_daemon_local_side_from_position_szi,
    copy_live_daemon_reconcile_health_detail, copy_live_daemon_reconciliations_healthy_for_mode,
    health_detail, position_side, CopyBoundedLiveWindowPositionSummary,
    CopyBoundedLiveWindowReconcile,
};
use crate::seqs::whole;
use crate::sorted::{
    newest_first, newest_first_descends, newest_first_lists_each_once, newest_order, sort_texts,
    sorted_texts, sorted_texts_meaning,
};
use crate::text::{
    blank, clone_opt, is_blank, join, joined, list_has, lists, lower, same_text,
    same_text_ignoring_case, texts, trim, trimmed,
};

verus! {

/// One recorded decision of the copy pipeline.
#[derive(Debug)]
pub struct CopyShadowHistoryEntry {
    pub occurred_at_ms: u64,
    pub status: String,
    pub leader_id: String,
    pub leader_address: String,
    pub local_account_id: Option<String>,
    pub coin: String,
    pub signal_id: Option<String>,
    pub side: Option<OrderSide>,
    pub reduce_only: Option<bool>,
    pub notional_usd: Option<Fixed>,
}

impl Clone for CopyShadowHistoryEntry {
    fn clone(&self) -> (r: Self)
        ensures
            r == *self,
    {
        CopyShadowHistoryEntry {
            occurred_at_ms: self.occurred_at_ms,
            status: self.status.clone(),
            leader_id: self.leader_id.clone(),
            leader_address: self.leader_address.clone(),
            local_account_id: clone_opt(&self.local_account_id),
            coin: self.coin.clone(),
            signal_id: clone_opt(&self.signal_id),
            side: self.side,
            reduce_only: self.reduce_only,
            notional_usd: self.notional_usd,
        }
    }
}

/// The notional of a position in billionths, where it can be read.
pub open spec fn position_notional(p: CopyBoundedLiveWindowPositionSummary) -> Option<int> {
    match p.position_value {
        Some(v) => amount_worth(trimmed(v@)),
        None => None,
    }
}

fn position_notional_of(p: &CopyBoundedLiveWindowPositionSummary) -> (r: Option<Fixed>)
    ensures
        match position_notional(*p) {
            Some(x) => r is Some && r->0 == x && x >= 0,
            None => r is None,
        },
{
    match &p.position_value {
        Some(v) => {
            let t: String = trim(v.as_str());
            parse_amount_worth(t.as_str())
        },
        None => None,
    }
}

fn worth_is_infinite(p: &CopyBoundedLiveWindowPositionSummary) -> (r: bool)
    ensures
        r == (p.position_value is Some && reads_infinite(trimmed(p.position_value->0@))),
{
    match &p.position_value {
        Some(v) => {
            let t: String = trim(v.as_str());
            is_infinite_text(t.as_str())
        },
        None => false,
    }
}

/// The key of a position: account, coin and side.
pub open spec fn position_key(account: Seq<char>, coin: Seq<char>, side: OrderSide) -> Seq<char> {
    account + ":"@ + coin + ":"@ + side_key(side)
}

/// The key of a position that the ledger does not know, unless the position is
/// flat or too small to be traded.
pub open spec fn unmapped_key(
    entries: Seq<CopyLedgerEntry>,
    account: Seq<char>,
    p: CopyBoundedLiveWindowPositionSummary,
) -> Option<Seq<char>> {
    match position_side(p.szi@) {
        None => None,
        Some(side) => {
            let worth = match position_notional(p) {
                Some(x) => x,
                None => 0,
            };
            if mapped(entries, account, p.coin@, side) || worth + 1
                < HYPERLIQUID_MIN_ORDER_NOTIONAL_USD {
                None
            } else {
                Some(position_key(account, p.coin@, side))
            }
        },
    }
}

/// The keys of the unknown positions of an account.
pub open spec fn unmapped_in_account(
    entries: Seq<CopyLedgerEntry>,
    account: Seq<char>,
    v: Seq<CopyBoundedLiveWindowPositionSummary>,
) -> Seq<Seq<char>>
    decreases v.len(),
{
    if v.len() == 0 {
        Seq::empty()
    } else {
        let before = unmapped_in_account(entries, account, v.drop_last());
        match unmapped_key(entries, account, v.last()) {
            Some(k) => before.push(k),
            None => before,
        }
    }
}

/// The keys of the unknown positions of all accounts that could be read.
pub open spec fn unmapped_positions(
    entries: Seq<CopyLedgerEntry>,
    s: Seq<CopyBoundedLiveWindowReconcile>,
) -> Seq<Seq<char>>
    decreases s.len(),
{
    if s.len() == 0 {
        Seq::empty()
    } else {
        let before = unmapped_positions(entries, s.drop_last());
        if s.last().error is None {
            before + unmapped_in_account(
                entries,
                s.last().account_id@,
                s.last().position_summaries@,
            )
        } else {
            before
        }
    }
}

fn push_unmapped(
    out: &mut Vec<String>,
    entries: &Vec<CopyLedgerEntry>,
    account: &String,
    v: &Vec<CopyBoundedLiveWindowPositionSummary>,
)
    ensures
        texts(final(out)@) == texts(old(out)@) + unmapped_in_account(entries@, account@, v@),
{
    let ghost start = texts(out@);
    let mut j: usize = 0;
    assert(texts(out@) =~= start + unmapped_in_account(entries@, account@, v@.subrange(0, 0)));
    while j < v.len()
        invariant
            j <= v@.len(),
            texts(out@) == start + unmapped_in_account(
                entries@,
                account@,
                v@.subrange(0, j as int),
            ),
        decreases v@.len() - j,
    {
        let ghost before = texts(out@);
        assert(v@.subrange(0, j as int + 1).drop_last() =~= v@.subrange(0, j as int));
        match copy_live_daemon_local_side_from_position_szi(v[j].szi.as_str()) {
            Some(side) => {
                let worth: Fixed = match position_notional_of(&v[j]) {
                    Some(x) => x,
                    None => 0,
                };
                if !is_mapped(entries, account, &v[j].coin, side) && worth
                    >= HYPERLIQUID_MIN_ORDER_NOTIONAL_USD - 1 {
                    let mut key: String = account.clone();
                    key.append(":");
                    key.append(v[j].coin.as_str());
                    key.append(":");
                    let side_text: String = copy_live_daemon_order_side_key(side);
                    key.append(side_text.as_str());
                    out.push(key);
                    assert(texts(out@) =~= before.push(key@));
                }
            },
            None => {},
        }
        assert(texts(out@) =~= start + unmapped_in_account(
            entries@,
            account@,
            v@.subrange(0, j as int + 1),
        ));
        j += 1;
    }
    proof {
        whole(v@);
    }
}

/// The keys of the positions that the ledger does not know, in order, each once.
pub fn copy_live_daemon_unmapped_position_keys(
    snapshot: &CopyPersistenceSnapshot,
    reconciliations: &Vec<CopyBoundedLiveWindowReconcile>,
) -> (r: Vec<String>)
    ensures
        texts(r@) == sorted_texts(
            unmapped_positions(snapshot.ledger_entries@, reconciliations@),
        ),
{
    let mut found: Vec<String> = Vec::new();
    let mut i: usize = 0;
    assert(texts(found@) =~= Seq::empty());
    while i < reconciliations.len()
        invariant
            i <= reconciliations@.len(),
            texts(found@) == unmapped_positions(
                snapshot.ledger_entries@,
                reconciliations@.subrange(0, i as int),
            ),
        decreases reconciliations@.len() - i,
    {
        assert(reconciliations@.subrange(0, i as int + 1).drop_last()
            =~= reconciliations@.subrange(0, i as int));
        if reconciliations[i].error.is_none() {
            push_unmapped(
                &mut found,
                &snapshot.ledger_entries,
                &reconciliations[i].account_id,
                &reconciliations[i].position_summaries,
            );
        }
        i += 1;
    }
    proof {
        whole(reconciliations@);
    }
    sort_texts(&found)
}

/// Whether the accounts of a window are in order and hold no unknown position.
pub open spec fn healthy_with_ledger(
    options: CopyLiveDaemonSupervisorOptions,
    s: Seq<CopyBoundedLiveWindowReconcile>,
    entries: Seq<CopyLedgerEntry>,
) -> bool {
    all_healthy(options, s) && sorted_texts(unmapped_positions(entries, s)).len() == 0
}

/// Whether the accounts of a window are in order and hold no unknown position.
pub fn copy_live_daemon_reconciliations_healthy_for_snapshot(
    options: &CopyLiveDaemonSupervisorOptions,
    reconciliations: &Vec<CopyBoundedLiveWindowReconcile>,
    snapshot: &CopyPersistenceSnapshot,
) -> (r: bool)
    ensures
        r == healthy_with_ledger(*options, reconciliations@, snapshot.ledger_entries@),
{
    if !copy_live_daemon_reconciliations_healthy_for_mode(options, reconciliations) {
        return false;
    }
    let unmapped: Vec<String> = copy_live_daemon_unmapped_position_keys(snapshot, reconciliations);
    assert(texts(unmapped@).len() == unmapped@.len());
    unmapped.len() == 0
}

/// The line that sums up the health of a window, with its unknown positions.
pub open spec fn health_detail_with_ledger(
    options: CopyLiveDaemonSupervisorOptions,
    s: Seq<CopyBoundedLiveWindowReconcile>,
    entries: Seq<CopyLedgerEntry>,
) -> Seq<char> {
    let unmapped = sorted_texts(unmapped_positions(entries, s));
    if unmapped.len() == 0 {
        health_detail(options, s)
    } else {
        health_detail(options, s)
            + "; unmanaged live position(s) without copy ledger mapping: "@ + joined(
            unmapped,
            ","@,
        )
    }
}

/// The line that sums up the health of a window, with its unknown positions.
pub fn copy_live_daemon_reconcile_health_detail_for_snapshot(
    options: &CopyLiveDaemonSupervisorOptions,
    reconciliations: &Vec<CopyBoundedLiveWindowReconcile>,
    snapshot: &CopyPersistenceSnapshot,
) -> (r: String)
    ensures
        r@ == health_detail_with_ledger(*options, reconciliations@, snapshot.ledger_entries@),
{
    let mut base: String = copy_live_daemon_reconcile_health_detail(options, reconciliations);
    let unmapped: Vec<String> = copy_live_daemon_unmapped_position_keys(snapshot, reconciliations);
    assert(texts(unmapped@).len() == unmapped@.len());
    if unmapped.len() == 0 {
        return base;
    }
    base.append("; unmanaged live position(s) without copy ledger mapping: ");
    let list: String = join(&unmapped, ",");
    base.append(list.as_str());
    base
}

/// Whether an account was selected for a window: it is listed, or it is the
/// local account and no account is listed.
pub open spec fn account_selected(options: CopyLiveDaemonSupervisorOptions, id: Seq<char>) -> bool {
    if exists|i: int|
        0 <= i < options.account_ids@.len() && !blank((#[trigger] options.account_ids@[i])@) {
        lists(options.account_ids@, id) && !blank(id)
    } else {
        match options.local_account_id {
            Some(local) => local@ == id && !blank(id),
            None => false,
        }
    }
}

/// The accounts that were selected for a window.
pub fn copy_live_daemon_selected_account_set(options: &CopyLiveDaemonSupervisorOptions) -> (r: Vec<
    String,
>)
    ensures
        forall|id: Seq<char>| #[trigger] lists(r@, id) <==> account_selected(*options, id),
{
    let ids: &Vec<String> = &options.account_ids;
    let mut r: Vec<String> = Vec::new();
    let mut i: usize = 0;
    while i < ids.len()
        invariant
            i <= ids@.len(),
            forall|k: int| 0 <= k < i && !blank((#[trigger] ids@[k])@) ==> lists(r@, ids@[k]@),
            forall|k: int|
                0 <= k < r@.len() ==> !blank((#[trigger] r@[k])@) && lists(ids@, r@[k]@),
        decreases ids@.len() - i,
    {
        if !is_blank(ids[i].as_str()) {
            let ghost before = r@;
            r.push(ids[i].clone());
            assert forall|k: int| 0 <= k < i + 1 && !blank((#[trigger] ids@[k])@) implies lists(
                r@,
                ids@[k]@,
            ) by {
                if k < i {
                    let m = choose|m: int|
                        0 <= m < before.len() && (#[trigger] before[m])@ == ids@[k]@;
                    assert(r@[m]@ == ids@[k]@);
                } else {
                    assert(r@[r@.len() - 1]@ == ids@[k]@);
                }
            }
        }
        i += 1;
    }
    if r.len() > 0 {
        proof {
            let m = choose|m: int| 0 <= m < ids@.len() && (#[trigger] ids@[m])@ == r@[0]@;
            assert(!blank(ids@[m]@));
            assert forall|id: Seq<char>| #[trigger] lists(r@, id) <==> account_selected(
                *options,
                id,
            ) by {
                if lists(r@, id) {
                    let k = choose|k: int| 0 <= k < r@.len() && (#[trigger] r@[k])@ == id;
                    assert(lists(ids@, r@[k]@));
                }
                if account_selected(*options, id) {
                    let k = choose|k: int| 0 <= k < ids@.len() && (#[trigger] ids@[k])@ == id;
                    assert(!blank(ids@[k]@));
                }
            }
        }
        return r;
    }
    match &options.local_account_id {
        Some(local) => {
            if !is_blank(local.as_str()) {
                r.push(local.clone());
                assert(r@[0]@ == local@);
            }
        },
        None => {},
    }
    proof {
        assert(forall|k: int| 0 <= k < ids@.len() ==> blank((#[trigger] ids@[k])@));
        assert forall|id: Seq<char>| #[trigger] lists(r@, id) <==> account_selected(
            *options,
            id,
        ) by {
            if lists(r@, id) {
                let k = choose|k: int| 0 <= k < r@.len() && (#[trigger] r@[k])@ == id;
            }
        }
    }
    r
}

/// Whether a recorded decision explains a position of an account.
pub open spec fn explains(
    h: CopyShadowHistoryEntry,
    account: Seq<char>,
    coin: Seq<char>,
    side: OrderSide,
) -> bool {
    &&& lower(h.status@) == lower("would_copy"@)
    &&& h.coin@ == coin
    &&& h.side == Some(side)
    &&& h.reduce_only != Some(true)
    &&& match h.local_account_id {
        Some(a) => a@ == account,
        None => true,
    }
    &&& match h.signal_id {
        Some(s) => !blank(s@),
        None => false,
    }
}

/// The first recorded decision, at or behind `i`, that explains a position.
pub open spec fn explanation_from(
    history: Seq<CopyShadowHistoryEntry>,
    account: Seq<char>,
    coin: Seq<char>,
    side: OrderSide,
    i: int,
) -> Option<CopyShadowHistoryEntry>
    decreases history.len() - i,
{
    if i < 0 || i >= history.len() {
        None
    } else if explains(history[i], account, coin, side) {
        Some(history[i])
    } else {
        explanation_from(history, account, coin, side, i + 1)
    }
}

/// The notional that a recovered entry starts with.
pub open spec fn recovered_notional(
    p: CopyBoundedLiveWindowPositionSummary,
    h: CopyShadowHistoryEntry,
) -> int {
    match position_notional(p) {
        Some(x) => if x > 0 && !reads_infinite(trimmed(p.position_value->0@)) {
            x
        } else {
            recorded_notional(h)
        },
        None => recorded_notional(h),
    }
}

/// The notional of a recorded decision.
pub open spec fn recorded_notional(h: CopyShadowHistoryEntry) -> int {
    match h.notional_usd {
        Some(n) => floor_zero(n as int),
        None => 0,
    }
}

/// The entry that a position and the recorded decision behind it give.
pub open spec fn recovered_entry(
    account: String,
    p: CopyBoundedLiveWindowPositionSummary,
    side: OrderSide,
    h: CopyShadowHistoryEntry,
) -> CopyLedgerEntry {
    let notional = recovered_notional(p, h) as Fixed;
    CopyLedgerEntry {
        local_account_id: account,
        leader_id: h.leader_id,
        leader_group: h.leader_id,
        signal_id: h.signal_id->0,
        coin: p.coin,
        local_side: side,
        order_cloid: None,
        order_oid: None,
        submitted_at_ms: Some(h.occurred_at_ms),
        filled_at_ms: None,
        planned_notional_usd: notional,
        pending_notional_usd: 0,
        filled_notional_usd: notional,
        remaining_notional_usd: notional,
        status: CopyLedgerStatus::Open,
    }
}

/// The ledger after one position was looked at: it gains an entry where the
/// position is not flat, the ledger does not know it, a recorded decision
/// explains it, and it is worth something.
pub open spec fn with_position(
    entries: Seq<CopyLedgerEntry>,
    history: Seq<CopyShadowHistoryEntry>,
    account: String,
    p: CopyBoundedLiveWindowPositionSummary,
) -> Seq<CopyLedgerEntry> {
    match position_side(p.szi@) {
        None => entries,
        Some(side) => if mapped(entries, account@, p.coin@, side) {
            entries
        } else {
            match explanation_from(history, account@, p.coin@, side, 0) {
                None => entries,
                Some(h) => if recovered_notional(p, h) <= 0 {
                    entries
                } else {
                    entries.push(recovered_entry(account, p, side, h))
                },
            }
        },
    }
}

/// The ledger after the positions of an account were looked at in order.
pub open spec fn with_positions(
    entries: Seq<CopyLedgerEntry>,
    history: Seq<CopyShadowHistoryEntry>,
    account: String,
    positions: Seq<CopyBoundedLiveWindowPositionSummary>,
) -> Seq<CopyLedgerEntry>
    decreases positions.len(),
{
    if positions.len() == 0 {
        entries
    } else {
        with_position(
            with_positions(entries, history, account, positions.drop_last()),
            history,
            account,
            positions.last(),
        )
    }
}

/// The ledger after all accounts were looked at in order; accounts that could
/// not be read or were not selected are passed over.
pub open spec fn with_accounts(
    entries: Seq<CopyLedgerEntry>,
    history: Seq<CopyShadowHistoryEntry>,
    options: CopyLiveDaemonSupervisorOptions,
    s: Seq<CopyBoundedLiveWindowReconcile>,
) -> Seq<CopyLedgerEntry>
    decreases s.len(),
{
    if s.len() == 0 {
        entries
    } else {
        let before = with_accounts(entries, history, options, s.drop_last());
        let r = s.last();
        if r.error is Some || !account_selected(options, r.account_id@) {
            before
        } else {
            with_positions(before, history, r.account_id, r.position_summaries@)
        }
    }
}

fn explains_position(
    h: &CopyShadowHistoryEntry,
    account: &String,
    coin: &String,
    side: OrderSide,
) -> (r: bool)
    ensures
        r == explains(*h, account@, coin@, side),
{
    if !same_text_ignoring_case(h.status.as_str(), "would_copy") || h.coin != *coin {
        return false;
    }
    match h.side {
        Some(s) => {
            if s != side {
                return false;
            }
        },
        None => {
            return false;
        },
    }
    match h.reduce_only {
        Some(b) => {
            if b {
                return false;
            }
        },
        None => {},
    }
    match &h.local_account_id {
        Some(a) => {
            if *a != *account {
                return false;
            }
        },
        None => {},
    }
    match &h.signal_id {
        Some(s) => !is_blank(s.as_str()),
        None => false,
    }
}

fn find_explanation<'a>(
    history: &'a Vec<CopyShadowHistoryEntry>,
    account: &String,
    coin: &String,
    side: OrderSide,
) -> (r: Option<&'a CopyShadowHistoryEntry>)
    ensures
        match explanation_from(history@, account@, coin@, side, 0) {
            Some(h) => r is Some && *r->0 == h && explains(h, account@, coin@, side),
            None => r is None,
        },
{
    let mut i: usize = 0;
    while i < history.len()
        invariant
            i <= history@.len(),
            explanation_from(history@, account@, coin@, side, 0) == explanation_from(
                history@,
                account@,
                coin@,
                side,
                i as int,
            ),
        decreases history@.len() - i,
    {
        if explains_position(&history[i], account, coin, side) {
            return Some(&history[i]);
        }
        i += 1;
    }
    None
}

fn recover_position(
    entries: &mut Vec<CopyLedgerEntry>,
    history: &Vec<CopyShadowHistoryEntry>,
    account: &String,
    p: &CopyBoundedLiveWindowPositionSummary,
)
    ensures
        final(entries)@ == with_position(old(entries)@, history@, *account, *p),
{
    match copy_live_daemon_local_side_from_position_szi(p.szi.as_str()) {
        None => {},
        Some(side) => {
            if !is_mapped(entries, account, &p.coin, side) {
                match find_explanation(history, account, &p.coin, side) {
                    None => {},
                    Some(h) => {
                        let recorded: Fixed = match h.notional_usd {
                            Some(n) => at_least_zero(n),
                            None => 0,
                        };
                        let notional: Fixed = match position_notional_of(p) {
                            Some(x) => if x > 0 && !worth_is_infinite(p) {
                                x
                            } else {
                                recorded
                            },
                            None => recorded,
                        };
                        if notional > 0 {
                            let signal_id: String = match &h.signal_id {
                                Some(s) => s.clone(),
                                None => String::new(),
                            };
                            entries.push(
                                CopyLedgerEntry {
                                    local_account_id: account.clone(),
                                    leader_id: h.leader_id.clone(),
                                    leader_group: h.leader_id.clone(),
                                    signal_id,
                                    coin: p.coin.clone(),
                                    local_side: side,
                                    order_cloid: None,
                                    order_oid: None,
                                    submitted_at_ms: Some(h.occurred_at_ms),
                                    filled_at_ms: None,
                                    planned_notional_usd: notional,
                                    pending_notional_usd: 0,
                                    filled_notional_usd: notional,
                                    remaining_notional_usd: notional,
                                    status: CopyLedgerStatus::Open,
                                },
                            );
                        }
                    },
                }
            }
        },
    }
}

fn recover_account(
    entries: &mut Vec<CopyLedgerEntry>,
    history: &Vec<CopyShadowHistoryEntry>,
    account: &String,
    positions: &Vec<CopyBoundedLiveWindowPositionSummary>,
)
    ensures
        final(entries)@ == with_positions(old(entries)@, history@, *account, positions@),
{
    let ghost before = entries@;
    let mut j: usize = 0;
    while j < positions.len()
        invariant
            j <= positions@.len(),
            entries@ == with_positions(
                before,
                history@,
                *account,
                positions@.subrange(0, j as int),
            ),
        decreases positions@.len() - j,
    {
        recover_position(entries, history, account, &positions[j]);
        assert(positions@.subrange(0, j as int + 1).drop_last() =~= positions@.subrange(
            0,
            j as int,
        ));
        j += 1;
    }
    proof {
        whole(positions@);
    }
}

/// Enters the unknown live positions of the selected accounts into the ledger,
/// each with the first recorded decision that explains it.
pub fn copy_live_daemon_recover_open_ledger_from_live_positions(
    snapshot: CopyPersistenceSnapshot,
    reconciliations: &Vec<CopyBoundedLiveWindowReconcile>,
    options: &CopyLiveDaemonSupervisorOptions,
    history: &Vec<CopyShadowHistoryEntry>,
) -> (r: CopyPersistenceSnapshot)
    ensures
        r.schema_version == snapshot.schema_version,
        r.saved_at_ms == snapshot.saved_at_ms,
        r.seen_event_keys == snapshot.seen_event_keys,
        r.ledger_entries@ == with_accounts(
            snapshot.ledger_entries@,
            history@,
            *options,
            reconciliations@,
        ),
{
    let ghost before = snapshot.ledger_entries@;
    let selected: Vec<String> = copy_live_daemon_selected_account_set(options);
    let mut entries: Vec<CopyLedgerEntry> = snapshot.ledger_entries;
    let mut i: usize = 0;
    while i < reconciliations.len()
        invariant
            i <= reconciliations@.len(),
            forall|id: Seq<char>|
                #[trigger] lists(selected@, id) <==> account_selected(*options, id),
            entries@ == with_accounts(
                before,
                history@,
                *options,
                reconciliations@.subrange(0, i as int),
            ),
        decreases reconciliations@.len() - i,
    {
        let r: &CopyBoundedLiveWindowReconcile = &reconciliations[i];
        assert(reconciliations@.subrange(0, i as int + 1).drop_last()
            =~= reconciliations@.subrange(0, i as int));
        if r.error.is_none() && list_has(&selected, r.account_id.as_str()) {
            recover_account(&mut entries, history, &r.account_id, &r.position_summaries);
        }
        i += 1;
    }
    proof {
        whole(reconciliations@);
    }
    CopyPersistenceSnapshot {
        schema_version: snapshot.schema_version,
        saved_at_ms: snapshot.saved_at_ms,
        seen_event_keys: snapshot.seen_event_keys,
        ledger_entries: entries,
    }
}

/// Whether a ledger is another one with open entries behind it, each of which is
/// worth something.
pub open spec fn extends_ledger(after: Seq<CopyLedgerEntry>, before: Seq<CopyLedgerEntry>) -> bool {
    &&& before.len() <= after.len()
    &&& forall|i: int| 0 <= i < before.len() ==> #[trigger] after[i] == before[i]
    &&& forall|i: int|
        before.len() <= i < after.len() ==> (#[trigger] after[i]).status == CopyLedgerStatus::Open
            && after[i].remaining_notional_usd > 0
}

proof fn position_notional_bounds(
    p: CopyBoundedLiveWindowPositionSummary,
    h: CopyShadowHistoryEntry,
)
    ensures
        0 <= recovered_notional(p, h) <= FIXED_MAX,
{
}

proof fn positions_extend(
    entries: Seq<CopyLedgerEntry>,
    history: Seq<CopyShadowHistoryEntry>,
    account: String,
    positions: Seq<CopyBoundedLiveWindowPositionSummary>,
)
    ensures
        extends_ledger(with_positions(entries, history, account, positions), entries),
        history.len() == 0 ==> with_positions(entries, history, account, positions) == entries,
    decreases positions.len(),
{
    if positions.len() > 0 {
        positions_extend(entries, history, account, positions.drop_last());
        let p = positions.last();
        match position_side(p.szi@) {
            Some(side) => {
                match explanation_from(history, account@, p.coin@, side, 0) {
                    Some(h) => {
                        position_notional_bounds(p, h);
                    },
                    None => {},
                }
            },
            None => {},
        }
    }
}

/// Recovery keeps every entry of the ledger in its place, and adds only open
/// entries that are worth something.
pub proof fn recovery_keeps_the_ledger(
    entries: Seq<CopyLedgerEntry>,
    history: Seq<CopyShadowHistoryEntry>,
    options: CopyLiveDaemonSupervisorOptions,
    s: Seq<CopyBoundedLiveWindowReconcile>,
)
    ensures
        extends_ledger(with_accounts(entries, history, options, s), entries),
    decreases s.len(),
{
    if s.len() > 0 {
        recovery_keeps_the_ledger(entries, history, options, s.drop_last());
        let mid = with_accounts(entries, history, options, s.drop_last());
        positions_extend(mid, history, s.last().account_id, s.last().position_summaries@);
    }
}

proof fn mapping_stays(
    after: Seq<CopyLedgerEntry>,
    before: Seq<CopyLedgerEntry>,
    account: Seq<char>,
    coin: Seq<char>,
    side: OrderSide,
)
    requires
        extends_ledger(after, before),
        mapped(before, account, coin, side),
    ensures
        mapped(after, account, coin, side),
{
    let i = choose|i: int|
        0 <= i < before.len() && (#[trigger] before[i]).local_account_id@ == account
            && before[i].coin@ == coin && before[i].local_side == side && active(
            before[i].status,
        );
    assert(after[i] == before[i]);
}

proof fn explained_position_is_mapped(
    entries: Seq<CopyLedgerEntry>,
    history: Seq<CopyShadowHistoryEntry>,
    account: String,
    positions: Seq<CopyBoundedLiveWindowPositionSummary>,
    j: int,
    side: OrderSide,
    h: CopyShadowHistoryEntry,
)
    requires
        0 <= j < positions.len(),
        position_side(positions[j].szi@) == Some(side),
        explanation_from(history, account@, positions[j].coin@, side, 0) == Some(h),
        recovered_notional(positions[j], h) > 0,
    ensures
        mapped(
            with_positions(entries, history, account, positions),
            account@,
            positions[j].coin@,
            side,
        ),
    decreases positions.len(),
{
    let t = positions.drop_last();
    let mid = with_positions(entries, history, account, t);
    let end = with_positions(entries, history, account, positions);
    if j < t.len() {
        assert(t[j] == positions[j]);
        explained_position_is_mapped(entries, history, account, t, j, side, h);
        let one = seq![positions.last()];
        assert(one.drop_last() =~= Seq::empty());
        assert(with_positions(mid, history, account, one) == end) by {
            reveal_with_fuel(with_positions, 3);
        }
        positions_extend(mid, history, account, one);
        mapping_stays(end, mid, account@, positions[j].coin@, side);
    } else {
        assert(positions.last() == positions[j]);
        if !mapped(mid, account@, positions[j].coin@, side) {
            let e = recovered_entry(account, positions[j], side, h);
            assert(end == mid.push(e));
            assert(end[mid.len() as int] == e);
        }
    }
}

/// Recovery leaves no position of a readable, selected account unknown that a
/// recorded decision explains and that is worth something.
pub proof fn recovery_maps_every_explained_position(
    entries: Seq<CopyLedgerEntry>,
    history: Seq<CopyShadowHistoryEntry>,
    options: CopyLiveDaemonSupervisorOptions,
    s: Seq<CopyBoundedLiveWindowReconcile>,
    i: int,
    j: int,
    side: OrderSide,
    h: CopyShadowHistoryEntry,
)
    requires
        0 <= i < s.len(),
        s[i].error is None,
        account_selected(options, s[i].account_id@),
        0 <= j < s[i].position_summaries@.len(),
        position_side(s[i].position_summaries@[j].szi@) == Some(side),
        explanation_from(
            history,
            s[i].account_id@,
            s[i].position_summaries@[j].coin@,
            side,
            0,
        ) == Some(h),
        recovered_notional(s[i].position_summaries@[j], h) > 0,
    ensures
        mapped(
            with_accounts(entries, history, options, s),
            s[i].account_id@,
            s[i].position_summaries@[j].coin@,
            side,
        ),
    decreases s.len(),
{
    let t = s.drop_last();
    let mid = with_accounts(entries, history, options, t);
    if i < t.len() {
        assert(t[i] == s[i]);
        recovery_maps_every_explained_position(entries, history, options, t, i, j, side, h);
        positions_extend(mid, history, s.last().account_id, s.last().position_summaries@);
        mapping_stays(
            with_accounts(entries, history, options, s),
            mid,
            s[i].account_id@,
            s[i].position_summaries@[j].coin@,
            side,
        );
    } else {
        assert(s.last() == s[i]);
        explained_position_is_mapped(
            mid,
            history,
            s[i].account_id,
            s[i].position_summaries@,
            j,
            side,
            h,
        );
    }
}

/// Without recorded decisions nothing is recovered.
pub proof fn no_history_recovers_nothing(
    entries: Seq<CopyLedgerEntry>,
    options: CopyLiveDaemonSupervisorOptions,
    s: Seq<CopyBoundedLiveWindowReconcile>,
)
    ensures
        with_accounts(entries, Seq::empty(), options, s) == entries,
    decreases s.len(),
{
    if s.len() > 0 {
        no_history_recovers_nothing(entries, options, s.drop_last());
        positions_extend(
            entries,
            Seq::empty(),
            s.last().account_id,
            s.last().position_summaries@,
        );
    }
}

/// How many older history files are read beside the current one.
pub const RECOVERY_SIBLING_LIMIT: usize = 8;

/// Whether a file name is that of a recorded history of an earlier run.
pub open spec fn sibling_name(name: Seq<char>) -> bool {
    let head = "persistent-live-soak-"@;
    let tail = "-shadow.jsonl"@;
    &&& name.len() >= head.len()
    &&& name.subrange(0, head.len() as int) == head
    &&& name.len() >= tail.len()
    &&& name.subrange(name.len() - tail.len(), name.len() as int) == tail
}

/// Whether a file name is that of a recorded history of an earlier run.
pub fn is_shadow_sibling_name(name: &str) -> (r: bool)
    ensures
        r == sibling_name(name@),
{
    let head: &str = "persistent-live-soak-";
    let tail: &str = "-shadow.jsonl";
    let n: usize = name.unicode_len();
    let h: usize = head.unicode_len();
    let t: usize = tail.unicode_len();
    if n < h || n < t {
        return false;
    }
    same_text(name.substring_char(0, h), head) && same_text(name.substring_char(n - t, n), tail)
}

/// The positions of the newest files, newest first, up to the limit.
pub fn newest_siblings(modified_ms: &Vec<u64>) -> (r: Vec<usize>)
    ensures
        r@ == newest_first(modified_ms@, modified_ms@.len() as int).subrange(
            0,
            if modified_ms@.len() < RECOVERY_SIBLING_LIMIT {
                modified_ms@.len() as int
            } else {
                RECOVERY_SIBLING_LIMIT as int
            },
        ),
        r@.len() <= 8,
        r@.len() == 8 || r@.len() == modified_ms@.len(),
        forall|i: int, j: int|
            0 <= i < j < r@.len() ==> modified_ms@[(#[trigger] r@[i]) as int]
                >= modified_ms@[(#[trigger] r@[j]) as int],
{
    let order: Vec<usize> = newest_order(modified_ms);
    let limit: usize = if order.len() < RECOVERY_SIBLING_LIMIT {
        order.len()
    } else {
        RECOVERY_SIBLING_LIMIT
    };
    let mut r: Vec<usize> = Vec::new();
    let mut i: usize = 0;
    while i < limit
        invariant
            i <= limit <= order@.len(),
            r@ == order@.subrange(0, i as int),
        decreases limit - i,
    {
        r.push(order[i]);
        assert(order@.subrange(0, i as int + 1) =~= order@.subrange(0, i as int).push(
            order@[i as int],
        ));
        i += 1;
    }
    proof {
        newest_first_descends(modified_ms@, modified_ms@.len() as int);
        assert(forall|k: int| 0 <= k < r@.len() ==> #[trigger] r@[k] == order@[k]);
    }
    r
}

/// When recorded decisions were made.
pub open spec fn times_of(entries: Seq<CopyShadowHistoryEntry>) -> Seq<u64> {
    entries.map_values(|h: CopyShadowHistoryEntry| h.occurred_at_ms)
}

/// The newest recorded decisions, newest first, up to a limit; decisions of the
/// same time keep their order.
pub open spec fn newest_entries(
    entries: Seq<CopyShadowHistoryEntry>,
    limit: int,
) -> Seq<CopyShadowHistoryEntry> {
    let order = newest_first(times_of(entries), entries.len() as int);
    Seq::new(
        if entries.len() < limit {
            entries.len()
        } else {
            limit as nat
        },
        |i: int| entries[order[i] as int],
    )
}

/// The recorded decisions that a recovery looks at.
pub fn copy_live_daemon_recent_shadow_entries_for_recovery(
    entries: &Vec<CopyShadowHistoryEntry>,
    limit: usize,
) -> (r: Vec<CopyShadowHistoryEntry>)
    ensures
        r@ == newest_entries(entries@, limit as int),
{
    let mut times: Vec<u64> = Vec::new();
    let mut i: usize = 0;
    while i < entries.len()
        invariant
            i <= entries@.len(),
            times@ == times_of(entries@).subrange(0, i as int),
        decreases entries@.len() - i,
    {
        times.push(entries[i].occurred_at_ms);
        assert(times_of(entries@).subrange(0, i as int + 1) =~= times_of(entries@).subrange(
            0,
            i as int,
        ).push(entries@[i as int].occurred_at_ms));
        i += 1;
    }
    proof {
        whole(times_of(entries@));
    }
    let order: Vec<usize> = newest_order(&times);
    let count: usize = if entries.len() < limit {
        entries.len()
    } else {
        limit
    };
    let ghost goal = newest_entries(entries@, limit as int);
    let mut r: Vec<CopyShadowHistoryEntry> = Vec::new();
    let mut k: usize = 0;
    while k < count
        invariant
            k <= count <= order@.len() == entries@.len(),
            order@ == newest_first(times_of(entries@), entries@.len() as int),
            forall|m: int| 0 <= m < order@.len() ==> 0 <= #[trigger] order@[m] < entries@.len(),
            goal == newest_entries(entries@, limit as int),
            count == goal.len(),
            r@ == goal.subrange(0, k as int),
        decreases count - k,
    {
        let at: usize = order[k];
        r.push(entries[at].clone());
        assert(goal[k as int] == entries@[at as int]);
        assert(goal.subrange(0, k as int + 1) =~= goal.subrange(0, k as int).push(goal[k as int]));
        k += 1;
    }
    proof {
        whole(goal);
    }
    r
}

/// Whether a record of the history is a decision to open the given position of
/// the given account.
pub open spec fn decided_to_open(
    h: CopyShadowHistoryEntry,
    account: Seq<char>,
    coin: Seq<char>,
    side: OrderSide,
) -> bool {
    &&& lower(h.status@) == "would_copy"@
    &&& h.coin@ == coin
    &&& h.side == Some(side)
    &&& h.reduce_only != Some(true)
    &&& h.local_account_id is None || h.local_account_id->0@ == account
    &&& h.signal_id is Some
    &&& !blank(h.signal_id->0@)
}

/// Whether some entry of a ledger is open or pending for the given account, coin
/// and side.
pub open spec fn kept_for(
    entries: Seq<CopyLedgerEntry>,
    account: Seq<char>,
    coin: Seq<char>,
    side: OrderSide,
) -> bool {
    exists|i: int|
        0 <= i < entries.len() && (#[trigger] entries[i]).local_account_id@ == account
            && entries[i].coin@ == coin && entries[i].local_side == side && (entries[i].status
            == CopyLedgerStatus::Open || entries[i].status == CopyLedgerStatus::PendingOpen
            || entries[i].status == CopyLedgerStatus::PendingReduce || entries[i].status
            == CopyLedgerStatus::PendingClose)
}

/// Whether an account was asked for: it is among the listed accounts, or it is
/// the local account and none is listed.
pub open spec fn asked_for(options: CopyLiveDaemonSupervisorOptions, id: Seq<char>) -> bool {
    !blank(id) && ((exists|i: int|
        0 <= i < options.account_ids@.len() && (#[trigger] options.account_ids@[i])@ == id) || (
    options.local_account_id is Some && options.local_account_id->0@ == id && forall|i: int|
        0 <= i < options.account_ids@.len() ==> blank((#[trigger] options.account_ids@[i])@)))
}

/// Whether the notional of a position can be read and is a finite one above
/// zero.
pub open spec fn worth_something(p: CopyBoundedLiveWindowPositionSummary) -> bool {
    &&& p.position_value is Some
    &&& amount_worth(trimmed(p.position_value->0@)) is Some
    &&& amount_worth(trimmed(p.position_value->0@))->0 > 0
    &&& !reads_infinite(trimmed(p.position_value->0@))
}

/// Whether an entry is what recovery makes of a live position and a decision.
pub open spec fn recovered_from(
    e: CopyLedgerEntry,
    account: Seq<char>,
    p: CopyBoundedLiveWindowPositionSummary,
    h: CopyShadowHistoryEntry,
) -> bool {
    &&& e.local_account_id@ == account
    &&& e.coin@ == p.coin@
    &&& position_side(p.szi@) == Some(e.local_side)
    &&& decided_to_open(h, account, p.coin@, e.local_side)
    &&& e.signal_id@ == h.signal_id->0@
    &&& e.leader_id@ == h.leader_id@
    &&& e.status == CopyLedgerStatus::Open
    &&& e.remaining_notional_usd > 0
    &&& e.filled_notional_usd == e.remaining_notional_usd
    &&& e.remaining_notional_usd == if worth_something(p) {
        amount_worth(trimmed(p.position_value->0@))->0
    } else {
        h.notional_usd->0 as int
    }
}

proof fn explanation_is_first(
    history: Seq<CopyShadowHistoryEntry>,
    account: Seq<char>,
    coin: Seq<char>,
    side: OrderSide,
    i: int,
)
    requires
        0 <= i,
    ensures
        match explanation_from(history, account, coin, side, i) {
            Some(h) => exists|k: int|
                i <= k < history.len() && #[trigger] history[k] == h && explains(
                    h,
                    account,
                    coin,
                    side,
                ) && forall|e: int|
                    i <= e < k ==> !explains(#[trigger] history[e], account, coin, side),
            None => forall|e: int|
                i <= e < history.len() ==> !explains(#[trigger] history[e], account, coin, side),
        },
    decreases history.len() - i,
{
    if i < history.len() {
        if explains(history[i], account, coin, side) {
            assert(history[i] == explanation_from(history, account, coin, side, i)->0);
        } else {
            explanation_is_first(history, account, coin, side, i + 1);
            match explanation_from(history, account, coin, side, i) {
                Some(h) => {
                    let k = choose|k: int|
                        i + 1 <= k < history.len() && #[trigger] history[k] == h && explains(
                            h,
                            account,
                            coin,
                            side,
                        ) && forall|e: int|
                            i + 1 <= e < k ==> !explains(
                                #[trigger] history[e],
                                account,
                                coin,
                                side,
                            );
                    assert(history[k] == h);
                },
                None => {},
            }
        }
    }
}

/// Looking at one more position of an account adds an entry exactly where the
/// position is not flat, no entry of the ledger is kept for its account, coin
/// and side, and some record of the history is a decision to open it for this
/// account. The entry is made of the position and the first such record, unless
/// neither is worth anything.
pub proof fn a_position_is_recovered_from_its_own_decision(
    entries: Seq<CopyLedgerEntry>,
    history: Seq<CopyShadowHistoryEntry>,
    account: String,
    positions: Seq<CopyBoundedLiveWindowPositionSummary>,
    p: CopyBoundedLiveWindowPositionSummary,
)
    ensures
        with_positions(entries, history, account, Seq::empty()) == entries,
        ({
            let before = with_positions(entries, history, account, positions);
            let after = with_positions(entries, history, account, positions.push(p));
            let e = after.last();
            ||| after == before && (position_side(p.szi@) is None || kept_for(
                before,
                account@,
                p.coin@,
                position_side(p.szi@)->0,
            ) || forall|k: int|
                0 <= k < history.len() && decided_to_open(
                    #[trigger] history[k],
                    account@,
                    p.coin@,
                    position_side(p.szi@)->0,
                ) ==> !worth_something(p) && (history[k].notional_usd is None || history[k].notional_usd->0 <= 0
                    || exists|m: int|
                    0 <= m < k && decided_to_open(
                        #[trigger] history[m],
                        account@,
                        p.coin@,
                        position_side(p.szi@)->0,
                    )))
            ||| after == before.push(e) && !kept_for(before, account@, p.coin@, e.local_side)
                && exists|k: int|
                #![trigger history[k]]
                0 <= k < history.len() && recovered_from(e, account@, p, history[k])
                    && forall|m: int|
                    0 <= m < k ==> !decided_to_open(
                        #[trigger] history[m],
                        account@,
                        p.coin@,
                        e.local_side,
                    )
        }),
{
    reveal_strlit("would_copy");
    assert(lower("would_copy"@) =~= "would_copy"@);
    assert(positions.push(p).drop_last() =~= positions);
    let before = with_positions(entries, history, account, positions);
    let after = with_positions(entries, history, account, positions.push(p));
    assert(after == with_position(before, history, account, p));
    match position_side(p.szi@) {
        None => {},
        Some(side) => {
            assert(mapped(before, account@, p.coin@, side) <==> kept_for(
                before,
                account@,
                p.coin@,
                side,
            )) by {
                if mapped(before, account@, p.coin@, side) {
                    let i = choose|i: int|
                        0 <= i < before.len() && (#[trigger] before[i]).local_account_id@
                            == account@ && before[i].coin@ == p.coin@ && before[i].local_side
                            == side && active(before[i].status);
                    assert(before[i].local_account_id@ == account@);
                }
                if kept_for(before, account@, p.coin@, side) {
                    let i = choose|i: int|
                        0 <= i < before.len() && (#[trigger] before[i]).local_account_id@
                            == account@ && before[i].coin@ == p.coin@ && before[i].local_side
                            == side && (before[i].status == CopyLedgerStatus::Open
                            || before[i].status == CopyLedgerStatus::PendingOpen
                            || before[i].status == CopyLedgerStatus::PendingReduce
                            || before[i].status == CopyLedgerStatus::PendingClose);
                    assert(before[i].local_account_id@ == account@);
                }
            }
            assert forall|k: int| 0 <= k < history.len() implies explains(
                #[trigger] history[k],
                account@,
                p.coin@,
                side,
            ) == decided_to_open(history[k], account@, p.coin@, side) by {}
            explanation_is_first(history, account@, p.coin@, side, 0);
            if !mapped(before, account@, p.coin@, side) {
                match explanation_from(history, account@, p.coin@, side, 0) {
                    None => {},
                    Some(h) => {
                        position_notional_bounds(p, h);
                        let k = choose|k: int|
                            0 <= k < history.len() && #[trigger] history[k] == h && explains(
                                h,
                                account@,
                                p.coin@,
                                side,
                            ) && forall|e: int|
                                0 <= e < k ==> !explains(
                                    #[trigger] history[e],
                                    account@,
                                    p.coin@,
                                    side,
                                );
                        assert(decided_to_open(history[k], account@, p.coin@, side));
                        if recovered_notional(p, h) > 0 {
                            let e = recovered_entry(account, p, side, h);
                            assert(after == before.push(e));
                            assert(after.last() == e);
                            assert(recovered_from(e, account@, p, history[k]));
                        } else {
                            assert forall|j: int|
                                0 <= j < history.len() && decided_to_open(
                                    #[trigger] history[j],
                                    account@,
                                    p.coin@,
                                    side,
                                ) implies !worth_something(p) && (history[j].notional_usd is None
                                || history[j].notional_usd->0 <= 0 || exists|m: int|
                                0 <= m < j && decided_to_open(
                                    #[trigger] history[m],
                                    account@,
                                    p.coin@,
                                    side,
                                )) by {
                                if j > k {
                                    assert(decided_to_open(history[k], account@, p.coin@, side));
                                } else if j < k {
                                    assert(explains(history[j], account@, p.coin@, side));
                                }
                            }
                        }
                    },
                }
            }
        },
    }
}

/// Looking at one more account only concerns accounts that were read and asked
/// for; the positions of any other account add nothing.
pub proof fn only_accounts_asked_for_are_recovered(
    entries: Seq<CopyLedgerEntry>,
    history: Seq<CopyShadowHistoryEntry>,
    options: CopyLiveDaemonSupervisorOptions,
    s: Seq<CopyBoundedLiveWindowReconcile>,
    r: CopyBoundedLiveWindowReconcile,
)
    ensures
        with_accounts(entries, history, options, Seq::empty()) == entries,
        with_accounts(entries, history, options, s.push(r)) == if r.error is None && asked_for(
            options,
            r.account_id@,
        ) {
            with_positions(
                with_accounts(entries, history, options, s),
                history,
                r.account_id,
                r.position_summaries@,
            )
        } else {
            with_accounts(entries, history, options, s)
        },
{
    assert(s.push(r).drop_last() =~= s);
    let id = r.account_id@;
    assert(account_selected(options, id) == asked_for(options, id)) by {
        if exists|i: int|
            0 <= i < options.account_ids@.len() && !blank((#[trigger] options.account_ids@[i])@) {
            if lists(options.account_ids@, id) {
                let i = choose|i: int|
                    0 <= i < options.account_ids@.len() && (#[trigger] options.account_ids@[i])@
                        == id;
                assert(options.account_ids@[i]@ == id);
            }
        } else if !blank(id) {
            if exists|i: int|
                0 <= i < options.account_ids@.len() && (#[trigger] options.account_ids@[i])@
                    == id {
                let i = choose|i: int|
                    0 <= i < options.account_ids@.len() && (#[trigger] options.account_ids@[i])@
                        == id;
                assert(blank(options.account_ids@[i]@));
            }
        }
    }
}

proof fn unmapped_in_account_meaning(
    entries: Seq<CopyLedgerEntry>,
    account: Seq<char>,
    v: Seq<CopyBoundedLiveWindowPositionSummary>,
    key: Seq<char>,
)
    ensures
        unmapped_in_account(entries, account, v).contains(key) <==> exists|j: int|
            0 <= j < v.len() && unmapped_key(entries, account, #[trigger] v[j]) == Some(key),
    decreases v.len(),
{
    if v.len() > 0 {
        let t = v.drop_last();
        let before = unmapped_in_account(entries, account, t);
        let after = unmapped_in_account(entries, account, v);
        unmapped_in_account_meaning(entries, account, t, key);
        assert(v[v.len() - 1] == v.last());
        if before.contains(key) {
            let k = choose|k: int| 0 <= k < before.len() && before[k] == key;
            assert(after[k] == key);
            let j = choose|j: int|
                0 <= j < t.len() && unmapped_key(entries, account, #[trigger] t[j]) == Some(key);
            assert(v[j] == t[j]);
        }
        if unmapped_key(entries, account, v.last()) == Some(key) {
            assert(after[before.len() as int] == key);
        }
        if after.contains(key) && !before.contains(key) {
            let k = choose|k: int| 0 <= k < after.len() && after[k] == key;
            assert(k == before.len());
        }
        if exists|j: int|
            0 <= j < v.len() && unmapped_key(entries, account, #[trigger] v[j]) == Some(key) {
            let j = choose|j: int|
                0 <= j < v.len() && unmapped_key(entries, account, #[trigger] v[j]) == Some(key);
            if j < t.len() {
                assert(t[j] == v[j]);
            }
        }
    }
}

proof fn unmapped_positions_meaning(
    entries: Seq<CopyLedgerEntry>,
    s: Seq<CopyBoundedLiveWindowReconcile>,
    key: Seq<char>,
)
    ensures
        unmapped_positions(entries, s).contains(key) <==> exists|i: int, j: int|
            0 <= i < s.len() && s[i].error is None && 0 <= j < s[i].position_summaries@.len()
                && unmapped_key(
                entries,
                s[i].account_id@,
                #[trigger] s[i].position_summaries@[j],
            ) == Some(key),
    decreases s.len(),
{
    if s.len() > 0 {
        let t = s.drop_last();
        let r = s.last();
        let before = unmapped_positions(entries, t);
        let more = unmapped_in_account(entries, r.account_id@, r.position_summaries@);
        let after = unmapped_positions(entries, s);
        unmapped_positions_meaning(entries, t, key);
        unmapped_in_account_meaning(entries, r.account_id@, r.position_summaries@, key);
        assert(s[s.len() - 1] == r);
        if before.contains(key) {
            let k = choose|k: int| 0 <= k < before.len() && before[k] == key;
            assert(after[k] == key);
            let (i, j) = choose|i: int, j: int|
                0 <= i < t.len() && t[i].error is None && 0 <= j < t[i].position_summaries@.len()
                    && unmapped_key(
                    entries,
                    t[i].account_id@,
                    #[trigger] t[i].position_summaries@[j],
                ) == Some(key);
            assert(s[i] == t[i]);
            assert(unmapped_key(entries, s[i].account_id@, s[i].position_summaries@[j]) == Some(
                key,
            ));
        }
        if r.error is None && more.contains(key) {
            let k = choose|k: int| 0 <= k < more.len() && more[k] == key;
            assert(after[before.len() + k] == key);
            let j = choose|j: int|
                0 <= j < r.position_summaries@.len() && unmapped_key(
                    entries,
                    r.account_id@,
                    #[trigger] r.position_summaries@[j],
                ) == Some(key);
            assert(unmapped_key(
                entries,
                s[s.len() - 1].account_id@,
                s[s.len() - 1].position_summaries@[j],
            ) == Some(key));
        }
        if after.contains(key) && !before.contains(key) {
            let k = choose|k: int| 0 <= k < after.len() && after[k] == key;
            if k < before.len() {
                assert(before[k] == key);
            } else {
                assert(more[k - before.len()] == key);
            }
        }
        if exists|i: int, j: int|
            0 <= i < s.len() && s[i].error is None && 0 <= j < s[i].position_summaries@.len()
                && unmapped_key(
                entries,
                s[i].account_id@,
                #[trigger] s[i].position_summaries@[j],
            ) == Some(key) {
            let (i, j) = choose|i: int, j: int|
                0 <= i < s.len() && s[i].error is None && 0 <= j < s[i].position_summaries@.len()
                    && unmapped_key(
                    entries,
                    s[i].account_id@,
                    #[trigger] s[i].position_summaries@[j],
                ) == Some(key);
            if i < t.len() {
                assert(t[i] == s[i]);
                assert(unmapped_key(entries, t[i].account_id@, t[i].position_summaries@[j])
                    == Some(key));
            } else {
                assert(r.position_summaries@[j] == s[i].position_summaries@[j]);
            }
        }
    }
}

/// A position is reported as unknown exactly where an account that was read
/// holds it, it is not flat, it is worth ten dollars up to a billionth, and no
/// entry of the ledger is kept for its account, coin and side. It is reported
/// under these three.
pub proof fn unknown_positions_are_those_without_an_entry(
    entries: Seq<CopyLedgerEntry>,
    s: Seq<CopyBoundedLiveWindowReconcile>,
    key: Seq<char>,
)
    ensures
        sorted_texts(unmapped_positions(entries, s)).contains(key) <==> exists|i: int, j: int|
            ({
                let p = #[trigger] s[i].position_summaries@[j];
                &&& 0 <= i < s.len()
                &&& s[i].error is None
                &&& 0 <= j < s[i].position_summaries@.len()
                &&& position_side(p.szi@) is Some
                &&& p.position_value is Some
                &&& amount_worth(trimmed(p.position_value->0@)) is Some
                &&& amount_worth(trimmed(p.position_value->0@))->0 >= 10_000_000_000 - 1
                &&& !kept_for(entries, s[i].account_id@, p.coin@, position_side(p.szi@)->0)
                &&& key == s[i].account_id@ + ":"@ + p.coin@ + ":"@ + (if position_side(p.szi@)
                    == Some(OrderSide::Buy) {
                    "buy"@
                } else {
                    "sell"@
                })
            }),
{
    sorted_texts_meaning(unmapped_positions(entries, s));
    unmapped_positions_meaning(entries, s, key);
    assert forall|i: int, j: int|
        0 <= i < s.len() && 0 <= j < s[i].position_summaries@.len() implies (unmapped_key(
        entries,
        s[i].account_id@,
        #[trigger] s[i].position_summaries@[j],
    ) == Some(key)) == ({
        let p = s[i].position_summaries@[j];
        &&& position_side(p.szi@) is Some
        &&& p.position_value is Some
        &&& amount_worth(trimmed(p.position_value->0@)) is Some
        &&& amount_worth(trimmed(p.position_value->0@))->0 >= 10_000_000_000 - 1
        &&& !kept_for(entries, s[i].account_id@, p.coin@, position_side(p.szi@)->0)
        &&& key == s[i].account_id@ + ":"@ + p.coin@ + ":"@ + (if position_side(p.szi@) == Some(
            OrderSide::Buy,
        ) {
            "buy"@
        } else {
            "sell"@
        })
    }) by {
        let p = s[i].position_summaries@[j];
        if position_side(p.szi@) is Some {
            let side = position_side(p.szi@)->0;
            let account = s[i].account_id@;
            if mapped(entries, account, p.coin@, side) {
                let k = choose|k: int|
                    0 <= k < entries.len() && (#[trigger] entries[k]).local_account_id@ == account
                        && entries[k].coin@ == p.coin@ && entries[k].local_side == side && active(
                        entries[k].status,
                    );
                assert(entries[k].local_account_id@ == account);
                assert(kept_for(entries, account, p.coin@, side));
            }
            if kept_for(entries, account, p.coin@, side) {
                let k = choose|k: int|
                    0 <= k < entries.len() && (#[trigger] entries[k]).local_account_id@ == account
                        && entries[k].coin@ == p.coin@ && entries[k].local_side == side && (
                    entries[k].status == CopyLedgerStatus::Open || entries[k].status
                        == CopyLedgerStatus::PendingOpen || entries[k].status
                        == CopyLedgerStatus::PendingReduce || entries[k].status
                        == CopyLedgerStatus::PendingClose);
                assert(entries[k].local_account_id@ == account);
            }
        }
    }
}

/// The accounts are in order with their ledger exactly where they are in order
/// and no position is unknown.
pub proof fn unknown_positions_are_unhealthy(
    options: CopyLiveDaemonSupervisorOptions,
    s: Seq<CopyBoundedLiveWindowReconcile>,
    entries: Seq<CopyLedgerEntry>,
)
    ensures
        healthy_with_ledger(options, s, entries) <==> all_healthy(options, s) && forall|
            key: Seq<char>,
        |
            !(#[trigger] sorted_texts(unmapped_positions(entries, s)).contains(key)),
{
    let v = sorted_texts(unmapped_positions(entries, s));
    if v.len() > 0 {
        assert(v.contains(v[0]));
    }
}

/// What was decided for another account, for another coin or the other side, or
/// only to reduce, plays no part in what a position is recovered from: the ledger
/// comes out the same without it.
pub proof fn decisions_on_other_positions_play_no_part(
    entries: Seq<CopyLedgerEntry>,
    history: Seq<CopyShadowHistoryEntry>,
    account: String,
    p: CopyBoundedLiveWindowPositionSummary,
    at: int,
)
    requires
        0 <= at < history.len(),
        ({
            let h = history[at];
            ||| h.local_account_id is Some && h.local_account_id->0@ != account@
            ||| h.coin@ != p.coin@
            ||| h.side != position_side(p.szi@)
            ||| h.reduce_only == Some(true)
        }),
    ensures
        with_position(entries, history.remove(at), account, p) == with_position(
            entries,
            history,
            account,
            p,
        ),
{
    if let Some(side) = position_side(p.szi@) {
        skipping_keeps_the_explanation(history, account@, p.coin@, side, at, 0);
    }
}

proof fn skipping_keeps_the_explanation(
    history: Seq<CopyShadowHistoryEntry>,
    account: Seq<char>,
    coin: Seq<char>,
    side: OrderSide,
    at: int,
    i: int,
)
    requires
        0 <= i,
        0 <= at < history.len(),
        !explains(history[at], account, coin, side),
    ensures
        i <= at ==> explanation_from(history.remove(at), account, coin, side, i)
            == explanation_from(history, account, coin, side, i),
        i > at ==> explanation_from(history.remove(at), account, coin, side, i - 1)
            == explanation_from(history, account, coin, side, i),
    decreases history.len() - i,
{
    if i < history.len() {
        skipping_keeps_the_explanation(history, account, coin, side, at, i + 1);
    }
}

/// The histories that stand beside one another are those of soaks, whatever names
/// the soak: the name starts and ends as theirs do.
pub proof fn histories_of_soaks_are_named_alike(name: Seq<char>, middle: Seq<char>)
    ensures
        sibling_name("persistent-live-soak-"@ + middle + "-shadow.jsonl"@),
        sibling_name(name) ==> forall|i: int|
            0 <= i < "persistent-live-soak-"@.len() ==> name[i] == #[trigger] (
            "persistent-live-soak-"@[i]),
        sibling_name(name) ==> forall|i: int|
            0 <= i < "-shadow.jsonl"@.len() ==> name[name.len() - "-shadow.jsonl"@.len() + i]
                == #[trigger] ("-shadow.jsonl"@[i]),
{
    let head = "persistent-live-soak-"@;
    let tail = "-shadow.jsonl"@;
    let s = head + middle + tail;
    assert(s.subrange(0, head.len() as int) =~= head);
    assert(s.subrange(s.len() - tail.len(), s.len() as int) =~= tail);
    if sibling_name(name) {
        let a = name.subrange(0, head.len() as int);
        let b = name.subrange(name.len() - tail.len(), name.len() as int);
        assert forall|i: int| 0 <= i < head.len() implies name[i] == #[trigger] head[i] by {
            assert(a[i] == name[i]);
        }
        assert forall|i: int| 0 <= i < tail.len() implies name[name.len() - tail.len() + i]
            == #[trigger] tail[i] by {
            assert(b[i] == name[name.len() - tail.len() + i]);
        }
    }
}

/// Of a history the newest entries are kept, newest first and no more than the
/// limit: what is left out is no newer than anything that is kept.
pub proof fn the_newest_entries_are_kept(entries: Seq<CopyShadowHistoryEntry>, limit: int)
    requires
        0 <= limit,
        entries.len() <= usize::MAX,
    ensures
        newest_entries(entries, limit).len() == if entries.len() < limit {
            entries.len() as int
        } else {
            limit
        },
        forall|i: int, j: int|
            0 <= i < j < newest_entries(entries, limit).len() ==> (#[trigger] newest_entries(
                entries,
                limit,
            )[i]).occurred_at_ms >= (#[trigger] newest_entries(entries, limit)[j]).occurred_at_ms,
        forall|i: int|
            0 <= i < newest_entries(entries, limit).len() ==> entries.contains(
                #[trigger] newest_entries(entries, limit)[i],
            ),
        forall|k: int, i: int|
            0 <= k < entries.len() && 0 <= i < newest_entries(entries, limit).len()
                && !newest_entries(entries, limit).contains(#[trigger] entries[k])
                ==> entries[k].occurred_at_ms <= (#[trigger] newest_entries(
                entries,
                limit,
            )[i]).occurred_at_ms,
{
    let times = times_of(entries);
    let n = entries.len() as int;
    let order = newest_first(times, n);
    let r = newest_entries(entries, limit);
    newest_first_descends(times, n);
    newest_first_lists_each_once(times, n);
    assert(forall|k: int| 0 <= k < n ==> times[k] == (#[trigger] entries[k]).occurred_at_ms);
    assert forall|i: int| 0 <= i < r.len() implies #[trigger] r[i] == entries[order[i] as int]
        && entries.contains(r[i]) && r[i].occurred_at_ms == times[order[i] as int] by {
        assert(0 <= order[i] < n);
        assert(entries[order[i] as int] == r[i]);
    }
    assert forall|i: int, j: int| 0 <= i < j < r.len() implies (#[trigger] r[i]).occurred_at_ms >= (
    #[trigger] r[j]).occurred_at_ms by {
        assert(times[order[i] as int] >= times[order[j] as int]);
    }
    assert forall|k: int, i: int|
        0 <= k < n && 0 <= i < r.len() && !r.contains(#[trigger] entries[k]) implies
    entries[k].occurred_at_ms <= (#[trigger] r[i]).occurred_at_ms by {
        assert(order.contains(k as usize));
        let j = choose|j: int| 0 <= j < order.len() && order[j] == k as usize;
        if j < r.len() {
            assert(r[j] == entries[k]);
        }
        assert(times[order[i] as int] >= times[order[j] as int]);
    }
}

} // verus!
