//! Proving that an order reached the exchange: its status and its fills.

use vstd::prelude::*;

use crate::decimal::{dec, push_u64};
use crate::domain::{OrderStatusResponse, OrderSubmitted, UserFill, WorkerReport};
use crate::intent::CopyDryRunShadowRecord;
use crate::ledger::CopyLedgerEntry;
use crate::reconcile::RetryStep;
use crate::seqs::{filter_step, whole};
use crate::submit::CopyExecutionCanaryOrderEvidence;
use crate::text::{blank, clone_texts, is_blank, join, joined, same_text, texts};

verus! {

/// How often the status of an order is asked for.
pub const COPY_CANARY_ORDER_EVIDENCE_RETRIES: usize = 8;

/// The pause before the status is asked for again, in milliseconds.
pub const COPY_CANARY_ORDER_EVIDENCE_RETRY_DELAY_MS: u64 = 3_000;

/// How long before an order its fills are looked for, in milliseconds.
pub const COPY_CANARY_FILL_LOOKBACK_MS: u64 = 60_000;

/// How long after an order its fills are looked for, in milliseconds.
pub const COPY_CANARY_FILL_LOOKAHEAD_MS: u64 = 180_000;

/// The smaller of two times.
pub open spec fn earlier(a: u64, b: u64) -> u64 {
    if a < b {
        a
    } else {
        b
    }
}

/// The larger of two times.
pub open spec fn later(a: u64, b: u64) -> u64 {
    if a > b {
        a
    } else {
        b
    }
}

fn earlier_of(a: u64, b: u64) -> (r: u64)
    ensures
        r == earlier(a, b),
{
    if a < b {
        a
    } else {
        b
    }
}

fn later_of(a: u64, b: u64) -> (r: u64)
    ensures
        r == later(a, b),
{
    if a > b {
        a
    } else {
        b
    }
}

/// The first and the last time that an order status names.
pub open spec fn status_times(status: Option<OrderStatusResponse>) -> Option<(u64, u64)> {
    match status {
        Some(s) => match s.order {
            Some(info) => Some(
                (
                    earlier(info.order.timestamp, info.status_timestamp),
                    later(info.order.timestamp, info.status_timestamp),
                ),
            ),
            None => None,
        },
        None => None,
    }
}

/// The earliest time that counts for an order.
pub open spec fn first_time(submitted_at_ms: u64, status: Option<OrderStatusResponse>) -> u64 {
    match status_times(status) {
        Some(t) => earlier(submitted_at_ms, t.0),
        None => submitted_at_ms,
    }
}

/// The latest time that counts for an order.
pub open spec fn last_time(
    submitted_at_ms: u64,
    status: Option<OrderStatusResponse>,
    now_ms: u64,
) -> u64 {
    match status_times(status) {
        Some(t) => later(later(now_ms, submitted_at_ms), t.1),
        None => later(now_ms, submitted_at_ms),
    }
}

/// The window in which the fills of an order are looked for. It reaches from a
/// minute before the first to three minutes after the last time that counts,
/// within the range of times.
pub fn copy_canary_fill_time_window(
    submitted_at_ms: u64,
    order_status: &Option<OrderStatusResponse>,
    now_ms: u64,
) -> (r: (u64, u64))
    ensures
        r.0 == if first_time(submitted_at_ms, *order_status) < COPY_CANARY_FILL_LOOKBACK_MS {
            0
        } else {
            first_time(submitted_at_ms, *order_status) - COPY_CANARY_FILL_LOOKBACK_MS
        },
        r.1 == if last_time(submitted_at_ms, *order_status, now_ms)
            + COPY_CANARY_FILL_LOOKAHEAD_MS > u64::MAX {
            u64::MAX as int
        } else {
            last_time(submitted_at_ms, *order_status, now_ms) + COPY_CANARY_FILL_LOOKAHEAD_MS
        },
{
    let mut first: u64 = submitted_at_ms;
    let mut last: u64 = later_of(now_ms, submitted_at_ms);
    match order_status {
        Some(s) => {
            match &s.order {
                Some(info) => {
                    first = earlier_of(
                        submitted_at_ms,
                        earlier_of(info.order.timestamp, info.status_timestamp),
                    );
                    last = later_of(
                        last,
                        later_of(info.order.timestamp, info.status_timestamp),
                    );
                },
                None => {},
            }
        },
        None => {},
    }
    let start: u64 = if first < COPY_CANARY_FILL_LOOKBACK_MS {
        0
    } else {
        first - COPY_CANARY_FILL_LOOKBACK_MS
    };
    let end: u64 = if last > u64::MAX - COPY_CANARY_FILL_LOOKAHEAD_MS {
        u64::MAX
    } else {
        last + COPY_CANARY_FILL_LOOKAHEAD_MS
    };
    (start, end)
}

/// The window for the fills of an order is never empty, and holds the time at
/// which the order was sent.
pub proof fn fill_window_holds_the_submission(
    submitted_at_ms: u64,
    status: Option<OrderStatusResponse>,
    now_ms: u64,
)
    ensures
        first_time(submitted_at_ms, status) <= submitted_at_ms <= last_time(
            submitted_at_ms,
            status,
            now_ms,
        ),
{
}

/// Whether a fill belongs to an order.
pub open spec fn fill_matches(oid: u64, coin: Seq<char>) -> spec_fn(UserFill) -> bool {
    |f: UserFill| f.oid == oid && f.coin@ == coin
}

/// The fills of an order, in order; none where the order is not known.
pub open spec fn matching(fills: Seq<UserFill>, oid: Option<u64>, coin: Seq<char>) -> Seq<
    UserFill,
> {
    match oid {
        Some(o) => fills.filter(fill_matches(o, coin)),
        None => Seq::empty(),
    }
}

/// The fills of an order, in order.
pub fn copy_canary_matching_fills(fills: &Vec<UserFill>, oid: Option<u64>, coin: &str) -> (r: Vec<
    UserFill,
>)
    ensures
        r@ == matching(fills@, oid, coin@),
{
    let mut r: Vec<UserFill> = Vec::new();
    match oid {
        None => {},
        Some(o) => {
            let ghost p = fill_matches(o, coin@);
            let mut i: usize = 0;
            assert(fills@.subrange(0, 0).filter(p) =~= Seq::empty()) by {
                reveal(Seq::filter);
            }
            while i < fills.len()
                invariant
                    i <= fills@.len(),
                    p == fill_matches(o, coin@),
                    r@ == fills@.subrange(0, i as int).filter(p),
                decreases fills@.len() - i,
            {
                proof {
                    filter_step(fills@, p, i as int);
                }
                if fills[i].oid == o && same_text(fills[i].coin.as_str(), coin) {
                    r.push(fills[i].clone());
                }
                i += 1;
            }
            proof {
                whole(fills@);
            }
        },
    }
    r
}

/// Whether two records are of the same fill.
pub open spec fn same_fill(a: UserFill, b: UserFill) -> bool {
    a.oid == b.oid && a.time == b.time && a.hash@ == b.hash@ && a.coin@ == b.coin@ && a.side@
        == b.side@
}

fn is_same_fill(a: &UserFill, b: &UserFill) -> (r: bool)
    ensures
        r == same_fill(*a, *b),
{
    a.oid == b.oid && a.time == b.time && a.hash == b.hash && a.coin == b.coin && a.side == b.side
}

/// Whether a fill is in a list.
pub open spec fn fill_listed(fills: Seq<UserFill>, f: UserFill) -> bool {
    exists|i: int| 0 <= i < fills.len() && same_fill(#[trigger] fills[i], f)
}

/// A list of fills, and behind it those of `more` that are new.
pub open spec fn fills_with_new(fills: Seq<UserFill>, more: Seq<UserFill>) -> Seq<UserFill>
    decreases more.len(),
{
    if more.len() == 0 {
        fills
    } else {
        let s = fills_with_new(fills, more.drop_last());
        if fill_listed(s, more.last()) {
            s
        } else {
            s.push(more.last())
        }
    }
}

fn has_fill(fills: &Vec<UserFill>, f: &UserFill) -> (r: bool)
    ensures
        r == fill_listed(fills@, *f),
{
    let mut i: usize = 0;
    while i < fills.len()
        invariant
            i <= fills@.len(),
            forall|k: int| 0 <= k < i ==> !same_fill(#[trigger] fills@[k], *f),
        decreases fills@.len() - i,
    {
        if is_same_fill(&fills[i], f) {
            return true;
        }
        i += 1;
    }
    false
}

/// Appends the fills that are not in the list yet.
pub fn copy_canary_merge_user_fills(target: &mut Vec<UserFill>, fills: Vec<UserFill>)
    ensures
        final(target)@ == fills_with_new(old(target)@, fills@),
{
    let ghost before = target@;
    let mut i: usize = 0;
    while i < fills.len()
        invariant
            i <= fills@.len(),
            target@ == fills_with_new(before, fills@.subrange(0, i as int)),
        decreases fills@.len() - i,
    {
        if !has_fill(target, &fills[i]) {
            target.push(fills[i].clone());
        }
        assert(fills@.subrange(0, i as int + 1).drop_last() =~= fills@.subrange(0, i as int));
        i += 1;
    }
    proof {
        whole(fills@);
    }
}

/// Whether no fill is listed twice.
pub open spec fn distinct_fills(fills: Seq<UserFill>) -> bool {
    forall|i: int, j: int|
        0 <= i < j < fills.len() ==> !same_fill(#[trigger] fills[i], #[trigger] fills[j])
}

/// Merging fills keeps those that were there, lists every fill of both lists,
/// and never lists one twice that was listed once.
pub proof fn merging_fills_keeps_and_covers(fills: Seq<UserFill>, more: Seq<UserFill>)
    ensures
        fills.len() <= fills_with_new(fills, more).len(),
        fills_with_new(fills, more).subrange(0, fills.len() as int) == fills,
        forall|k: int| 0 <= k < more.len() ==> fill_listed(
            fills_with_new(fills, more),
            #[trigger] more[k],
        ),
        distinct_fills(fills) ==> distinct_fills(fills_with_new(fills, more)),
    decreases more.len(),
{
    if more.len() == 0 {
        whole(fills);
    } else {
        let m = more.drop_last();
        let s = fills_with_new(fills, m);
        let r = fills_with_new(fills, more);
        let x = more.last();
        merging_fills_keeps_and_covers(fills, m);
        assert(r.subrange(0, fills.len() as int) =~= s.subrange(0, fills.len() as int));
        assert forall|k: int| 0 <= k < more.len() implies fill_listed(r, #[trigger] more[k]) by {
            if k < m.len() {
                assert(m[k] == more[k]);
                let i = choose|i: int| 0 <= i < s.len() && same_fill(#[trigger] s[i], m[k]);
                assert(r[i] == s[i]);
            } else if fill_listed(s, x) {
            } else {
                assert(r[r.len() - 1] == x);
            }
        }
        if distinct_fills(fills) && !fill_listed(s, x) {
            assert forall|i: int, j: int| 0 <= i < j < r.len() implies !same_fill(
                #[trigger] r[i],
                #[trigger] r[j],
            ) by {
                if j < s.len() {
                    assert(r[i] == s[i] && r[j] == s[j]);
                } else {
                    assert(r[i] == s[i] && r[j] == x);
                }
            }
        }
    }
}

/// Merging the same fills a second time changes nothing.
pub proof fn merging_fills_twice_is_once(fills: Seq<UserFill>, more: Seq<UserFill>)
    ensures
        fills_with_new(fills_with_new(fills, more), more) == fills_with_new(fills, more),
{
    merging_fills_keeps_and_covers(fills, more);
    merging_listed_fills(fills_with_new(fills, more), more);
}

proof fn merging_listed_fills(fills: Seq<UserFill>, more: Seq<UserFill>)
    requires
        forall|k: int| 0 <= k < more.len() ==> fill_listed(fills, #[trigger] more[k]),
    ensures
        fills_with_new(fills, more) == fills,
    decreases more.len(),
{
    if more.len() > 0 {
        let m = more.drop_last();
        assert forall|k: int| 0 <= k < m.len() implies fill_listed(fills, #[trigger] m[k]) by {
            assert(m[k] == more[k]);
        }
        merging_listed_fills(fills, m);
        assert(fill_listed(fills, more[more.len() - 1]));
    }
}

/// The order id that a status answer names.
pub open spec fn status_oid(status: Option<OrderStatusResponse>) -> Option<u64> {
    match status {
        Some(s) => match s.order {
            Some(info) => Some(info.order.oid),
            None => None,
        },
        None => None,
    }
}

/// The order id under which fills are looked for: that of the submission, else
/// that of the status.
pub open spec fn matching_oid(
    submitted: OrderSubmitted,
    status: Option<OrderStatusResponse>,
) -> Option<u64> {
    match submitted.oid {
        Some(o) => Some(o),
        None => status_oid(status),
    }
}

fn matching_oid_of(submitted: &OrderSubmitted, status: &Option<OrderStatusResponse>) -> (r: Option<
    u64,
>)
    ensures
        r == matching_oid(*submitted, *status),
{
    match submitted.oid {
        Some(o) => Some(o),
        None => match status {
            Some(s) => match &s.order {
                Some(info) => Some(info.order.oid),
                None => None,
            },
            None => None,
        },
    }
}

/// Whether the fills of an order have to be looked for by time, because none of
/// the listed ones belongs to it.
pub fn needs_fills_by_time(
    submitted: &OrderSubmitted,
    status: &Option<OrderStatusResponse>,
    account_fills: &Vec<UserFill>,
) -> (r: bool)
    ensures
        r == (matching(account_fills@, matching_oid(*submitted, *status), submitted.coin@).len()
            == 0),
{
    let oid: Option<u64> = matching_oid_of(submitted, status);
    copy_canary_matching_fills(account_fills, oid, submitted.coin.as_str()).len() == 0
}

/// What is known of a sent order: the fills of its account or why they could not
/// be listed, its status or why it could not be had, and the fills that were
/// looked for by time.
#[derive(Debug)]
pub struct OrderFindings {
    pub fill_error: Option<String>,
    pub status: Result<OrderStatusResponse, String>,
    pub account_fills: Vec<UserFill>,
    pub fills_by_time: Option<Result<Vec<UserFill>, String>>,
}

/// The status among the findings.
pub open spec fn found_status(f: OrderFindings) -> Option<OrderStatusResponse> {
    match f.status {
        Ok(s) => Some(s),
        Err(_e) => None,
    }
}

/// The listed fills of an order.
pub open spec fn listed_fills(s: OrderSubmitted, f: OrderFindings) -> Seq<UserFill> {
    matching(f.account_fills@, matching_oid(s, found_status(f)), s.coin@)
}

/// All fills of the account, with those that were looked for by time where none
/// of the listed ones belongs to the order.
pub open spec fn all_fills(s: OrderSubmitted, f: OrderFindings) -> Seq<UserFill> {
    if listed_fills(s, f).len() > 0 {
        f.account_fills@
    } else {
        match f.fills_by_time {
            Some(r) => match r {
                Ok(v) => fills_with_new(f.account_fills@, v@),
                Err(_e) => f.account_fills@,
            },
            None => f.account_fills@,
        }
    }
}

/// What went wrong while an order was looked up.
pub open spec fn lookup_errors(s: OrderSubmitted, f: OrderFindings) -> Seq<Seq<char>> {
    let a = match f.fill_error {
        Some(e) => seq![e@],
        None => Seq::empty(),
    };
    let b = match f.status {
        Ok(_s) => Seq::empty(),
        Err(e) => seq![e@],
    };
    let c = if listed_fills(s, f).len() > 0 {
        Seq::empty()
    } else {
        match f.fills_by_time {
            Some(r) => match r {
                Ok(_v) => Seq::empty(),
                Err(e) => seq![e@],
            },
            None => Seq::empty(),
        }
    };
    a + b + c
}

/// What is known of a sent order, in one record.
pub fn collect_copy_canary_order_evidence(
    submitted: &OrderSubmitted,
    findings: OrderFindings,
) -> (r: CopyExecutionCanaryOrderEvidence)
    ensures
        r.account_id == submitted.account_id,
        r.worker_id == submitted.worker_id,
        r.signal_id == submitted.signal_id,
        r.coin == submitted.coin,
        r.oid == matching_oid(*submitted, found_status(findings)),
        r.cloid == submitted.cloid,
        r.order_status == found_status(findings),
        r.user_fill_count == all_fills(*submitted, findings).len(),
        r.matching_fills@ == matching(all_fills(*submitted, findings), r.oid, submitted.coin@),
        r.matching_fill_count == r.matching_fills@.len(),
        if lookup_errors(*submitted, findings).len() == 0 {
            r.error is None
        } else {
            r.error is Some && r.error->0@ == joined(lookup_errors(*submitted, findings), "; "@)
        },
{
    let ghost goal = lookup_errors(*submitted, findings);
    let mut errors: Vec<String> = Vec::new();
    match findings.fill_error {
        Some(e) => {
            errors.push(e);
        },
        None => {},
    }
    let status: Option<OrderStatusResponse> = match findings.status {
        Ok(s) => Some(s),
        Err(e) => {
            errors.push(e);
            None
        },
    };
    let oid: Option<u64> = matching_oid_of(submitted, &status);
    let mut fills: Vec<UserFill> = findings.account_fills;
    let mut found: Vec<UserFill> = copy_canary_matching_fills(
        &fills,
        oid,
        submitted.coin.as_str(),
    );
    if found.len() == 0 {
        match findings.fills_by_time {
            Some(r) => {
                match r {
                    Ok(more) => {
                        copy_canary_merge_user_fills(&mut fills, more);
                        found = copy_canary_matching_fills(&fills, oid, submitted.coin.as_str());
                    },
                    Err(e) => {
                        errors.push(e);
                    },
                }
            },
            None => {},
        }
    }
    assert(texts(errors@) =~= goal);
    assert(texts(errors@).len() == errors@.len());
    let error: Option<String> = if errors.len() == 0 {
        None
    } else {
        Some(join(&errors, "; "))
    };
    CopyExecutionCanaryOrderEvidence {
        account_id: submitted.account_id.clone(),
        worker_id: submitted.worker_id.clone(),
        signal_id: submitted.signal_id.clone(),
        coin: submitted.coin.clone(),
        oid,
        cloid: submitted.cloid.clone(),
        order_status: status,
        user_fill_count: fills.len(),
        matching_fill_count: found.len(),
        matching_fills: found,
        error,
    }
}

/// How an order is looked up.
#[derive(Clone, Copy, Debug, PartialEq, Eq, Structural)]
pub enum StatusLookup {
    ByOid(u64),
    ByCloid,
}

/// The ways to look up an order: by its id where it is known, and by its client
/// id where there is one and the exchange can read it.
pub open spec fn status_lookups(s: OrderSubmitted, cloid_valid: bool) -> Seq<StatusLookup> {
    let a = match s.oid {
        Some(o) => seq![StatusLookup::ByOid(o)],
        None => Seq::empty(),
    };
    if !blank(s.cloid@) && cloid_valid {
        a.push(StatusLookup::ByCloid)
    } else {
        a
    }
}

/// The ways to look up an order. Without any there is nothing to ask for.
pub fn order_status_lookups(submitted: &OrderSubmitted, cloid_valid: bool) -> (r: Result<
    Vec<StatusLookup>,
    String,
>)
    ensures
        if status_lookups(*submitted, cloid_valid).len() == 0 {
            r is Err && r->Err_0@
                == "submitted report has neither oid nor cloid for orderStatus lookup"@
        } else {
            r is Ok && r->Ok_0@ == status_lookups(*submitted, cloid_valid)
        },
{
    let mut v: Vec<StatusLookup> = Vec::new();
    match submitted.oid {
        Some(o) => {
            v.push(StatusLookup::ByOid(o));
        },
        None => {},
    }
    if !is_blank(submitted.cloid.as_str()) && cloid_valid {
        v.push(StatusLookup::ByCloid);
    }
    assert(v@ =~= status_lookups(*submitted, cloid_valid));
    if v.len() == 0 {
        Err("submitted report has neither oid nor cloid for orderStatus lookup".to_owned())
    } else {
        Ok(v)
    }
}

/// What an answer to a status query comes to: the status where it names an
/// order, else what was wrong with it.
pub fn query_copy_canary_order_status_evidence(
    lookup: &str,
    answer: Result<OrderStatusResponse, String>,
) -> (r: Result<OrderStatusResponse, String>)
    ensures
        match answer {
            Ok(s) => if s.order is Some {
                r is Ok && r->Ok_0 == s
            } else {
                r is Err && r->Err_0@ == "orderStatus lookup returned "@ + s.status@
                    + " without order for "@ + lookup@
            },
            Err(e) => r is Err && r->Err_0@ == "orderStatus lookup failed for "@ + lookup@ + ": "@
                + e@,
        },
{
    match answer {
        Ok(s) => if s.order.is_some() {
            Ok(s)
        } else {
            let mut e: String = "orderStatus lookup returned ".to_owned();
            e.append(s.status.as_str());
            e.append(" without order for ");
            e.append(lookup);
            Err(e)
        },
        Err(x) => {
            let mut e: String = "orderStatus lookup failed for ".to_owned();
            e.append(lookup);
            e.append(": ");
            e.append(x.as_str());
            Err(e)
        },
    }
}

/// What follows an attempt, counted from zero, that found no order.
pub fn order_status_retry_step(attempt: usize) -> (r: RetryStep)
    ensures
        r == if attempt + 1 < COPY_CANARY_ORDER_EVIDENCE_RETRIES {
            RetryStep::RetryAfterMs(COPY_CANARY_ORDER_EVIDENCE_RETRY_DELAY_MS)
        } else {
            RetryStep::GiveUp
        },
        attempt < 7 ==> r == RetryStep::RetryAfterMs(3_000),
        attempt >= 7 ==> r == RetryStep::GiveUp,
{
    if attempt < COPY_CANARY_ORDER_EVIDENCE_RETRIES - 1 {
        RetryStep::RetryAfterMs(COPY_CANARY_ORDER_EVIDENCE_RETRY_DELAY_MS)
    } else {
        RetryStep::GiveUp
    }
}

/// What is said where the fills of an order could not be looked for by time.
pub fn fills_by_time_failure(start_time_ms: u64, end_time_ms: u64, error: &str) -> (r: String)
    ensures
        r@ == "userFillsByTime lookup failed for "@ + dec(start_time_ms as nat) + ".."@ + dec(
            end_time_ms as nat,
        ) + ": "@ + error@,
{
    let mut s: String = "userFillsByTime lookup failed for ".to_owned();
    push_u64(&mut s, start_time_ms);
    s.append("..");
    push_u64(&mut s, end_time_ms);
    s.append(": ");
    s.append(error);
    s
}

/// One step that enters what is known of an order into the ledger.
#[derive(Debug)]
pub enum LedgerStep {
    Submission(OrderSubmitted),
    StatusEvidence {
        account_id: String,
        worker_id: String,
        order_status: OrderStatusResponse,
        matching_fills: Vec<UserFill>,
    },
}

/// What has to be entered into a ledger: the entries that it starts with, the
/// steps in order, and the events that were handled.
#[derive(Debug)]
pub struct LedgerWork {
    pub entries: Vec<CopyLedgerEntry>,
    pub steps: Vec<LedgerStep>,
    pub seen_event_keys: Vec<String>,
}

/// The ledger entries of a list of records, in order.
pub open spec fn record_entries(records: Seq<CopyDryRunShadowRecord>) -> Seq<CopyLedgerEntry>
    decreases records.len(),
{
    if records.len() == 0 {
        Seq::empty()
    } else {
        let before = record_entries(records.drop_last());
        match records.last().ledger_entry {
            Some(e) => before.push(e),
            None => before,
        }
    }
}

/// The submissions of a list of reports, in order.
pub open spec fn submissions(reports: Seq<WorkerReport>) -> Seq<OrderSubmitted>
    decreases reports.len(),
{
    if reports.len() == 0 {
        Seq::empty()
    } else {
        let before = submissions(reports.drop_last());
        match reports.last() {
            WorkerReport::Submitted(s) => before.push(s),
            _ => before,
        }
    }
}

/// Whether evidence names a status.
pub open spec fn has_status() -> spec_fn(CopyExecutionCanaryOrderEvidence) -> bool {
    |e: CopyExecutionCanaryOrderEvidence| e.order_status is Some
}

/// Whether a step enters the given evidence.
pub open spec fn enters(step: LedgerStep, e: CopyExecutionCanaryOrderEvidence) -> bool {
    match step {
        LedgerStep::StatusEvidence { account_id, worker_id, order_status, matching_fills } => {
            &&& account_id == e.account_id
            &&& worker_id == e.worker_id
            &&& e.order_status == Some(order_status)
            &&& matching_fills@ == e.matching_fills@
        },
        _ => false,
    }
}

fn clone_fills(v: &Vec<UserFill>) -> (r: Vec<UserFill>)
    ensures
        r@ == v@,
{
    let mut r: Vec<UserFill> = Vec::new();
    let mut i: usize = 0;
    while i < v.len()
        invariant
            i <= v@.len(),
            r@ == v@.subrange(0, i as int),
        decreases v@.len() - i,
    {
        r.push(v[i].clone());
        assert(v@.subrange(0, i as int + 1) =~= v@.subrange(0, i as int).push(v@[i as int]));
        i += 1;
    }
    proof {
        whole(v@);
    }
    r
}

fn entries_of(records: &Vec<CopyDryRunShadowRecord>) -> (r: Vec<CopyLedgerEntry>)
    ensures
        r@ == record_entries(records@),
{
    let mut r: Vec<CopyLedgerEntry> = Vec::new();
    let mut i: usize = 0;
    while i < records.len()
        invariant
            i <= records@.len(),
            r@ == record_entries(records@.subrange(0, i as int)),
        decreases records@.len() - i,
    {
        assert(records@.subrange(0, i as int + 1).drop_last() =~= records@.subrange(0, i as int));
        match &records[i].ledger_entry {
            Some(e) => {
                r.push(e.clone());
            },
            None => {},
        }
        i += 1;
    }
    proof {
        whole(records@);
    }
    r
}

/// What has to be entered into the ledger of a run: first every submission, then
/// the evidence of every order whose status is known.
pub fn reconcile_copy_canary_ledger(
    records: &Vec<CopyDryRunShadowRecord>,
    submitted_reports: &Vec<WorkerReport>,
    order_evidence: &Vec<CopyExecutionCanaryOrderEvidence>,
) -> (r: LedgerWork)
    ensures
        r.entries@ == record_entries(records@),
        r.seen_event_keys@ == if records@.len() == 0 {
            Seq::empty()
        } else {
            records@.last().seen_event_keys@
        },
        ({
            let sent = submissions(submitted_reports@);
            let known = order_evidence@.filter(has_status());
            &&& r.steps@.len() == sent.len() + known.len()
            &&& forall|i: int|
                0 <= i < sent.len() ==> #[trigger] r.steps@[i] == LedgerStep::Submission(sent[i])
            &&& forall|i: int|
                0 <= i < known.len() ==> enters(
                    r.steps@[sent.len() + i],
                    #[trigger] known[i],
                )
        }),
{
    let mut steps: Vec<LedgerStep> = Vec::new();
    let mut i: usize = 0;
    while i < submitted_reports.len()
        invariant
            i <= submitted_reports@.len(),
            steps@.len() == submissions(submitted_reports@.subrange(0, i as int)).len(),
            forall|k: int|
                0 <= k < steps@.len() ==> #[trigger] steps@[k] == LedgerStep::Submission(
                    submissions(submitted_reports@.subrange(0, i as int))[k],
                ),
        decreases submitted_reports@.len() - i,
    {
        assert(submitted_reports@.subrange(0, i as int + 1).drop_last()
            =~= submitted_reports@.subrange(0, i as int));
        match &submitted_reports[i] {
            WorkerReport::Submitted(s) => {
                steps.push(LedgerStep::Submission(s.clone()));
            },
            _ => {},
        }
        i += 1;
    }
    proof {
        whole(submitted_reports@);
    }
    let ghost sent = submissions(submitted_reports@);
    let mut j: usize = 0;
    assert(order_evidence@.subrange(0, 0).filter(has_status()) =~= Seq::empty()) by {
        reveal(Seq::filter);
    }
    while j < order_evidence.len()
        invariant
            j <= order_evidence@.len(),
            steps@.len() == sent.len() + order_evidence@.subrange(0, j as int).filter(
                has_status(),
            ).len(),
            forall|k: int|
                0 <= k < sent.len() ==> #[trigger] steps@[k] == LedgerStep::Submission(sent[k]),
            forall|k: int|
                0 <= k < order_evidence@.subrange(0, j as int).filter(has_status()).len()
                    ==> enters(
                    steps@[sent.len() + k],
                    #[trigger] order_evidence@.subrange(0, j as int).filter(has_status())[k],
                ),
        decreases order_evidence@.len() - j,
    {
        let ghost before = order_evidence@.subrange(0, j as int).filter(has_status());
        let ghost old_steps = steps@;
        proof {
            filter_step(order_evidence@, has_status(), j as int);
        }
        let e: &CopyExecutionCanaryOrderEvidence = &order_evidence[j];
        match &e.order_status {
            Some(status) => {
                steps.push(
                    LedgerStep::StatusEvidence {
                        account_id: e.account_id.clone(),
                        worker_id: e.worker_id.clone(),
                        order_status: status.clone(),
                        matching_fills: clone_fills(&e.matching_fills),
                    },
                );
                proof {
                    let now = order_evidence@.subrange(0, j as int + 1).filter(has_status());
                    assert(now == before.push(*e));
                    assert forall|k: int| 0 <= k < now.len() implies enters(
                        steps@[sent.len() + k],
                        #[trigger] now[k],
                    ) by {
                        if k < before.len() {
                            assert(now[k] == before[k]);
                            assert(steps@[sent.len() + k] == old_steps[sent.len() + k]);
                        }
                    }
                }
            },
            None => {},
        }
        j += 1;
    }
    proof {
        whole(order_evidence@);
    }
    let keys: Vec<String> = if records.len() == 0 {
        Vec::new()
    } else {
        clone_texts(&records[records.len() - 1].seen_event_keys)
    };
    assert(records@.len() == 0 ==> keys@ =~= Seq::empty());
    LedgerWork { entries: entries_of(records), steps, seen_event_keys: keys }
}

/// The times that count for an order reach from the first to the last of the
/// time it was sent, the times that its status names, and now; the fills of a
/// minute before and of three minutes after are looked at as well.
pub proof fn the_fill_window_spans_every_known_time(
    submitted_at_ms: u64,
    status: Option<OrderStatusResponse>,
    now_ms: u64,
)
    ensures
        COPY_CANARY_FILL_LOOKBACK_MS == 60 * 1000,
        COPY_CANARY_FILL_LOOKAHEAD_MS == 3 * 60 * 1000,
        ({
            let first = first_time(submitted_at_ms, status);
            let last = last_time(submitted_at_ms, status, now_ms);
            &&& first <= submitted_at_ms && submitted_at_ms <= last && now_ms <= last
            &&& status is Some && status->0.order is Some ==> ({
                let t = status->0.order->0.order.timestamp;
                let u = status->0.order->0.status_timestamp;
                &&& first <= t && first <= u && t <= last && u <= last
                &&& first == submitted_at_ms || first == t || first == u
                &&& last == submitted_at_ms || last == now_ms || last == t || last == u
            })
            &&& !(status is Some && status->0.order is Some) ==> first == submitted_at_ms && (last
                == submitted_at_ms || last == now_ms)
        }),
{
}

/// A fill belongs to an order exactly where it names the order's number and
/// coin; nothing belongs to an order whose number is not known. The number is
/// that of the submission, or else that of the status.
pub proof fn fills_belong_to_their_own_order(
    fills: Seq<UserFill>,
    f: UserFill,
    oid: Option<u64>,
    coin: Seq<char>,
    submitted: OrderSubmitted,
    status: Option<OrderStatusResponse>,
)
    ensures
        matching(Seq::empty(), oid, coin).len() == 0,
        oid is None ==> matching(fills, oid, coin).len() == 0,
        oid is Some ==> matching(fills.push(f), oid, coin) == if f.oid == oid->0 && f.coin@ == coin {
            matching(fills, oid, coin).push(f)
        } else {
            matching(fills, oid, coin)
        },
        submitted.oid is Some ==> matching_oid(submitted, status) == submitted.oid,
        submitted.oid is None && status is Some && status->0.order is Some ==> matching_oid(
            submitted,
            status,
        ) == Some(status->0.order->0.order.oid),
        submitted.oid is None && !(status is Some && status->0.order is Some) ==> matching_oid(
            submitted,
            status,
        ) is None,
{
    reveal(Seq::filter);
    assert(fills.push(f).drop_last() =~= fills);
}

/// A fill joins a list exactly where no fill of the list has the same order,
/// time, hash, coin and side.
pub proof fn only_new_fills_join(fills: Seq<UserFill>, more: Seq<UserFill>, f: UserFill)
    ensures
        fills_with_new(fills, Seq::empty()) == fills,
        ({
            let s = fills_with_new(fills, more);
            fills_with_new(fills, more.push(f)) == if exists|i: int|
                0 <= i < s.len() && (#[trigger] s[i]).oid == f.oid && s[i].time == f.time
                    && s[i].hash@ == f.hash@ && s[i].coin@ == f.coin@ && s[i].side@ == f.side@ {
                s
            } else {
                s.push(f)
            }
        }),
{
    assert(more.push(f).drop_last() =~= more);
    let s = fills_with_new(fills, more);
    if fill_listed(s, f) {
        let i = choose|i: int| 0 <= i < s.len() && same_fill(#[trigger] s[i], f);
        assert(s[i].oid == f.oid);
    }
    if exists|i: int|
        0 <= i < s.len() && (#[trigger] s[i]).oid == f.oid && s[i].time == f.time && s[i].hash@
            == f.hash@ && s[i].coin@ == f.coin@ && s[i].side@ == f.side@ {
        let i = choose|i: int|
            0 <= i < s.len() && (#[trigger] s[i]).oid == f.oid && s[i].time == f.time
                && s[i].hash@ == f.hash@ && s[i].coin@ == f.coin@ && s[i].side@ == f.side@;
        assert(same_fill(s[i], f));
    }
}

/// What is known of an order: its status where it could be had, the fills of its
/// account, and those found by time only where none of the account's belongs to
/// it. Everything that went wrong on the way is kept.
pub proof fn findings_are_kept_as_found(s: OrderSubmitted, f: OrderFindings)
    ensures
        found_status(f) is Some <==> f.status is Ok,
        f.status is Ok ==> found_status(f) == Some(f.status->Ok_0),
        ({
            let own = matching(f.account_fills@, matching_oid(s, found_status(f)), s.coin@);
            let by_time = own.len() == 0 && f.fills_by_time is Some;
            &&& by_time && f.fills_by_time->0 is Ok ==> all_fills(s, f) == fills_with_new(
                f.account_fills@,
                f.fills_by_time->0->Ok_0@,
            )
            &&& !(by_time && f.fills_by_time->0 is Ok) ==> all_fills(s, f) == f.account_fills@
            &&& lookup_errors(s, f).len() == (if f.fill_error is Some {
                1int
            } else {
                0int
            }) + (if f.status is Err {
                1int
            } else {
                0int
            }) + (if by_time && f.fills_by_time->0 is Err {
                1int
            } else {
                0int
            })
        }),
{
}

/// An order is looked up by its number where it has one, and by its client id
/// where that says something and the exchange can read it.
pub proof fn orders_are_looked_up_by_what_they_have(s: OrderSubmitted, cloid_valid: bool)
    ensures
        status_lookups(s, cloid_valid).contains(StatusLookup::ByCloid) <==> cloid_valid && !blank(
            s.cloid@,
        ),
        forall|o: u64| #[trigger]
            status_lookups(s, cloid_valid).contains(StatusLookup::ByOid(o)) <==> s.oid == Some(o),
        status_lookups(s, cloid_valid).len() <= 2,
{
    let v = status_lookups(s, cloid_valid);
    if s.oid is Some {
        assert(v[0] == StatusLookup::ByOid(s.oid->0));
    }
    if cloid_valid && !blank(s.cloid@) {
        assert(v[v.len() - 1] == StatusLookup::ByCloid);
    }
}

/// The ledger starts with the entries of the records, in order, and takes in
/// every submission and every order whose status is known.
pub proof fn every_submission_enters_the_ledger(
    records: Seq<CopyDryRunShadowRecord>,
    r: CopyDryRunShadowRecord,
    reports: Seq<WorkerReport>,
    w: WorkerReport,
    evidence: Seq<CopyExecutionCanaryOrderEvidence>,
    e: CopyExecutionCanaryOrderEvidence,
)
    ensures
        record_entries(Seq::empty()).len() == 0,
        submissions(Seq::empty()).len() == 0,
        record_entries(records.push(r)) == if r.ledger_entry is Some {
            record_entries(records).push(r.ledger_entry->0)
        } else {
            record_entries(records)
        },
        submissions(reports.push(w)) == if w is Submitted {
            submissions(reports).push(w->Submitted_0)
        } else {
            submissions(reports)
        },
        evidence.push(e).filter(has_status()) == if e.order_status is Some {
            evidence.filter(has_status()).push(e)
        } else {
            evidence.filter(has_status())
        },
{
    reveal(Seq::filter);
    assert(records.push(r).drop_last() =~= records);
    assert(reports.push(w).drop_last() =~= reports);
    assert(evidence.push(e).drop_last() =~= evidence);
}

/// A step enters evidence under its own account and worker, with its own status
/// and fills.
pub proof fn evidence_is_entered_as_it_is(
    step: LedgerStep,
    e: CopyExecutionCanaryOrderEvidence,
)
    requires
        enters(step, e),
    ensures
        step is StatusEvidence,
        step->account_id@ == e.account_id@,
        step->worker_id@ == e.worker_id@,
        e.order_status == Some(step->order_status),
        step->matching_fills@ == e.matching_fills@,
{
}

} // verus!
