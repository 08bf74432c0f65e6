//! From recorded signals to orders: what is asked of the risk gateway, and what
//! follows from its answers.

use vstd::prelude::*;

use crate::config::AppConfig;
use crate::decimal::{dec, fixed6, push_count, push_fixed6, Fixed};
use crate::domain::{ExecutionMode, IntentKind, OrderSide, RiskRejection};
use crate::ledger::{CopyLedgerEntry, HYPERLIQUID_MIN_ORDER_NOTIONAL_USD};
use crate::market::{coin_dex, coin_market, copy_daemon_market_dex_for_coin};
use crate::plan::{
    copy_live_daemon_order_refs_to_orders, orders_of, CopyExecutionCanaryWouldSubmit,
    CopyLiveDaemonWouldSubmitRef,
};
use crate::seqs::{filter_step, whole};
use crate::submit::safe_skip_message;
use crate::text::{lower, occurs_at};

verus! {

/// What a copy signal asks for.
#[derive(Debug)]
pub struct CopySignal {
    pub signal_id: String,
    pub target_accounts: Vec<String>,
}

/// What the copy rules say of a signal.
#[derive(Debug)]
pub enum CopySignalRiskDecision {
    Approved { side: OrderSide, reduce_only: bool, notional_usd: Fixed },
    Rejected { reason: String },
}

/// One recorded decision of the copy pipeline, with what it leads to.
#[derive(Debug)]
pub struct CopyDryRunShadowRecord {
    pub leader_id: String,
    pub leader_address: String,
    pub risk_decision: CopySignalRiskDecision,
    pub signal: Option<CopySignal>,
    pub ledger_entry: Option<CopyLedgerEntry>,
    pub seen_event_keys: Vec<String>,
}

/// What a worker wants to do.
#[derive(Debug)]
pub struct TradeIntent {
    pub intent_id: String,
    pub signal_id: Option<String>,
    pub worker_id: String,
    pub account_id: String,
    pub target_accounts: Vec<String>,
    pub strategy_id: String,
    pub created_at_ms: u64,
    pub market: Option<String>,
    pub dex: Option<String>,
    pub coin: String,
    pub side: OrderSide,
    pub intent_kind: IntentKind,
    pub notional_usd: Fixed,
    pub max_slippage_bps: Fixed,
    pub reduce_only: bool,
    pub reason: String,
    pub source_event_id: Option<String>,
    pub expires_at_ms: Option<u64>,
}

/// An order that the risk gateway let through.
#[derive(Clone, Debug)]
pub struct ApprovedOrder {
    pub risk_decision_id: String,
    pub intent_id: String,
    pub signal_id: Option<String>,
    pub worker_id: String,
    pub account_id: String,
    pub strategy_id: String,
    pub market: Option<String>,
    pub dex: Option<String>,
    pub coin: String,
    pub side: OrderSide,
    pub notional_usd: Fixed,
    pub execution_mode: ExecutionMode,
    pub max_slippage_bps: Fixed,
    pub reduce_only: bool,
    pub cloid: String,
    pub expires_at_ms: Option<u64>,
}

/// The answer of the risk gateway.
#[derive(Debug)]
pub enum RiskDecision {
    Approved(ApprovedOrder),
    Rejected(RiskRejection),
}

/// Whether a record leads to orders.
pub open spec fn approved_record(r: CopyDryRunShadowRecord) -> bool {
    r.risk_decision is Approved && r.signal is Some
}

/// Whether a record leads to orders.
pub fn is_approved_record(r: &CopyDryRunShadowRecord) -> (b: bool)
    ensures
        b == approved_record(*r),
{
    match &r.risk_decision {
        CopySignalRiskDecision::Approved { side: _, reduce_only: _, notional_usd: _ } =>
            r.signal.is_some(),
        CopySignalRiskDecision::Rejected { reason: _ } => false,
    }
}

/// Whether a record leads to orders.
pub open spec fn leads_to_orders() -> spec_fn(CopyDryRunShadowRecord) -> bool {
    |r: CopyDryRunShadowRecord| approved_record(r)
}

/// How many records lead to orders.
pub fn count_approved(records: &Vec<CopyDryRunShadowRecord>) -> (r: usize)
    ensures
        r == records@.filter(leads_to_orders()).len(),
        r <= records@.len(),
{
    let mut n: usize = 0;
    let mut i: usize = 0;
    assert(records@.subrange(0, 0).filter(leads_to_orders()).len() == 0) by {
        reveal(Seq::filter);
    }
    while i < records.len()
        invariant
            n <= i <= records@.len(),
            n == records@.subrange(0, i as int).filter(leads_to_orders()).len(),
        decreases records@.len() - i,
    {
        proof {
            filter_step(records@, leads_to_orders(), i as int);
        }
        if is_approved_record(&records[i]) {
            n += 1;
        }
        i += 1;
    }
    proof {
        whole(records@);
    }
    n
}

/// One order that the risk gateway is asked about.
#[derive(Debug)]
pub struct OrderRequest {
    pub record_offset: usize,
    pub signal_id: String,
    pub leader_id: String,
    pub leader_address: String,
    pub account_id: String,
    pub worker_id: String,
    pub side: OrderSide,
    pub reduce_only: bool,
    pub notional_usd: Fixed,
}

/// What the risk gateway is asked about.
pub struct Request {
    pub record: CopyDryRunShadowRecord,
    pub offset: int,
    pub account: Seq<char>,
}

/// Whether a request is the one for the given record and account.
pub open spec fn request_for(r: OrderRequest, q: Request) -> bool {
    &&& r.record_offset == q.offset
    &&& q.record.signal is Some
    &&& r.signal_id == q.record.signal->0.signal_id
    &&& r.leader_id == q.record.leader_id
    &&& r.leader_address == q.record.leader_address
    &&& r.account_id@ == q.account
    &&& r.worker_id@ == "worker-"@ + q.account
    &&& match q.record.risk_decision {
        CopySignalRiskDecision::Approved { side, reduce_only, notional_usd } => r.side == side
            && r.reduce_only == reduce_only && r.notional_usd == notional_usd,
        CopySignalRiskDecision::Rejected { reason: _ } => false,
    }
}

/// The requests of the first `n` accounts of a record, or the account that is
/// not configured.
pub open spec fn account_requests(
    config: AppConfig,
    record: CopyDryRunShadowRecord,
    offset: int,
    accounts: Seq<String>,
    n: int,
) -> Result<Seq<Request>, Seq<char>>
    decreases n,
{
    if n <= 0 {
        Ok(Seq::empty())
    } else {
        match account_requests(config, record, offset, accounts, n - 1) {
            Err(e) => Err(e),
            Ok(before) => match config.account_of(accounts[n - 1]@) {
                None => Err("account "@ + accounts[n - 1]@ + " not found"@),
                Some(_a) => Ok(
                    before.push(Request { record, offset, account: accounts[n - 1]@ }),
                ),
            },
        }
    }
}

/// The requests of the first `n` records, or what is wrong with them.
pub open spec fn requests_upto(
    config: AppConfig,
    records: Seq<CopyDryRunShadowRecord>,
    n: int,
) -> Result<Seq<Request>, Seq<char>>
    decreases n,
{
    if n <= 0 {
        Ok(Seq::empty())
    } else {
        match requests_upto(config, records, n - 1) {
            Err(e) => Err(e),
            Ok(before) => if !approved_record(records[n - 1]) {
                Ok(before)
            } else {
                let accounts = records[n - 1].signal->0.target_accounts@;
                match account_requests(
                    config,
                    records[n - 1],
                    n - 1,
                    accounts,
                    accounts.len() as int,
                ) {
                    Err(e) => Err(e),
                    Ok(more) => Ok(before + more),
                }
            },
        }
    }
}

/// What the risk gateway is asked about a list of records.
pub open spec fn requests_of(
    config: AppConfig,
    records: Seq<CopyDryRunShadowRecord>,
) -> Result<Seq<Request>, Seq<char>> {
    requests_upto(config, records, records.len() as int)
}

proof fn account_error_stays(
    config: AppConfig,
    record: CopyDryRunShadowRecord,
    offset: int,
    accounts: Seq<String>,
    n: int,
    m: int,
)
    requires
        n <= m,
        account_requests(config, record, offset, accounts, n) is Err,
    ensures
        account_requests(config, record, offset, accounts, m) == account_requests(
            config,
            record,
            offset,
            accounts,
            n,
        ),
    decreases m - n,
{
    if n < m {
        account_error_stays(config, record, offset, accounts, n, m - 1);
    }
}

proof fn request_error_stays(
    config: AppConfig,
    records: Seq<CopyDryRunShadowRecord>,
    n: int,
    m: int,
)
    requires
        n <= m,
        requests_upto(config, records, n) is Err,
    ensures
        requests_upto(config, records, m) == requests_upto(config, records, n),
    decreases m - n,
{
    if n < m {
        request_error_stays(config, records, n, m - 1);
    }
}

/// Whether each request is the one for its record and account.
pub open spec fn requests_match(v: Seq<OrderRequest>, q: Seq<Request>) -> bool {
    v.len() == q.len() && forall|i: int|
        0 <= i < v.len() ==> request_for(#[trigger] v[i], q[i])
}

fn push_account_requests(
    out: &mut Vec<OrderRequest>,
    config: &AppConfig,
    record: &CopyDryRunShadowRecord,
    offset: usize,
    Ghost(before): Ghost<Seq<Request>>,
) -> (r: Result<(), String>)
    requires
        approved_record(*record),
        requests_match(old(out)@, before),
    ensures
        ({
            let accounts = record.signal->0.target_accounts@;
            match account_requests(
                *config,
                *record,
                offset as int,
                accounts,
                accounts.len() as int,
            ) {
                Err(e) => r is Err && r->Err_0@ == e,
                Ok(more) => r is Ok && requests_match(final(out)@, before + more),
            }
        }),
{
    match (&record.signal, &record.risk_decision) {
        (
            Some(signal),
            CopySignalRiskDecision::Approved { side, reduce_only, notional_usd },
        ) => {
            let accounts: &Vec<String> = &signal.target_accounts;
            let mut i: usize = 0;
            assert(before + Seq::<Request>::empty() =~= before);
            while i < accounts.len()
                invariant
                    i <= accounts@.len(),
                    record.signal is Some,
                    *signal == record.signal->0,
                    *accounts == signal.target_accounts,
                    approved_record(*record),
                    record.risk_decision == (CopySignalRiskDecision::Approved {
                        side: *side,
                        reduce_only: *reduce_only,
                        notional_usd: *notional_usd,
                    }),
                    account_requests(
                        *config,
                        *record,
                        offset as int,
                        accounts@,
                        i as int,
                    ) is Ok,
                    requests_match(
                        out@,
                        before + account_requests(
                            *config,
                            *record,
                            offset as int,
                            accounts@,
                            i as int,
                        )->Ok_0,
                    ),
                decreases accounts@.len() - i,
            {
                let ghost done = account_requests(
                    *config,
                    *record,
                    offset as int,
                    accounts@,
                    i as int,
                )->Ok_0;
                let id: &String = &accounts[i];
                match config.account(id.as_str()) {
                    None => {
                        let mut e: String = "account ".to_owned();
                        e.append(id.as_str());
                        e.append(" not found");
                        proof {
                            account_error_stays(
                                *config,
                                *record,
                                offset as int,
                                accounts@,
                                i as int + 1,
                                accounts@.len() as int,
                            );
                        }
                        return Err(e);
                    },
                    Some(_account) => {
                        let mut worker_id: String = "worker-".to_owned();
                        worker_id.append(id.as_str());
                        let ghost q = Request {
                            record: *record,
                            offset: offset as int,
                            account: id@,
                        };
                        let ghost old_out = out@;
                        out.push(
                            OrderRequest {
                                record_offset: offset,
                                signal_id: signal.signal_id.clone(),
                                leader_id: record.leader_id.clone(),
                                leader_address: record.leader_address.clone(),
                                account_id: id.clone(),
                                worker_id,
                                side: *side,
                                reduce_only: *reduce_only,
                                notional_usd: *notional_usd,
                            },
                        );
                        proof {
                            let goal = before + done.push(q);
                            assert(goal =~= (before + done).push(q));
                            assert forall|k: int| 0 <= k < out@.len() implies request_for(
                                #[trigger] out@[k],
                                goal[k],
                            ) by {
                                if k < old_out.len() {
                                    assert(request_for(old_out[k], (before + done)[k]));
                                }
                            }
                        }
                    },
                }
                i += 1;
            }
            Ok(())
        },
        _ => Ok(()),
    }
}

/// What the risk gateway is asked about a list of records: one order for each
/// account of each record that leads to orders.
pub fn order_requests(config: &AppConfig, records: &Vec<CopyDryRunShadowRecord>) -> (r: Result<
    Vec<OrderRequest>,
    String,
>)
    ensures
        match requests_of(*config, records@) {
            Err(e) => r is Err && r->Err_0@ == e,
            Ok(q) => r is Ok && requests_match(r->Ok_0@, q),
        },
{
    let mut out: Vec<OrderRequest> = Vec::new();
    let mut i: usize = 0;
    while i < records.len()
        invariant
            i <= records@.len(),
            requests_upto(*config, records@, i as int) is Ok,
            requests_match(out@, requests_upto(*config, records@, i as int)->Ok_0),
        decreases records@.len() - i,
    {
        let ghost before = requests_upto(*config, records@, i as int)->Ok_0;
        if is_approved_record(&records[i]) {
            match push_account_requests(&mut out, config, &records[i], i, Ghost(before)) {
                Err(e) => {
                    proof {
                        request_error_stays(
                            *config,
                            records@,
                            i as int + 1,
                            records@.len() as int,
                        );
                    }
                    return Err(e);
                },
                Ok(_) => {},
            }
        }
        i += 1;
    }
    Ok(out)
}

/// Whether a plan carries an approved order of the given request.
pub open spec fn plan_for(
    p: CopyLiveDaemonWouldSubmitRef,
    q: Request,
    o: ApprovedOrder,
    base: int,
) -> bool {
    &&& p.record_index == base + q.offset
    &&& p.signal_id == q.record.signal->0.signal_id
    &&& p.leader_id == q.record.leader_id
    &&& p.leader_address == q.record.leader_address
    &&& p.order == order_plan(o)
}

/// What would be sent for an approved order.
pub open spec fn order_plan(o: ApprovedOrder) -> CopyExecutionCanaryWouldSubmit {
    CopyExecutionCanaryWouldSubmit {
        account_id: o.account_id,
        worker_id: o.worker_id,
        coin: o.coin,
        side: o.side,
        notional_usd: o.notional_usd,
        reduce_only: o.reduce_only,
        cloid: o.cloid,
    }
}

/// The positions of the approved orders among the first `n` answers.
pub open spec fn approvals_upto(decisions: Seq<RiskDecision>, n: int) -> Seq<int>
    decreases n,
{
    if n <= 0 {
        Seq::empty()
    } else if decisions[n - 1] is Approved {
        approvals_upto(decisions, n - 1).push(n - 1)
    } else {
        approvals_upto(decisions, n - 1)
    }
}

/// The positions of the approved orders.
pub open spec fn approvals(decisions: Seq<RiskDecision>) -> Seq<int> {
    approvals_upto(decisions, decisions.len() as int)
}

/// The positions of approved orders come in order, and are those of approved
/// orders.
pub proof fn approvals_meaning(decisions: Seq<RiskDecision>, n: int)
    requires
        0 <= n <= decisions.len(),
    ensures
        approvals_upto(decisions, n).len() <= n,
        forall|k: int|
            0 <= k < approvals_upto(decisions, n).len() ==> 0 <= #[trigger] approvals_upto(
                decisions,
                n,
            )[k] < n && decisions[approvals_upto(decisions, n)[k]] is Approved,
    decreases n,
{
    if n > 0 {
        approvals_meaning(decisions, n - 1);
        let a = approvals_upto(decisions, n - 1);
        let r = approvals_upto(decisions, n);
        assert forall|k: int| 0 <= k < r.len() implies 0 <= #[trigger] r[k] < n
            && decisions[r[k]] is Approved by {
            if k < a.len() {
                assert(r[k] == a[k]);
            }
        }
    }
}

fn planned_order(o: &ApprovedOrder) -> (r: CopyExecutionCanaryWouldSubmit)
    ensures
        r == order_plan(*o),
{
    CopyExecutionCanaryWouldSubmit {
        account_id: o.account_id.clone(),
        worker_id: o.worker_id.clone(),
        coin: o.coin.clone(),
        side: o.side,
        notional_usd: o.notional_usd,
        reduce_only: o.reduce_only,
        cloid: o.cloid.clone(),
    }
}

proof fn request_offsets(config: AppConfig, records: Seq<CopyDryRunShadowRecord>, n: int)
    requires
        0 <= n <= records.len(),
        requests_upto(config, records, n) is Ok,
    ensures
        forall|i: int|
            0 <= i < requests_upto(config, records, n)->Ok_0.len() ==> 0 <= (
            #[trigger] requests_upto(config, records, n)->Ok_0[i]).offset < n,
    decreases n,
{
    if n > 0 {
        request_offsets(config, records, n - 1);
        let before = requests_upto(config, records, n - 1)->Ok_0;
        let all = requests_upto(config, records, n)->Ok_0;
        if approved_record(records[n - 1]) {
            let accounts = records[n - 1].signal->0.target_accounts@;
            account_offsets(config, records[n - 1], n - 1, accounts, accounts.len() as int);
            let more = account_requests(
                config,
                records[n - 1],
                n - 1,
                accounts,
                accounts.len() as int,
            )->Ok_0;
            assert forall|i: int| 0 <= i < all.len() implies 0 <= (#[trigger] all[i]).offset < n by {
                if i < before.len() {
                    assert(all[i] == before[i]);
                } else {
                    assert(all[i] == more[i - before.len()]);
                }
            }
        }
    }
}

proof fn account_offsets(
    config: AppConfig,
    record: CopyDryRunShadowRecord,
    offset: int,
    accounts: Seq<String>,
    n: int,
)
    requires
        account_requests(config, record, offset, accounts, n) is Ok,
    ensures
        forall|i: int|
            0 <= i < account_requests(config, record, offset, accounts, n)->Ok_0.len() ==> (
            #[trigger] account_requests(config, record, offset, accounts, n)->Ok_0[i]).offset
                == offset,
    decreases n,
{
    if n > 0 {
        account_offsets(config, record, offset, accounts, n - 1);
    }
}

/// The plans that follow from the answers of the risk gateway. There is one
/// answer for each order it was asked about.
pub fn plan_copy_daemon_acceptance_order_refs_with_offset(
    config: &AppConfig,
    records: &Vec<CopyDryRunShadowRecord>,
    decisions: &Vec<RiskDecision>,
    base_record_index: usize,
) -> (r: Result<Vec<CopyLiveDaemonWouldSubmitRef>, String>)
    requires
        requests_of(*config, records@) matches Ok(q) ==> decisions@.len() == q.len(),
        base_record_index + records@.len() <= usize::MAX,
    ensures
        match requests_of(*config, records@) {
            Err(e) => r is Err && r->Err_0@ == e,
            Ok(q) => r is Ok && r->Ok_0@.len() == approvals(decisions@).len() && forall|k: int|
                0 <= k < r->Ok_0@.len() ==> plan_for(
                    #[trigger] r->Ok_0@[k],
                    q[approvals(decisions@)[k]],
                    decisions@[approvals(decisions@)[k]]->Approved_0,
                    base_record_index as int,
                ),
        },
{
    let requests: Vec<OrderRequest> = match order_requests(config, records) {
        Err(e) => {
            return Err(e);
        },
        Ok(v) => v,
    };
    let ghost q = requests_of(*config, records@)->Ok_0;
    proof {
        request_offsets(*config, records@, records@.len() as int);
    }
    let mut plans: Vec<CopyLiveDaemonWouldSubmitRef> = Vec::new();
    let mut i: usize = 0;
    while i < requests.len()
        invariant
            i <= requests@.len() == decisions@.len() == q.len(),
            requests_match(requests@, q),
            base_record_index + records@.len() <= usize::MAX,
            forall|k: int| 0 <= k < q.len() ==> 0 <= (#[trigger] q[k]).offset < records@.len(),
            plans@.len() == approvals_upto(decisions@, i as int).len(),
            forall|k: int|
                0 <= k < plans@.len() ==> plan_for(
                    #[trigger] plans@[k],
                    q[approvals_upto(decisions@, i as int)[k]],
                    decisions@[approvals_upto(decisions@, i as int)[k]]->Approved_0,
                    base_record_index as int,
                ),
        decreases requests@.len() - i,
    {
        let ghost before = approvals_upto(decisions@, i as int);
        let ghost old_plans = plans@;
        assert(request_for(requests@[i as int], q[i as int]));
        match &decisions[i] {
            RiskDecision::Approved(o) => {
                plans.push(
                    CopyLiveDaemonWouldSubmitRef {
                        record_index: base_record_index + requests[i].record_offset,
                        signal_id: requests[i].signal_id.clone(),
                        leader_id: requests[i].leader_id.clone(),
                        leader_address: requests[i].leader_address.clone(),
                        order: planned_order(o),
                    },
                );
                proof {
                    let now = approvals_upto(decisions@, i as int + 1);
                    assert(now == before.push(i as int));
                    assert forall|k: int| 0 <= k < plans@.len() implies plan_for(
                        #[trigger] plans@[k],
                        q[now[k]],
                        decisions@[now[k]]->Approved_0,
                        base_record_index as int,
                    ) by {
                        if k < old_plans.len() {
                            assert(plans@[k] == old_plans[k]);
                            assert(now[k] == before[k]);
                        }
                    }
                }
            },
            RiskDecision::Rejected(_x) => {},
        }
        i += 1;
    }
    Ok(plans)
}

/// The plans that follow from the answers of the risk gateway, counted from the
/// first record.
pub fn plan_copy_daemon_acceptance_order_refs(
    config: &AppConfig,
    records: &Vec<CopyDryRunShadowRecord>,
    decisions: &Vec<RiskDecision>,
) -> (r: Result<Vec<CopyLiveDaemonWouldSubmitRef>, String>)
    requires
        requests_of(*config, records@) matches Ok(q) ==> decisions@.len() == q.len(),
    ensures
        match requests_of(*config, records@) {
            Err(e) => r is Err && r->Err_0@ == e,
            Ok(q) => r is Ok && r->Ok_0@.len() == approvals(decisions@).len() && forall|k: int|
                0 <= k < r->Ok_0@.len() ==> plan_for(
                    #[trigger] r->Ok_0@[k],
                    q[approvals(decisions@)[k]],
                    decisions@[approvals(decisions@)[k]]->Approved_0,
                    0,
                ),
        },
{
    // The number of records fits in a `usize`.
    let _n: usize = records.len();
    plan_copy_daemon_acceptance_order_refs_with_offset(config, records, decisions, 0)
}

/// What would be sent for the approved orders, in order.
pub open spec fn approved_plans(decisions: Seq<RiskDecision>) -> Seq<
    CopyExecutionCanaryWouldSubmit,
>
    decreases decisions.len(),
{
    if decisions.len() == 0 {
        Seq::empty()
    } else {
        let before = approved_plans(decisions.drop_last());
        match decisions.last() {
            RiskDecision::Approved(o) => before.push(order_plan(o)),
            RiskDecision::Rejected(_x) => before,
        }
    }
}

/// The orders that follow from the answers of the risk gateway.
pub fn plan_copy_canary_orders(
    config: &AppConfig,
    records: &Vec<CopyDryRunShadowRecord>,
    decisions: &Vec<RiskDecision>,
) -> (r: Result<Vec<CopyExecutionCanaryWouldSubmit>, String>)
    ensures
        match requests_of(*config, records@) {
            Err(e) => r is Err && r->Err_0@ == e,
            Ok(_q) => r is Ok && r->Ok_0@ == approved_plans(decisions@),
        },
{
    match order_requests(config, records) {
        Err(e) => {
            return Err(e);
        },
        Ok(_v) => {},
    }
    let mut plans: Vec<CopyExecutionCanaryWouldSubmit> = Vec::new();
    let mut i: usize = 0;
    while i < decisions.len()
        invariant
            i <= decisions@.len(),
            plans@ == approved_plans(decisions@.subrange(0, i as int)),
        decreases decisions@.len() - i,
    {
        assert(decisions@.subrange(0, i as int + 1).drop_last() =~= decisions@.subrange(
            0,
            i as int,
        ));
        match &decisions[i] {
            RiskDecision::Approved(o) => {
                plans.push(planned_order(o));
            },
            RiskDecision::Rejected(_x) => {},
        }
        i += 1;
    }
    proof {
        whole(decisions@);
    }
    Ok(plans)
}

/// The orders of the plans that follow from the answers of the risk gateway.
pub fn plan_copy_daemon_acceptance_orders(
    config: &AppConfig,
    records: &Vec<CopyDryRunShadowRecord>,
    decisions: &Vec<RiskDecision>,
) -> (r: Result<Vec<CopyExecutionCanaryWouldSubmit>, String>)
    requires
        requests_of(*config, records@) matches Ok(q) ==> decisions@.len() == q.len(),
    ensures
        match requests_of(*config, records@) {
            Err(e) => r is Err && r->Err_0@ == e,
            Ok(_q) => r is Ok && r->Ok_0@.len() == approvals(decisions@).len() && forall|k: int|
                0 <= k < r->Ok_0@.len() ==> #[trigger] r->Ok_0@[k] == order_plan(
                    decisions@[approvals(decisions@)[k]]->Approved_0,
                ),
        },
{
    match plan_copy_daemon_acceptance_order_refs(config, records, decisions) {
        Err(e) => Err(e),
        Ok(plans) => {
            let orders: Vec<CopyExecutionCanaryWouldSubmit> =
                copy_live_daemon_order_refs_to_orders(
                &plans,
            );
            assert forall|k: int| 0 <= k < orders@.len() implies #[trigger] orders@[k]
                == order_plan(decisions@[approvals(decisions@)[k]]->Approved_0) by {
                assert(orders_of(plans@)[k] == plans@[k].order);
            }
            Ok(orders)
        },
    }
}

/// The id of the intent of a plan.
pub open spec fn intent_id(p: CopyLiveDaemonWouldSubmitRef) -> Seq<char> {
    "copy-daemon-intent-"@ + dec(p.record_index as nat) + "-"@ + p.signal_id@
}

/// Whether an intent asks for what a plan plans.
pub open spec fn intent_for(
    t: TradeIntent,
    p: CopyLiveDaemonWouldSubmitRef,
    max_slippage_bps: Fixed,
    now_ms: u64,
    reason: Seq<char>,
) -> bool {
    &&& t.intent_id@ == intent_id(p)
    &&& t.signal_id == Some(p.signal_id)
    &&& t.worker_id == p.order.worker_id
    &&& t.account_id == p.order.account_id
    &&& t.target_accounts@ == seq![p.order.account_id]
    &&& t.strategy_id@ == "smart_money_copy"@
    &&& t.created_at_ms == now_ms
    &&& t.market is Some && t.market->0@ == coin_market(p.order.coin@)
    &&& t.dex is Some && t.dex->0@ == coin_dex(p.order.coin@)
    &&& t.coin == p.order.coin
    &&& t.side == p.order.side
    &&& t.intent_kind == if p.order.reduce_only {
        IntentKind::Reduce
    } else {
        IntentKind::Open
    }
    &&& t.notional_usd == p.order.notional_usd
    &&& t.max_slippage_bps == max_slippage_bps
    &&& t.reduce_only == p.order.reduce_only
    &&& t.reason@ == reason
    &&& t.source_event_id == Some(p.signal_id)
    &&& t.expires_at_ms is None
}

fn intent_with_reason(
    plan: &CopyLiveDaemonWouldSubmitRef,
    max_slippage_bps: Fixed,
    now_ms: u64,
    reason: String,
) -> (r: TradeIntent)
    ensures
        intent_for(r, *plan, max_slippage_bps, now_ms, reason@),
{
    let mut id: String = "copy-daemon-intent-".to_owned();
    push_count(&mut id, plan.record_index);
    id.append("-");
    id.append(plan.signal_id.as_str());
    let (market, dex) = copy_daemon_market_dex_for_coin(plan.order.coin.as_str());
    let intent_kind: IntentKind = if plan.order.reduce_only {
        IntentKind::Reduce
    } else {
        IntentKind::Open
    };
    let accounts: Vec<String> = vec![plan.order.account_id.clone()];
    assert(accounts@ =~= seq![plan.order.account_id]);
    TradeIntent {
        intent_id: id,
        signal_id: Some(plan.signal_id.clone()),
        worker_id: plan.order.worker_id.clone(),
        account_id: plan.order.account_id.clone(),
        target_accounts: accounts,
        strategy_id: "smart_money_copy".to_owned(),
        created_at_ms: now_ms,
        market,
        dex,
        coin: plan.order.coin.clone(),
        side: plan.order.side,
        intent_kind,
        notional_usd: plan.order.notional_usd,
        max_slippage_bps,
        reduce_only: plan.order.reduce_only,
        reason,
        source_event_id: Some(plan.signal_id.clone()),
        expires_at_ms: None,
    }
}

/// What the risk gateway is asked before a plan is sent.
pub fn copy_daemon_submit_intent(
    plan: &CopyLiveDaemonWouldSubmitRef,
    max_slippage_bps: Fixed,
    now_ms: u64,
) -> (r: TradeIntent)
    ensures
        intent_for(
            r,
            *plan,
            max_slippage_bps,
            now_ms,
            "persistent daemon submit ref "@ + dec(plan.record_index as nat) + " from leader "@
                + plan.leader_id@,
        ),
{
    let mut reason: String = "persistent daemon submit ref ".to_owned();
    push_count(&mut reason, plan.record_index);
    reason.append(" from leader ");
    reason.append(plan.leader_id.as_str());
    intent_with_reason(plan, max_slippage_bps, now_ms, reason)
}

/// What the risk gateway is asked when sending is only rehearsed.
pub fn copy_daemon_dry_run_intent(
    plan: &CopyLiveDaemonWouldSubmitRef,
    max_slippage_bps: Fixed,
    now_ms: u64,
) -> (r: TradeIntent)
    ensures
        intent_for(
            r,
            *plan,
            max_slippage_bps,
            now_ms,
            "persistent daemon submit dry-run plan"@,
        ),
{
    intent_with_reason(
        plan,
        max_slippage_bps,
        now_ms,
        "persistent daemon submit dry-run plan".to_owned(),
    )
}

/// The order that is sent for a plan: the approved one, under the client id of
/// the plan.
pub open spec fn owned_order(o: ApprovedOrder, p: CopyLiveDaemonWouldSubmitRef) -> ApprovedOrder {
    ApprovedOrder { cloid: p.order.cloid, ..o }
}

/// What a refusal of the risk gateway says.
pub open spec fn refusal_text(x: RiskRejection) -> Seq<char> {
    "persistent daemon submit ref rejected by RiskGateway: "@ + x.reason_code@ + " "@ + x.message@
}

fn refusal_message(x: &RiskRejection) -> (r: String)
    ensures
        r@ == refusal_text(*x),
{
    let mut e: String = "persistent daemon submit ref rejected by RiskGateway: ".to_owned();
    e.append(x.reason_code.as_str());
    e.append(" ");
    e.append(x.message.as_str());
    e
}

/// The order that is sent for a plan, given the answer of the risk gateway.
pub fn approved_copy_daemon_order_from_ref(
    plan: &CopyLiveDaemonWouldSubmitRef,
    decision: RiskDecision,
) -> (r: Result<ApprovedOrder, String>)
    ensures
        match decision {
            RiskDecision::Approved(o) => r is Ok && r->Ok_0 == owned_order(o, *plan),
            RiskDecision::Rejected(x) => r is Err && r->Err_0@ == refusal_text(x),
        },
{
    match decision {
        RiskDecision::Approved(o) => {
            let mut order: ApprovedOrder = o;
            order.cloid = plan.order.cloid.clone();
            Ok(order)
        },
        RiskDecision::Rejected(x) => Err(refusal_message(&x)),
    }
}

/// What is said of an opening order that is too small for the exchange.
pub open spec fn below_minimum_text(
    account: Seq<char>,
    coin: Seq<char>,
    requested: int,
    effective: int,
) -> Seq<char> {
    "copy submit skipped before exchange: "@ + account + " "@ + coin + " requested_notional="@
        + fixed6(requested) + " effective_notional="@ + fixed6(effective)
        + " below exchange minimum "@ + fixed6(HYPERLIQUID_MIN_ORDER_NOTIONAL_USD as int)
}

/// Whether an opening order is too small for the exchange once its size was
/// rounded; the message says so.
pub fn copy_live_daemon_open_order_effective_min_check(
    order: &ApprovedOrder,
    effective_notional: Fixed,
) -> (r: Option<String>)
    ensures
        (r is Some) == (!order.reduce_only && effective_notional + 1
            < HYPERLIQUID_MIN_ORDER_NOTIONAL_USD),
        r is Some ==> r->0@ == below_minimum_text(
            order.account_id@,
            order.coin@,
            order.notional_usd as int,
            effective_notional as int,
        ),
{
    if order.reduce_only || effective_notional >= HYPERLIQUID_MIN_ORDER_NOTIONAL_USD - 1 {
        return None;
    }
    let mut s: String = "copy submit skipped before exchange: ".to_owned();
    s.append(order.account_id.as_str());
    s.append(" ");
    s.append(order.coin.as_str());
    s.append(" requested_notional=");
    push_fixed6(&mut s, order.notional_usd);
    s.append(" effective_notional=");
    push_fixed6(&mut s, effective_notional);
    s.append(" below exchange minimum ");
    push_fixed6(&mut s, HYPERLIQUID_MIN_ORDER_NOTIONAL_USD);
    Some(s)
}

/// An order that is skipped as too small counts as safely skipped.
pub proof fn below_minimum_is_a_safe_skip(
    account: Seq<char>,
    coin: Seq<char>,
    requested: int,
    effective: int,
)
    ensures
        safe_skip_message(
            below_minimum_text(account, coin, requested, effective),
        ),
{
    let head = "copy submit skipped before exchange: "@;
    let needle = "copy submit skipped before exchange"@;
    let tail = " below exchange minimum "@;
    let needle2 = "below exchange minimum"@;
    let mid = account + " "@ + coin + " requested_notional="@ + fixed6(requested)
        + " effective_notional="@ + fixed6(effective);
    let end = fixed6(HYPERLIQUID_MIN_ORDER_NOTIONAL_USD as int);
    let m = below_minimum_text(account, coin, requested, effective);
    let low = lower(m);
    assert(m =~= head + mid + tail + end);
    reveal_strlit("copy submit skipped before exchange: ");
    reveal_strlit("copy submit skipped before exchange");
    reveal_strlit(" below exchange minimum ");
    reveal_strlit("below exchange minimum");
    assert(low.subrange(0, needle.len() as int) =~= needle) by {
        assert forall|i: int| 0 <= i < needle.len() implies low[i] == needle[i] by {
            assert(m[i] == head[i]);
            assert(head[i] == needle[i]);
        }
    }
    assert(occurs_at(low, needle, 0));
    let k: int = (head.len() + mid.len() + 1) as int;
    assert(low.subrange(k, k + needle2.len()) =~= needle2) by {
        assert forall|i: int| 0 <= i < needle2.len() implies low[k + i] == needle2[i] by {
            assert(m[k + i] == tail[i + 1]);
            assert(tail[i + 1] == needle2[i]);
        }
    }
    assert(occurs_at(low, needle2, k));
}

/// A record leads to orders exactly where it was approved and carries a signal.
pub proof fn only_approved_signals_lead_to_orders(
    records: Seq<CopyDryRunShadowRecord>,
    r: CopyDryRunShadowRecord,
)
    ensures
        records.push(r).filter(leads_to_orders()) == if r.risk_decision is Approved && r.signal
            is Some {
            records.filter(leads_to_orders()).push(r)
        } else {
            records.filter(leads_to_orders())
        },
{
    reveal(Seq::filter);
    assert(records.push(r).drop_last() =~= records);
}

/// One more account of a record adds one request, for that record and account,
/// unless the account is not configured or an earlier one was not.
pub proof fn each_account_is_asked_for_once(
    config: AppConfig,
    record: CopyDryRunShadowRecord,
    offset: int,
    accounts: Seq<String>,
    n: int,
)
    requires
        0 <= n < accounts.len(),
    ensures
        account_requests(config, record, offset, accounts, 0) == Ok::<Seq<Request>, Seq<char>>(
            Seq::empty(),
        ),
        ({
            let before = account_requests(config, record, offset, accounts, n);
            let after = account_requests(config, record, offset, accounts, n + 1);
            if before is Err {
                after == before
            } else if config.account_of(accounts[n]@) is None {
                after == Err::<Seq<Request>, Seq<char>>("account "@ + accounts[n]@ + " not found"@)
            } else {
                after == Ok::<Seq<Request>, Seq<char>>(
                    before->Ok_0.push(Request { record, offset, account: accounts[n]@ }),
                )
            }
        }),
{
}

/// One more record adds the requests of all accounts of its signal, under its
/// own position, where it was approved and carries a signal, and otherwise
/// nothing.
pub proof fn each_record_asks_for_its_accounts(
    config: AppConfig,
    records: Seq<CopyDryRunShadowRecord>,
    n: int,
)
    requires
        0 <= n < records.len(),
    ensures
        requests_of(config, records) == requests_upto(config, records, records.len() as int),
        requests_upto(config, records, 0) == Ok::<Seq<Request>, Seq<char>>(Seq::empty()),
        ({
            let before = requests_upto(config, records, n);
            let after = requests_upto(config, records, n + 1);
            let r = records[n];
            let accounts = r.signal->0.target_accounts@;
            let own = account_requests(config, r, n, accounts, accounts.len() as int);
            if before is Err || !(r.risk_decision is Approved && r.signal is Some) {
                after == before
            } else if own is Err {
                after == own
            } else {
                after == Ok::<Seq<Request>, Seq<char>>(before->Ok_0 + own->Ok_0)
            }
        }),
{
}

/// A request is for the account of its record, with the side, kind and notional
/// that were approved there.
pub proof fn a_request_asks_for_what_was_approved(r: OrderRequest, q: Request)
    requires
        request_for(r, q),
    ensures
        r.record_offset == q.offset,
        r.account_id@ == q.account,
        r.worker_id@ == "worker-"@ + q.account,
        r.signal_id@ == q.record.signal->0.signal_id@,
        r.leader_id@ == q.record.leader_id@,
        r.leader_address@ == q.record.leader_address@,
        q.record.risk_decision is Approved,
        r.side == q.record.risk_decision->side,
        r.reduce_only == q.record.risk_decision->reduce_only,
        r.notional_usd == q.record.risk_decision->notional_usd,
{
}

/// A plan is for the order that was approved, under its own client id, and names
/// the record and signal behind it.
pub proof fn a_plan_carries_the_approved_order(
    p: CopyLiveDaemonWouldSubmitRef,
    q: Request,
    o: ApprovedOrder,
    base: int,
)
    requires
        plan_for(p, q, o, base),
    ensures
        p.record_index == base + q.offset,
        p.signal_id@ == q.record.signal->0.signal_id@,
        p.leader_id@ == q.record.leader_id@,
        p.leader_address@ == q.record.leader_address@,
        p.order.account_id@ == o.account_id@,
        p.order.worker_id@ == o.worker_id@,
        p.order.coin@ == o.coin@,
        p.order.side == o.side,
        p.order.notional_usd == o.notional_usd,
        p.order.reduce_only == o.reduce_only,
        p.order.cloid@ == o.cloid@,
{
}

/// Exactly the approved orders are planned, in order and as they were approved.
pub proof fn every_approved_order_is_planned(decisions: Seq<RiskDecision>, d: RiskDecision)
    ensures
        approved_plans(Seq::empty()).len() == 0,
        approvals(Seq::empty()).len() == 0,
        d is Rejected ==> approved_plans(decisions.push(d)) == approved_plans(decisions),
        d is Rejected ==> approvals(decisions.push(d)) == approvals(decisions),
        d is Approved ==> ({
            let after = approved_plans(decisions.push(d));
            let p = after.last();
            let o = d->Approved_0;
            &&& after == approved_plans(decisions).push(p)
            &&& p.account_id@ == o.account_id@ && p.worker_id@ == o.worker_id@ && p.coin@ == o.coin@
            &&& p.side == o.side && p.notional_usd == o.notional_usd && p.reduce_only
                == o.reduce_only && p.cloid@ == o.cloid@
        }),
        d is Approved ==> approvals(decisions.push(d)) == approvals(decisions).push(
            decisions.len() as int,
        ),
{
    assert(decisions.push(d).drop_last() =~= decisions);
    approvals_prefix(decisions, d, decisions.len() as int);
}

proof fn approvals_prefix(decisions: Seq<RiskDecision>, d: RiskDecision, n: int)
    requires
        0 <= n <= decisions.len(),
    ensures
        approvals_upto(decisions.push(d), n) == approvals_upto(decisions, n),
    decreases n,
{
    if n > 0 {
        approvals_prefix(decisions, d, n - 1);
        assert(decisions.push(d)[n - 1] == decisions[n - 1]);
    }
}

/// An intent asks for what its plan plans and for nothing else: its account
/// alone, its coin and side, its notional, and a reduction exactly where the plan
/// is one.
pub proof fn an_intent_asks_for_its_plan(
    t: TradeIntent,
    p: CopyLiveDaemonWouldSubmitRef,
    max_slippage_bps: Fixed,
    now_ms: u64,
    reason: Seq<char>,
)
    requires
        intent_for(t, p, max_slippage_bps, now_ms, reason),
    ensures
        t.account_id@ == p.order.account_id@,
        t.target_accounts@.len() == 1 && t.target_accounts@[0]@ == p.order.account_id@,
        t.worker_id@ == p.order.worker_id@,
        t.coin@ == p.order.coin@,
        t.side == p.order.side,
        t.notional_usd == p.order.notional_usd,
        t.reduce_only == p.order.reduce_only,
        t.intent_kind == IntentKind::Reduce <==> p.order.reduce_only,
        t.intent_kind == IntentKind::Open <==> !p.order.reduce_only,
        t.max_slippage_bps == max_slippage_bps,
        t.created_at_ms == now_ms,
        t.signal_id is Some && t.signal_id->0@ == p.signal_id@,
        t.intent_id@ == "copy-daemon-intent-"@ + dec(p.record_index as nat) + "-"@ + p.signal_id@,
        t.market is Some && t.market->0@ == coin_market(p.order.coin@),
        t.dex is Some && t.dex->0@ == coin_dex(p.order.coin@),
{
}

/// The order that is sent is the approved one but for its client id, which is
/// that of the plan.
pub proof fn an_order_is_sent_under_the_plans_client_id(
    o: ApprovedOrder,
    p: CopyLiveDaemonWouldSubmitRef,
)
    ensures
        owned_order(o, p).cloid@ == p.order.cloid@,
        owned_order(o, p) == (ApprovedOrder { cloid: owned_order(o, p).cloid, ..o }),
{
}

} // verus!
