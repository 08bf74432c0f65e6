//! Orders, worker reports and exchange records.

use vstd::prelude::*;

use crate::decimal::Fixed;
use crate::text::{ascii_lower, clone_opt, lower, same_text, trim, trimmed};

verus! {

/// The side of an order.
#[derive(Clone, Copy, Debug, PartialEq, Eq, Structural)]
pub enum OrderSide {
    Buy,
    Sell,
}

/// How an order meets the book.
#[derive(Clone, Copy, Debug, PartialEq, Eq, Structural)]
pub enum ExecutionMode {
    Taker,
    Maker,
}

/// What an intent does to the local position.
#[derive(Clone, Copy, Debug, PartialEq, Eq, Structural)]
pub enum IntentKind {
    Open,
    Reduce,
}

/// An order that a worker handed to the exchange or simulated.
#[derive(Debug)]
pub struct OrderSubmitted {
    pub signal_id: String,
    pub intent_id: String,
    pub worker_id: String,
    pub account_id: String,
    pub cloid: String,
    pub coin: String,
    pub side: OrderSide,
    pub notional_usd: Fixed,
    pub submitted_price: Option<Fixed>,
    pub submitted_size: Option<Fixed>,
    pub exchange_status: Option<String>,
    pub oid: Option<u64>,
    pub filled_size: Option<Fixed>,
    pub avg_fill_price: Option<Fixed>,
    pub dry_run: bool,
    pub submitted_at_ms: u64,
}

/// A worker's receipt for an order.
#[derive(Debug)]
pub struct WorkerAck {
    pub worker_id: String,
    pub account_id: String,
}

/// The refusal of an intent by the risk gateway.
#[derive(Debug)]
pub struct RiskRejection {
    pub worker_id: String,
    pub account_id: String,
    pub reason_code: String,
    pub message: String,
}

/// A failure on the way to the exchange.
#[derive(Debug)]
pub struct WorkerError {
    pub worker_id: String,
    pub account_id: String,
    pub message: String,
    pub error_at_ms: u64,
}

/// What a worker reports for one order.
#[derive(Debug)]
pub enum WorkerReport {
    Submitted(OrderSubmitted),
    Ack(WorkerAck),
    Rejected(RiskRejection),
    Error(WorkerError),
}

/// One fill of an account, as the exchange lists it.
#[derive(Debug)]
pub struct UserFill {
    pub coin: String,
    pub px: String,
    pub sz: String,
    pub side: String,
    pub time: u64,
    pub dir: String,
    pub closed_pnl: String,
    pub hash: String,
    pub oid: u64,
    pub crossed: bool,
    pub fee: String,
}

/// The order inside an order status answer.
#[derive(Debug)]
pub struct OrderStatusOrder {
    pub coin: String,
    pub side: String,
    pub limit_px: String,
    pub sz: String,
    pub oid: u64,
    pub timestamp: u64,
    pub reduce_only: bool,
    pub orig_sz: String,
    pub cloid: Option<String>,
}

/// An order with its status.
#[derive(Clone, Debug)]
pub struct OrderStatusInfo {
    pub order: OrderStatusOrder,
    pub status: String,
    pub status_timestamp: u64,
}

/// The exchange's answer to an order status query.
#[derive(Debug)]
pub struct OrderStatusResponse {
    pub status: String,
    pub order: Option<OrderStatusInfo>,
}

impl Clone for OrderSubmitted {
    fn clone(&self) -> (r: Self)
        ensures
            r == *self,
    {
        OrderSubmitted {
            signal_id: self.signal_id.clone(),
            intent_id: self.intent_id.clone(),
            worker_id: self.worker_id.clone(),
            account_id: self.account_id.clone(),
            cloid: self.cloid.clone(),
            coin: self.coin.clone(),
            side: self.side,
            notional_usd: self.notional_usd,
            submitted_price: self.submitted_price,
            submitted_size: self.submitted_size,
            exchange_status: clone_opt(&self.exchange_status),
            oid: self.oid,
            filled_size: self.filled_size,
            avg_fill_price: self.avg_fill_price,
            dry_run: self.dry_run,
            submitted_at_ms: self.submitted_at_ms,
        }
    }
}

impl Clone for WorkerAck {
    fn clone(&self) -> (r: Self)
        ensures
            r == *self,
    {
        WorkerAck { worker_id: self.worker_id.clone(), account_id: self.account_id.clone() }
    }
}

impl Clone for RiskRejection {
    fn clone(&self) -> (r: Self)
        ensures
            r == *self,
    {
        RiskRejection {
            worker_id: self.worker_id.clone(),
            account_id: self.account_id.clone(),
            reason_code: self.reason_code.clone(),
            message: self.message.clone(),
        }
    }
}

impl Clone for WorkerError {
    fn clone(&self) -> (r: Self)
        ensures
            r == *self,
    {
        WorkerError {
            worker_id: self.worker_id.clone(),
            account_id: self.account_id.clone(),
            message: self.message.clone(),
            error_at_ms: self.error_at_ms,
        }
    }
}

impl Clone for WorkerReport {
    fn clone(&self) -> (r: Self)
        ensures
            r == *self,
    {
        match self {
            WorkerReport::Submitted(x) => WorkerReport::Submitted(x.clone()),
            WorkerReport::Ack(x) => WorkerReport::Ack(x.clone()),
            WorkerReport::Rejected(x) => WorkerReport::Rejected(x.clone()),
            WorkerReport::Error(x) => WorkerReport::Error(x.clone()),
        }
    }
}

impl Clone for UserFill {
    fn clone(&self) -> (r: Self)
        ensures
            r == *self,
    {
        UserFill {
            coin: self.coin.clone(),
            px: self.px.clone(),
            sz: self.sz.clone(),
            side: self.side.clone(),
            time: self.time,
            dir: self.dir.clone(),
            closed_pnl: self.closed_pnl.clone(),
            hash: self.hash.clone(),
            oid: self.oid,
            crossed: self.crossed,
            fee: self.fee.clone(),
        }
    }
}

impl Clone for OrderStatusOrder {
    fn clone(&self) -> (r: Self)
        ensures
            r == *self,
    {
        OrderStatusOrder {
            coin: self.coin.clone(),
            side: self.side.clone(),
            limit_px: self.limit_px.clone(),
            sz: self.sz.clone(),
            oid: self.oid,
            timestamp: self.timestamp,
            reduce_only: self.reduce_only,
            orig_sz: self.orig_sz.clone(),
            cloid: clone_opt(&self.cloid),
        }
    }
}

impl Clone for OrderStatusResponse {
    fn clone(&self) -> (r: Self)
        ensures
            r == *self,
    {
        let order: Option<OrderStatusInfo> = match &self.order {
            Some(info) => Some(
                OrderStatusInfo {
                    order: info.order.clone(),
                    status: info.status.clone(),
                    status_timestamp: info.status_timestamp,
                },
            ),
            None => None,
        };
        OrderStatusResponse { status: self.status.clone(), order }
    }
}

/// The side that undoes a side.
pub open spec fn opposite(side: OrderSide) -> OrderSide {
    match side {
        OrderSide::Buy => OrderSide::Sell,
        OrderSide::Sell => OrderSide::Buy,
    }
}

/// The side that undoes a side.
pub fn opposite_order_side(side: OrderSide) -> (r: OrderSide)
    ensures
        r == opposite(side),
{
    match side {
        OrderSide::Buy => OrderSide::Sell,
        OrderSide::Sell => OrderSide::Buy,
    }
}

/// Undoing a side twice gives the side back, and no side undoes itself.
pub proof fn opposite_is_an_involution(side: OrderSide)
    ensures
        opposite(opposite(side)) == side,
        opposite(side) != side,
{
}

/// The key text of a side.
pub open spec fn side_key(side: OrderSide) -> Seq<char> {
    match side {
        OrderSide::Buy => "buy"@,
        OrderSide::Sell => "sell"@,
    }
}

/// The key text of a side.
pub fn copy_live_daemon_order_side_key(side: OrderSide) -> (r: String)
    ensures
        r@ == side_key(side),
{
    match side {
        OrderSide::Buy => "buy".to_owned(),
        OrderSide::Sell => "sell".to_owned(),
    }
}

/// The key texts tell the two sides apart.
pub proof fn side_keys_differ(a: OrderSide, b: OrderSide)
    ensures
        side_key(a) == side_key(b) <==> a == b,
{
    reveal_strlit("buy");
    reveal_strlit("sell");
    assert("buy"@.len() == 3 && "sell"@.len() == 4);
}

/// The display name of a side.
pub open spec fn side_name(side: OrderSide) -> Seq<char> {
    match side {
        OrderSide::Buy => "Buy"@,
        OrderSide::Sell => "Sell"@,
    }
}

/// Appends the display name of a side.
pub fn push_side_name(s: &mut String, side: OrderSide)
    ensures
        final(s)@ == old(s)@ + side_name(side),
{
    match side {
        OrderSide::Buy => s.append("Buy"),
        OrderSide::Sell => s.append("Sell"),
    }
}

/// The side that an operator's word names.
pub open spec fn side_named(word: Seq<char>) -> Option<OrderSide> {
    let w = lower(trimmed(word));
    if w == "buy"@ || w == "b"@ {
        Some(OrderSide::Buy)
    } else if w == "sell"@ || w == "s"@ {
        Some(OrderSide::Sell)
    } else {
        None
    }
}

/// Reads the side of an order; the error names the word that was not understood.
pub fn parse_order_side(value: &str) -> (r: Result<OrderSide, String>)
    ensures
        match side_named(value@) {
            Some(side) => r is Ok && r->Ok_0 == side,
            None => r is Err && r->Err_0@ == "unsupported side "@ + lower(trimmed(value@))
                + "; use buy or sell"@,
        },
{
    let t: String = trim(value);
    let w: String = ascii_lower(t.as_str());
    if same_text(w.as_str(), "buy") || same_text(w.as_str(), "b") {
        Ok(OrderSide::Buy)
    } else if same_text(w.as_str(), "sell") || same_text(w.as_str(), "s") {
        Ok(OrderSide::Sell)
    } else {
        let mut e: String = "unsupported side ".to_owned();
        e.append(w.as_str());
        e.append("; use buy or sell");
        Err(e)
    }
}

/// The execution mode that an operator's word names.
pub open spec fn execution_mode_named(word: Seq<char>) -> Option<ExecutionMode> {
    let w = lower(trimmed(word));
    if w == "taker"@ || w == "ioc"@ {
        Some(ExecutionMode::Taker)
    } else if w == "maker"@ || w == "alo"@ {
        Some(ExecutionMode::Maker)
    } else {
        None
    }
}

/// Reads an execution mode; the error names the word that was not understood.
pub fn parse_execution_mode(value: &str) -> (r: Result<ExecutionMode, String>)
    ensures
        match execution_mode_named(value@) {
            Some(mode) => r is Ok && r->Ok_0 == mode,
            None => r is Err && r->Err_0@ == "unsupported execution mode "@ + lower(
                trimmed(value@),
            ) + "; use taker or maker"@,
        },
{
    let t: String = trim(value);
    let w: String = ascii_lower(t.as_str());
    if same_text(w.as_str(), "taker") || same_text(w.as_str(), "ioc") {
        Ok(ExecutionMode::Taker)
    } else if same_text(w.as_str(), "maker") || same_text(w.as_str(), "alo") {
        Ok(ExecutionMode::Maker)
    } else {
        let mut e: String = "unsupported execution mode ".to_owned();
        e.append(w.as_str());
        e.append("; use taker or maker");
        Err(e)
    }
}

/// An operator names a side by its name or its first letter, and a mode by its
/// name or by how the exchange calls it, whatever the case and the space around;
/// the key of a side names that side.
pub proof fn operators_name_sides_and_modes(word: Seq<char>, side: OrderSide)
    ensures
        side_named(word) == Some(OrderSide::Buy) <==> lower(trimmed(word)) == "buy"@ || lower(
            trimmed(word),
        ) == "b"@,
        side_named(word) == Some(OrderSide::Sell) <==> lower(trimmed(word)) == "sell"@ || lower(
            trimmed(word),
        ) == "s"@,
        execution_mode_named(word) == Some(ExecutionMode::Taker) <==> lower(trimmed(word))
            == "taker"@ || lower(trimmed(word)) == "ioc"@,
        execution_mode_named(word) == Some(ExecutionMode::Maker) <==> lower(trimmed(word))
            == "maker"@ || lower(trimmed(word)) == "alo"@,
        side_key(OrderSide::Buy) == "buy"@,
        side_key(OrderSide::Sell) == "sell"@,
        side_name(OrderSide::Buy) == "Buy"@,
        side_name(OrderSide::Sell) == "Sell"@,
{
    reveal_strlit("buy");
    reveal_strlit("b");
    reveal_strlit("sell");
    reveal_strlit("s");
    reveal_strlit("taker");
    reveal_strlit("ioc");
    reveal_strlit("maker");
    reveal_strlit("alo");
    assert("buy"@.len() == 3 && "b"@.len() == 1 && "sell"@.len() == 4 && "s"@.len() == 1);
    assert("b"@[0] == 'b' && "s"@[0] == 's');
    assert("taker"@.len() == 5 && "ioc"@.len() == 3 && "maker"@.len() == 5 && "alo"@.len() == 3);
    assert("taker"@[0] == 't' && "maker"@[0] == 'm' && "ioc"@[0] == 'i' && "alo"@[0] == 'a');
}

} // verus!
