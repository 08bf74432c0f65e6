//! What the copy pipeline of an account is set up with, and the made-up leader
//! trades that it is tried out on.

use vstd::prelude::*;

use crate::config::{copy_daemon_max_signal_delay_ms, signal_delay, AccountConfig, AppConfig};
use crate::decimal::{clamp_wide, clamped, dec, push_u64, Fixed, UNIT};
use crate::domain::OrderSide;
use crate::leaders::CopyShadowSmokeLeader;
use crate::ledger::HYPERLIQUID_MIN_ORDER_NOTIONAL_USD;
use crate::market::{coin_dex, coin_market, copy_daemon_market_dex_for_coin, COPY_MAX_LEVERAGE};
use crate::options::{
    CopyExecutionCanaryOptions, CopyLiveDaemonAcceptanceOptions, CopyLiveDaemonSupervisorOptions,
    CopyShadowSmokeOptions,
};
use crate::text::clone_texts;

verus! {

/// What decides whether a pipeline may go live.
#[derive(Clone, Copy, Debug, PartialEq, Eq, Structural)]
pub struct CopyLiveGateInput {
    pub process_dry_run: bool,
    pub live_copy_enabled: bool,
    pub account_worker_live: bool,
}

/// The live switch of a pipeline that never goes live.
pub open spec fn closed_gate() -> CopyLiveGateInput {
    CopyLiveGateInput {
        process_dry_run: true,
        live_copy_enabled: false,
        account_worker_live: false,
    }
}

fn close_gate() -> (r: CopyLiveGateInput)
    ensures
        r == closed_gate(),
{
    CopyLiveGateInput { process_dry_run: true, live_copy_enabled: false, account_worker_live: false }
}

/// How a leader is copied.
#[derive(Debug)]
pub struct LeaderRule {
    pub leader_id: String,
    pub leader_address: String,
    pub enabled: bool,
    pub copy_ratio: Fixed,
}

/// The most that one signal may open in a coin.
#[derive(Debug)]
pub struct SymbolCopyLimit {
    pub coin: String,
    pub max_signal_notional_usd: Fixed,
}

/// What a copy strategy is set up with.
#[derive(Debug)]
pub struct SmartMoneyCopyConfig {
    pub strategy_id: String,
    pub default_copy_ratio: Fixed,
    pub max_slippage_bps: Fixed,
    pub leaders: Vec<LeaderRule>,
    pub symbol_limits: Vec<SymbolCopyLimit>,
}

/// What the pipeline of an account is set up with.
#[derive(Debug)]
pub struct CopyDryRunShadowConfig {
    pub local_account_id: String,
    pub target_accounts: Vec<String>,
    pub signal_ttl_ms: u64,
    pub max_signal_delay_ms: u64,
    pub account_copy_ratio: Fixed,
    pub principal_cap_usd: Fixed,
    pub leverage: Fixed,
    pub max_signal_notional_usd: Option<Fixed>,
    pub exchange_min_open_notional_usd: Fixed,
    pub allow_short: bool,
    pub max_effective_exposure_usd: Option<Fixed>,
    pub blocked_symbols: Vec<String>,
    pub live_gate: CopyLiveGateInput,
}

/// A trade of a leader.
#[derive(Debug)]
pub struct LeaderFillEvent {
    pub event_id: String,
    pub leader_id: String,
    pub leader_address: String,
    pub coin: String,
    pub side: OrderSide,
    pub price: Fixed,
    pub size: Fixed,
    pub notional_usd: Fixed,
    pub reduce_only: bool,
    pub exchange_time_ms: u64,
    pub received_at_ms: u64,
}

/// A position of a leader at one moment.
#[derive(Debug)]
pub struct LeaderPositionSnapshot {
    pub leader_id: String,
    pub market: Option<String>,
    pub dex: Option<String>,
    pub coin: String,
    pub signed_size: Fixed,
    pub position_notional_usd: Fixed,
    pub snapshot_time_ms: u64,
    pub received_at_ms: u64,
}

/// What a watch over leaders reports.
#[derive(Debug)]
pub enum CopyLeaderWatcherEvent {
    Fill {
        leader_id: String,
        leader_address: String,
        fill: LeaderFillEvent,
        is_snapshot: bool,
    },
    PositionSnapshots {
        leader_id: String,
        leader_address: String,
        dex: Option<String>,
        snapshots: Vec<LeaderPositionSnapshot>,
    },
    OrderUpdate { leader_id: String, leader_address: String },
}

/// The rules under which leaders are copied: all of them, in full.
pub open spec fn rules_copy(rules: Seq<LeaderRule>, leaders: Seq<CopyShadowSmokeLeader>) -> bool {
    &&& rules.len() == leaders.len()
    &&& forall|i: int|
        0 <= i < rules.len() ==> {
            &&& (#[trigger] rules[i]).leader_id == leaders[i].leader_id
            &&& rules[i].leader_address == leaders[i].leader_address
            &&& rules[i].enabled
            &&& rules[i].copy_ratio == UNIT
        }
}

/// Whether a strategy copies the given leaders in full under the given name.
pub open spec fn strategy_for(
    s: SmartMoneyCopyConfig,
    id: Seq<char>,
    max_slippage_bps: Fixed,
    leaders: Seq<CopyShadowSmokeLeader>,
) -> bool {
    &&& s.strategy_id@ == id
    &&& s.default_copy_ratio == UNIT
    &&& s.max_slippage_bps == max_slippage_bps
    &&& rules_copy(s.leaders@, leaders)
}

fn copy_strategy(
    id: &str,
    max_slippage_bps: Fixed,
    leaders: &Vec<CopyShadowSmokeLeader>,
) -> (r: SmartMoneyCopyConfig)
    ensures
        strategy_for(r, id@, max_slippage_bps, leaders@),
        r.symbol_limits@.len() == 0,
{
    let mut rules: Vec<LeaderRule> = Vec::new();
    let mut i: usize = 0;
    while i < leaders.len()
        invariant
            i <= leaders@.len(),
            rules_copy(rules@, leaders@.subrange(0, i as int)),
        decreases leaders@.len() - i,
    {
        rules.push(
            LeaderRule {
                leader_id: leaders[i].leader_id.clone(),
                leader_address: leaders[i].leader_address.clone(),
                enabled: true,
                copy_ratio: UNIT,
            },
        );
        i += 1;
    }
    assert(leaders@.subrange(0, i as int) =~= leaders@);
    SmartMoneyCopyConfig {
        strategy_id: id.to_owned(),
        default_copy_ratio: UNIT,
        max_slippage_bps,
        leaders: rules,
        symbol_limits: Vec::new(),
    }
}

/// The principal behind a notional: what is left of it without leverage, rounded
/// toward zero.
pub open spec fn principal(notional: int) -> int {
    if notional >= 0 {
        notional * UNIT / COPY_MAX_LEVERAGE as int
    } else {
        -(-notional * UNIT / COPY_MAX_LEVERAGE as int)
    }
}

fn principal_of(notional: Fixed) -> (r: Fixed)
    ensures
        r == principal(notional as int),
{
    if notional >= 0 {
        (notional as i128 * UNIT as i128 / COPY_MAX_LEVERAGE as i128) as i64
    } else {
        (-(-(notional as i128) * UNIT as i128 / COPY_MAX_LEVERAGE as i128)) as i64
    }
}

/// Whether a pipeline is set up for an account: sized by the account's own
/// limits, for the given targets, delay and gate.
pub open spec fn pipeline_for(
    s: CopyDryRunShadowConfig,
    config: AppConfig,
    account: AccountConfig,
    targets: Seq<String>,
    delay_ms: u64,
    gate: CopyLiveGateInput,
) -> bool {
    &&& s.local_account_id == account.account_id
    &&& s.target_accounts@ == targets
    &&& s.signal_ttl_ms == config.process.signal_ttl_ms
    &&& s.max_signal_delay_ms == delay_ms
    &&& s.account_copy_ratio == account.copy_ratio
    &&& s.principal_cap_usd == principal(account.max_order_notional_usd as int)
    &&& s.leverage == COPY_MAX_LEVERAGE
    &&& s.max_signal_notional_usd == Some(account.max_order_notional_usd)
    &&& s.exchange_min_open_notional_usd == HYPERLIQUID_MIN_ORDER_NOTIONAL_USD
    &&& s.allow_short
    &&& s.max_effective_exposure_usd == Some(account.max_order_notional_usd)
    &&& s.blocked_symbols@ == config.copy_blocked_symbols@
    &&& s.live_gate == gate
}

fn copy_pipeline(
    config: &AppConfig,
    account: &AccountConfig,
    targets: &Vec<String>,
    delay_ms: u64,
    gate: CopyLiveGateInput,
) -> (r: CopyDryRunShadowConfig)
    ensures
        pipeline_for(r, *config, *account, targets@, delay_ms, gate),
{
    CopyDryRunShadowConfig {
        local_account_id: account.account_id.clone(),
        target_accounts: clone_texts(targets),
        signal_ttl_ms: config.process.signal_ttl_ms,
        max_signal_delay_ms: delay_ms,
        account_copy_ratio: account.copy_ratio,
        principal_cap_usd: principal_of(account.max_order_notional_usd),
        leverage: COPY_MAX_LEVERAGE,
        max_signal_notional_usd: Some(account.max_order_notional_usd),
        exchange_min_open_notional_usd: HYPERLIQUID_MIN_ORDER_NOTIONAL_USD,
        allow_short: true,
        max_effective_exposure_usd: Some(account.max_order_notional_usd),
        blocked_symbols: clone_texts(&config.copy_blocked_symbols),
        live_gate: gate,
    }
}

/// What a watch that never goes live runs its pipeline with.
pub fn copy_shadow_watch_pipeline(
    config: &AppConfig,
    account: &AccountConfig,
    targets: &Vec<String>,
    leaders: &Vec<CopyShadowSmokeLeader>,
) -> (r: (SmartMoneyCopyConfig, CopyDryRunShadowConfig))
    ensures
        strategy_for(r.0, "copy_shadow_watch"@, (25 * UNIT) as Fixed, leaders@),
        r.0.symbol_limits@.len() == 0,
        pipeline_for(
            r.1,
            *config,
            *account,
            targets@,
            signal_delay(config.process.signal_ttl_ms),
            closed_gate(),
        ),
{
    let strategy: SmartMoneyCopyConfig = copy_strategy("copy_shadow_watch", 25 * UNIT, leaders);
    let delay: u64 = copy_daemon_max_signal_delay_ms(config);
    (strategy, copy_pipeline(config, account, targets, delay, close_gate()))
}

/// What a supervisor runs the pipeline of one account with. The pipeline may go
/// live where the operator allowed it and the process is not a dry run.
pub fn copy_live_daemon_supervisor_pipeline(
    config: &AppConfig,
    options: &CopyLiveDaemonSupervisorOptions,
    account: &AccountConfig,
    targets: &Vec<String>,
    leaders: &Vec<CopyShadowSmokeLeader>,
) -> (r: (SmartMoneyCopyConfig, CopyDryRunShadowConfig))
    ensures
        strategy_for(
            r.0,
            "copy_live_daemon_supervisor"@,
            options.max_slippage_bps,
            leaders@,
        ),
        r.0.symbol_limits@.len() == 0,
        pipeline_for(
            r.1,
            *config,
            *account,
            targets@,
            signal_delay(config.process.signal_ttl_ms),
            (CopyLiveGateInput {
                process_dry_run: config.app.dry_run,
                live_copy_enabled: options.live_gate && options.allow_live_submit,
                account_worker_live: !config.app.dry_run,
            }),
        ),
{
    let strategy: SmartMoneyCopyConfig = copy_strategy(
        "copy_live_daemon_supervisor",
        options.max_slippage_bps,
        leaders,
    );
    let gate: CopyLiveGateInput = CopyLiveGateInput {
        process_dry_run: config.app.dry_run,
        live_copy_enabled: options.live_gate && options.allow_live_submit,
        account_worker_live: !config.app.dry_run,
    };
    let delay: u64 = copy_daemon_max_signal_delay_ms(config);
    (strategy, copy_pipeline(config, account, targets, delay, gate))
}

/// Whether an event reports one position of a leader at one moment.
pub open spec fn position_event(
    e: CopyLeaderWatcherEvent,
    leader: CopyShadowSmokeLeader,
    coin: Seq<char>,
    signed_size: Fixed,
    notional: Fixed,
    now: u64,
    dex: Seq<char>,
) -> bool {
    match e {
        CopyLeaderWatcherEvent::PositionSnapshots { leader_id, leader_address, dex: d, snapshots } =>
        {
            &&& leader_id == leader.leader_id
            &&& leader_address == leader.leader_address
            &&& d is Some && d->0@ == dex
            &&& snapshots@.len() == 1
            &&& snapshots@[0].leader_id == leader.leader_id
            &&& snapshots@[0].market is None
            &&& snapshots@[0].dex is Some && snapshots@[0].dex->0@ == dex
            &&& snapshots@[0].coin@ == coin
            &&& snapshots@[0].signed_size == signed_size
            &&& snapshots@[0].position_notional_usd == notional
            &&& snapshots@[0].snapshot_time_ms == now
            &&& snapshots@[0].received_at_ms == now
        },
        _ => false,
    }
}

/// An event that reports one position of a leader at one moment.
pub fn copy_shadow_position_event(
    leader: &CopyShadowSmokeLeader,
    coin: &str,
    signed_size: Fixed,
    position_notional_usd: Fixed,
    now: u64,
    dex: &str,
) -> (r: CopyLeaderWatcherEvent)
    ensures
        position_event(r, *leader, coin@, signed_size, position_notional_usd, now, dex@),
{
    let snapshots: Vec<LeaderPositionSnapshot> = vec![
        LeaderPositionSnapshot {
            leader_id: leader.leader_id.clone(),
            market: None,
            dex: Some(dex.to_owned()),
            coin: coin.to_owned(),
            signed_size,
            position_notional_usd,
            snapshot_time_ms: now,
            received_at_ms: now,
        },
    ];
    CopyLeaderWatcherEvent::PositionSnapshots {
        leader_id: leader.leader_id.clone(),
        leader_address: leader.leader_address.clone(),
        dex: Some(dex.to_owned()),
        snapshots,
    }
}

/// A price: what a size cost, rounded toward zero.
pub open spec fn price(notional: int, size: int) -> int
    recommends
        size > 0,
{
    clamped(
        if notional >= 0 {
            notional * UNIT / size
        } else {
            -(-notional * UNIT / size)
        },
    )
}

fn price_of(notional: Fixed, size: Fixed) -> (r: Fixed)
    requires
        size > 0,
    ensures
        r == price(notional as int, size as int),
{
    let m: i128 = if notional >= 0 {
        notional as i128
    } else {
        -(notional as i128)
    };
    let q: i128 = m * UNIT as i128 / size as i128;
    proof {
        assert(0 <= q <= m * UNIT) by (nonlinear_arith)
            requires
                q == (m * UNIT as i128) / (size as i128) as int,
                m >= 0,
                size > 0,
                UNIT > 0,
        ;
    }
    if notional >= 0 {
        clamp_wide(q)
    } else {
        clamp_wide(-q)
    }
}

/// A made-up session: a leader without a position trades, and then holds it.
#[derive(Debug)]
pub struct SyntheticSession {
    pub strategy: SmartMoneyCopyConfig,
    pub pipeline: CopyDryRunShadowConfig,
    pub before: CopyLeaderWatcherEvent,
    pub trade: CopyLeaderWatcherEvent,
    pub after: CopyLeaderWatcherEvent,
    pub before_at_ms: u64,
    pub trade_at_ms: u64,
    pub after_at_ms: u64,
}

/// What is traded in a made-up session.
#[derive(Debug)]
pub struct SyntheticTrade {
    pub coin: String,
    pub side: OrderSide,
    pub notional_usd: Fixed,
    pub size: Fixed,
}

/// The size of a position after a trade from nothing.
pub open spec fn signed(side: OrderSide, size: Fixed) -> int {
    match side {
        OrderSide::Buy => size as int,
        OrderSide::Sell => -size,
    }
}

/// Whether an event reports the trade of a made-up session.
pub open spec fn trade_event(
    e: CopyLeaderWatcherEvent,
    event_id: Seq<char>,
    leader: CopyShadowSmokeLeader,
    t: SyntheticTrade,
    now: u64,
) -> bool {
    match e {
        CopyLeaderWatcherEvent::Fill { leader_id, leader_address, fill, is_snapshot } => {
            &&& leader_id == leader.leader_id
            &&& leader_address == leader.leader_address
            &&& !is_snapshot
            &&& fill.event_id@ == event_id
            &&& fill.leader_id == leader.leader_id
            &&& fill.leader_address == leader.leader_address
            &&& fill.coin == t.coin
            &&& fill.side == t.side
            &&& fill.price == price(t.notional_usd as int, t.size as int)
            &&& fill.size == t.size
            &&& fill.notional_usd == t.notional_usd
            &&& !fill.reduce_only
            &&& fill.exchange_time_ms == now
            &&& fill.received_at_ms == now
        },
        _ => false,
    }
}

/// The delay that a made-up session tolerates.
pub open spec fn session_delay(ttl_ms: u64) -> u64 {
    if ttl_ms > 1 {
        ttl_ms
    } else {
        1
    }
}

/// Whether a session lets a leader trade once from nothing, a millisecond
/// between one event and the next, through a pipeline that never goes live.
pub open spec fn session_for(
    s: SyntheticSession,
    strategy_id: Seq<char>,
    event_id: Seq<char>,
    config: AppConfig,
    account: AccountConfig,
    leader: CopyShadowSmokeLeader,
    targets: Seq<String>,
    t: SyntheticTrade,
    now: u64,
) -> bool {
    let dex = config.hyperliquid.dex@;
    &&& strategy_for(s.strategy, strategy_id, (25 * UNIT) as Fixed, seq![leader])
    &&& s.strategy.symbol_limits@.len() == 1
    &&& s.strategy.symbol_limits@[0].coin == t.coin
    &&& s.strategy.symbol_limits@[0].max_signal_notional_usd == t.notional_usd
    &&& pipeline_for(
        s.pipeline,
        config,
        account,
        targets,
        session_delay(config.process.signal_ttl_ms),
        closed_gate(),
    )
    &&& position_event(s.before, leader, t.coin@, 0, 0, now, dex)
    &&& trade_event(s.trade, event_id, leader, t, now)
    &&& position_event(
        s.after,
        leader,
        t.coin@,
        signed(t.side, t.size) as Fixed,
        t.notional_usd,
        (now + 2) as u64,
        dex,
    )
    &&& s.before_at_ms == now
    &&& s.trade_at_ms == now + 1
    &&& s.after_at_ms == now + 2
}

fn synthetic_session(
    strategy_id: &str,
    event_id: String,
    config: &AppConfig,
    account: &AccountConfig,
    leader: &CopyShadowSmokeLeader,
    targets: &Vec<String>,
    t: &SyntheticTrade,
    now: u64,
) -> (r: SyntheticSession)
    requires
        t.size > 0,
        now <= u64::MAX - 2,
    ensures
        session_for(r, strategy_id@, event_id@, *config, *account, *leader, targets@, *t, now),
{
    let one: Vec<CopyShadowSmokeLeader> = vec![
        CopyShadowSmokeLeader {
            leader_id: leader.leader_id.clone(),
            leader_address: leader.leader_address.clone(),
        },
    ];
    let mut strategy: SmartMoneyCopyConfig = copy_strategy(strategy_id, 25 * UNIT, &one);
    strategy.symbol_limits = vec![
        SymbolCopyLimit { coin: t.coin.clone(), max_signal_notional_usd: t.notional_usd },
    ];
    let ttl: u64 = config.process.signal_ttl_ms;
    let delay: u64 = if ttl > 1 {
        ttl
    } else {
        1
    };
    let pipeline: CopyDryRunShadowConfig = copy_pipeline(
        config,
        account,
        targets,
        delay,
        close_gate(),
    );
    let dex: &str = config.hyperliquid.dex.as_str();
    let before: CopyLeaderWatcherEvent = copy_shadow_position_event(
        leader,
        t.coin.as_str(),
        0,
        0,
        now,
        dex,
    );
    let fill: LeaderFillEvent = LeaderFillEvent {
        event_id,
        leader_id: leader.leader_id.clone(),
        leader_address: leader.leader_address.clone(),
        coin: t.coin.clone(),
        side: t.side,
        price: price_of(t.notional_usd, t.size),
        size: t.size,
        notional_usd: t.notional_usd,
        reduce_only: false,
        exchange_time_ms: now,
        received_at_ms: now,
    };
    let trade: CopyLeaderWatcherEvent = CopyLeaderWatcherEvent::Fill {
        leader_id: leader.leader_id.clone(),
        leader_address: leader.leader_address.clone(),
        fill,
        is_snapshot: false,
    };
    let size: Fixed = match t.side {
        OrderSide::Buy => t.size,
        OrderSide::Sell => -t.size,
    };
    let after: CopyLeaderWatcherEvent = copy_shadow_position_event(
        leader,
        t.coin.as_str(),
        size,
        t.notional_usd,
        now + 2,
        dex,
    );
    SyntheticSession {
        strategy,
        pipeline,
        before,
        trade,
        after,
        before_at_ms: now,
        trade_at_ms: now + 1,
        after_at_ms: now + 2,
    }
}

/// The made-up session of a smoke run: the leader buys.
pub fn run_synthetic_copy_shadow_event(
    config: &AppConfig,
    options: &CopyShadowSmokeOptions,
    account: &AccountConfig,
    leader: &CopyShadowSmokeLeader,
    target_accounts: &Vec<String>,
    now: u64,
) -> (r: SyntheticSession)
    requires
        options.leader_size > 0,
        now <= u64::MAX - 2,
    ensures
        session_for(
            r,
            "copy_shadow_smoke"@,
            "copy-shadow-smoke-"@ + dec(now as nat),
            *config,
            *account,
            *leader,
            target_accounts@,
            (SyntheticTrade {
                coin: options.coin,
                side: OrderSide::Buy,
                notional_usd: options.leader_notional_usd,
                size: options.leader_size,
            }),
            now,
        ),
{
    let t: SyntheticTrade = SyntheticTrade {
        coin: options.coin.clone(),
        side: OrderSide::Buy,
        notional_usd: options.leader_notional_usd,
        size: options.leader_size,
    };
    let mut id: String = "copy-shadow-smoke-".to_owned();
    push_u64(&mut id, now);
    synthetic_session("copy_shadow_smoke", id, config, account, leader, target_accounts, &t, now)
}

/// The made-up session of a trial order.
pub fn build_synthetic_copy_shadow_records(
    config: &AppConfig,
    options: &CopyExecutionCanaryOptions,
    account: &AccountConfig,
    leader: &CopyShadowSmokeLeader,
    target_accounts: &Vec<String>,
    now: u64,
) -> (r: SyntheticSession)
    requires
        options.leader_size > 0,
        now <= u64::MAX - 2,
    ensures
        session_for(
            r,
            "copy_execution_canary"@,
            "copy-execution-canary-"@ + dec(now as nat) + "-"@ + account.account_id@,
            *config,
            *account,
            *leader,
            target_accounts@,
            (SyntheticTrade {
                coin: options.coin,
                side: options.side,
                notional_usd: options.leader_notional_usd,
                size: options.leader_size,
            }),
            now,
        ),
{
    let t: SyntheticTrade = SyntheticTrade {
        coin: options.coin.clone(),
        side: options.side,
        notional_usd: options.leader_notional_usd,
        size: options.leader_size,
    };
    let mut id: String = "copy-execution-canary-".to_owned();
    push_u64(&mut id, now);
    id.append("-");
    id.append(account.account_id.as_str());
    synthetic_session(
        "copy_execution_canary",
        id,
        config,
        account,
        leader,
        target_accounts,
        &t,
        now,
    )
}

/// What the trial orders of an acceptance run are asked for: a dry run without cleanup.
pub fn synthetic_canary_options(
    options: &CopyLiveDaemonAcceptanceOptions,
    target_accounts: &Vec<String>,
) -> (r: CopyExecutionCanaryOptions)
    ensures
        r.leaders@ == options.leaders@,
        r.account_ids@ == target_accounts@,
        r.coin == options.coin,
        r.side == options.side,
        r.local_account_id is None,
        r.shadow_history_path == options.shadow_history_path,
        r.leader_notional_usd == options.leader_notional_usd,
        r.leader_size == options.leader_size,
        !r.live,
        !r.allow_live_submit,
        !r.confirm_mainnet_live,
        !r.cleanup_after_submit,
        r.cleanup_max_slippage_bps == options.max_slippage_bps,
        !r.preflight_only,
        r.max_orders == if options.max_live_orders > 1 {
            options.max_live_orders
        } else {
            1
        },
{
    CopyExecutionCanaryOptions {
        leaders: clone_texts(&options.leaders),
        account_ids: clone_texts(target_accounts),
        coin: options.coin.clone(),
        side: options.side,
        local_account_id: None,
        shadow_history_path: options.shadow_history_path.clone(),
        leader_notional_usd: options.leader_notional_usd,
        leader_size: options.leader_size,
        live: false,
        allow_live_submit: false,
        confirm_mainnet_live: false,
        cleanup_after_submit: false,
        cleanup_max_slippage_bps: options.max_slippage_bps,
        preflight_only: false,
        max_orders: if options.max_live_orders > 1 {
            options.max_live_orders
        } else {
            1
        },
    }
}

/// The sessions that the trial orders of acceptance come from: one for each
/// configured target account, and none without a leader.
pub fn copy_live_daemon_synthetic_sessions(
    config: &AppConfig,
    options: &CopyLiveDaemonAcceptanceOptions,
    leaders: &Vec<CopyShadowSmokeLeader>,
    target_accounts: &Vec<String>,
    now: u64,
) -> (r: Vec<SyntheticSession>)
    requires
        options.leader_size > 0,
        now <= u64::MAX - 2,
    ensures
        leaders@.len() == 0 ==> r@.len() == 0,
        leaders@.len() > 0 ==> sessions_for(
            r@,
            *config,
            *options,
            leaders@[0],
            configured(*config, target_accounts@),
            now,
        ),
{
    let mut out: Vec<SyntheticSession> = Vec::new();
    if leaders.len() == 0 {
        return out;
    }
    let canary: CopyExecutionCanaryOptions = synthetic_canary_options(options, target_accounts);
    let mut i: usize = 0;
    while i < target_accounts.len()
        invariant
            leaders@.len() > 0,
            i <= target_accounts@.len(),
            options.leader_size > 0,
            now <= u64::MAX - 2,
            canary.coin == options.coin,
            canary.side == options.side,
            canary.leader_notional_usd == options.leader_notional_usd,
            canary.leader_size == options.leader_size,
            sessions_for(
                out@,
                *config,
                *options,
                leaders@[0],
                configured(*config, target_accounts@.subrange(0, i as int)),
                now,
            ),
        decreases target_accounts@.len() - i,
    {
        proof {
            let next = target_accounts@.subrange(0, i + 1);
            assert(next.drop_last() =~= target_accounts@.subrange(0, i as int));
            assert(next.last() == target_accounts@[i as int]);
        }
        if let Some(account) = config.account(target_accounts[i].as_str()) {
            let targets: Vec<String> = vec![account.account_id.clone()];
            assert(targets@ =~= seq![account.account_id]);
            let s: SyntheticSession = build_synthetic_copy_shadow_records(
                config,
                &canary,
                account,
                &leaders[0],
                &targets,
                now,
            );
            assert(session_of_account(s, *config, *options, leaders@[0], *account, now));
            out.push(s);
        }
        i += 1;
    }
    assert(target_accounts@.subrange(0, i as int) =~= target_accounts@);
    out
}

/// The accounts of a list of names that are configured.
pub open spec fn configured(config: AppConfig, names: Seq<String>) -> Seq<AccountConfig>
    decreases names.len(),
{
    if names.len() == 0 {
        Seq::empty()
    } else {
        let before = configured(config, names.drop_last());
        match config.account_of(names.last()@) {
            Some(a) => before.push(a),
            None => before,
        }
    }
}

/// Whether a session is the acceptance trial for an account.
pub open spec fn session_of_account(
    s: SyntheticSession,
    config: AppConfig,
    options: CopyLiveDaemonAcceptanceOptions,
    leader: CopyShadowSmokeLeader,
    account: AccountConfig,
    now: u64,
) -> bool {
    session_for(
        s,
        "copy_execution_canary"@,
        "copy-execution-canary-"@ + dec(now as nat) + "-"@ + account.account_id@,
        config,
        account,
        leader,
        seq![account.account_id],
        SyntheticTrade {
            coin: options.coin,
            side: options.side,
            notional_usd: options.leader_notional_usd,
            size: options.leader_size,
        },
        now,
    )
}

/// Whether there is one session for each account, in order.
pub open spec fn sessions_for(
    sessions: Seq<SyntheticSession>,
    config: AppConfig,
    options: CopyLiveDaemonAcceptanceOptions,
    leader: CopyShadowSmokeLeader,
    accounts: Seq<AccountConfig>,
    now: u64,
) -> bool {
    &&& sessions.len() == accounts.len()
    &&& forall|i: int|
        0 <= i < sessions.len() ==> session_of_account(
            #[trigger] sessions[i],
            config,
            options,
            leader,
            accounts[i],
            now,
        )
}

/// What a leader did, as a pipeline understands it.
#[derive(Debug)]
pub struct SemanticLeaderAction {
    pub leader_id: String,
    pub leader_address: String,
    pub market: Option<String>,
    pub dex: Option<String>,
    pub coin: String,
    pub event_id: String,
    pub opens_long: bool,
    pub leader_notional_usd: Fixed,
    pub exchange_time_ms: u64,
    pub received_at_ms: u64,
    pub reason: String,
}

/// What a process is asked before and after a restart: the same event twice,
/// and a fresh one.
#[derive(Debug)]
pub struct RestartProbePlan {
    pub strategy: SmartMoneyCopyConfig,
    pub action: SemanticLeaderAction,
    pub fresh_event_id: String,
    pub save_at_ms: u64,
}

/// The leader of a restart probe: the first one, or a stand-in.
pub open spec fn probe_leader(leaders: Seq<CopyShadowSmokeLeader>) -> (Seq<char>, Seq<char>) {
    if leaders.len() > 0 {
        (leaders[0].leader_id@, leaders[0].leader_address@)
    } else {
        ("acceptance_leader"@, "0x0000000000000000000000000000000000000000"@)
    }
}

fn pick_probe_leader(leaders: &Vec<CopyShadowSmokeLeader>) -> (r: CopyShadowSmokeLeader)
    ensures
        (r.leader_id@, r.leader_address@) == probe_leader(leaders@),
{
    if leaders.len() > 0 {
        CopyShadowSmokeLeader {
            leader_id: leaders[0].leader_id.clone(),
            leader_address: leaders[0].leader_address.clone(),
        }
    } else {
        CopyShadowSmokeLeader {
            leader_id: "acceptance_leader".to_owned(),
            leader_address: "0x0000000000000000000000000000000000000000".to_owned(),
        }
    }
}

/// What is asked of a process before and after a restart.
pub fn plan_restart_dedupe_probe(
    options: &CopyLiveDaemonAcceptanceOptions,
    leaders: &Vec<CopyShadowSmokeLeader>,
    now: u64,
) -> (r: RestartProbePlan)
    requires
        now < u64::MAX,
    ensures
        r.strategy.strategy_id@ == "copy_live_daemon_acceptance"@,
        r.strategy.default_copy_ratio == UNIT,
        r.strategy.max_slippage_bps == options.max_slippage_bps,
        r.strategy.leaders@.len() == 1,
        r.strategy.leaders@[0].leader_id@ == probe_leader(leaders@).0,
        r.strategy.leaders@[0].leader_address@ == probe_leader(leaders@).1,
        r.strategy.leaders@[0].enabled,
        r.strategy.leaders@[0].copy_ratio == UNIT,
        r.strategy.symbol_limits@.len() == 1,
        r.strategy.symbol_limits@[0].coin == options.coin,
        r.strategy.symbol_limits@[0].max_signal_notional_usd == options.leader_notional_usd,
        r.action.leader_id@ == probe_leader(leaders@).0,
        r.action.leader_address@ == probe_leader(leaders@).1,
        r.action.market is Some,
        r.action.market->0@ == coin_market(options.coin@),
        r.action.dex is Some,
        r.action.dex->0@ == coin_dex(options.coin@),
        r.action.coin == options.coin,
        r.action.event_id@ == "copy-live-daemon-acceptance-replay-"@ + dec(now as nat),
        r.action.opens_long == (options.side == OrderSide::Buy),
        r.action.leader_notional_usd == options.leader_notional_usd,
        r.action.exchange_time_ms == now,
        r.action.received_at_ms == now,
        r.action.reason@ == "acceptance_restart_dedupe_probe"@,
        r.fresh_event_id@ == r.action.event_id@ + "-fresh"@,
        r.save_at_ms == now + 1,
{
    let leader: CopyShadowSmokeLeader = pick_probe_leader(leaders);
    let one: Vec<CopyShadowSmokeLeader> = vec![
        CopyShadowSmokeLeader {
            leader_id: leader.leader_id.clone(),
            leader_address: leader.leader_address.clone(),
        },
    ];
    let mut strategy: SmartMoneyCopyConfig = copy_strategy(
        "copy_live_daemon_acceptance",
        options.max_slippage_bps,
        &one,
    );
    strategy.symbol_limits = vec![
        SymbolCopyLimit {
            coin: options.coin.clone(),
            max_signal_notional_usd: options.leader_notional_usd,
        },
    ];
    let mut event_id: String = "copy-live-daemon-acceptance-replay-".to_owned();
    push_u64(&mut event_id, now);
    let mut fresh_event_id: String = event_id.clone();
    fresh_event_id.append("-fresh");
    let (market, dex) = copy_daemon_market_dex_for_coin(options.coin.as_str());
    let opens_long: bool = match options.side {
        OrderSide::Buy => true,
        OrderSide::Sell => false,
    };
    RestartProbePlan {
        strategy,
        action: SemanticLeaderAction {
            leader_id: leader.leader_id,
            leader_address: leader.leader_address,
            market,
            dex,
            coin: options.coin.clone(),
            event_id,
            opens_long,
            leader_notional_usd: options.leader_notional_usd,
            exchange_time_ms: now,
            received_at_ms: now,
            reason: "acceptance_restart_dedupe_probe".to_owned(),
        },
        fresh_event_id,
        save_at_ms: now + 1,
    }
}

/// A strategy copies each of its leaders one to one, under the leader's own name
/// and address, and no other.
pub proof fn a_strategy_copies_its_leaders_one_to_one(
    s: SmartMoneyCopyConfig,
    id: Seq<char>,
    max_slippage_bps: Fixed,
    leaders: Seq<CopyShadowSmokeLeader>,
)
    requires
        strategy_for(s, id, max_slippage_bps, leaders),
    ensures
        s.strategy_id@ == id,
        s.max_slippage_bps == max_slippage_bps,
        s.default_copy_ratio == 1_000_000_000,
        s.leaders@.len() == leaders.len(),
        forall|i: int|
            0 <= i < leaders.len() ==> (#[trigger] s.leaders@[i]).leader_id == leaders[i].leader_id
                && s.leaders@[i].leader_address == leaders[i].leader_address && s.leaders@[i].enabled
                && s.leaders@[i].copy_ratio == 1_000_000_000,
{
}

/// The principal is the most that, levered, stays within the notional that an
/// account may order.
pub proof fn levered_principal_stays_within_the_cap(notional: int)
    ensures
        notional >= 0 ==> principal(notional) * 10 <= notional < (principal(notional) + 1) * 10,
        principal(-notional) == -principal(notional),
{
    let n = if notional >= 0 {
        notional
    } else {
        -notional
    };
    assert(n * 1_000_000_000 / 10_000_000_000 == n / 10) by (nonlinear_arith)
        requires
            n >= 0,
    ;
}

/// A pipeline works for its own account, within the account's order limit, with
/// the exchange's minimum, and never on a symbol that is blocked.
pub proof fn a_pipeline_keeps_to_its_account(
    s: CopyDryRunShadowConfig,
    config: AppConfig,
    account: AccountConfig,
    targets: Seq<String>,
    delay_ms: u64,
    gate: CopyLiveGateInput,
)
    requires
        pipeline_for(s, config, account, targets, delay_ms, gate),
    ensures
        s.local_account_id@ == account.account_id@,
        s.target_accounts@ == targets,
        s.account_copy_ratio == account.copy_ratio,
        s.signal_ttl_ms == config.process.signal_ttl_ms,
        s.max_signal_delay_ms == delay_ms,
        account.max_order_notional_usd >= 0 ==> s.principal_cap_usd * 10
            <= account.max_order_notional_usd,
        s.leverage == 10_000_000_000,
        s.max_signal_notional_usd == Some(account.max_order_notional_usd),
        s.max_effective_exposure_usd == Some(account.max_order_notional_usd),
        s.exchange_min_open_notional_usd == 10_000_000_000,
        s.blocked_symbols@ == config.copy_blocked_symbols@,
        s.allow_short,
        s.live_gate == gate,
{
    levered_principal_stays_within_the_cap(account.max_order_notional_usd as int);
}

/// A price times the size it is paid for is the notional, short of less than the
/// size, wherever the price can be held at all.
pub proof fn a_price_times_its_size_is_the_notional(notional: int, size: int)
    requires
        size > 0,
    ensures
        0 <= notional && price(notional, size) < 0x7fff_ffff_ffff_ffff ==> price(notional, size)
            * size <= notional * 1_000_000_000 < (price(notional, size) + 1) * size,
        notional <= 0 ==> price(notional, size) == -price(-notional, size),
        price(notional, size) <= 0x7fff_ffff_ffff_ffff,
{
    if notional >= 0 {
        let n = notional * 1_000_000_000;
        assert(n / size >= 0 && n / size * size <= n < (n / size + 1) * size)
            by (nonlinear_arith)
            requires
                size > 0,
                n >= 0,
        ;
    } else {
        let n = -notional * 1_000_000_000;
        assert(n / size >= 0) by (nonlinear_arith)
            requires
                size > 0,
                n >= 0,
        ;
    }
    assert(0int / size == 0) by (nonlinear_arith)
        requires
            size > 0,
    ;
}

/// In a made-up trade the leader is flat before it and afterwards holds exactly
/// what was traded, on the side that it was traded on; the trade comes between
/// the two, is no part of a snapshot, and no live order can come of it.
pub proof fn a_made_up_trade_explains_the_position(
    s: SyntheticSession,
    strategy_id: Seq<char>,
    event_id: Seq<char>,
    config: AppConfig,
    account: AccountConfig,
    leader: CopyShadowSmokeLeader,
    targets: Seq<String>,
    t: SyntheticTrade,
    now: u64,
)
    requires
        session_for(s, strategy_id, event_id, config, account, leader, targets, t, now),
        t.size > 0,
        now <= u64::MAX - 2,
    ensures
        s.before_at_ms < s.trade_at_ms < s.after_at_ms,
        s.before is PositionSnapshots,
        s.trade is Fill,
        s.after is PositionSnapshots,
        match (s.before, s.trade, s.after) {
            (
                CopyLeaderWatcherEvent::PositionSnapshots { snapshots: b, leader_id: l1, .. },
                CopyLeaderWatcherEvent::Fill { fill, is_snapshot, leader_id: l2, .. },
                CopyLeaderWatcherEvent::PositionSnapshots { snapshots: a, leader_id: l3, .. },
            ) => {
                &&& b@.len() == 1 && a@.len() == 1
                &&& b@[0].signed_size == 0
                &&& t.side == OrderSide::Buy ==> a@[0].signed_size == fill.size
                &&& t.side == OrderSide::Sell ==> a@[0].signed_size == -fill.size
                &&& a@[0].position_notional_usd == fill.notional_usd
                &&& fill.size == t.size && fill.notional_usd == t.notional_usd && fill.side
                    == t.side
                &&& b@[0].coin@ == fill.coin@ && a@[0].coin@ == fill.coin@ && fill.coin == t.coin
                &&& l1 == leader.leader_id && l2 == l1 && l3 == l1
                &&& !is_snapshot && !fill.reduce_only
            },
            _ => false,
        },
        s.pipeline.live_gate.process_dry_run,
        !s.pipeline.live_gate.live_copy_enabled,
        !s.pipeline.live_gate.account_worker_live,
        s.pipeline.max_signal_delay_ms >= 1,
        s.pipeline.max_signal_delay_ms >= config.process.signal_ttl_ms,
        s.pipeline.max_signal_delay_ms == 1 || s.pipeline.max_signal_delay_ms
            == config.process.signal_ttl_ms,
        s.strategy.max_slippage_bps == 25_000_000_000,
        s.strategy.symbol_limits@[0].max_signal_notional_usd == t.notional_usd,
{
}

/// Each name of a configured account stands for that account, in order; other
/// names stand for none.
pub proof fn names_stand_for_their_accounts(config: AppConfig, names: Seq<String>, name: String)
    ensures
        configured(config, Seq::empty()) == Seq::<AccountConfig>::empty(),
        config.account_of(name@) is Some ==> configured(config, names.push(name)) == configured(
            config,
            names,
        ).push(config.account_of(name@)->0),
        config.account_of(name@) is None ==> configured(config, names.push(name)) == configured(
            config,
            names,
        ),
{
    assert(names.push(name).drop_last() =~= names);
}

/// Each account has a made-up trade of its own, told apart from the others by the
/// account's name, that asks for the account alone.
pub proof fn sessions_are_of_one_account_each(
    sessions: Seq<SyntheticSession>,
    config: AppConfig,
    options: CopyLiveDaemonAcceptanceOptions,
    leader: CopyShadowSmokeLeader,
    accounts: Seq<AccountConfig>,
    now: u64,
    i: int,
)
    requires
        sessions_for(sessions, config, options, leader, accounts, now),
        0 <= i < sessions.len(),
    ensures
        sessions.len() == accounts.len(),
        sessions[i].pipeline.local_account_id@ == accounts[i].account_id@,
        sessions[i].pipeline.target_accounts@ == seq![accounts[i].account_id],
        sessions[i].trade is Fill,
        sessions[i].trade->fill.event_id@ == "copy-execution-canary-"@ + dec(now as nat) + "-"@
            + accounts[i].account_id@,
        sessions[i].trade->fill.coin == options.coin,
        sessions[i].trade->fill.side == options.side,
        sessions[i].trade->fill.size == options.leader_size,
        sessions[i].trade->fill.notional_usd == options.leader_notional_usd,
{
    assert(session_of_account(sessions[i], config, options, leader, accounts[i], now));
}

/// A probe follows the first leader, and a made-up one where there is none.
pub proof fn a_probe_follows_the_first_leader(leaders: Seq<CopyShadowSmokeLeader>)
    ensures
        leaders.len() > 0 ==> probe_leader(leaders) == (
            leaders[0].leader_id@,
            leaders[0].leader_address@,
        ),
        leaders.len() == 0 ==> probe_leader(leaders).0 == "acceptance_leader"@,
{
}

} // verus!
