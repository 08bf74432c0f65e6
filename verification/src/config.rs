//! The settings that the decisions read.

use vstd::prelude::*;

use crate::checks::{check, push_check, views, Check, CopyShadowSmokeCheck};
use crate::decimal::Fixed;
use crate::market::{coin_dex, copy_daemon_market_dex_for_coin};
use crate::text::{clone_texts, same_text, texts};

verus! {

/// Signals older than this are never held back as stale, in milliseconds.
pub const COPY_DAEMON_MIN_SIGNAL_DELAY_MS: u64 = 30_000;

/// Process-wide settings.
#[derive(Clone, Debug)]
pub struct AppSection {
    pub environment: String,
    pub dry_run: bool,
}

/// Exchange endpoint settings.
#[derive(Clone, Debug)]
pub struct HyperliquidSection {
    pub dex: String,
    pub ws_url: String,
}

/// Timing settings.
#[derive(Clone, Debug)]
pub struct ProcessSection {
    pub signal_ttl_ms: u64,
}

/// Operator gates.
#[derive(Clone, Debug)]
pub struct ManualOpsSection {
    pub manual_live_enabled: bool,
    pub mainnet_live_enabled: bool,
    pub max_manual_order_notional_usd: Fixed,
}

/// Account-independent risk rules.
#[derive(Clone, Debug)]
pub struct GlobalRiskSection {
    pub allow_reduce_only_when_killed: bool,
}

/// Risk rules.
#[derive(Clone, Debug)]
pub struct RiskSection {
    pub global: GlobalRiskSection,
}

/// One local account.
#[derive(Debug)]
pub struct AccountConfig {
    pub account_id: String,
    pub address: String,
    pub enabled: bool,
    pub worker_enabled: bool,
    pub copy_ratio: Fixed,
    pub max_order_notional_usd: Fixed,
}

/// All settings.
#[derive(Clone, Debug)]
pub struct AppConfig {
    pub app: AppSection,
    pub hyperliquid: HyperliquidSection,
    pub process: ProcessSection,
    pub manual_ops: ManualOpsSection,
    pub risk: RiskSection,
    pub accounts: Vec<AccountConfig>,
    pub copy_blocked_symbols: Vec<String>,
}

impl Clone for AccountConfig {
    fn clone(&self) -> (r: Self)
        ensures
            r == *self,
    {
        AccountConfig {
            account_id: self.account_id.clone(),
            address: self.address.clone(),
            enabled: self.enabled,
            worker_enabled: self.worker_enabled,
            copy_ratio: self.copy_ratio,
            max_order_notional_usd: self.max_order_notional_usd,
        }
    }
}

/// The first account at or behind position `i` with the given id.
pub open spec fn account_from(accounts: Seq<AccountConfig>, id: Seq<char>, i: int) -> Option<
    AccountConfig,
>
    decreases accounts.len() - i,
{
    if i < 0 || i >= accounts.len() {
        None
    } else if accounts[i].account_id@ == id {
        Some(accounts[i])
    } else {
        account_from(accounts, id, i + 1)
    }
}

/// Whether an account may be worked on.
pub open spec fn worker_ready(account: AccountConfig) -> bool {
    account.enabled && account.worker_enabled
}

/// The ids of the accounts that may be worked on, in order.
pub open spec fn worker_ids(accounts: Seq<AccountConfig>) -> Seq<String>
    decreases accounts.len(),
{
    if accounts.len() == 0 {
        Seq::empty()
    } else if worker_ready(accounts.last()) {
        worker_ids(accounts.drop_last()).push(accounts.last().account_id)
    } else {
        worker_ids(accounts.drop_last())
    }
}

impl AppConfig {
    /// The account with the given id.
    pub open spec fn account_of(&self, id: Seq<char>) -> Option<AccountConfig> {
        account_from(self.accounts@, id, 0)
    }

    /// Whether this is the production environment.
    pub open spec fn is_mainnet(&self) -> bool {
        self.app.environment@ == "mainnet"@
    }

    /// The account with the given id.
    pub fn account(&self, id: &str) -> (r: Option<&AccountConfig>)
        ensures
            match self.account_of(id@) {
                Some(a) => r is Some && *r->0 == a,
                None => r is None,
            },
    {
        let mut i: usize = 0;
        while i < self.accounts.len()
            invariant
                i <= self.accounts@.len(),
                self.account_of(id@) == account_from(self.accounts@, id@, i as int),
            decreases self.accounts@.len() - i,
        {
            if same_text(self.accounts[i].account_id.as_str(), id) {
                return Some(&self.accounts[i]);
            }
            i += 1;
        }
        None
    }

    /// The ids of the accounts that may be worked on, in order.
    pub fn enabled_worker_ids(&self) -> (r: Vec<String>)
        ensures
            r@ == worker_ids(self.accounts@),
    {
        let mut r: Vec<String> = Vec::new();
        let mut i: usize = 0;
        while i < self.accounts.len()
            invariant
                i <= self.accounts@.len(),
                r@ == worker_ids(self.accounts@.subrange(0, i as int)),
            decreases self.accounts@.len() - i,
        {
            if self.accounts[i].enabled && self.accounts[i].worker_enabled {
                r.push(self.accounts[i].account_id.clone());
            }
            assert(self.accounts@.subrange(0, i as int + 1).drop_last()
                =~= self.accounts@.subrange(0, i as int));
            i += 1;
        }
        assert(self.accounts@.subrange(0, i as int) =~= self.accounts@);
        r
    }

    /// Whether this is the production environment.
    pub fn on_mainnet(&self) -> (r: bool)
        ensures
            r == self.is_mainnet(),
    {
        same_text(self.app.environment.as_str(), "mainnet")
    }

    /// A copy of the settings.
    pub fn copied(&self) -> (r: AppConfig)
        ensures
            same_but_dex(*self, r),
            r.hyperliquid.dex == self.hyperliquid.dex,
    {
        let mut accounts: Vec<AccountConfig> = Vec::new();
        let mut i: usize = 0;
        while i < self.accounts.len()
            invariant
                i <= self.accounts@.len(),
                accounts@ == self.accounts@.subrange(0, i as int),
            decreases self.accounts@.len() - i,
        {
            accounts.push(self.accounts[i].clone());
            assert(self.accounts@.subrange(0, i as int + 1) =~= self.accounts@.subrange(
                0,
                i as int,
            ).push(self.accounts@[i as int]));
            i += 1;
        }
        assert(self.accounts@.subrange(0, i as int) =~= self.accounts@);
        AppConfig {
            app: AppSection {
                environment: self.app.environment.clone(),
                dry_run: self.app.dry_run,
            },
            hyperliquid: HyperliquidSection {
                dex: self.hyperliquid.dex.clone(),
                ws_url: self.hyperliquid.ws_url.clone(),
            },
            process: ProcessSection { signal_ttl_ms: self.process.signal_ttl_ms },
            manual_ops: ManualOpsSection {
                manual_live_enabled: self.manual_ops.manual_live_enabled,
                mainnet_live_enabled: self.manual_ops.mainnet_live_enabled,
                max_manual_order_notional_usd: self.manual_ops.max_manual_order_notional_usd,
            },
            risk: RiskSection {
                global: GlobalRiskSection {
                    allow_reduce_only_when_killed: self.risk.global.allow_reduce_only_when_killed,
                },
            },
            accounts,
            copy_blocked_symbols: clone_texts(&self.copy_blocked_symbols),
        }
    }
}

/// Whether two configurations agree in everything but the exchange's dex.
pub open spec fn same_but_dex(a: AppConfig, b: AppConfig) -> bool {
    &&& a.app == b.app
    &&& a.hyperliquid.ws_url == b.hyperliquid.ws_url
    &&& a.process == b.process
    &&& a.manual_ops == b.manual_ops
    &&& a.risk == b.risk
    &&& a.accounts@ == b.accounts@
    &&& a.copy_blocked_symbols@ == b.copy_blocked_symbols@
}

/// How old a signal may be before it is dropped: as old as it lives, and never
/// less than the least delay.
pub open spec fn signal_delay(ttl_ms: u64) -> u64 {
    if ttl_ms > COPY_DAEMON_MIN_SIGNAL_DELAY_MS {
        ttl_ms
    } else {
        COPY_DAEMON_MIN_SIGNAL_DELAY_MS
    }
}

/// How old a signal may be before it is dropped, in milliseconds.
pub fn copy_daemon_max_signal_delay_ms(config: &AppConfig) -> (r: u64)
    ensures
        r == signal_delay(config.process.signal_ttl_ms),
{
    if config.process.signal_ttl_ms > COPY_DAEMON_MIN_SIGNAL_DELAY_MS {
        config.process.signal_ttl_ms
    } else {
        COPY_DAEMON_MIN_SIGNAL_DELAY_MS
    }
}

/// The settings with the dex of the market that a coin trades on.
pub fn copy_daemon_config_for_coin(config: &AppConfig, coin: &str) -> (r: AppConfig)
    ensures
        same_but_dex(*config, r),
        r.hyperliquid.dex@ == coin_dex(coin@),
{
    let mut scoped: AppConfig = config.copied();
    let (_market, dex) = copy_daemon_market_dex_for_coin(coin);
    match dex {
        Some(dex) => {
            scoped.hyperliquid.dex = dex;
        },
        None => {},
    }
    scoped
}

/// The accounts that a run works on: those asked for, else the local account,
/// else the first account that may be worked on.
pub open spec fn target_accounts(
    config: AppConfig,
    requested: Seq<String>,
    local_account_id: Option<Seq<char>>,
) -> Seq<Seq<char>> {
    if requested.len() > 0 {
        texts(requested)
    } else {
        match local_account_id {
            Some(id) => seq![id],
            None => if worker_ids(config.accounts@).len() > 0 {
                seq![worker_ids(config.accounts@)[0]@]
            } else {
                Seq::empty()
            },
        }
    }
}

/// The accounts that a run works on.
pub fn copy_execution_canary_target_accounts(
    config: &AppConfig,
    requested: &Vec<String>,
    local_account_id: Option<&str>,
) -> (r: Vec<String>)
    ensures
        texts(r@) == target_accounts(
            *config,
            requested@,
            match local_account_id {
                Some(id) => Some(id@),
                None => None,
            },
        ),
{
    if requested.len() > 0 {
        return clone_texts(requested);
    }
    let mut r: Vec<String> = Vec::new();
    match local_account_id {
        Some(id) => {
            r.push(id.to_owned());
            assert(texts(r@) =~= seq![id@]);
        },
        None => {
            let ids: Vec<String> = config.enabled_worker_ids();
            if ids.len() > 0 {
                r.push(ids[0].clone());
                assert(texts(r@) =~= seq![ids@[0]@]);
            } else {
                assert(texts(r@) =~= Seq::empty());
            }
        },
    }
    r
}

/// Whether an account is configured and may be worked on.
pub open spec fn account_ready(config: AppConfig, id: Seq<char>) -> bool {
    match config.account_of(id) {
        Some(a) => worker_ready(a),
        None => false,
    }
}

/// The check that an account is configured and may be worked on.
pub open spec fn account_check(config: AppConfig, id: Seq<char>) -> Check {
    check(
        "account_configured_"@ + id,
        account_ready(config, id),
        id + " must be configured, enabled, and worker_enabled"@,
    )
}

/// One check for each account.
pub open spec fn account_checks(config: AppConfig, ids: Seq<Seq<char>>) -> Seq<Check> {
    ids.map_values(|id: Seq<char>| account_check(config, id))
}

/// Appends one check for each account.
pub fn push_account_checks(
    checks: &mut Vec<CopyShadowSmokeCheck>,
    config: &AppConfig,
    ids: &Vec<String>,
)
    ensures
        views(final(checks)@) == views(old(checks)@) + account_checks(*config, texts(ids@)),
{
    let ghost start = views(checks@);
    let ghost goal = account_checks(*config, texts(ids@));
    let mut i: usize = 0;
    assert(views(checks@) =~= start + goal.subrange(0, 0));
    while i < ids.len()
        invariant
            i <= ids@.len(),
            goal == account_checks(*config, texts(ids@)),
            views(checks@) == start + goal.subrange(0, i as int),
        decreases ids@.len() - i,
    {
        let id: &str = ids[i].as_str();
        let ready: bool = match config.account(id) {
            Some(a) => a.enabled && a.worker_enabled,
            None => false,
        };
        let mut name: String = "account_configured_".to_owned();
        name.append(id);
        let mut detail: String = id.to_owned();
        detail.append(" must be configured, enabled, and worker_enabled");
        push_check(checks, name.as_str(), ready, detail);
        proof {
            assert(texts(ids@)[i as int] == ids@[i as int]@);
            assert(goal[i as int] == account_check(*config, ids@[i as int]@));
            assert(views(checks@) =~= start + goal.subrange(0, i as int + 1));
        }
        i += 1;
    }
    assert(goal.subrange(0, goal.len() as int) =~= goal);
}

/// An account is found under its own name, and the first of that name counts.
pub proof fn accounts_are_found_by_their_name(config: AppConfig, id: Seq<char>)
    ensures
        config.account_of(id) is None <==> forall|i: int|
            0 <= i < config.accounts@.len() ==> (#[trigger] config.accounts@[i]).account_id@ != id,
        config.account_of(id) is Some ==> exists|k: int|
            0 <= k < config.accounts@.len() && #[trigger] config.accounts@[k] == config.account_of(
                id,
            )->0 && config.accounts@[k].account_id@ == id && forall|e: int|
                0 <= e < k ==> (#[trigger] config.accounts@[e]).account_id@ != id,
{
    account_from_meaning(config.accounts@, id, 0);
}

proof fn account_from_meaning(accounts: Seq<AccountConfig>, id: Seq<char>, i: int)
    requires
        0 <= i <= accounts.len(),
        forall|e: int| 0 <= e < i ==> (#[trigger] accounts[e]).account_id@ != id,
    ensures
        account_from(accounts, id, i) is None <==> forall|e: int|
            0 <= e < accounts.len() ==> (#[trigger] accounts[e]).account_id@ != id,
        account_from(accounts, id, i) is Some ==> exists|k: int|
            0 <= k < accounts.len() && #[trigger] accounts[k] == account_from(accounts, id, i)->0
                && accounts[k].account_id@ == id && forall|e: int|
                0 <= e < k ==> (#[trigger] accounts[e]).account_id@ != id,
    decreases accounts.len() - i,
{
    if i < accounts.len() {
        if accounts[i].account_id@ == id {
            assert(accounts[i] == account_from(accounts, id, i)->0);
        } else {
            account_from_meaning(accounts, id, i + 1);
        }
    }
}

/// The accounts that may be worked on are those that are enabled and have their
/// worker enabled, in order.
pub proof fn workers_are_the_enabled_accounts(accounts: Seq<AccountConfig>, a: AccountConfig)
    ensures
        worker_ids(Seq::empty()).len() == 0,
        a.enabled && a.worker_enabled ==> worker_ids(accounts.push(a)) == worker_ids(
            accounts,
        ).push(a.account_id),
        !(a.enabled && a.worker_enabled) ==> worker_ids(accounts.push(a)) == worker_ids(accounts),
{
    assert(accounts.push(a).drop_last() =~= accounts);
}

/// A run works on the accounts that were asked for. Where none was, it works on
/// the local account, and where there is none, on the first that may be worked
/// on.
pub proof fn a_run_works_on_the_accounts_asked_for(
    config: AppConfig,
    requested: Seq<String>,
    local: Option<Seq<char>>,
)
    ensures
        requested.len() > 0 ==> target_accounts(config, requested, local).len() == requested.len()
            && forall|i: int|
            0 <= i < requested.len() ==> #[trigger] target_accounts(config, requested, local)[i]
                == requested[i]@,
        requested.len() == 0 && local is Some ==> target_accounts(config, requested, local)
            == seq![local->0],
        requested.len() == 0 && local is None && worker_ids(config.accounts@).len() > 0
            ==> target_accounts(config, requested, local) == seq![
            worker_ids(config.accounts@)[0]@,
        ],
        requested.len() == 0 && local is None && worker_ids(config.accounts@).len() == 0
            ==> target_accounts(config, requested, local).len() == 0,
        forall|id: Seq<char>| #[trigger]
            account_ready(config, id) <==> config.account_of(id) is Some && config.account_of(
                id,
            )->0.enabled && config.account_of(id)->0.worker_enabled,
{
}

/// There is one check for each account, in order, and it passes where the
/// account is configured, enabled and has its worker enabled.
pub proof fn account_checks_cover_every_account(
    config: AppConfig,
    ids: Seq<Seq<char>>,
    i: int,
)
    requires
        0 <= i < ids.len(),
    ensures
        account_checks(config, ids).len() == ids.len(),
        account_checks(config, ids)[i].name == "account_configured_"@ + ids[i],
        account_checks(config, ids)[i].ok <==> config.account_of(ids[i]) is Some
            && config.account_of(ids[i])->0.enabled && config.account_of(ids[i])->0.worker_enabled,
{
}

/// A signal may be at least as old as it lives, at least thirty seconds, and no
/// older than the later of the two.
pub proof fn signals_live_at_least_thirty_seconds(ttl_ms: u64)
    ensures
        signal_delay(ttl_ms) >= ttl_ms,
        signal_delay(ttl_ms) >= 30_000,
        signal_delay(ttl_ms) == ttl_ms || signal_delay(ttl_ms) == 30_000,
{
}

/// A configuration for another exchange differs in the exchange alone: the same
/// accounts are found, the same work, and the same limits and switches hold.
pub proof fn another_exchange_changes_nothing_else(a: AppConfig, b: AppConfig, id: Seq<char>)
    requires
        same_but_dex(a, b),
    ensures
        a.account_of(id) == b.account_of(id),
        account_ready(a, id) == account_ready(b, id),
        worker_ids(a.accounts@) == worker_ids(b.accounts@),
        a.app.dry_run == b.app.dry_run,
        a.app.environment@ == b.app.environment@,
        a.hyperliquid.ws_url@ == b.hyperliquid.ws_url@,
        a.process.signal_ttl_ms == b.process.signal_ttl_ms,
        a.manual_ops.manual_live_enabled == b.manual_ops.manual_live_enabled,
        a.manual_ops.mainnet_live_enabled == b.manual_ops.mainnet_live_enabled,
        a.manual_ops.max_manual_order_notional_usd == b.manual_ops.max_manual_order_notional_usd,
        a.risk.global.allow_reduce_only_when_killed == b.risk.global.allow_reduce_only_when_killed,
        a.copy_blocked_symbols@ == b.copy_blocked_symbols@,
{
}

} // verus!
