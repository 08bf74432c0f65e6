//! Runs that only watch: a dry run of the copy pipeline, and a read-only watch
//! over leaders.

use vstd::prelude::*;

use crate::canary::local_id;
use crate::checks::{
    all_ok, check, checks_all_ok, push_check, push_note, views, Check, CopyShadowSmokeCheck,
};
use crate::config::{worker_ids, AppConfig};
use crate::decimal::{counted, dec};
use crate::leaders::{
    leader_arguments, leader_arguments_of, leader_views, leaders_of,
    parse_copy_shadow_smoke_leaders, CopyShadowSmokeLeader,
};
use crate::options::{CopyShadowSmokeOptions, CopyShadowWatchOptions};
use crate::text::{lower, same_text_ignoring_case, texts};
use crate::watch::{
    end_watch, status_text, watch_ended, watch_status_text, WatchCounts, WatchStatus, WatcherEnd,
};

verus! {

/// The configuration that is suggested to operators.
pub const DEFAULT_CONFIG_PATH: &'static str = "config/dry-run.example.toml";

/// The outcome of a smoke run.
#[derive(Debug)]
pub struct CopyShadowSmokeReport {
    pub ok: bool,
    pub mode: String,
    pub environment: String,
    pub process_dry_run: bool,
    pub local_account_id: Option<String>,
    pub target_accounts: Vec<String>,
    pub leaders: Vec<CopyShadowSmokeLeader>,
    pub watcher_subscriptions: Vec<String>,
    pub checks: Vec<CopyShadowSmokeCheck>,
    pub shadow_history_path: String,
    pub synthetic_records_written: usize,
    pub recent_shadow_entries: usize,
    pub next_commands: Vec<String>,
}

/// The outcome of a watch.
#[derive(Debug)]
pub struct CopyShadowWatchReport {
    pub ok: bool,
    pub mode: String,
    pub environment: String,
    pub ws_url: Option<String>,
    pub process_dry_run: bool,
    pub local_account_id: Option<String>,
    pub target_accounts: Vec<String>,
    pub leaders: Vec<CopyShadowSmokeLeader>,
    pub watcher_subscriptions: Vec<String>,
    pub checks: Vec<CopyShadowSmokeCheck>,
    pub shadow_history_path: String,
    pub duration_secs: u64,
    pub elapsed_ms: u64,
    pub max_events: usize,
    pub counts: WatchCounts,
    pub recent_shadow_entries: usize,
    pub watcher_status: String,
    pub findings: Vec<String>,
}

/// The local account of a run: the one asked for, else the first target.
pub open spec fn chosen_local(
    requested: Option<Seq<char>>,
    targets: Seq<Seq<char>>,
) -> Option<Seq<char>> {
    match requested {
        Some(id) => Some(id),
        None => if targets.len() > 0 {
            Some(targets[0])
        } else {
            None
        },
    }
}

/// The local account of a run.
pub fn choose_local(requested: &Option<String>, targets: &Vec<String>) -> (r: Option<String>)
    ensures
        local_id(r) == chosen_local(local_id(*requested), texts(targets@)),
{
    match requested {
        Some(id) => Some(id.clone()),
        None => if targets.len() > 0 {
            assert(texts(targets@)[0] == targets@[0]@);
            Some(targets[0].clone())
        } else {
            None
        },
    }
}

/// Whether an account that was chosen is configured.
pub open spec fn local_configured(config: AppConfig, local: Option<Seq<char>>) -> bool {
    match local {
        Some(id) => config.account_of(id) is Some,
        None => false,
    }
}

/// Whether an account that was chosen is configured.
pub fn is_local_configured(config: &AppConfig, local: &Option<String>) -> (r: bool)
    ensures
        r == local_configured(*config, local_id(*local)),
{
    match local {
        Some(id) => config.account(id.as_str()).is_some(),
        None => false,
    }
}

/// The check on the local account of a run.
pub open spec fn local_check(kind: Seq<char>, configured: bool, local: Option<Seq<char>>) -> Check {
    check(
        "local_account"@,
        configured,
        match local {
            Some(id) => "local "@ + kind + " account "@ + id + " is configured"@,
            None => "no local "@ + kind + " account is available"@,
        },
    )
}

/// Appends the check on the local account of a run.
pub fn push_local_check(
    checks: &mut Vec<CopyShadowSmokeCheck>,
    kind: &str,
    configured: bool,
    local: &Option<String>,
)
    ensures
        views(final(checks)@) == views(old(checks)@).push(
            local_check(kind@, configured, local_id(*local)),
        ),
{
    let d: String = match local {
        Some(id) => {
            let mut d: String = "local ".to_owned();
            d.append(kind);
            d.append(" account ");
            d.append(id.as_str());
            d.append(" is configured");
            d
        },
        None => {
            let mut d: String = "no local ".to_owned();
            d.append(kind);
            d.append(" account is available");
            d
        },
    };
    push_check(checks, "local_account", configured, d);
}

/// The check on the payloads that subscribe a watch.
pub open spec fn subscription_check(n: int) -> Check {
    check(
        "watcher_subscriptions"@,
        n > 0,
        dec(n as nat) + " read-only websocket subscription payload(s) prepared"@,
    )
}

/// Appends the check on the payloads that subscribe a watch.
pub fn push_subscription_check(checks: &mut Vec<CopyShadowSmokeCheck>, n: usize)
    ensures
        views(final(checks)@) == views(old(checks)@).push(subscription_check(n as int)),
{
    push_check(
        checks,
        "watcher_subscriptions",
        n > 0,
        counted(n, " read-only websocket subscription payload(s) prepared"),
    );
}

/// The check on the leaders of a watch.
pub open spec fn leader_check(n: int) -> Check {
    check("leaders_configured"@, n > 0, dec(n as nat) + " leader watch target(s)"@)
}

/// Appends the check on the leaders of a watch.
pub fn push_leader_check(checks: &mut Vec<CopyShadowSmokeCheck>, n: usize)
    ensures
        views(final(checks)@) == views(old(checks)@).push(leader_check(n as int)),
{
    push_check(checks, "leaders_configured", n > 0, counted(n, " leader watch target(s)"));
}

/// The checks with which every run that only watches begins.
pub open spec fn shadow_checks(config: AppConfig, local: Option<Seq<char>>, leaders: int) -> Seq<
    Check,
> {
    let workers = worker_ids(config.accounts@).len();
    seq![
        check(
            "config_dry_run"@,
            config.app.dry_run,
            "app.dry_run=true; command is restricted to read-only/dry-run copy validation"@,
        ),
        check(
            "enabled_worker_accounts"@,
            workers > 0,
            dec(workers) + " enabled worker account(s)"@,
        ),
        local_check("dry-run"@, local_configured(config, local), local),
        leader_check(leaders),
    ]
}

/// How a run that only watches begins: its accounts, its leaders, and the checks
/// so far.
#[derive(Debug)]
pub struct ShadowStart {
    pub target_accounts: Vec<String>,
    pub local_account_id: Option<String>,
    pub local_configured: bool,
    pub leaders: Vec<CopyShadowSmokeLeader>,
    pub checks: Vec<CopyShadowSmokeCheck>,
}

/// Whether a run begins with the accounts that may be worked on, the local
/// account and the leaders that were asked for, and the given checks.
pub open spec fn shadow_start(
    s: ShadowStart,
    config: AppConfig,
    requested: Option<Seq<char>>,
    checks: Seq<Check>,
) -> bool {
    let local = chosen_local(requested, texts(worker_ids(config.accounts@)));
    &&& s.target_accounts@ == worker_ids(config.accounts@)
    &&& local_id(s.local_account_id) == local
    &&& s.local_configured == local_configured(config, local)
    &&& views(s.checks@) == checks
}

fn begin_shadow(
    config: &AppConfig,
    requested: &Option<String>,
    leaders: Vec<CopyShadowSmokeLeader>,
) -> (r: ShadowStart)
    ensures
        shadow_start(
            r,
            *config,
            local_id(*requested),
            shadow_checks(
                *config,
                chosen_local(local_id(*requested), texts(worker_ids(config.accounts@))),
                leaders@.len() as int,
            ),
        ),
        r.leaders == leaders,
{
    let targets: Vec<String> = config.enabled_worker_ids();
    let local: Option<String> = choose_local(requested, &targets);
    let configured: bool = is_local_configured(config, &local);
    let mut c: Vec<CopyShadowSmokeCheck> = Vec::new();
    assert(views(c@) =~= Seq::empty());
    push_note(
        &mut c,
        "config_dry_run",
        config.app.dry_run,
        "app.dry_run=true; command is restricted to read-only/dry-run copy validation",
    );
    push_check(
        &mut c,
        "enabled_worker_accounts",
        targets.len() > 0,
        counted(targets.len(), " enabled worker account(s)"),
    );
    push_local_check(&mut c, "dry-run", configured, &local);
    push_leader_check(&mut c, leaders.len());
    assert(views(c@) =~= shadow_checks(*config, local_id(local), leaders@.len() as int));
    ShadowStart {
        target_accounts: targets,
        local_account_id: local,
        local_configured: configured,
        leaders,
        checks: c,
    }
}

/// What is wrong with what an operator asked of a smoke run, if anything.
pub open spec fn smoke_error(config: AppConfig, o: CopyShadowSmokeOptions) -> Option<Seq<char>> {
    if !config.app.dry_run {
        Some("copy-shadow-smoke requires app.dry_run=true; refusing to run in live-capable config"@)
    } else if o.leader_size <= 0 {
        Some("leader_size must be positive for copy shadow smoke"@)
    } else if o.leader_notional_usd <= 0 {
        Some("leader_notional_usd must be positive for copy shadow smoke"@)
    } else {
        None
    }
}

/// The checks with which a smoke run begins.
pub open spec fn smoke_checks(
    config: AppConfig,
    local: Option<Seq<char>>,
    leaders: int,
    gate_is_closed: bool,
    subscriptions: int,
) -> Seq<Check> {
    shadow_checks(config, local, leaders).push(
        check(
            "live_gate"@,
            gate_is_closed,
            "process dry-run forces copy shadow pipeline into dry_run_only"@,
        ),
    ).push(subscription_check(subscriptions))
}

/// Whether a dry run of the copy pipeline may start at all.
pub fn validate_shadow_smoke(config: &AppConfig, options: &CopyShadowSmokeOptions) -> (r: Result<
    (),
    String,
>)
    ensures
        match smoke_error(*config, *options) {
            Some(e) => r is Err && r->Err_0@ == e,
            None => r is Ok,
        },
{
    if !config.app.dry_run {
        return Err(
            "copy-shadow-smoke requires app.dry_run=true; refusing to run in live-capable config".to_owned(),
        );
    }
    if options.leader_size <= 0 {
        return Err("leader_size must be positive for copy shadow smoke".to_owned());
    }
    if options.leader_notional_usd <= 0 {
        return Err("leader_notional_usd must be positive for copy shadow smoke".to_owned());
    }
    Ok(())
}

/// Begins a smoke run. `gate_is_closed` says whether the live gate, asked for a
/// process in dry run, allows dry runs only.
pub fn start_copy_shadow_smoke(
    config: &AppConfig,
    options: &CopyShadowSmokeOptions,
    gate_is_closed: bool,
    subscriptions: usize,
) -> (r: Result<ShadowStart, String>)
    ensures
        match smoke_error(*config, *options) {
            Some(e) => r is Err && r->Err_0@ == e,
            None => match leaders_of(texts(options.leaders@)) {
                Err(e) => r is Err && r->Err_0@ == e,
                Ok(leaders) => r is Ok && leader_views(r->Ok_0.leaders@) == leaders
                    && shadow_start(
                    r->Ok_0,
                    *config,
                    local_id(options.local_account_id),
                    smoke_checks(
                        *config,
                        chosen_local(
                            local_id(options.local_account_id),
                            texts(worker_ids(config.accounts@)),
                        ),
                        leaders.len() as int,
                        gate_is_closed,
                        subscriptions as int,
                    ),
                ),
            },
        },
{
    if let Err(e) = validate_shadow_smoke(config, options) {
        return Err(e);
    }
    let leaders: Vec<CopyShadowSmokeLeader> = match parse_copy_shadow_smoke_leaders(
        &options.leaders,
    ) {
        Err(e) => {
            return Err(e);
        },
        Ok(v) => v,
    };
    assert(leader_views(leaders@).len() == leaders@.len());
    let mut s: ShadowStart = begin_shadow(config, &options.local_account_id, leaders);
    let mut c: Vec<CopyShadowSmokeCheck> = s.checks;
    push_note(
        &mut c,
        "live_gate",
        gate_is_closed,
        "process dry-run forces copy shadow pipeline into dry_run_only",
    );
    push_subscription_check(&mut c, subscriptions);
    s.checks = c;
    Ok(s)
}

/// What a smoke run does once it has begun.
#[derive(Clone, Copy, Debug, PartialEq, Eq, Structural)]
pub enum SmokeStep {
    Report,
    ReportNoAccount,
    ReportNoLeader,
    RunSyntheticEvent,
}

/// What a smoke run does once it has begun.
pub open spec fn smoke_step(synthetic: bool, local_configured: bool, leaders: int) -> SmokeStep {
    if !synthetic {
        SmokeStep::Report
    } else if !local_configured {
        SmokeStep::ReportNoAccount
    } else if leaders == 0 {
        SmokeStep::ReportNoLeader
    } else {
        SmokeStep::RunSyntheticEvent
    }
}

/// What a smoke run does once it has begun.
pub fn next_smoke_step(options: &CopyShadowSmokeOptions, start: &ShadowStart) -> (r: SmokeStep)
    ensures
        r == smoke_step(
            options.synthetic_event,
            start.local_configured,
            start.leaders@.len() as int,
        ),
{
    if !options.synthetic_event {
        SmokeStep::Report
    } else if !start.local_configured {
        SmokeStep::ReportNoAccount
    } else if start.leaders.len() == 0 {
        SmokeStep::ReportNoLeader
    } else {
        SmokeStep::RunSyntheticEvent
    }
}

/// The checks on the made-up event of a smoke run.
pub open spec fn synthetic_checks(step: SmokeStep, written: int, path: Seq<char>) -> Seq<Check> {
    match step {
        SmokeStep::Report => Seq::empty(),
        SmokeStep::ReportNoAccount => seq![
            check(
                "synthetic_shadow_pipeline"@,
                false,
                "cannot run synthetic event without a configured local account"@,
            ),
        ],
        SmokeStep::ReportNoLeader => seq![
            check(
                "synthetic_shadow_pipeline"@,
                false,
                "cannot run synthetic event without at least one --leader"@,
            ),
        ],
        SmokeStep::RunSyntheticEvent => seq![
            check(
                "synthetic_shadow_pipeline"@,
                written > 0,
                dec(written as nat) + " shadow history record(s) appended to "@ + path,
            ),
        ],
    }
}

/// The command that repeats a smoke run.
pub open spec fn smoke_command(
    coin: Seq<char>,
    path: Seq<char>,
    leaders: Seq<CopyShadowSmokeLeader>,
) -> Seq<char> {
    "cargo run --manifest-path V2\\Cargo.toml -- copy-shadow-smoke --config "@
        + DEFAULT_CONFIG_PATH@ + " "@ + leader_arguments(leader_views(leaders)) + " --coin "@ + coin + " --shadow-history "@ + path + " --synthetic-event true"@
}

/// The commands that an operator may run after a smoke run.
pub fn copy_shadow_smoke_next_commands(
    options: &CopyShadowSmokeOptions,
    leaders: &Vec<CopyShadowSmokeLeader>,
) -> (r: Vec<String>)
    ensures
        texts(r@) == seq![
            smoke_command(options.coin@, options.shadow_history_path@, leaders@),
        ],
{
    let args: String = leader_arguments_of(leaders);
    let mut d: String =
        "cargo run --manifest-path V2\\Cargo.toml -- copy-shadow-smoke --config ".to_owned();
    d.append(DEFAULT_CONFIG_PATH);
    d.append(" ");
    d.append(args.as_str());
    d.append(" --coin ");
    d.append(options.coin.as_str());
    d.append(" --shadow-history ");
    d.append(options.shadow_history_path.as_str());
    d.append(" --synthetic-event true");
    let r: Vec<String> = vec![d];
    assert(texts(r@) =~= seq![
        smoke_command(options.coin@, options.shadow_history_path@, leaders@),
    ]);
    r
}

fn push_synthetic_checks(
    c: &mut Vec<CopyShadowSmokeCheck>,
    step: SmokeStep,
    written: usize,
    path: &str,
)
    ensures
        views(final(c)@) == views(old(c)@) + synthetic_checks(step, written as int, path@),
{
    let ghost start = views(c@);
    match step {
        SmokeStep::Report => {},
        SmokeStep::ReportNoAccount => push_note(
            c,
            "synthetic_shadow_pipeline",
            false,
            "cannot run synthetic event without a configured local account",
        ),
        SmokeStep::ReportNoLeader => push_note(
            c,
            "synthetic_shadow_pipeline",
            false,
            "cannot run synthetic event without at least one --leader",
        ),
        SmokeStep::RunSyntheticEvent => {
            let mut d: String = counted(written, " shadow history record(s) appended to ");
            d.append(path);
            push_check(c, "synthetic_shadow_pipeline", written > 0, d);
        },
    }
    assert(views(c@) =~= start + synthetic_checks(step, written as int, path@));
}

/// The report of a smoke run. `written` records were appended where the made-up
/// event was run.
pub fn run_copy_shadow_smoke(
    config: &AppConfig,
    options: &CopyShadowSmokeOptions,
    start: ShadowStart,
    watcher_subscriptions: Vec<String>,
    written: usize,
    recent_shadow_entries: usize,
) -> (r: CopyShadowSmokeReport)
    ensures
        ({
            let step = smoke_step(
                options.synthetic_event,
                start.local_configured,
                start.leaders@.len() as int,
            );
            let checks = views(start.checks@) + synthetic_checks(
                step,
                written as int,
                options.shadow_history_path@,
            );
            &&& views(r.checks@) == checks
            &&& r.ok == all_ok(checks)
            &&& r.synthetic_records_written == if step is RunSyntheticEvent {
                written
            } else {
                0
            }
        }),
        r.mode@ == "read_only_dry_run_shadow"@,
        r.environment == config.app.environment,
        r.process_dry_run == config.app.dry_run,
        r.local_account_id == start.local_account_id,
        r.target_accounts == start.target_accounts,
        r.leaders == start.leaders,
        r.watcher_subscriptions == watcher_subscriptions,
        r.shadow_history_path == options.shadow_history_path,
        r.recent_shadow_entries == recent_shadow_entries,
        texts(r.next_commands@) == seq![
            smoke_command(options.coin@, options.shadow_history_path@, start.leaders@),
        ],
{
    let step: SmokeStep = next_smoke_step(options, &start);
    let mut checks: Vec<CopyShadowSmokeCheck> = start.checks;
    push_synthetic_checks(&mut checks, step, written, options.shadow_history_path.as_str());
    let next_commands: Vec<String> = copy_shadow_smoke_next_commands(options, &start.leaders);
    let ran: bool = match step {
        SmokeStep::RunSyntheticEvent => true,
        _ => false,
    };
    CopyShadowSmokeReport {
        ok: checks_all_ok(&checks),
        mode: "read_only_dry_run_shadow".to_owned(),
        environment: config.app.environment.clone(),
        process_dry_run: config.app.dry_run,
        local_account_id: start.local_account_id,
        target_accounts: start.target_accounts,
        leaders: start.leaders,
        watcher_subscriptions,
        checks,
        shadow_history_path: options.shadow_history_path.clone(),
        synthetic_records_written: if ran {
            written
        } else {
            0
        },
        recent_shadow_entries,
        next_commands,
    }
}

/// What is wrong with what an operator asked of a watch, if anything.
pub open spec fn watch_error(config: AppConfig, o: CopyShadowWatchOptions) -> Option<Seq<char>> {
    if !config.app.dry_run {
        Some("copy-shadow-watch requires app.dry_run=true; refusing to run in live-capable config"@)
    } else if o.duration_secs == 0 {
        Some("duration_secs must be positive for copy shadow watch"@)
    } else if o.max_events == 0 {
        Some("max_events must be positive for copy shadow watch"@)
    } else {
        None
    }
}

/// Whether a watch over leaders may start at all.
pub fn validate_shadow_watch(config: &AppConfig, options: &CopyShadowWatchOptions) -> (r: Result<
    (),
    String,
>)
    ensures
        match watch_error(*config, *options) {
            Some(e) => r is Err && r->Err_0@ == e,
            None => r is Ok,
        },
{
    if !config.app.dry_run {
        return Err(
            "copy-shadow-watch requires app.dry_run=true; refusing to run in live-capable config".to_owned(),
        );
    }
    if options.duration_secs == 0 {
        return Err("duration_secs must be positive for copy shadow watch".to_owned());
    }
    if options.max_events == 0 {
        return Err("max_events must be positive for copy shadow watch".to_owned());
    }
    Ok(())
}

/// Begins a watch.
pub fn start_copy_shadow_watch(
    config: &AppConfig,
    options: &CopyShadowWatchOptions,
    subscriptions: usize,
) -> (r: Result<ShadowStart, String>)
    ensures
        match watch_error(*config, *options) {
            Some(e) => r is Err && r->Err_0@ == e,
            None => match leaders_of(texts(options.leaders@)) {
                Err(e) => r is Err && r->Err_0@ == e,
                Ok(leaders) => r is Ok && leader_views(r->Ok_0.leaders@) == leaders
                    && shadow_start(
                    r->Ok_0,
                    *config,
                    local_id(options.local_account_id),
                    shadow_checks(
                        *config,
                        chosen_local(
                            local_id(options.local_account_id),
                            texts(worker_ids(config.accounts@)),
                        ),
                        leaders.len() as int,
                    ).push(subscription_check(subscriptions as int)),
                ),
            },
        },
{
    if let Err(e) = validate_shadow_watch(config, options) {
        return Err(e);
    }
    let leaders: Vec<CopyShadowSmokeLeader> = match parse_copy_shadow_smoke_leaders(
        &options.leaders,
    ) {
        Err(e) => {
            return Err(e);
        },
        Ok(v) => v,
    };
    assert(leader_views(leaders@).len() == leaders@.len());
    let mut s: ShadowStart = begin_shadow(config, &options.local_account_id, leaders);
    let mut c: Vec<CopyShadowSmokeCheck> = s.checks;
    push_subscription_check(&mut c, subscriptions);
    s.checks = c;
    Ok(s)
}

/// Why a watch does not start, if it does not.
pub open spec fn watch_skip(local_configured: bool, leaders: int) -> Option<WatchStatus> {
    if !local_configured {
        Some(WatchStatus::NotStartedNoLocalAccount)
    } else if leaders == 0 {
        Some(WatchStatus::NotStartedNoLeaders)
    } else {
        None
    }
}

/// Why a watch does not start, if it does not.
pub fn watch_skipped(start: &ShadowStart) -> (r: Option<WatchStatus>)
    ensures
        r == watch_skip(start.local_configured, start.leaders@.len() as int),
{
    if !start.local_configured {
        Some(WatchStatus::NotStartedNoLocalAccount)
    } else if start.leaders.len() == 0 {
        Some(WatchStatus::NotStartedNoLeaders)
    } else {
        None
    }
}

/// The environment that a watch connects to.
pub open spec fn feed_environment(config: AppConfig, requested: Option<String>) -> String {
    match requested {
        Some(e) => e,
        None => config.app.environment,
    }
}

/// The address that a watch connects to, unless its environment decides: the one
/// asked for, else the configured one where no environment was asked for.
pub open spec fn feed_url(
    config: AppConfig,
    environment: Option<String>,
    ws_url: Option<String>,
) -> Option<String> {
    match (ws_url, environment) {
        (Some(u), _) => Some(u),
        (None, None) => Some(config.hyperliquid.ws_url),
        (None, Some(_)) => None,
    }
}

/// Where a watch connects to.
pub fn feed_of(
    config: &AppConfig,
    environment: &Option<String>,
    ws_url: &Option<String>,
) -> (r: (String, Option<String>))
    ensures
        r.0 == feed_environment(*config, *environment),
        r.1 == feed_url(*config, *environment, *ws_url),
{
    let e: String = match environment {
        Some(e) => e.clone(),
        None => config.app.environment.clone(),
    };
    let u: Option<String> = match ws_url {
        Some(u) => Some(u.clone()),
        None => match environment {
            Some(_) => None,
            None => Some(config.hyperliquid.ws_url.clone()),
        },
    };
    (e, u)
}

/// What an operator should know of a watch.
pub open spec fn watch_findings(
    config: AppConfig,
    o: CopyShadowWatchOptions,
    c: WatchCounts,
) -> Seq<Seq<char>> {
    let quiet = if c.events_received == 0 {
        seq!["no watcher events received during this bounded window"@]
    } else {
        Seq::empty()
    };
    let old_fills = if c.fill_events > 0 && c.fill_events == c.snapshot_fill_events {
        seq![
            "only snapshot fills were observed; snapshot fills are recorded as context and do not trigger copy signals"@,
        ]
    } else {
        Seq::empty()
    };
    let no_positions = if c.position_snapshot_events == 0 {
        seq![
            "no position snapshots were parsed; semantic open/close classification requires fresh position snapshots"@,
        ]
    } else {
        Seq::empty()
    };
    let no_records = if c.shadow_records_written == 0 {
        seq![
            "no copy shadow records written; leader fills may need matching before/after position snapshots"@,
        ]
    } else {
        Seq::empty()
    };
    let testnet = if o.environment is None && o.ws_url is None && lower(config.app.environment@)
        == "testnet"@ {
        seq!["config uses testnet; pass --environment mainnet for mainnet leader addresses"@]
    } else {
        Seq::empty()
    };
    quiet + old_fills + no_positions + no_records + testnet
}

fn push_if(v: &mut Vec<String>, when: bool, text: &str)
    ensures
        texts(final(v)@) == texts(old(v)@) + if when {
            seq![text@]
        } else {
            Seq::empty()
        },
{
    let ghost start = v@;
    if when {
        v.push(text.to_owned());
        assert(texts(v@) =~= texts(start) + seq![text@]);
    } else {
        assert(texts(v@) =~= texts(start) + Seq::empty());
    }
}

fn find_watch_findings(
    config: &AppConfig,
    o: &CopyShadowWatchOptions,
    c: &WatchCounts,
) -> (r: Vec<String>)
    ensures
        texts(r@) == watch_findings(*config, *o, *c),
{
    let mut v: Vec<String> = Vec::new();
    assert(texts(v@) =~= Seq::empty());
    push_if(
        &mut v,
        c.events_received == 0,
        "no watcher events received during this bounded window",
    );
    push_if(
        &mut v,
        c.fill_events > 0 && c.fill_events == c.snapshot_fill_events,
        "only snapshot fills were observed; snapshot fills are recorded as context and do not trigger copy signals",
    );
    push_if(
        &mut v,
        c.position_snapshot_events == 0,
        "no position snapshots were parsed; semantic open/close classification requires fresh position snapshots",
    );
    push_if(
        &mut v,
        c.shadow_records_written == 0,
        "no copy shadow records written; leader fills may need matching before/after position snapshots",
    );
    proof {
        reveal_strlit("testnet");
        assert(lower("testnet"@) =~= "testnet"@);
    }
    let testnet: bool = o.environment.is_none() && o.ws_url.is_none() && same_text_ignoring_case(
        config.app.environment.as_str(),
        "testnet",
    );
    push_if(
        &mut v,
        testnet,
        "config uses testnet; pass --environment mainnet for mainnet leader addresses",
    );
    assert(texts(v@) =~= watch_findings(*config, *o, *c));
    v
}

/// The report of a watch that ended with the given status.
pub fn copy_shadow_watch_report(
    config: &AppConfig,
    options: &CopyShadowWatchOptions,
    start: ShadowStart,
    watcher_subscriptions: Vec<String>,
    counts: WatchCounts,
    status: WatchStatus,
    elapsed_ms: u64,
    recent_shadow_entries: usize,
) -> (r: CopyShadowWatchReport)
    ensures
        r.ok == all_ok(views(start.checks@)),
        r.mode@ == "read_only_live_ws_dry_run_shadow"@,
        r.environment == feed_environment(*config, options.environment),
        r.ws_url == feed_url(*config, options.environment, options.ws_url),
        r.process_dry_run == config.app.dry_run,
        r.local_account_id == start.local_account_id,
        r.target_accounts == start.target_accounts,
        r.leaders == start.leaders,
        r.watcher_subscriptions == watcher_subscriptions,
        r.checks == start.checks,
        r.shadow_history_path == options.shadow_history_path,
        r.duration_secs == options.duration_secs,
        r.elapsed_ms == elapsed_ms,
        r.max_events == options.max_events,
        r.counts == counts,
        r.recent_shadow_entries == recent_shadow_entries,
        r.watcher_status@ == status_text(status),
        texts(r.findings@) == watch_findings(*config, *options, counts),
{
    let (environment, ws_url) = feed_of(config, &options.environment, &options.ws_url);
    let findings: Vec<String> = find_watch_findings(config, options, &counts);
    CopyShadowWatchReport {
        ok: checks_all_ok(&start.checks),
        mode: "read_only_live_ws_dry_run_shadow".to_owned(),
        environment,
        ws_url,
        process_dry_run: config.app.dry_run,
        local_account_id: start.local_account_id,
        target_accounts: start.target_accounts,
        leaders: start.leaders,
        watcher_subscriptions,
        checks: start.checks,
        shadow_history_path: options.shadow_history_path.clone(),
        duration_secs: options.duration_secs,
        elapsed_ms,
        max_events: options.max_events,
        counts,
        recent_shadow_entries,
        watcher_status: watch_status_text(status),
        findings,
    }
}

/// The report of a watch that ran: its end is noted, and then reported.
pub fn run_copy_shadow_watch(
    config: &AppConfig,
    options: &CopyShadowWatchOptions,
    start: ShadowStart,
    watcher_subscriptions: Vec<String>,
    counts: WatchCounts,
    status: WatchStatus,
    end: WatcherEnd,
    elapsed_ms: u64,
    recent_shadow_entries: usize,
) -> (r: CopyShadowWatchReport)
    ensures
        ({
            let e = watch_ended(status, counts.events_received, options.max_events, end);
            &&& views(r.checks@) == views(start.checks@) + e.1
            &&& r.ok == all_ok(views(start.checks@) + e.1)
            &&& r.watcher_status@ == status_text(e.0)
        }),
        r.mode@ == "read_only_live_ws_dry_run_shadow"@,
        r.environment == feed_environment(*config, options.environment),
        r.ws_url == feed_url(*config, options.environment, options.ws_url),
        r.process_dry_run == config.app.dry_run,
        r.local_account_id == start.local_account_id,
        r.target_accounts == start.target_accounts,
        r.leaders == start.leaders,
        r.watcher_subscriptions == watcher_subscriptions,
        r.shadow_history_path == options.shadow_history_path,
        r.duration_secs == options.duration_secs,
        r.elapsed_ms == elapsed_ms,
        r.max_events == options.max_events,
        r.counts == counts,
        r.recent_shadow_entries == recent_shadow_entries,
        texts(r.findings@) == watch_findings(*config, *options, counts),
{
    let mut start: ShadowStart = start;
    let mut checks: Vec<CopyShadowSmokeCheck> = start.checks;
    let status: WatchStatus = end_watch(
        &mut checks,
        status,
        counts.events_received,
        options.max_events,
        end,
    );
    start.checks = checks;
    copy_shadow_watch_report(
        config,
        options,
        start,
        watcher_subscriptions,
        counts,
        status,
        elapsed_ms,
        recent_shadow_entries,
    )
}

/// A run that only watches is refused in a configuration that could go live.
pub proof fn shadow_runs_refuse_live_configurations(
    config: AppConfig,
    smoke: CopyShadowSmokeOptions,
    watch: CopyShadowWatchOptions,
)
    requires
        !config.app.dry_run,
    ensures
        smoke_error(config, smoke) is Some,
        watch_error(config, watch) is Some,
{
}

/// A run works for the account that was asked for, and otherwise for the first
/// that it may work for.
pub proof fn the_account_asked_for_comes_first(requested: Option<Seq<char>>, targets: Seq<Seq<char>>)
    ensures
        requested is Some ==> chosen_local(requested, targets) == requested,
        requested is None && targets.len() > 0 ==> chosen_local(requested, targets) == Some(
            targets[0],
        ),
        chosen_local(requested, targets) is None <==> requested is None && targets.len() == 0,
{
}

/// What each check at the start of a dry run means.
pub proof fn each_check_of_a_dry_run_means_what_it_says(
    config: AppConfig,
    local: Option<Seq<char>>,
    leaders: int,
    gate_is_closed: bool,
    subscriptions: int,
)
    ensures
        ({
            let c = shadow_checks(config, local, leaders);
            let d = smoke_checks(config, local, leaders, gate_is_closed, subscriptions);
            &&& c.len() == 4
            &&& c[0].name == "config_dry_run"@ && (c[0].ok <==> config.app.dry_run)
            &&& c[1].name == "enabled_worker_accounts"@ && (c[1].ok <==> worker_ids(
                config.accounts@,
            ).len() > 0)
            &&& c[2].name == "local_account"@ && (c[2].ok <==> local is Some && config.account_of(
                local->0,
            ) is Some)
            &&& c[3].name == "leaders_configured"@ && (c[3].ok <==> leaders > 0)
            &&& d.len() == 6 && d.subrange(0, 4) == c
            &&& d[4].name == "live_gate"@ && (d[4].ok <==> gate_is_closed)
            &&& d[5].name == "watcher_subscriptions"@ && (d[5].ok <==> subscriptions > 0)
        }),
{
    let c = shadow_checks(config, local, leaders);
    let d = smoke_checks(config, local, leaders, gate_is_closed, subscriptions);
    assert(d.subrange(0, 4) =~= c);
}

/// Dry runs start exactly on a process in dry run, with sizes, durations and limits
/// above zero.
pub proof fn dry_runs_need_positive_figures(
    config: AppConfig,
    s: CopyShadowSmokeOptions,
    w: CopyShadowWatchOptions,
)
    ensures
        smoke_error(config, s) is None <==> config.app.dry_run && s.leader_size > 0
            && s.leader_notional_usd > 0,
        watch_error(config, w) is None <==> config.app.dry_run && w.duration_secs > 0
            && w.max_events > 0,
{
}

/// A made-up event is run exactly where it was asked for, the local account is
/// configured and there is a leader; it then passes where something was written,
/// and where it could not be run it fails.
pub proof fn a_synthetic_event_has_to_be_written(
    synthetic: bool,
    configured: bool,
    leaders: int,
    written: int,
    path: Seq<char>,
)
    ensures
        smoke_step(synthetic, configured, leaders) is RunSyntheticEvent <==> synthetic
            && configured && leaders != 0,
        all_ok(synthetic_checks(smoke_step(synthetic, configured, leaders), written, path)) <==> (
        synthetic ==> configured && leaders != 0 && written > 0),
{
    let c = synthetic_checks(smoke_step(synthetic, configured, leaders), written, path);
    if synthetic {
        assert(c.len() == 1);
        if all_ok(c) {
            assert(c[0].ok);
        }
    }
}

/// A watch starts exactly where its local account is configured and it has a leader.
pub proof fn a_watch_needs_an_account_and_a_leader(configured: bool, leaders: int)
    ensures
        watch_skip(configured, leaders) is None <==> configured && leaders != 0,
        !configured ==> watch_skip(configured, leaders) == Some(
            WatchStatus::NotStartedNoLocalAccount,
        ),
        configured && leaders == 0 ==> watch_skip(configured, leaders) == Some(
            WatchStatus::NotStartedNoLeaders,
        ),
{
}

/// A feed is the one that was asked for; the configured address is used only with
/// the configured environment.
pub proof fn the_configured_address_goes_with_its_environment(
    config: AppConfig,
    environment: Option<String>,
    ws_url: Option<String>,
)
    ensures
        environment is Some ==> feed_environment(config, environment) == environment->0,
        environment is None ==> feed_environment(config, environment) == config.app.environment,
        ws_url is Some ==> feed_url(config, environment, ws_url) == ws_url,
        ws_url is None && environment is Some ==> feed_url(config, environment, ws_url) is None,
        ws_url is None && environment is None ==> feed_url(config, environment, ws_url) == Some(
            config.hyperliquid.ws_url,
        ),
{
}

/// A watch has nothing to remark on exactly where it saw events, not only fills of
/// a snapshot, saw positions, wrote records, and was not left on the test network
/// by its configuration.
pub proof fn a_full_watch_leaves_no_remarks(
    config: AppConfig,
    o: CopyShadowWatchOptions,
    c: WatchCounts,
)
    ensures
        watch_findings(config, o, c).len() == 0 <==> c.events_received > 0 && !(c.fill_events > 0
            && c.fill_events == c.snapshot_fill_events) && c.position_snapshot_events > 0
            && c.shadow_records_written > 0 && !(o.environment is None && o.ws_url is None && lower(
            config.app.environment@,
        ) == "testnet"@),
{
}

/// A dry run begins with every account that may work, and with the checks it was
/// given, for the account asked for or the first of them.
pub proof fn a_dry_run_begins_with_the_accounts_that_work(
    s: ShadowStart,
    config: AppConfig,
    requested: Option<Seq<char>>,
    checks: Seq<Check>,
)
    requires
        shadow_start(s, config, requested, checks),
    ensures
        s.target_accounts@ == worker_ids(config.accounts@),
        requested is Some ==> s.local_account_id is Some && s.local_account_id->0@ == requested->0,
        requested is None && s.target_accounts@.len() > 0 ==> s.local_account_id is Some
            && s.local_account_id->0@ == s.target_accounts@[0]@,
        requested is None && s.target_accounts@.len() == 0 ==> s.local_account_id is None,
        s.local_configured <==> s.local_account_id is Some && config.account_of(
            s.local_account_id->0@,
        ) is Some,
        s.checks@.len() == checks.len(),
        forall|i: int| 0 <= i < checks.len() ==> (#[trigger] s.checks@[i])@ == checks[i],
{
    let all = texts(s.target_accounts@);
    assert(all.len() == s.target_accounts@.len());
    if all.len() > 0 {
        assert(all[0] == s.target_accounts@[0]@);
    }
    assert(views(s.checks@).len() == s.checks@.len());
    assert forall|i: int| 0 <= i < checks.len() implies (#[trigger] s.checks@[i])@ == checks[i] by {
        assert(views(s.checks@)[i] == s.checks@[i]@);
    }
}

} // verus!
