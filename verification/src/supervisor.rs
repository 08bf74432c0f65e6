//! A supervised window: its gate, its watch, its orders, and its report.

use vstd::prelude::*;

use crate::acceptance::CopyLiveDaemonAcceptanceReport;
use crate::canary::local_id;
use crate::checks::{
    all_ok, all_ok_concat, append_checks, check, checks_all_ok, clone_checks, push_check, push_note,
    views, Check, CopyShadowSmokeCheck,
};
use crate::config::{copy_execution_canary_target_accounts, target_accounts, AppConfig};
use crate::contract::{
    copy_live_daemon_submit_evidence_contract, evidence_contract_for,
    CopyLiveDaemonSubmitEvidenceContract, CopyLiveDaemonSubmitPlanContract,
};
use crate::decimal::{
    are_fees_within, counted, dec, fees_fit, fine6, fixed6, push_count, push_fine6, push_fixed6,
    push_total6, push_u64, Fees, Fixed, Total,
};
use crate::leaders::{
    leader_views, leaders_of, parse_copy_shadow_smoke_leaders, CopyShadowSmokeLeader,
};
use crate::ledger::{CopyLedgerEntry, CopyPersistenceSnapshot};
use crate::merge::{copy_live_daemon_merge_persistence_snapshots, merged_entries};
use crate::options::{CopyLiveDaemonAcceptanceOptions, CopyLiveDaemonSupervisorOptions};
use crate::plan::{
    copy_live_daemon_order_refs_to_orders, count_open_orders, count_reduce_orders, order_opens,
    order_reduces, orders_of, CopyExecutionCanaryWouldSubmit, CopyLiveDaemonSuppressedWouldSubmit,
    CopyLiveDaemonSuppressedWouldSubmitRef, CopyLiveDaemonWouldSubmitRef,
};
use crate::reconcile::CopyBoundedLiveWindowReconcile;
use crate::recovery::{
    copy_live_daemon_reconcile_health_detail_for_snapshot,
    copy_live_daemon_reconciliations_healthy_for_snapshot, health_detail_with_ledger,
    healthy_with_ledger,
};
use crate::rehearse::CopyLiveDaemonPersistentSubmitDryRunReport;
use crate::select::FinalPlan;
use crate::shadow::{
    choose_local, chosen_local, feed_environment, feed_of, feed_url, is_local_configured,
    leader_check, local_check, local_configured, push_leader_check, push_local_check,
    push_subscription_check, subscription_check,
};
use crate::sorted::{ascending, sorted_texts, sorted_texts_meaning};
use crate::submit::{
    copy_live_daemon_live_submit_health_ok, sent_nothing, submit_healthy,
    CopyLiveDaemonPersistentLiveSubmitReport,
};
use crate::text::{bool_text, clone_texts, join, joined, occurs_at, push_bool, texts};
use crate::watch::{
    copy_live_daemon_watcher_progress_check, progress_check, status_text, watch_status_text,
    WatchCounts, WatchStatus,
};

verus! {

/// The outcome of a supervised window.
#[derive(Debug)]
pub struct CopyLiveDaemonSupervisorReport {
    pub ok: bool,
    pub mode: String,
    pub environment: String,
    pub ws_url: Option<String>,
    pub no_submit: bool,
    pub live_gate_requested: bool,
    pub live_submit_allowed: bool,
    pub confirm_mainnet_live: bool,
    pub submit_requested: bool,
    pub hold_positions_after_submit: bool,
    pub cleanup_max_slippage_bps: Fixed,
    pub duration_secs: u64,
    pub elapsed_ms: u64,
    pub max_events: usize,
    pub max_live_orders: usize,
    pub max_total_notional_usd: Fixed,
    pub max_total_fees_usd: Fixed,
    pub max_slippage_bps: Fixed,
    pub selected_markets: Vec<String>,
    pub acceptance_coin: String,
    pub target_accounts: Vec<String>,
    pub local_account_id: Option<String>,
    pub leaders: Vec<CopyShadowSmokeLeader>,
    pub checks: Vec<CopyShadowSmokeCheck>,
    pub acceptance: CopyLiveDaemonAcceptanceReport,
    pub watcher_subscriptions: Vec<String>,
    pub persistence_path: String,
    pub shadow_history_path: String,
    pub persistence_seen_keys_before: usize,
    pub persistence_seen_keys_after: usize,
    pub persistence_ledger_entries_before: usize,
    pub persistence_ledger_entries_after: usize,
    pub counts: WatchCounts,
    pub pending_unclassified_fill_count: usize,
    pub pending_unclassified_fill_labels: Vec<String>,
    pub approved_shadow_records: usize,
    pub would_submit_orders: Vec<CopyExecutionCanaryWouldSubmit>,
    pub executable_would_submit_orders: Vec<CopyExecutionCanaryWouldSubmit>,
    pub suppressed_would_submit_orders: Vec<CopyLiveDaemonSuppressedWouldSubmit>,
    pub executable_submit_plan_refs: Vec<CopyLiveDaemonWouldSubmitRef>,
    pub suppressed_submit_plan_refs: Vec<CopyLiveDaemonSuppressedWouldSubmitRef>,
    pub planned_notional_usd: Total,
    pub estimated_fees_usd: Fees,
    pub submit_plan_contract: CopyLiveDaemonSubmitPlanContract,
    pub persistent_submit_dry_run: CopyLiveDaemonPersistentSubmitDryRunReport,
    pub persistent_live_submit: CopyLiveDaemonPersistentLiveSubmitReport,
    pub submit_evidence_contract: CopyLiveDaemonSubmitEvidenceContract,
    pub watcher_status: String,
    pub final_reconciliations: Vec<CopyBoundedLiveWindowReconcile>,
    pub next_actions: Vec<String>,
}

/// What is wrong with what an operator asked for, if anything.
pub open spec fn supervisor_error(o: CopyLiveDaemonSupervisorOptions) -> Option<Seq<char>> {
    if o.duration_secs == 0 {
        Some("duration_secs must be positive for copy live daemon supervisor"@)
    } else if o.max_events == 0 {
        Some("max_events must be positive for copy live daemon supervisor"@)
    } else {
        None
    }
}

/// Checks what an operator asked for.
pub fn validate_supervisor_options(o: &CopyLiveDaemonSupervisorOptions) -> (r: Result<(), String>)
    ensures
        match supervisor_error(*o) {
            Some(e) => r is Err && r->Err_0@ == e,
            None => r is Ok,
        },
{
    if o.duration_secs == 0 {
        Err("duration_secs must be positive for copy live daemon supervisor".to_owned())
    } else if o.max_events == 0 {
        Err("max_events must be positive for copy live daemon supervisor".to_owned())
    } else {
        Ok(())
    }
}

/// What the acceptance run of a supervised window is asked. It works on files of its own.
pub fn supervisor_acceptance_options(
    o: &CopyLiveDaemonSupervisorOptions,
    target_accounts: &Vec<String>,
    persistence_path: String,
    shadow_history_path: String,
) -> (r: CopyLiveDaemonAcceptanceOptions)
    ensures
        r.leaders@ == o.leaders@,
        r.account_ids@ == target_accounts@,
        r.coin == o.coin,
        r.side == o.side,
        r.persistence_path == persistence_path,
        r.shadow_history_path == shadow_history_path,
        r.leader_notional_usd == o.leader_notional_usd,
        r.leader_size == o.leader_size,
        r.live == o.live_gate,
        r.allow_live_submit == o.allow_live_submit,
        r.confirm_mainnet_live == o.confirm_mainnet_live,
        r.max_duration_secs == o.duration_secs,
        r.max_live_orders == o.max_live_orders,
        r.max_total_notional_usd == o.max_total_notional_usd,
        r.max_total_fees_usd == o.max_total_fees_usd,
        r.max_slippage_bps == o.max_slippage_bps,
        r.require_cleanup_after_submit,
        r.require_flat_reconcile_after_submit,
{
    CopyLiveDaemonAcceptanceOptions {
        leaders: clone_texts(&o.leaders),
        account_ids: clone_texts(target_accounts),
        coin: o.coin.clone(),
        side: o.side,
        persistence_path,
        shadow_history_path,
        leader_notional_usd: o.leader_notional_usd,
        leader_size: o.leader_size,
        live: o.live_gate,
        allow_live_submit: o.allow_live_submit,
        confirm_mainnet_live: o.confirm_mainnet_live,
        max_duration_secs: o.duration_secs,
        max_live_orders: o.max_live_orders,
        max_total_notional_usd: o.max_total_notional_usd,
        max_total_fees_usd: o.max_total_fees_usd,
        max_slippage_bps: o.max_slippage_bps,
        require_cleanup_after_submit: true,
        require_flat_reconcile_after_submit: true,
    }
}

/// What became of looking for the signers of a run: whether the vault could be
/// read, and for each target account why its signer could not be loaded.
#[derive(Debug)]
pub struct SignerFindings {
    pub vault_error: Option<String>,
    pub signer_errors: Vec<Option<String>>,
}

/// Whether the findings cover every target account, where they are needed.
pub open spec fn signers_covered(submit: bool, f: SignerFindings, accounts: int) -> bool {
    submit && f.vault_error is None ==> f.signer_errors@.len() == accounts
}

/// What is wrong with the signers of the first `n` accounts.
pub open spec fn signer_problems(
    config: AppConfig,
    accounts: Seq<String>,
    errors: Seq<Option<String>>,
    n: int,
) -> Seq<Seq<char>>
    decreases n,
{
    if n <= 0 {
        Seq::empty()
    } else {
        let before = signer_problems(config, accounts, errors, n - 1);
        let id = accounts[n - 1]@;
        if config.account_of(id) is None {
            before.push(id + ": account is not configured"@)
        } else {
            match errors[n - 1] {
                Some(e) => before.push(id + ": "@ + e@),
                None => before,
            }
        }
    }
}

/// The check that the signers of a run can be loaded.
pub open spec fn signer_check(
    config: AppConfig,
    accounts: Seq<String>,
    submit: bool,
    f: SignerFindings,
) -> Check {
    let problems = signer_problems(config, accounts, f.signer_errors@, accounts.len() as int);
    let name = "copy_signers_available"@;
    if !submit {
        check(name, true, "signer preflight skipped in no-submit mode"@)
    } else if f.vault_error is Some {
        check(
            name,
            false,
            "failed to read Vault session cache for signer preflight: "@ + f.vault_error->0@,
        )
    } else if problems.len() == 0 {
        check(
            name,
            true,
            "all "@ + dec(accounts.len())
                + " selected local account signer(s) can be loaded from the current Vault session/cache"@,
        )
    } else {
        check(
            name,
            false,
            "selected local account signer preflight failed: "@ + joined(problems, "; "@),
        )
    }
}

fn find_signer_problems(
    config: &AppConfig,
    accounts: &Vec<String>,
    errors: &Vec<Option<String>>,
) -> (r: Vec<String>)
    requires
        errors@.len() == accounts@.len(),
    ensures
        texts(r@) == signer_problems(*config, accounts@, errors@, accounts@.len() as int),
{
    let mut r: Vec<String> = Vec::new();
    let mut i: usize = 0;
    assert(texts(r@) =~= Seq::empty());
    while i < accounts.len()
        invariant
            errors@.len() == accounts@.len(),
            i <= accounts@.len(),
            texts(r@) == signer_problems(*config, accounts@, errors@, i as int),
        decreases accounts@.len() - i,
    {
        let ghost before = r@;
        match config.account(accounts[i].as_str()) {
            Some(_account) => {
                if let Some(e) = &errors[i] {
                    let mut d: String = accounts[i].clone();
                    d.append(": ");
                    d.append(e.as_str());
                    r.push(d);
                    assert(texts(r@) =~= texts(before).push(d@));
                }
            },
            None => {
                let mut d: String = accounts[i].clone();
                d.append(": account is not configured");
                r.push(d);
                assert(texts(r@) =~= texts(before).push(d@));
            },
        }
        i += 1;
    }
    r
}

/// Checks that the signers of a run can be loaded.
pub fn copy_live_daemon_signer_preflight_checks(
    config: &AppConfig,
    target_accounts: &Vec<String>,
    submit_requested: bool,
    findings: &SignerFindings,
) -> (r: Vec<CopyShadowSmokeCheck>)
    requires
        signers_covered(submit_requested, *findings, target_accounts@.len() as int),
    ensures
        views(r@) == seq![
            signer_check(*config, target_accounts@, submit_requested, *findings),
        ],
{
    let ghost goal = seq![signer_check(*config, target_accounts@, submit_requested, *findings)];
    let mut c: Vec<CopyShadowSmokeCheck> = Vec::new();
    assert(views(c@) =~= Seq::empty());
    if !submit_requested {
        push_note(
            &mut c,
            "copy_signers_available",
            true,
            "signer preflight skipped in no-submit mode",
        );
        assert(views(c@) =~= goal);
        return c;
    }
    if let Some(e) = &findings.vault_error {
        let mut d: String =
            "failed to read Vault session cache for signer preflight: ".to_owned();
        d.append(e.as_str());
        push_check(&mut c, "copy_signers_available", false, d);
        assert(views(c@) =~= goal);
        return c;
    }
    let missing: Vec<String> = find_signer_problems(
        config,
        target_accounts,
        &findings.signer_errors,
    );
    assert(texts(missing@).len() == missing@.len());
    if missing.len() == 0 {
        let mut d: String = "all ".to_owned();
        push_count(&mut d, target_accounts.len());
        d.append(
            " selected local account signer(s) can be loaded from the current Vault session/cache",
        );
        push_check(&mut c, "copy_signers_available", true, d);
    } else {
        let mut d: String = "selected local account signer preflight failed: ".to_owned();
        let all: String = join(&missing, "; ");
        d.append(all.as_str());
        push_check(&mut c, "copy_signers_available", false, d);
    }
    assert(views(c@) =~= goal);
    c
}

/// The checks with which a supervised window begins.
pub open spec fn supervisor_start_checks(
    config: AppConfig,
    o: CopyLiveDaemonSupervisorOptions,
    acceptance_ok: bool,
    accounts: Seq<String>,
    leaders: int,
    subscriptions: int,
    signers: SignerFindings,
) -> Seq<Check> {
    let local = chosen_local(local_id(o.local_account_id), texts(accounts));
    seq![
        check(
            "submit_mode"@,
            !o.submit || (o.live_gate && o.allow_live_submit),
            if o.submit {
                "copy-live-daemon-supervisor submit mode requires live_gate and allow_live_submit"@
            } else {
                "copy-live-daemon-supervisor is running in no-submit observation mode"@
            },
        ),
        check(
            "acceptance_gate"@,
            acceptance_ok,
            "copy-live-daemon-acceptance ok="@ + bool_text(acceptance_ok),
        ),
        check(
            "target_accounts"@,
            accounts.len() > 0,
            dec(accounts.len()) + " target account(s)"@,
        ),
        local_check("supervisor"@, local_configured(config, local), local),
        leader_check(leaders),
        subscription_check(subscriptions),
        check(
            "bounded_events"@,
            o.max_events <= 100_000,
            "max_events="@ + dec(o.max_events as nat) + " must be <= 100000"@,
        ),
        check(
            "market_scope"@,
            o.markets@.len() > 0,
            "copy entry markets="@ + joined(texts(o.markets@), ","@)
                + "; unselected markets are exit-only"@,
        ),
        signer_check(config, accounts, o.submit, signers),
    ]
}

/// How a supervised window begins: its accounts, its leaders, the checks so far,
/// and why it does not watch, if it does not.
#[derive(Debug)]
pub struct SupervisorStart {
    pub target_accounts: Vec<String>,
    pub local_account_id: Option<String>,
    pub leaders: Vec<CopyShadowSmokeLeader>,
    pub checks: Vec<CopyShadowSmokeCheck>,
    pub skip: Option<WatchStatus>,
}

/// Why a supervised window does not watch, if it does not.
pub open spec fn supervisor_skip(
    acceptance_ok: bool,
    local_configured: bool,
    leaders: int,
) -> Option<WatchStatus> {
    if !acceptance_ok {
        Some(WatchStatus::SkippedAcceptanceFailed)
    } else if !local_configured {
        Some(WatchStatus::SkippedMissingLocalAccount)
    } else if leaders == 0 {
        Some(WatchStatus::SkippedNoLeaders)
    } else {
        None
    }
}

/// Begins a supervised window.
pub fn start_copy_live_daemon_supervisor(
    config: &AppConfig,
    options: &CopyLiveDaemonSupervisorOptions,
    acceptance_ok: bool,
    subscriptions: usize,
    signers: &SignerFindings,
) -> (r: Result<SupervisorStart, String>)
    requires
        signers_covered(
            options.submit,
            *signers,
            target_accounts(*config, options.account_ids@, None).len() as int,
        ),
    ensures
        match supervisor_error(*options) {
            Some(e) => r is Err && r->Err_0@ == e,
            None => match leaders_of(texts(options.leaders@)) {
                Err(e) => r is Err && r->Err_0@ == e,
                Ok(leaders) => r is Ok && ({
                    let s = r->Ok_0;
                    let local = chosen_local(
                        local_id(options.local_account_id),
                        texts(s.target_accounts@),
                    );
                    &&& texts(s.target_accounts@) == target_accounts(
                        *config,
                        options.account_ids@,
                        None,
                    )
                    &&& local_id(s.local_account_id) == local
                    &&& leader_views(s.leaders@) == leaders
                    &&& views(s.checks@) == supervisor_start_checks(
                        *config,
                        *options,
                        acceptance_ok,
                        s.target_accounts@,
                        leaders.len() as int,
                        subscriptions as int,
                        *signers,
                    )
                    &&& s.skip == supervisor_skip(
                        acceptance_ok,
                        local_configured(*config, local),
                        leaders.len() as int,
                    )
                }),
            },
        },
{
    match validate_supervisor_options(options) {
        Err(e) => {
            return Err(e);
        },
        Ok(_) => {},
    }
    let leaders: Vec<CopyShadowSmokeLeader> = match parse_copy_shadow_smoke_leaders(
        &options.leaders,
    ) {
        Err(e) => {
            return Err(e);
        },
        Ok(v) => v,
    };
    assert(leader_views(leaders@).len() == leaders@.len());
    let accounts: Vec<String> = copy_execution_canary_target_accounts(
        config,
        &options.account_ids,
        None,
    );
    assert(texts(accounts@).len() == accounts@.len());
    let local: Option<String> = choose_local(&options.local_account_id, &accounts);
    let configured: bool = is_local_configured(config, &local);
    let mut c: Vec<CopyShadowSmokeCheck> = Vec::new();
    assert(views(c@) =~= Seq::empty());
    let mode: &str = if options.submit {
        "copy-live-daemon-supervisor submit mode requires live_gate and allow_live_submit"
    } else {
        "copy-live-daemon-supervisor is running in no-submit observation mode"
    };
    push_note(
        &mut c,
        "submit_mode",
        !options.submit || (options.live_gate && options.allow_live_submit),
        mode,
    );
    let mut d: String = "copy-live-daemon-acceptance ok=".to_owned();
    push_bool(&mut d, acceptance_ok);
    push_check(&mut c, "acceptance_gate", acceptance_ok, d);
    push_check(
        &mut c,
        "target_accounts",
        accounts.len() > 0,
        counted(accounts.len(), " target account(s)"),
    );
    push_local_check(&mut c, "supervisor", configured, &local);
    push_leader_check(&mut c, leaders.len());
    push_subscription_check(&mut c, subscriptions);
    let mut d: String = "max_events=".to_owned();
    push_count(&mut d, options.max_events);
    d.append(" must be <= 100000");
    push_check(&mut c, "bounded_events", options.max_events <= 100_000, d);
    let mut d: String = "copy entry markets=".to_owned();
    let markets: String = join(&options.markets, ",");
    d.append(markets.as_str());
    d.append("; unselected markets are exit-only");
    push_check(&mut c, "market_scope", options.markets.len() > 0, d);
    let more: Vec<CopyShadowSmokeCheck> = copy_live_daemon_signer_preflight_checks(
        config,
        &accounts,
        options.submit,
        signers,
    );
    append_checks(&mut c, more);
    assert(views(c@) =~= supervisor_start_checks(
        *config,
        *options,
        acceptance_ok,
        accounts@,
        leaders@.len() as int,
        subscriptions as int,
        *signers,
    ));
    let skip: Option<WatchStatus> = if !acceptance_ok {
        Some(WatchStatus::SkippedAcceptanceFailed)
    } else if !configured {
        Some(WatchStatus::SkippedMissingLocalAccount)
    } else if leaders.len() == 0 {
        Some(WatchStatus::SkippedNoLeaders)
    } else {
        None
    };
    Ok(
        SupervisorStart {
            target_accounts: accounts,
            local_account_id: local,
            leaders,
            checks: c,
            skip,
        },
    )
}

/// The check that an order that could not be sent at once leaves behind.
pub open spec fn immediate_failure() -> Check {
    check(
        "immediate_live_submit"@,
        false,
        "immediate persistent live submit failed health checks"@,
    )
}

/// What follows from orders that were sent at once: where they did not go well,
/// a failed check and the end of the watch.
pub fn after_immediate_submit(
    checks: &mut Vec<CopyShadowSmokeCheck>,
    report: &CopyLiveDaemonPersistentLiveSubmitReport,
) -> (r: Option<WatchStatus>)
    ensures
        submit_healthy(*report) ==> r is None && views(final(checks)@) == views(old(checks)@),
        !submit_healthy(*report) ==> r == Some(WatchStatus::StoppedImmediateSubmitFailed)
            && views(final(checks)@) == views(old(checks)@).push(immediate_failure()),
{
    if copy_live_daemon_live_submit_health_ok(report) {
        None
    } else {
        push_note(
            checks,
            "immediate_live_submit",
            false,
            "immediate persistent live submit failed health checks",
        );
        Some(WatchStatus::StoppedImmediateSubmitFailed)
    }
}

/// The ledger after the ledgers of several pipelines were merged into it.
pub open spec fn merged_ledgers(
    entries: Seq<CopyLedgerEntry>,
    snapshots: Seq<CopyPersistenceSnapshot>,
) -> Seq<CopyLedgerEntry>
    decreases snapshots.len(),
{
    if snapshots.len() == 0 {
        entries
    } else {
        merged_entries(
            merged_ledgers(entries, snapshots.drop_last()),
            snapshots.last().ledger_entries@,
        )
    }
}

/// The handled events after those of several pipelines were merged into them.
pub open spec fn merged_keys(
    keys: Seq<Seq<char>>,
    snapshots: Seq<CopyPersistenceSnapshot>,
) -> Seq<Seq<char>>
    decreases snapshots.len(),
{
    if snapshots.len() == 0 {
        keys
    } else {
        sorted_texts(
            merged_keys(keys, snapshots.drop_last()) + texts(snapshots.last().seen_event_keys@),
        )
    }
}

/// A snapshot with those of several pipelines merged into it, one after another.
pub fn merge_pipeline_snapshots(
    base: &CopyPersistenceSnapshot,
    snapshots: &Vec<CopyPersistenceSnapshot>,
    now_ms: u64,
) -> (r: CopyPersistenceSnapshot)
    ensures
        r.ledger_entries@ == merged_ledgers(base.ledger_entries@, snapshots@),
        texts(r.seen_event_keys@) == merged_keys(texts(base.seen_event_keys@), snapshots@),
        snapshots@.len() == 0 ==> r.schema_version == base.schema_version && r.saved_at_ms
            == base.saved_at_ms,
        snapshots@.len() > 0 ==> r.schema_version == 1 && r.saved_at_ms == now_ms,
{
    let mut r: CopyPersistenceSnapshot = base.copied();
    let mut i: usize = 0;
    while i < snapshots.len()
        invariant
            i <= snapshots@.len(),
            r.ledger_entries@ == merged_ledgers(
                base.ledger_entries@,
                snapshots@.subrange(0, i as int),
            ),
            texts(r.seen_event_keys@) == merged_keys(
                texts(base.seen_event_keys@),
                snapshots@.subrange(0, i as int),
            ),
            i == 0 ==> r.schema_version == base.schema_version && r.saved_at_ms
                == base.saved_at_ms,
            i > 0 ==> r.schema_version == 1 && r.saved_at_ms == now_ms,
        decreases snapshots@.len() - i,
    {
        let ghost before = r;
        let next: CopyPersistenceSnapshot = snapshots[i].copied();
        r = copy_live_daemon_merge_persistence_snapshots(r, next, now_ms);
        proof {
            let upto = snapshots@.subrange(0, i + 1);
            assert(upto.drop_last() =~= snapshots@.subrange(0, i as int));
            assert(texts(before.seen_event_keys@ + snapshots@[i as int].seen_event_keys@)
                =~= texts(before.seen_event_keys@) + texts(
                snapshots@[i as int].seen_event_keys@,
            ));
        }
        i += 1;
    }
    assert(snapshots@.subrange(0, i as int) =~= snapshots@);
    r
}

/// The trades that one account could not make sense of yet.
#[derive(Debug)]
pub struct PendingFills {
    pub account_id: String,
    pub count: usize,
    pub labels: Vec<String>,
}

/// The labels of one account, each with the account in front.
pub open spec fn account_labels(p: PendingFills) -> Seq<Seq<char>> {
    texts(p.labels@).map_values(|l: Seq<char>| p.account_id@ + ":"@ + l)
}

/// The labels of several accounts.
pub open spec fn all_labels(v: Seq<PendingFills>) -> Seq<Seq<char>>
    decreases v.len(),
{
    if v.len() == 0 {
        Seq::empty()
    } else {
        all_labels(v.drop_last()) + account_labels(v.last())
    }
}

/// How many labels are reported at most.
pub const MAX_PENDING_LABELS: usize = 20;

/// The first of a list of texts.
pub open spec fn first_labels(v: Seq<Seq<char>>) -> Seq<Seq<char>> {
    if v.len() > MAX_PENDING_LABELS {
        v.subrange(0, MAX_PENDING_LABELS as int)
    } else {
        v
    }
}

fn push_account_labels(out: &mut Vec<String>, p: &PendingFills)
    ensures
        texts(final(out)@) == texts(old(out)@) + account_labels(*p),
{
    let ghost start = texts(out@);
    let ghost goal = account_labels(*p);
    let mut i: usize = 0;
    assert(texts(out@) =~= start + goal.subrange(0, 0));
    while i < p.labels.len()
        invariant
            i <= p.labels@.len(),
            goal == account_labels(*p),
            texts(out@) == start + goal.subrange(0, i as int),
        decreases p.labels@.len() - i,
    {
        let ghost before = out@;
        let mut s: String = p.account_id.clone();
        s.append(":");
        s.append(p.labels[i].as_str());
        assert(texts(p.labels@)[i as int] == p.labels@[i as int]@);
        assert(s@ == goal[i as int]);
        out.push(s);
        assert(texts(out@) =~= texts(before).push(s@));
        assert(texts(out@) =~= start + goal.subrange(0, i as int + 1));
        i += 1;
    }
    assert(goal.subrange(0, i as int) =~= goal);
}

/// The labels that are reported of the trades that made no sense yet.
pub fn pending_fill_labels(pending: &Vec<PendingFills>) -> (r: Vec<String>)
    ensures
        texts(r@) == first_labels(all_labels(pending@)),
{
    let mut out: Vec<String> = Vec::new();
    let mut i: usize = 0;
    assert(texts(out@) =~= Seq::empty());
    while i < pending.len()
        invariant
            i <= pending@.len(),
            texts(out@) == all_labels(pending@.subrange(0, i as int)),
        decreases pending@.len() - i,
    {
        push_account_labels(&mut out, &pending[i]);
        proof {
            let upto = pending@.subrange(0, i + 1);
            assert(upto.drop_last() =~= pending@.subrange(0, i as int));
        }
        i += 1;
    }
    assert(pending@.subrange(0, i as int) =~= pending@);
    let ghost all = texts(out@);
    if out.len() > MAX_PENDING_LABELS {
        out.truncate(MAX_PENDING_LABELS);
        assert(texts(out@) =~= first_labels(all));
    }
    out
}

/// What came of a supervised window.
#[derive(Debug)]
pub struct SupervisorOutcome {
    pub start: SupervisorStart,
    pub acceptance: CopyLiveDaemonAcceptanceReport,
    pub watcher_subscriptions: Vec<String>,
    pub counts: WatchCounts,
    pub status: WatchStatus,
    pub elapsed_ms: u64,
    pub persistence_seen_keys_before: usize,
    pub persistence_ledger_entries_before: usize,
    pub pending_unclassified_fill_count: usize,
    pub pending_unclassified_fill_labels: Vec<String>,
    pub approved_shadow_records: usize,
    pub would_submit_plan_refs: Vec<CopyLiveDaemonWouldSubmitRef>,
    pub plan: FinalPlan,
    pub persistent_submit_dry_run: CopyLiveDaemonPersistentSubmitDryRunReport,
    pub persistent_live_submit: CopyLiveDaemonPersistentLiveSubmitReport,
    pub saved: CopyPersistenceSnapshot,
    pub final_reconciliations: Vec<CopyBoundedLiveWindowReconcile>,
}

/// The checks on the orders of a supervised window.
pub open spec fn supervisor_order_checks(
    o: CopyLiveDaemonSupervisorOptions,
    plan: FinalPlan,
    live: CopyLiveDaemonPersistentLiveSubmitReport,
) -> Seq<Check> {
    let orders = plan.executable_would_submit_orders@;
    let opening = orders.filter(order_opens()).len();
    seq![
        check(
            "max_live_order_count"@,
            opening <= o.max_live_orders,
            dec(opening) + " executable open order(s), "@ + dec(
                orders.filter(order_reduces()).len(),
            ) + " executable reduce-only close(s), "@ + dec(
                plan.suppressed_would_submit_orders@.len(),
            ) + " suppressed candidate(s), max_live_orders "@ + dec(o.max_live_orders as nat),
        ),
        check(
            "max_total_notional"@,
            plan.planned_notional_usd <= o.max_total_notional_usd,
            "planned_notional_usd="@ + fixed6(plan.planned_notional_usd as int) + " must be <= "@
                + fixed6(o.max_total_notional_usd as int),
        ),
        check(
            "max_total_fees"@,
            fees_fit(plan.estimated_fees_usd as int, o.max_total_fees_usd),
            "estimated_fees_usd="@ + fine6(plan.estimated_fees_usd as int) + " must be <= "@
                + fixed6(o.max_total_fees_usd as int),
        ),
        check(
            "exchange_submit_mode"@,
            !o.submit || submit_healthy(live),
            if o.submit {
                "submit requested; persistent_live_submit ok="@ + bool_text(live.ok)
                    + " health_ok="@ + bool_text(submit_healthy(live)) + " submitted_reports="@
                    + dec(live.submitted_reports@.len()) + " order_evidence="@ + dec(
                    live.order_evidence@.len(),
                ) + " cleanup_errors="@ + dec(live.cleanup_errors@.len())
            } else {
                "supervisor stayed no-submit; submitted reports are not produced"@
            },
        ),
    ]
}

/// The checks on what a supervised window left behind.
pub open spec fn supervisor_state_checks(
    o: CopyLiveDaemonSupervisorOptions,
    w: SupervisorOutcome,
) -> Seq<Check> {
    let entries = w.saved.ledger_entries@;
    let s = w.final_reconciliations@;
    seq![
        progress_check(
            status_text(w.status),
            w.counts.events_received,
            o.duration_secs,
            w.elapsed_ms,
        ),
        check(
            "persistence_saved"@,
            w.saved.saved_at_ms > 0 || w.counts.shadow_records_written == 0,
            "saved_at_ms="@ + dec(w.saved.saved_at_ms as nat) + " seen_keys="@ + dec(
                w.saved.seen_event_keys@.len(),
            ) + " ledger_entries="@ + dec(entries.len()),
        ),
        check(
            "final_reconcile_health"@,
            healthy_with_ledger(o, s, entries),
            health_detail_with_ledger(o, s, entries),
        ),
    ]
}

/// All checks of a supervised window.
pub open spec fn supervisor_checks(
    o: CopyLiveDaemonSupervisorOptions,
    w: SupervisorOutcome,
) -> Seq<Check> {
    views(w.start.checks@) + supervisor_order_checks(o, w.plan, w.persistent_live_submit)
        + supervisor_state_checks(o, w)
}

fn push_supervisor_order_checks(
    c: &mut Vec<CopyShadowSmokeCheck>,
    o: &CopyLiveDaemonSupervisorOptions,
    plan: &FinalPlan,
    live: &CopyLiveDaemonPersistentLiveSubmitReport,
)
    ensures
        views(final(c)@) == views(old(c)@) + supervisor_order_checks(*o, *plan, *live),
{
    let ghost start = views(c@);
    let opening: usize = count_open_orders(&plan.executable_would_submit_orders);
    let mut d: String = counted(opening, " executable open order(s), ");
    push_count(&mut d, count_reduce_orders(&plan.executable_would_submit_orders));
    d.append(" executable reduce-only close(s), ");
    push_count(&mut d, plan.suppressed_would_submit_orders.len());
    d.append(" suppressed candidate(s), max_live_orders ");
    push_count(&mut d, o.max_live_orders);
    push_check(c, "max_live_order_count", opening <= o.max_live_orders, d);
    let mut d: String = "planned_notional_usd=".to_owned();
    push_total6(&mut d, plan.planned_notional_usd);
    d.append(" must be <= ");
    push_fixed6(&mut d, o.max_total_notional_usd);
    push_check(
        c,
        "max_total_notional",
        plan.planned_notional_usd <= o.max_total_notional_usd as i128,
        d,
    );
    let mut d: String = "estimated_fees_usd=".to_owned();
    push_fine6(&mut d, plan.estimated_fees_usd);
    d.append(" must be <= ");
    push_fixed6(&mut d, o.max_total_fees_usd);
    push_check(
        c,
        "max_total_fees",
        are_fees_within(plan.estimated_fees_usd, o.max_total_fees_usd),
        d,
    );
    let healthy: bool = copy_live_daemon_live_submit_health_ok(live);
    let d: String = if o.submit {
        let mut d: String = "submit requested; persistent_live_submit ok=".to_owned();
        push_bool(&mut d, live.ok);
        d.append(" health_ok=");
        push_bool(&mut d, healthy);
        d.append(" submitted_reports=");
        push_count(&mut d, live.submitted_reports.len());
        d.append(" order_evidence=");
        push_count(&mut d, live.order_evidence.len());
        d.append(" cleanup_errors=");
        push_count(&mut d, live.cleanup_errors.len());
        d
    } else {
        "supervisor stayed no-submit; submitted reports are not produced".to_owned()
    };
    push_check(c, "exchange_submit_mode", !o.submit || healthy, d);
    assert(views(c@) =~= start + supervisor_order_checks(*o, *plan, *live));
}

fn push_supervisor_state_checks(
    c: &mut Vec<CopyShadowSmokeCheck>,
    o: &CopyLiveDaemonSupervisorOptions,
    w: &SupervisorOutcome,
)
    ensures
        views(final(c)@) == views(old(c)@) + supervisor_state_checks(*o, *w),
{
    let ghost start = views(c@);
    let status: String = watch_status_text(w.status);
    let progress: CopyShadowSmokeCheck = copy_live_daemon_watcher_progress_check(
        status.as_str(),
        w.counts.events_received,
        o.duration_secs,
        w.elapsed_ms,
    );
    c.push(progress);
    assert(views(c@) =~= start.push(progress@));
    let mut d: String = "saved_at_ms=".to_owned();
    push_u64(&mut d, w.saved.saved_at_ms);
    d.append(" seen_keys=");
    push_count(&mut d, w.saved.seen_event_keys.len());
    d.append(" ledger_entries=");
    push_count(&mut d, w.saved.ledger_entries.len());
    push_check(
        c,
        "persistence_saved",
        w.saved.saved_at_ms > 0 || w.counts.shadow_records_written == 0,
        d,
    );
    push_check(
        c,
        "final_reconcile_health",
        copy_live_daemon_reconciliations_healthy_for_snapshot(
            o,
            &w.final_reconciliations,
            &w.saved,
        ),
        copy_live_daemon_reconcile_health_detail_for_snapshot(
            o,
            &w.final_reconciliations,
            &w.saved,
        ),
    );
    assert(views(c@) =~= start + supervisor_state_checks(*o, *w));
}

/// Whether a supervised window went well.
pub open spec fn supervisor_ok(
    submit: bool,
    acceptance_ok: bool,
    checks: Seq<Check>,
    reconcile_healthy: bool,
    submit_ok: bool,
) -> bool {
    acceptance_ok && all_ok(checks) && reconcile_healthy && (!submit || submit_ok)
}

/// Whether a supervised window went well.
pub fn copy_live_daemon_supervisor_ok(
    submit_requested: bool,
    acceptance_ok: bool,
    checks: &Vec<CopyShadowSmokeCheck>,
    final_reconcile_health_ok: bool,
    persistent_live_submit_ok: bool,
) -> (r: bool)
    ensures
        r == supervisor_ok(
            submit_requested,
            acceptance_ok,
            views(checks@),
            final_reconcile_health_ok,
            persistent_live_submit_ok,
        ),
{
    acceptance_ok && checks_all_ok(checks) && final_reconcile_health_ok && (!submit_requested
        || persistent_live_submit_ok)
}

/// What an operator should do after a supervised window.
pub open spec fn supervisor_advice(
    ok: bool,
    submit: bool,
    hold: bool,
    ready: bool,
    blocker: Option<Seq<char>>,
    records_written: usize,
) -> Seq<char> {
    if ok && submit && hold {
        "Follow-position live daemon window was healthy; submitted open positions are intentionally held until mapped target close signals arrive."@
    } else if ok && submit && ready {
        "Persistent daemon submit bridge completed this bounded window; review submitted reports, evidence, cleanup, and final reconciliation before extending duration."@
    } else if ok && submit {
        match blocker {
            Some(b) => b,
            None =>
                "Persistent daemon submit window was healthy, but no real submitted order evidence was produced yet; keep running during active leader trading before declaring unattended readiness."@,
        }
    } else if ok && !ready {
        match blocker {
            Some(b) => b,
            None =>
                "No-submit daemon supervisor passed, but unattended submit remains gated until persistent submit evidence is wired."@,
        }
    } else if ok && records_written > 0 {
        "No-submit daemon supervisor passed with real shadow records; review would_submit_orders and run a longer no-submit soak before enabling any submit path."@
    } else if ok {
        "No-submit daemon supervisor passed but saw no shadow records; run a longer soak during active leader trading."@
    } else {
        "Do not enable live submit; fix failed supervisor checks and rerun no-submit daemon supervisor."@
    }
}

fn blocker_or(blocker: &Option<String>, other: &str) -> (r: String)
    ensures
        r@ == match local_id(*blocker) {
            Some(b) => b,
            None => other@,
        },
{
    match blocker {
        Some(b) => b.clone(),
        None => other.to_owned(),
    }
}

fn advise(
    ok: bool,
    submit: bool,
    hold: bool,
    evidence: &CopyLiveDaemonSubmitEvidenceContract,
    records_written: usize,
) -> (r: Vec<String>)
    ensures
        texts(r@) == seq![
            supervisor_advice(
                ok,
                submit,
                hold,
                evidence.ready_for_unattended_submit,
                local_id(evidence.blocker),
                records_written,
            ),
        ],
{
    let ready: bool = evidence.ready_for_unattended_submit;
    let s: String = if ok && submit && hold {
        "Follow-position live daemon window was healthy; submitted open positions are intentionally held until mapped target close signals arrive.".to_owned()
    } else if ok && submit && ready {
        "Persistent daemon submit bridge completed this bounded window; review submitted reports, evidence, cleanup, and final reconciliation before extending duration.".to_owned()
    } else if ok && submit {
        blocker_or(
            &evidence.blocker,
            "Persistent daemon submit window was healthy, but no real submitted order evidence was produced yet; keep running during active leader trading before declaring unattended readiness.",
        )
    } else if ok && !ready {
        blocker_or(
            &evidence.blocker,
            "No-submit daemon supervisor passed, but unattended submit remains gated until persistent submit evidence is wired.",
        )
    } else if ok && records_written > 0 {
        "No-submit daemon supervisor passed with real shadow records; review would_submit_orders and run a longer no-submit soak before enabling any submit path.".to_owned()
    } else if ok {
        "No-submit daemon supervisor passed but saw no shadow records; run a longer soak during active leader trading.".to_owned()
    } else {
        "Do not enable live submit; fix failed supervisor checks and rerun no-submit daemon supervisor.".to_owned()
    };
    let r: Vec<String> = vec![s];
    assert(texts(r@) =~= seq![s@]);
    r
}

/// Whether the report of a window repeats what was asked for.
pub open spec fn report_repeats(
    r: CopyLiveDaemonSupervisorReport,
    config: AppConfig,
    o: CopyLiveDaemonSupervisorOptions,
) -> bool {
    &&& r.mode@ == if o.submit {
        "copy_live_daemon_supervisor_submit"@
    } else {
        "copy_live_daemon_supervisor_no_submit"@
    }
    &&& r.environment == feed_environment(config, o.environment)
    &&& r.ws_url == feed_url(config, o.environment, o.ws_url)
    &&& r.no_submit == !o.submit
    &&& r.live_gate_requested == o.live_gate
    &&& r.live_submit_allowed == o.allow_live_submit
    &&& r.confirm_mainnet_live == o.confirm_mainnet_live
    &&& r.submit_requested == o.submit
    &&& r.hold_positions_after_submit == o.hold_positions_after_submit
    &&& r.cleanup_max_slippage_bps == o.cleanup_max_slippage_bps
    &&& r.duration_secs == o.duration_secs
    &&& r.max_events == o.max_events
    &&& r.max_live_orders == o.max_live_orders
    &&& r.max_total_notional_usd == o.max_total_notional_usd
    &&& r.max_total_fees_usd == o.max_total_fees_usd
    &&& r.max_slippage_bps == o.max_slippage_bps
    &&& r.selected_markets@ == o.markets@
    &&& r.acceptance_coin == o.coin
    &&& r.persistence_path == o.persistence_path
    &&& r.shadow_history_path == o.shadow_history_path
}

/// Whether the report of a window hands on what came of it.
pub open spec fn report_hands_on(r: CopyLiveDaemonSupervisorReport, w: SupervisorOutcome) -> bool {
    &&& r.elapsed_ms == w.elapsed_ms
    &&& r.target_accounts == w.start.target_accounts
    &&& r.local_account_id == w.start.local_account_id
    &&& r.leaders == w.start.leaders
    &&& r.acceptance == w.acceptance
    &&& r.watcher_subscriptions == w.watcher_subscriptions
    &&& r.persistence_seen_keys_before == w.persistence_seen_keys_before
    &&& r.persistence_seen_keys_after == w.saved.seen_event_keys@.len()
    &&& r.persistence_ledger_entries_before == w.persistence_ledger_entries_before
    &&& r.persistence_ledger_entries_after == w.saved.ledger_entries@.len()
    &&& r.counts == w.counts
    &&& r.pending_unclassified_fill_count == w.pending_unclassified_fill_count
    &&& r.pending_unclassified_fill_labels == w.pending_unclassified_fill_labels
    &&& r.approved_shadow_records == w.approved_shadow_records
    &&& r.would_submit_orders@ == orders_of(w.would_submit_plan_refs@)
    &&& r.executable_would_submit_orders == w.plan.executable_would_submit_orders
    &&& r.suppressed_would_submit_orders == w.plan.suppressed_would_submit_orders
    &&& r.executable_submit_plan_refs == w.plan.executable_submit_plan_refs
    &&& r.suppressed_submit_plan_refs == w.plan.suppressed_submit_plan_refs
    &&& r.planned_notional_usd == w.plan.planned_notional_usd
    &&& r.estimated_fees_usd == w.plan.estimated_fees_usd
    &&& r.submit_plan_contract == w.plan.submit_plan_contract
    &&& r.persistent_submit_dry_run == w.persistent_submit_dry_run
    &&& r.persistent_live_submit == w.persistent_live_submit
    &&& r.watcher_status@ == status_text(w.status)
    &&& r.final_reconciliations == w.final_reconciliations
}

/// Whether a supervised window went well.
pub open spec fn window_went_well(
    o: CopyLiveDaemonSupervisorOptions,
    w: SupervisorOutcome,
) -> bool {
    supervisor_ok(
        o.submit,
        w.acceptance.ok,
        supervisor_checks(o, w),
        healthy_with_ledger(o, w.final_reconciliations@, w.saved.ledger_entries@),
        submit_healthy(w.persistent_live_submit),
    )
}

/// The report of a supervised window. A window that was not asked to send
/// reports no submission, evidence, cleanup or ledger result.
pub fn run_copy_live_daemon_supervisor(
    config: &AppConfig,
    options: &CopyLiveDaemonSupervisorOptions,
    outcome: SupervisorOutcome,
) -> (r: CopyLiveDaemonSupervisorReport)
    requires
        options.submit || sent_nothing(outcome.persistent_live_submit),
    ensures
        !options.submit ==> sent_nothing(r.persistent_live_submit),
        r.ok == window_went_well(*options, outcome),
        views(r.checks@) == supervisor_checks(*options, outcome),
        report_repeats(r, *config, *options),
        report_hands_on(r, outcome),
        evidence_contract_for(
            r.submit_evidence_contract,
            *options,
            outcome.acceptance,
            outcome.plan.executable_would_submit_orders@,
            outcome.plan.planned_notional_usd as int,
            outcome.plan.estimated_fees_usd as int,
            outcome.final_reconciliations@,
            if options.submit {
                Some(outcome.persistent_live_submit)
            } else {
                None
            },
        ),
        texts(r.next_actions@) == seq![
            supervisor_advice(
                r.ok,
                options.submit,
                options.hold_positions_after_submit,
                r.submit_evidence_contract.ready_for_unattended_submit,
                local_id(r.submit_evidence_contract.blocker),
                outcome.counts.shadow_records_written,
            ),
        ],
{
    let w: SupervisorOutcome = outcome;
    let mut checks: Vec<CopyShadowSmokeCheck> = clone_checks(&w.start.checks);
    push_supervisor_order_checks(&mut checks, options, &w.plan, &w.persistent_live_submit);
    push_supervisor_state_checks(&mut checks, options, &w);
    let reconcile_healthy: bool = copy_live_daemon_reconciliations_healthy_for_snapshot(
        options,
        &w.final_reconciliations,
        &w.saved,
    );
    let live: Option<&CopyLiveDaemonPersistentLiveSubmitReport> = if options.submit {
        Some(&w.persistent_live_submit)
    } else {
        None
    };
    let evidence: CopyLiveDaemonSubmitEvidenceContract = copy_live_daemon_submit_evidence_contract(
        options,
        &w.acceptance,
        &w.plan.executable_would_submit_orders,
        w.plan.planned_notional_usd,
        w.plan.estimated_fees_usd,
        &w.final_reconciliations,
        live,
    );
    let ok: bool = copy_live_daemon_supervisor_ok(
        options.submit,
        w.acceptance.ok,
        &checks,
        reconcile_healthy,
        copy_live_daemon_live_submit_health_ok(&w.persistent_live_submit),
    );
    let next_actions: Vec<String> = advise(
        ok,
        options.submit,
        options.hold_positions_after_submit,
        &evidence,
        w.counts.shadow_records_written,
    );
    let (environment, ws_url) = feed_of(config, &options.environment, &options.ws_url);
    let mode: &str = if options.submit {
        "copy_live_daemon_supervisor_submit"
    } else {
        "copy_live_daemon_supervisor_no_submit"
    };
    let would_submit_orders: Vec<CopyExecutionCanaryWouldSubmit> =
        copy_live_daemon_order_refs_to_orders(&w.would_submit_plan_refs);
    CopyLiveDaemonSupervisorReport {
        ok,
        mode: mode.to_owned(),
        environment,
        ws_url,
        no_submit: !options.submit,
        live_gate_requested: options.live_gate,
        live_submit_allowed: options.allow_live_submit,
        confirm_mainnet_live: options.confirm_mainnet_live,
        submit_requested: options.submit,
        hold_positions_after_submit: options.hold_positions_after_submit,
        cleanup_max_slippage_bps: options.cleanup_max_slippage_bps,
        duration_secs: options.duration_secs,
        elapsed_ms: w.elapsed_ms,
        max_events: options.max_events,
        max_live_orders: options.max_live_orders,
        max_total_notional_usd: options.max_total_notional_usd,
        max_total_fees_usd: options.max_total_fees_usd,
        max_slippage_bps: options.max_slippage_bps,
        selected_markets: clone_texts(&options.markets),
        acceptance_coin: options.coin.clone(),
        target_accounts: w.start.target_accounts,
        local_account_id: w.start.local_account_id,
        leaders: w.start.leaders,
        checks,
        acceptance: w.acceptance,
        watcher_subscriptions: w.watcher_subscriptions,
        persistence_path: options.persistence_path.clone(),
        shadow_history_path: options.shadow_history_path.clone(),
        persistence_seen_keys_before: w.persistence_seen_keys_before,
        persistence_seen_keys_after: w.saved.seen_event_keys.len(),
        persistence_ledger_entries_before: w.persistence_ledger_entries_before,
        persistence_ledger_entries_after: w.saved.ledger_entries.len(),
        counts: w.counts,
        pending_unclassified_fill_count: w.pending_unclassified_fill_count,
        pending_unclassified_fill_labels: w.pending_unclassified_fill_labels,
        approved_shadow_records: w.approved_shadow_records,
        would_submit_orders,
        executable_would_submit_orders: w.plan.executable_would_submit_orders,
        suppressed_would_submit_orders: w.plan.suppressed_would_submit_orders,
        executable_submit_plan_refs: w.plan.executable_submit_plan_refs,
        suppressed_submit_plan_refs: w.plan.suppressed_submit_plan_refs,
        planned_notional_usd: w.plan.planned_notional_usd,
        estimated_fees_usd: w.plan.estimated_fees_usd,
        submit_plan_contract: w.plan.submit_plan_contract,
        persistent_submit_dry_run: w.persistent_submit_dry_run,
        persistent_live_submit: w.persistent_live_submit,
        submit_evidence_contract: evidence,
        watcher_status: watch_status_text(w.status),
        final_reconciliations: w.final_reconciliations,
        next_actions,
    }
}

/// A window that went well passed its gate, kept to its caps, left its accounts
/// in order, and, where it sent orders, sent them well.
pub proof fn a_good_window_kept_its_caps(
    o: CopyLiveDaemonSupervisorOptions,
    w: SupervisorOutcome,
)
    requires
        window_went_well(o, w),
    ensures
        w.acceptance.ok,
        all_ok(views(w.start.checks@)),
        w.plan.executable_would_submit_orders@.filter(order_opens()).len() <= o.max_live_orders,
        w.plan.planned_notional_usd <= o.max_total_notional_usd,
        fees_fit(w.plan.estimated_fees_usd as int, o.max_total_fees_usd),
        o.submit ==> submit_healthy(w.persistent_live_submit),
        progress_check(
            status_text(w.status),
            w.counts.events_received,
            o.duration_secs,
            w.elapsed_ms,
        ).ok,
        healthy_with_ledger(o, w.final_reconciliations@, w.saved.ledger_entries@),
{
    let start = views(w.start.checks@);
    let orders = supervisor_order_checks(o, w.plan, w.persistent_live_submit);
    let state = supervisor_state_checks(o, w);
    all_ok_concat(start + orders, state);
    all_ok_concat(start, orders);
    assert(orders[0].ok && orders[1].ok && orders[2].ok && orders[3].ok);
    assert(state[0].ok);
}

/// A supervised window is begun exactly with a duration and a limit of events.
pub proof fn supervised_windows_need_limits(o: CopyLiveDaemonSupervisorOptions)
    ensures
        supervisor_error(o) is None <==> o.duration_secs > 0 && o.max_events > 0,
{
}

/// Every selected account that is not configured, or whose signer could not be
/// loaded, is named as a problem, and nothing else is.
pub proof fn signer_problems_are_those_of_accounts(
    config: AppConfig,
    accounts: Seq<String>,
    errors: Seq<Option<String>>,
    n: int,
)
    requires
        0 <= n <= accounts.len(),
        n <= errors.len(),
    ensures
        signer_problems(config, accounts, errors, n).len() == 0 <==> forall|i: int|
            #![trigger accounts[i]]
            0 <= i < n ==> config.account_of(accounts[i]@) is Some && errors[i] is None,
    decreases n,
{
    if n > 0 {
        signer_problems_are_those_of_accounts(config, accounts, errors, n - 1);
        assert(accounts[n - 1] == accounts[n - 1]);
        let before = signer_problems(config, accounts, errors, n - 1);
        if config.account_of(accounts[n - 1]@) is Some && errors[n - 1] is None {
            assert(signer_problems(config, accounts, errors, n) == before);
        } else {
            assert(signer_problems(config, accounts, errors, n).len() == before.len() + 1);
        }
    }
}

/// What each check at the start of a supervised window means.
pub proof fn each_check_at_a_start_means_what_it_says(
    config: AppConfig,
    o: CopyLiveDaemonSupervisorOptions,
    acceptance_ok: bool,
    accounts: Seq<String>,
    leaders: int,
    subscriptions: int,
    f: SignerFindings,
)
    requires
        signers_covered(o.submit, f, accounts.len() as int),
    ensures
        ({
            let c = supervisor_start_checks(
                config,
                o,
                acceptance_ok,
                accounts,
                leaders,
                subscriptions,
                f,
            );
            &&& c.len() == 9
            &&& c[0].name == "submit_mode"@ && (c[0].ok <==> (o.submit ==> o.live_gate
                && o.allow_live_submit))
            &&& c[1].name == "acceptance_gate"@ && (c[1].ok <==> acceptance_ok)
            &&& c[2].name == "target_accounts"@ && (c[2].ok <==> accounts.len() > 0)
            &&& c[3].name == "local_account"@ && (c[3].ok <==> match o.local_account_id {
                Some(id) => config.account_of(id@) is Some,
                None => accounts.len() > 0 && config.account_of(accounts[0]@) is Some,
            })
            &&& c[4].name == "leaders_configured"@ && (c[4].ok <==> leaders > 0)
            &&& c[5].name == "watcher_subscriptions"@ && (c[5].ok <==> subscriptions > 0)
            &&& c[6].name == "bounded_events"@ && (c[6].ok <==> o.max_events <= 100_000)
            &&& c[7].name == "market_scope"@ && (c[7].ok <==> o.markets@.len() > 0)
            &&& c[8].name == "copy_signers_available"@ && (c[8].ok <==> (o.submit
                ==> f.vault_error is None && forall|i: int|
                #![trigger accounts[i]]
                0 <= i < accounts.len() ==> config.account_of(accounts[i]@) is Some
                    && f.signer_errors@[i] is None))
        }),
{
    if o.submit && f.vault_error is None {
        signer_problems_are_those_of_accounts(
            config,
            accounts,
            f.signer_errors@,
            accounts.len() as int,
        );
    }
    assert(texts(accounts).len() == accounts.len());
    if accounts.len() > 0 {
        assert(texts(accounts)[0] == accounts[0]@);
    }
}

/// A supervised window watches exactly where acceptance passed, its local account
/// is configured and there is a leader to watch.
pub proof fn a_window_is_skipped_where_it_cannot_work(
    acceptance_ok: bool,
    configured: bool,
    leaders: int,
)
    ensures
        supervisor_skip(acceptance_ok, configured, leaders) is None <==> acceptance_ok && configured
            && leaders != 0,
        !acceptance_ok ==> supervisor_skip(acceptance_ok, configured, leaders) == Some(
            WatchStatus::SkippedAcceptanceFailed,
        ),
        acceptance_ok && !configured ==> supervisor_skip(acceptance_ok, configured, leaders)
            == Some(WatchStatus::SkippedMissingLocalAccount),
        acceptance_ok && configured && leaders == 0 ==> supervisor_skip(
            acceptance_ok,
            configured,
            leaders,
        ) == Some(WatchStatus::SkippedNoLeaders),
{
}

/// What each check at the end of a supervised window means.
pub proof fn each_check_at_an_end_means_what_it_says(
    o: CopyLiveDaemonSupervisorOptions,
    w: SupervisorOutcome,
)
    ensures
        ({
            let c = supervisor_order_checks(o, w.plan, w.persistent_live_submit);
            let d = supervisor_state_checks(o, w);
            &&& c.len() == 4
            &&& c[0].name == "max_live_order_count"@
            &&& c[1].name == "max_total_notional"@ && (c[1].ok <==> w.plan.planned_notional_usd
                <= o.max_total_notional_usd)
            &&& c[2].name == "max_total_fees"@ && (c[2].ok <==> w.plan.estimated_fees_usd
                <= 1000 * o.max_total_fees_usd)
            &&& c[3].name == "exchange_submit_mode"@ && (c[3].ok <==> (o.submit ==> submit_healthy(
                w.persistent_live_submit,
            )))
            &&& d.len() == 3
            &&& d[0].name == "watcher_progress"@
            &&& d[1].name == "persistence_saved"@ && (d[1].ok <==> (
            w.counts.shadow_records_written > 0 ==> w.saved.saved_at_ms > 0))
            &&& d[2].name == "final_reconcile_health"@
        }),
{
}

/// The limit on the number of orders counts the openings alone: a plan passes it
/// that holds any number of reductions.
pub proof fn only_openings_count_against_the_limit(
    o: CopyLiveDaemonSupervisorOptions,
    plan: FinalPlan,
    live: CopyLiveDaemonPersistentLiveSubmitReport,
)
    ensures
        (forall|i: int|
            0 <= i < plan.executable_would_submit_orders@.len() ==> (
            #[trigger] plan.executable_would_submit_orders@[i]).reduce_only)
            ==> supervisor_order_checks(o, plan, live)[0].ok,
        (forall|i: int|
            0 <= i < plan.executable_would_submit_orders@.len() ==> !(
            #[trigger] plan.executable_would_submit_orders@[i]).reduce_only) ==> (
        supervisor_order_checks(o, plan, live)[0].ok
            <==> plan.executable_would_submit_orders@.len() <= o.max_live_orders),
{
    let orders = plan.executable_would_submit_orders@;
    all_or_nothing_is_kept(orders);
}

proof fn all_or_nothing_is_kept(orders: Seq<CopyExecutionCanaryWouldSubmit>)
    ensures
        (forall|i: int| 0 <= i < orders.len() ==> (#[trigger] orders[i]).reduce_only)
            ==> orders.filter(order_opens()).len() == 0,
        (forall|i: int| 0 <= i < orders.len() ==> !(#[trigger] orders[i]).reduce_only)
            ==> orders.filter(order_opens()).len() == orders.len(),
    decreases orders.len(),
{
    reveal(Seq::filter);
    if orders.len() > 0 {
        let t = orders.drop_last();
        all_or_nothing_is_kept(t);
        assert(orders.last() == orders[orders.len() - 1]);
        assert(forall|i: int| 0 <= i < t.len() ==> t[i] == orders[i]);
        assert(order_opens()(orders.last()) == !orders.last().reduce_only);
    }
}

/// What pipelines saved is merged in order: one more snapshot adds its entries and
/// its events to what the others left, as any two snapshots are merged.
pub proof fn snapshots_are_merged_in_order(
    entries: Seq<CopyLedgerEntry>,
    keys: Seq<Seq<char>>,
    snapshots: Seq<CopyPersistenceSnapshot>,
    next: CopyPersistenceSnapshot,
)
    ensures
        merged_ledgers(entries, Seq::empty()) == entries,
        merged_keys(keys, Seq::empty()) == keys,
        merged_ledgers(entries, snapshots.push(next)) == merged_entries(
            merged_ledgers(entries, snapshots),
            next.ledger_entries@,
        ),
        ascending(merged_keys(keys, snapshots.push(next))),
        forall|k: Seq<char>|
            #[trigger] merged_keys(keys, snapshots.push(next)).contains(k) <==> merged_keys(
                keys,
                snapshots,
            ).contains(k) || texts(next.seen_event_keys@).contains(k),
{
    assert(snapshots.push(next).drop_last() =~= snapshots);
    let a = merged_keys(keys, snapshots);
    let b = texts(next.seen_event_keys@);
    sorted_texts_meaning(a + b);
    assert forall|k: Seq<char>| (#[trigger] (a + b).contains(k)) == (a.contains(k) || b.contains(
        k,
    )) by {
        if a.contains(k) {
            let i = choose|i: int| 0 <= i < a.len() && a[i] == k;
            assert((a + b)[i] == k);
        }
        if b.contains(k) {
            let i = choose|i: int| 0 <= i < b.len() && b[i] == k;
            assert((a + b)[i + a.len()] == k);
        }
    }
}

/// Fills that are still out are listed account by account, each label after the
/// name of its account and a colon, and at most twenty of them.
pub proof fn pending_labels_name_their_account(v: Seq<PendingFills>, p: PendingFills, i: int)
    requires
        0 <= i < p.labels@.len(),
    ensures
        all_labels(Seq::empty()) == Seq::<Seq<char>>::empty(),
        all_labels(v.push(p)).len() == all_labels(v).len() + p.labels@.len(),
        all_labels(v.push(p)).subrange(0, all_labels(v).len() as int) == all_labels(v),
        all_labels(v.push(p))[all_labels(v).len() + i] == p.account_id@ + seq![':'] + p.labels@[i]@,
{
    reveal_strlit(":");
    assert(":"@ =~= seq![':']);
    assert(v.push(p).drop_last() =~= v);
    assert(account_labels(p).len() == p.labels@.len());
    assert(all_labels(v.push(p)) == all_labels(v) + account_labels(p));
    assert(all_labels(v.push(p)).subrange(0, all_labels(v).len() as int) =~= all_labels(v));
    assert(account_labels(p)[i] == p.account_id@ + ":"@ + texts(p.labels@)[i]);
}

/// Of a list of labels the first twenty are shown, or all where there are no more.
pub proof fn the_first_twenty_labels_are_shown(v: Seq<Seq<char>>)
    ensures
        first_labels(v).len() == if v.len() < 20 {
            v.len() as int
        } else {
            20
        },
        forall|i: int| 0 <= i < first_labels(v).len() ==> #[trigger] first_labels(v)[i] == v[i],
{
}

/// A supervised window is in order exactly where acceptance and every check
/// passed, its accounts are in order, and, where it sends, what it sent is.
pub proof fn a_window_is_in_order_where_all_of_it_is(
    submit: bool,
    acceptance_ok: bool,
    checks: Seq<Check>,
    accounts_ok: bool,
    submit_ok: bool,
)
    ensures
        supervisor_ok(submit, acceptance_ok, checks, accounts_ok, submit_ok) <==> acceptance_ok && (
        forall|i: int| 0 <= i < checks.len() ==> (#[trigger] checks[i]).ok) && accounts_ok && (
        submit ==> submit_ok),
{
}

/// A report repeats what the operator asked for: it says that nothing is submitted
/// exactly where no submission was asked for, and names the feed, the switches and
/// the caps that held.
pub proof fn a_report_says_what_was_asked_for(
    r: CopyLiveDaemonSupervisorReport,
    config: AppConfig,
    o: CopyLiveDaemonSupervisorOptions,
)
    requires
        report_repeats(r, config, o),
    ensures
        r.no_submit <==> !o.submit,
        r.submit_requested <==> o.submit,
        o.submit ==> r.mode@ == "copy_live_daemon_supervisor_submit"@,
        !o.submit ==> r.mode@ == "copy_live_daemon_supervisor_no_submit"@,
        o.environment is Some ==> r.environment == o.environment->0,
        o.environment is None ==> r.environment == config.app.environment,
        o.ws_url is Some ==> r.ws_url == o.ws_url,
        r.live_gate_requested == o.live_gate,
        r.live_submit_allowed == o.allow_live_submit,
        r.confirm_mainnet_live == o.confirm_mainnet_live,
        r.hold_positions_after_submit == o.hold_positions_after_submit,
        r.cleanup_max_slippage_bps == o.cleanup_max_slippage_bps,
        r.duration_secs == o.duration_secs,
        r.max_events == o.max_events,
        r.max_live_orders == o.max_live_orders,
        r.max_total_notional_usd == o.max_total_notional_usd,
        r.max_total_fees_usd == o.max_total_fees_usd,
        r.max_slippage_bps == o.max_slippage_bps,
{
}

/// A report hands on what the window came to: its counts, what was saved, what was
/// planned, held back and sent, and how the accounts stood at the end.
pub proof fn a_report_hands_on_what_came_of_a_window(
    r: CopyLiveDaemonSupervisorReport,
    w: SupervisorOutcome,
    i: int,
)
    requires
        report_hands_on(r, w),
        0 <= i < w.would_submit_plan_refs@.len(),
    ensures
        r.would_submit_orders@.len() == w.would_submit_plan_refs@.len(),
        r.would_submit_orders@[i] == w.would_submit_plan_refs@[i].order,
        r.persistence_seen_keys_after == w.saved.seen_event_keys@.len(),
        r.persistence_ledger_entries_after == w.saved.ledger_entries@.len(),
        r.persistence_seen_keys_before == w.persistence_seen_keys_before,
        r.persistence_ledger_entries_before == w.persistence_ledger_entries_before,
        r.executable_would_submit_orders == w.plan.executable_would_submit_orders,
        r.suppressed_would_submit_orders == w.plan.suppressed_would_submit_orders,
        r.executable_submit_plan_refs == w.plan.executable_submit_plan_refs,
        r.suppressed_submit_plan_refs == w.plan.suppressed_submit_plan_refs,
        r.planned_notional_usd == w.plan.planned_notional_usd,
        r.estimated_fees_usd == w.plan.estimated_fees_usd,
        r.submit_plan_contract == w.plan.submit_plan_contract,
        r.persistent_submit_dry_run == w.persistent_submit_dry_run,
        r.persistent_live_submit == w.persistent_live_submit,
        r.final_reconciliations == w.final_reconciliations,
        r.acceptance == w.acceptance,
        r.counts == w.counts,
        r.elapsed_ms == w.elapsed_ms,
        r.target_accounts == w.start.target_accounts,
        r.local_account_id == w.start.local_account_id,
        r.leaders == w.start.leaders,
        r.watcher_subscriptions == w.watcher_subscriptions,
        r.pending_unclassified_fill_count == w.pending_unclassified_fill_count,
        r.pending_unclassified_fill_labels == w.pending_unclassified_fill_labels,
        r.approved_shadow_records == w.approved_shadow_records,
        r.watcher_status@ == status_text(w.status),
{
}

/// A window that failed is told not to enable submits, whatever else came of it,
/// and one that passed is never told so, but for what is named as in its way.
pub proof fn a_failed_supervised_window_is_told_to_stop(
    ok: bool,
    submit: bool,
    hold: bool,
    ready: bool,
    records_written: usize,
)
    ensures
        occurs_at(
            supervisor_advice(ok, submit, hold, ready, None, records_written),
            "Do not"@,
            0,
        ) <==> !ok,
        forall|b: Seq<char>| #[trigger]
            supervisor_advice(ok, submit, hold, ready, Some(b), records_written) == b <== ok && !(
            submit && hold) && !ready,
{
    reveal_strlit("Do not");
    reveal_strlit(
        "Follow-position live daemon window was healthy; submitted open positions are intentionally held until mapped target close signals arrive.",
    );
    reveal_strlit(
        "Persistent daemon submit bridge completed this bounded window; review submitted reports, evidence, cleanup, and final reconciliation before extending duration.",
    );
    reveal_strlit(
        "Persistent daemon submit window was healthy, but no real submitted order evidence was produced yet; keep running during active leader trading before declaring unattended readiness.",
    );
    reveal_strlit(
        "No-submit daemon supervisor passed, but unattended submit remains gated until persistent submit evidence is wired.",
    );
    reveal_strlit(
        "No-submit daemon supervisor passed with real shadow records; review would_submit_orders and run a longer no-submit soak before enabling any submit path.",
    );
    reveal_strlit(
        "No-submit daemon supervisor passed but saw no shadow records; run a longer soak during active leader trading.",
    );
    reveal_strlit(
        "Do not enable live submit; fix failed supervisor checks and rerun no-submit daemon supervisor.",
    );
    let a = supervisor_advice(ok, submit, hold, ready, None, records_written);
    assert(a.subrange(0, 6)[0] == a[0]);
    if !ok {
        assert(a.subrange(0, 6) =~= "Do not"@);
    }
}

} // verus!
