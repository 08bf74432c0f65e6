//! A sequence of bounded windows under common limits.

use vstd::prelude::*;

use crate::checks::{
    all_ok, all_ok_concat, check, checks_all_ok, push_check, push_note, views, Check,
    CopyShadowSmokeCheck,
};
use crate::config::AppConfig;
use crate::decimal::{
    are_fees_within, at_least_zero, clamp_wide, clamped, dec, fees_fit, fine6, fixed6, fixed_plain,
    floor_zero, push_count, push_fine6, push_fixed6, push_plain, push_total6, push_u64, Fees, Fixed,
    Total, UNIT, WIDE_MAX,
};
use crate::domain::OrderSubmitted;
use crate::options::{
    CopyBoundedLiveWindowOptions, CopyLiveDaemonAcceptanceOptions, CopyLiveStabilitySoakOptions,
};
use crate::plan::{order_size, planned_notional_of, CopyExecutionCanaryWouldSubmit};
use crate::reconcile::{all_flat, reconciliations_all_flat, CopyBoundedLiveWindowReconcile};
use crate::seqs::{filter_step, total, total_step, whole};
use crate::submit::{copy_canary_live_submitted_reports, live_orders};
use crate::tally::saturated;
use crate::text::{clone_texts, occurs_at, texts};
use crate::window::{final_flat_check, push_final_flat_check, CopyBoundedLiveWindowReport};

verus! {

/// The outcome of a soak.
#[derive(Debug)]
pub struct CopyLiveStabilitySoakReport {
    pub ok: bool,
    pub mode: String,
    pub environment: String,
    pub submit_requested: bool,
    pub live_submit_allowed: bool,
    pub confirm_mainnet_live: bool,
    pub duration_secs: u64,
    pub interval_secs: u64,
    pub elapsed_ms: u64,
    pub max_rounds: usize,
    pub rounds_attempted: usize,
    pub rounds_passed: usize,
    pub max_live_orders: usize,
    pub max_total_notional_usd: Fixed,
    pub max_total_fees_usd: Fixed,
    pub max_slippage_bps: Fixed,
    pub cleanup_max_slippage_bps: Fixed,
    pub target_accounts: Vec<String>,
    pub checks: Vec<CopyShadowSmokeCheck>,
    pub rounds: Vec<CopyBoundedLiveWindowReport>,
    pub total_submitted_orders: usize,
    pub total_submitted_notional_usd: Total,
    pub estimated_fees_usd: Fees,
    pub final_reconciliations: Vec<CopyBoundedLiveWindowReconcile>,
    pub stop_reason: String,
    pub next_actions: Vec<String>,
}

/// What is wrong with what an operator asked for, if anything.
pub open spec fn soak_error(o: CopyLiveStabilitySoakOptions) -> Option<Seq<char>> {
    if o.duration_secs == 0 {
        Some("duration_secs must be positive for copy live stability soak"@)
    } else if o.max_rounds == 0 {
        Some("max_rounds must be positive for copy live stability soak"@)
    } else if o.max_live_orders != 1 {
        Some("copy live stability soak is restricted to --max-live-orders 1"@)
    } else if o.max_total_notional_usd <= 0 {
        Some("max_total_notional_usd must be positive"@)
    } else if o.max_total_fees_usd < 0 {
        Some("max_total_fees_usd must be non-negative"@)
    } else {
        None
    }
}

/// Checks what an operator asked for.
pub fn validate_soak_options(o: &CopyLiveStabilitySoakOptions) -> (r: Result<(), String>)
    ensures
        match soak_error(*o) {
            Some(e) => r is Err && r->Err_0@ == e,
            None => r is Ok,
        },
{
    if o.duration_secs == 0 {
        Err("duration_secs must be positive for copy live stability soak".to_owned())
    } else if o.max_rounds == 0 {
        Err("max_rounds must be positive for copy live stability soak".to_owned())
    } else if o.max_live_orders != 1 {
        Err("copy live stability soak is restricted to --max-live-orders 1".to_owned())
    } else if o.max_total_notional_usd <= 0 {
        Err("max_total_notional_usd must be positive".to_owned())
    } else if o.max_total_fees_usd < 0 {
        Err("max_total_fees_usd must be non-negative".to_owned())
    } else {
        Ok(())
    }
}

/// The fees that a notional is expected to cost when it is opened and closed
/// again: two thousandths of it, saturated.
pub open spec fn round_trip_fees(notional: int) -> int {
    saturated(2 * floor_zero(notional))
}

/// The fees that a notional is expected to cost when it is opened and closed
/// again.
pub fn copy_live_stability_estimated_fees_usd(open_notional_usd: Total) -> (r: Fees)
    ensures
        r == round_trip_fees(open_notional_usd as int),
        0 <= r <= WIDE_MAX,
{
    if open_notional_usd < 0 {
        0
    } else if open_notional_usd > WIDE_MAX / 2 {
        WIDE_MAX
    } else {
        2 * open_notional_usd
    }
}

/// The notional of an order that was sent.
pub open spec fn sent_size() -> spec_fn(OrderSubmitted) -> int {
    |s: OrderSubmitted| floor_zero(s.notional_usd as int)
}

/// The orders that a round really sent.
pub open spec fn round_orders(r: CopyBoundedLiveWindowReport) -> Seq<OrderSubmitted> {
    match r.execution {
        Some(e) => live_orders(e.submitted_reports@),
        None => Seq::empty(),
    }
}

/// How many orders a round really sent, and their notional.
pub fn copy_live_stability_round_submission_totals(
    report: &CopyBoundedLiveWindowReport,
) -> (r: (usize, Total))
    ensures
        r.0 == round_orders(*report).len(),
        r.1 == total(round_orders(*report), sent_size()),
        r.1 >= 0,
{
    match &report.execution {
        None => (0, 0),
        Some(e) => {
            let live: Vec<OrderSubmitted> = copy_canary_live_submitted_reports(
                &e.submitted_reports,
            );
            let mut sum: i128 = 0;
            let mut i: usize = 0;
            while i < live.len()
                invariant
                    i <= live@.len(),
                    sum == total(live@.subrange(0, i as int), sent_size()),
                    0 <= sum <= 0x7fff_ffff_ffff_ffff * i,
                decreases live@.len() - i,
            {
                proof {
                    total_step(live@, sent_size(), i as int);
                }
                sum = sum + at_least_zero(live[i].notional_usd) as i128;
                i += 1;
            }
            proof {
                whole(live@);
            }
            (live.len(), sum)
        },
    }
}

/// The checks on the bounds of a soak.
pub open spec fn soak_bound_checks(o: CopyLiveStabilitySoakOptions, accounts: int) -> Seq<Check> {
    seq![
        check(
            "bounded_accounts"@,
            accounts == 1,
            "live stability soak is restricted to exactly one account"@,
        ),
        check(
            "bounded_rounds"@,
            1 <= o.max_rounds <= 24,
            "max_rounds="@ + dec(o.max_rounds as nat) + " must be between 1 and 24"@,
        ),
        check(
            "bounded_duration"@,
            1 <= o.duration_secs <= 86_400,
            "duration_secs="@ + dec(o.duration_secs as nat) + " must be between 1 and 86400"@,
        ),
        check(
            "bounded_live_orders"@,
            o.max_live_orders == 1,
            "stability soak permits only one live order per bounded round"@,
        ),
        check(
            "bounded_total_notional"@,
            o.max_total_notional_usd <= 250 * UNIT,
            "max_total_notional_usd="@ + fixed_plain(o.max_total_notional_usd as int)
                + " must be <= 250 for this guarded soak"@,
        ),
        check(
            "bounded_total_fees"@,
            o.max_total_fees_usd <= UNIT,
            "max_total_fees_usd="@ + fixed_plain(o.max_total_fees_usd as int)
                + " must be <= 1.0 for this guarded soak"@,
        ),
    ]
}

/// The checks on the gates of a soak and on what a round is expected to take.
pub open spec fn soak_gate_checks(
    config: AppConfig,
    o: CopyLiveStabilitySoakOptions,
    expected: Total,
) -> Seq<Check> {
    seq![
        check(
            "allow_live_submit_flag"@,
            !o.submit || o.allow_live_submit,
            "submit mode requires --allow-live-submit true"@,
        ),
        check(
            "mainnet_confirmation"@,
            !o.submit || !config.is_mainnet() || o.confirm_mainnet_live,
            "mainnet submit mode requires --confirm-mainnet-live true"@,
        ),
        check(
            "expected_round_notional"@,
            !o.submit || expected > 0,
            "expected_round_notional_usd="@ + fixed6(expected as int)
                + " for each bounded round"@,
        ),
        check(
            "expected_round_fee_budget"@,
            !o.submit || fees_fit(round_trip_fees(expected as int), o.max_total_fees_usd),
            "expected_round_fees_usd="@ + fine6(round_trip_fees(expected as int))
                + " must be <= max_total_fees_usd="@ + fixed6(o.max_total_fees_usd as int),
        ),
    ]
}

/// All checks that have to pass before a soak starts.
pub open spec fn soak_start_checks(
    config: AppConfig,
    o: CopyLiveStabilitySoakOptions,
    accounts: int,
    expected: Total,
) -> Seq<Check> {
    soak_bound_checks(o, accounts) + soak_gate_checks(config, o, expected)
}

fn push_soak_bound_checks(
    c: &mut Vec<CopyShadowSmokeCheck>,
    o: &CopyLiveStabilitySoakOptions,
    accounts: usize,
)
    ensures
        views(final(c)@) == views(old(c)@) + soak_bound_checks(*o, accounts as int),
{
    let ghost start = views(c@);
    push_note(
        c,
        "bounded_accounts",
        accounts == 1,
        "live stability soak is restricted to exactly one account",
    );
    let mut d: String = "max_rounds=".to_owned();
    push_count(&mut d, o.max_rounds);
    d.append(" must be between 1 and 24");
    push_check(c, "bounded_rounds", 1 <= o.max_rounds && o.max_rounds <= 24, d);
    let mut d: String = "duration_secs=".to_owned();
    push_u64(&mut d, o.duration_secs);
    d.append(" must be between 1 and 86400");
    push_check(c, "bounded_duration", 1 <= o.duration_secs && o.duration_secs <= 86_400, d);
    push_note(
        c,
        "bounded_live_orders",
        o.max_live_orders == 1,
        "stability soak permits only one live order per bounded round",
    );
    let mut d: String = "max_total_notional_usd=".to_owned();
    push_plain(&mut d, o.max_total_notional_usd);
    d.append(" must be <= 250 for this guarded soak");
    push_check(c, "bounded_total_notional", o.max_total_notional_usd <= 250 * UNIT, d);
    let mut d: String = "max_total_fees_usd=".to_owned();
    push_plain(&mut d, o.max_total_fees_usd);
    d.append(" must be <= 1.0 for this guarded soak");
    push_check(c, "bounded_total_fees", o.max_total_fees_usd <= UNIT, d);
    assert(views(c@) =~= start + soak_bound_checks(*o, accounts as int));
}

fn push_soak_gate_checks(
    c: &mut Vec<CopyShadowSmokeCheck>,
    config: &AppConfig,
    o: &CopyLiveStabilitySoakOptions,
    expected: Total,
)
    ensures
        views(final(c)@) == views(old(c)@) + soak_gate_checks(*config, *o, expected),
{
    let ghost start = views(c@);
    push_note(
        c,
        "allow_live_submit_flag",
        !o.submit || o.allow_live_submit,
        "submit mode requires --allow-live-submit true",
    );
    push_note(
        c,
        "mainnet_confirmation",
        !o.submit || !config.on_mainnet() || o.confirm_mainnet_live,
        "mainnet submit mode requires --confirm-mainnet-live true",
    );
    let mut d: String = "expected_round_notional_usd=".to_owned();
    push_total6(&mut d, expected);
    d.append(" for each bounded round");
    push_check(c, "expected_round_notional", !o.submit || expected > 0, d);
    let fees: Fees = copy_live_stability_estimated_fees_usd(expected);
    let mut d: String = "expected_round_fees_usd=".to_owned();
    push_fine6(&mut d, fees);
    d.append(" must be <= max_total_fees_usd=");
    push_fixed6(&mut d, o.max_total_fees_usd);
    push_check(
        c,
        "expected_round_fee_budget",
        !o.submit || are_fees_within(fees, o.max_total_fees_usd),
        d,
    );
    assert(views(c@) =~= start + soak_gate_checks(*config, *o, expected));
}

/// The checks that have to pass before a soak starts, and whether it does.
pub fn check_soak_start(
    config: &AppConfig,
    options: &CopyLiveStabilitySoakOptions,
    accounts: usize,
    expected_round_notional_usd: Total,
) -> (r: (Vec<CopyShadowSmokeCheck>, bool))
    ensures
        views(r.0@) == soak_start_checks(
            *config,
            *options,
            accounts as int,
            expected_round_notional_usd,
        ),
        r.1 == all_ok(views(r.0@)),
{
    let mut c: Vec<CopyShadowSmokeCheck> = Vec::new();
    assert(views(c@) =~= Seq::empty());
    push_soak_bound_checks(&mut c, options, accounts);
    assert(views(c@) =~= soak_bound_checks(*options, accounts as int));
    push_soak_gate_checks(&mut c, config, options, expected_round_notional_usd);
    let go: bool = checks_all_ok(&c);
    (c, go)
}

/// How far a soak has come.
#[derive(Clone, Copy, Debug, PartialEq, Eq, Structural)]
pub struct SoakProgress {
    pub rounds: usize,
    pub total_submitted_orders: usize,
    pub total_submitted_notional_usd: Total,
    pub estimated_fees_usd: Fees,
}

/// Why a soak stopped.
#[derive(Clone, Copy, Debug, PartialEq, Eq, Structural)]
pub enum StopReason {
    CompletedMaxRounds,
    CompletedDuration,
    TotalNotionalLimit,
    TotalFeeLimit,
    TotalNotionalLimitBeforeRound,
    TotalFeeLimitBeforeRound,
    RoundFailed(usize),
    InitialGateFailed,
}

/// The name of a reason.
pub open spec fn stop_text(r: StopReason) -> Seq<char> {
    match r {
        StopReason::CompletedMaxRounds => "completed_max_rounds"@,
        StopReason::CompletedDuration => "completed_duration"@,
        StopReason::TotalNotionalLimit => "stopped_total_notional_limit"@,
        StopReason::TotalFeeLimit => "stopped_total_fee_limit"@,
        StopReason::TotalNotionalLimitBeforeRound => "stopped_total_notional_limit_before_round"@,
        StopReason::TotalFeeLimitBeforeRound => "stopped_total_fee_limit_before_round"@,
        StopReason::RoundFailed(n) => "stopped_round_"@ + dec(n as nat) + "_failed"@,
        StopReason::InitialGateFailed => "skipped_initial_gate_failed"@,
    }
}

/// The name of a reason.
pub fn stop_reason_text(r: StopReason) -> (s: String)
    ensures
        s@ == stop_text(r),
{
    match r {
        StopReason::CompletedMaxRounds => "completed_max_rounds".to_owned(),
        StopReason::CompletedDuration => "completed_duration".to_owned(),
        StopReason::TotalNotionalLimit => "stopped_total_notional_limit".to_owned(),
        StopReason::TotalFeeLimit => "stopped_total_fee_limit".to_owned(),
        StopReason::TotalNotionalLimitBeforeRound =>
            "stopped_total_notional_limit_before_round".to_owned(),
        StopReason::TotalFeeLimitBeforeRound => "stopped_total_fee_limit_before_round".to_owned(),
        StopReason::RoundFailed(n) => {
            let mut s: String = "stopped_round_".to_owned();
            push_count(&mut s, n);
            s.append("_failed");
            s
        },
        StopReason::InitialGateFailed => "skipped_initial_gate_failed".to_owned(),
    }
}

/// What a soak does next.
#[derive(Clone, Copy, Debug, PartialEq, Eq, Structural)]
pub enum SoakStep {
    Stop(StopReason),
    RunRound { number: usize, remaining_notional: Fixed, remaining_fees: Fees },
    SleepNanos(u128),
}

/// The nanoseconds in a number of seconds.
pub open spec fn nanos(secs: u64) -> int {
    secs * 1_000_000_000
}

/// What a soak does before a round.
pub open spec fn before_round(
    o: CopyLiveStabilitySoakOptions,
    p: SoakProgress,
    expected: Total,
    elapsed_nanos: int,
) -> SoakStep {
    let remaining_notional = o.max_total_notional_usd - p.total_submitted_notional_usd;
    let remaining_fees = o.max_total_fees_usd * 1000 - p.estimated_fees_usd;
    if p.rounds >= o.max_rounds {
        SoakStep::Stop(StopReason::CompletedMaxRounds)
    } else if elapsed_nanos >= nanos(o.duration_secs) {
        SoakStep::Stop(StopReason::CompletedDuration)
    } else if remaining_notional <= 0 {
        SoakStep::Stop(StopReason::TotalNotionalLimit)
    } else if remaining_fees < 0 {
        SoakStep::Stop(StopReason::TotalFeeLimit)
    } else if o.submit && expected > remaining_notional + 1 {
        SoakStep::Stop(StopReason::TotalNotionalLimitBeforeRound)
    } else if o.submit && round_trip_fees(expected as int) > remaining_fees + 1000 {
        SoakStep::Stop(StopReason::TotalFeeLimitBeforeRound)
    } else {
        SoakStep::RunRound {
            number: (p.rounds + 1) as usize,
            remaining_notional: remaining_notional as Fixed,
            remaining_fees: remaining_fees as Fees,
        }
    }
}

/// Whether the figures of a soak are in range: its totals are never negative.
pub open spec fn progress_valid(p: SoakProgress) -> bool {
    0 <= p.total_submitted_notional_usd <= WIDE_MAX && 0 <= p.estimated_fees_usd <= WIDE_MAX
}

/// What a soak does before a round.
pub fn soak_before_round(
    options: &CopyLiveStabilitySoakOptions,
    progress: SoakProgress,
    expected_round_notional_usd: Total,
    elapsed_nanos: u128,
) -> (r: SoakStep)
    requires
        progress_valid(progress),
        soak_error(*options) is None,
    ensures
        r == before_round(*options, progress, expected_round_notional_usd, elapsed_nanos as int),
{
    if progress.rounds >= options.max_rounds {
        return SoakStep::Stop(StopReason::CompletedMaxRounds);
    }
    if elapsed_nanos >= options.duration_secs as u128 * 1_000_000_000 {
        return SoakStep::Stop(StopReason::CompletedDuration);
    }
    let remaining_notional: Total = options.max_total_notional_usd as i128
        - progress.total_submitted_notional_usd;
    let remaining_fees: Fees = options.max_total_fees_usd as i128 * 1000
        - progress.estimated_fees_usd;
    if remaining_notional <= 0 {
        return SoakStep::Stop(StopReason::TotalNotionalLimit);
    }
    if remaining_fees < 0 {
        return SoakStep::Stop(StopReason::TotalFeeLimit);
    }
    if options.submit && expected_round_notional_usd > remaining_notional + 1 {
        return SoakStep::Stop(StopReason::TotalNotionalLimitBeforeRound);
    }
    let fees: Fees = copy_live_stability_estimated_fees_usd(expected_round_notional_usd);
    if options.submit && fees > remaining_fees + 1000 {
        return SoakStep::Stop(StopReason::TotalFeeLimitBeforeRound);
    }
    SoakStep::RunRound {
        number: progress.rounds + 1,
        remaining_notional: remaining_notional as Fixed,
        remaining_fees,
    }
}

/// How far a soak has come after one more round.
pub open spec fn progressed(p: SoakProgress, orders: int, notional: int) -> SoakProgress {
    let sum = saturated(p.total_submitted_notional_usd + notional);
    SoakProgress {
        rounds: (p.rounds + 1) as usize,
        total_submitted_orders: if p.total_submitted_orders + orders > usize::MAX {
            usize::MAX
        } else {
            (p.total_submitted_orders + orders) as usize
        },
        total_submitted_notional_usd: sum as Total,
        estimated_fees_usd: round_trip_fees(sum) as Fees,
    }
}

/// How far a soak has come after its rounds.
pub open spec fn progress_of(rounds: Seq<CopyBoundedLiveWindowReport>) -> SoakProgress
    decreases rounds.len(),
{
    if rounds.len() == 0 {
        SoakProgress {
            rounds: 0,
            total_submitted_orders: 0,
            total_submitted_notional_usd: 0,
            estimated_fees_usd: 0,
        }
    } else {
        let sent = round_orders(rounds.last());
        progressed(
            progress_of(rounds.drop_last()),
            sent.len() as int,
            total(sent, sent_size()),
        )
    }
}

/// How far a soak has come after its rounds.
pub fn soak_progress(rounds: &Vec<CopyBoundedLiveWindowReport>) -> (r: SoakProgress)
    ensures
        r == progress_of(rounds@),
        r.rounds == rounds@.len(),
        progress_valid(r),
{
    let mut p: SoakProgress = SoakProgress {
        rounds: 0,
        total_submitted_orders: 0,
        total_submitted_notional_usd: 0,
        estimated_fees_usd: 0,
    };
    let mut i: usize = 0;
    while i < rounds.len()
        invariant
            i <= rounds@.len(),
            p == progress_of(rounds@.subrange(0, i as int)),
            p.rounds == i,
            progress_valid(p),
        decreases rounds@.len() - i,
    {
        let (orders, notional) = copy_live_stability_round_submission_totals(&rounds[i]);
        p = soak_progressed(p, orders, notional);
        proof {
            let next = rounds@.subrange(0, i + 1);
            assert(next.drop_last() =~= rounds@.subrange(0, i as int));
        }
        i += 1;
    }
    proof {
        whole(rounds@);
    }
    p
}

/// How far a soak has come after one more round.
fn soak_progressed(progress: SoakProgress, orders: usize, notional: Total) -> (r: SoakProgress)
    requires
        progress_valid(progress),
        progress.rounds < usize::MAX,
        notional >= 0,
    ensures
        r == progressed(progress, orders as int, notional as int),
        progress_valid(r),
{
    let sum: Total = if notional > WIDE_MAX - progress.total_submitted_notional_usd {
        WIDE_MAX
    } else {
        progress.total_submitted_notional_usd + notional
    };
    let count: usize = if orders > usize::MAX - progress.total_submitted_orders {
        usize::MAX
    } else {
        progress.total_submitted_orders + orders
    };
    SoakProgress {
        rounds: progress.rounds + 1,
        total_submitted_orders: count,
        total_submitted_notional_usd: sum,
        estimated_fees_usd: copy_live_stability_estimated_fees_usd(sum),
    }
}

/// What a soak does after a round.
pub open spec fn after_round(
    o: CopyLiveStabilitySoakOptions,
    p: SoakProgress,
    round_ok: bool,
    elapsed_nanos: int,
) -> SoakStep {
    let left = nanos(o.duration_secs) - elapsed_nanos;
    let pause = if nanos(o.interval_secs) < left {
        nanos(o.interval_secs)
    } else {
        left
    };
    if !round_ok {
        SoakStep::Stop(StopReason::RoundFailed(p.rounds))
    } else if p.total_submitted_notional_usd > o.max_total_notional_usd {
        SoakStep::Stop(StopReason::TotalNotionalLimit)
    } else if !fees_fit(p.estimated_fees_usd as int, o.max_total_fees_usd) {
        SoakStep::Stop(StopReason::TotalFeeLimit)
    } else if p.rounds >= o.max_rounds {
        SoakStep::Stop(StopReason::CompletedMaxRounds)
    } else if left < 0 || pause == 0 {
        SoakStep::Stop(StopReason::CompletedDuration)
    } else {
        SoakStep::SleepNanos(pause as u128)
    }
}

/// What a soak does after a round.
pub fn soak_after_round(
    options: &CopyLiveStabilitySoakOptions,
    progress: SoakProgress,
    round_ok: bool,
    elapsed_nanos: u128,
) -> (r: SoakStep)
    ensures
        r == after_round(*options, progress, round_ok, elapsed_nanos as int),
{
    if !round_ok {
        return SoakStep::Stop(StopReason::RoundFailed(progress.rounds));
    }
    if progress.total_submitted_notional_usd > options.max_total_notional_usd as i128 {
        return SoakStep::Stop(StopReason::TotalNotionalLimit);
    }
    if !are_fees_within(progress.estimated_fees_usd, options.max_total_fees_usd) {
        return SoakStep::Stop(StopReason::TotalFeeLimit);
    }
    if progress.rounds >= options.max_rounds {
        return SoakStep::Stop(StopReason::CompletedMaxRounds);
    }
    let duration: u128 = options.duration_secs as u128 * 1_000_000_000;
    if elapsed_nanos > duration {
        return SoakStep::Stop(StopReason::CompletedDuration);
    }
    let left: u128 = duration - elapsed_nanos;
    let interval: u128 = options.interval_secs as u128 * 1_000_000_000;
    let pause: u128 = if interval < left {
        interval
    } else {
        left
    };
    if pause == 0 {
        return SoakStep::Stop(StopReason::CompletedDuration);
    }
    SoakStep::SleepNanos(pause)
}

/// A round is only run while rounds, time, notional and fees are left; where
/// orders are sent, what the round is expected to take still fits, up to a
/// billionth.
pub proof fn a_round_only_runs_within_the_limits(
    o: CopyLiveStabilitySoakOptions,
    p: SoakProgress,
    expected: Total,
    elapsed_nanos: int,
)
    requires
        before_round(o, p, expected, elapsed_nanos) is RunRound,
    ensures
        p.rounds < o.max_rounds,
        elapsed_nanos < nanos(o.duration_secs),
        p.total_submitted_notional_usd < o.max_total_notional_usd,
        fees_fit(p.estimated_fees_usd as int, o.max_total_fees_usd),
        o.submit ==> p.total_submitted_notional_usd + expected <= o.max_total_notional_usd + 1,
        o.submit ==> fees_fit(
            p.estimated_fees_usd + round_trip_fees(expected as int) - 1000,
            o.max_total_fees_usd,
        ),
{
}

/// A soak never pauses past its duration, nor longer than its interval.
pub proof fn a_pause_stays_within_the_duration(
    o: CopyLiveStabilitySoakOptions,
    p: SoakProgress,
    elapsed_nanos: int,
    pause: u128,
)
    requires
        0 <= elapsed_nanos,
        after_round(o, p, true, elapsed_nanos) == SoakStep::SleepNanos(pause),
    ensures
        0 < pause <= nanos(o.interval_secs),
        elapsed_nanos + pause <= nanos(o.duration_secs),
{
}

/// What a soak would send in one round: the notional of the orders that
/// acceptance would plan.
pub fn copy_live_stability_expected_round_notional(
    orders: &Vec<CopyExecutionCanaryWouldSubmit>,
) -> (r: Total)
    ensures
        r == total(orders@, order_size()),
{
    planned_notional_of(orders)
}

/// What acceptance is asked for an estimate of what a round would send.
pub fn soak_acceptance_options(
    o: &CopyLiveStabilitySoakOptions,
    target_accounts: &Vec<String>,
) -> (r: CopyLiveDaemonAcceptanceOptions)
    ensures
        r.leaders@ == o.leaders@,
        r.account_ids@ == target_accounts@,
        r.coin == o.coin,
        r.side == o.side,
        r.persistence_path == o.persistence_path,
        r.shadow_history_path == o.shadow_history_path,
        r.leader_notional_usd == o.leader_notional_usd,
        r.leader_size == o.leader_size,
        r.live,
        r.allow_live_submit == o.allow_live_submit,
        r.confirm_mainnet_live == o.confirm_mainnet_live,
        r.max_duration_secs == o.duration_secs,
        r.max_live_orders == o.max_live_orders,
        r.max_total_notional_usd == o.max_total_notional_usd,
        r.max_total_fees_usd == o.max_total_fees_usd,
        r.max_slippage_bps == o.max_slippage_bps,
        r.require_cleanup_after_submit,
        r.require_flat_reconcile_after_submit,
{
    CopyLiveDaemonAcceptanceOptions {
        leaders: clone_texts(&o.leaders),
        account_ids: clone_texts(target_accounts),
        coin: o.coin.clone(),
        side: o.side,
        persistence_path: o.persistence_path.clone(),
        shadow_history_path: o.shadow_history_path.clone(),
        leader_notional_usd: o.leader_notional_usd,
        leader_size: o.leader_size,
        live: true,
        allow_live_submit: o.allow_live_submit,
        confirm_mainnet_live: o.confirm_mainnet_live,
        max_duration_secs: o.duration_secs,
        max_live_orders: o.max_live_orders,
        max_total_notional_usd: o.max_total_notional_usd,
        max_total_fees_usd: o.max_total_fees_usd,
        max_slippage_bps: o.max_slippage_bps,
        require_cleanup_after_submit: true,
        require_flat_reconcile_after_submit: true,
    }
}

/// What a round of a soak is asked. Its limits are what the soak has left; of
/// the fees that are left, what is less than a billionth is cut off.
pub fn soak_round_options(
    o: &CopyLiveStabilitySoakOptions,
    target_accounts: &Vec<String>,
    persistence_path: String,
    shadow_history_path: String,
    remaining_notional: Fixed,
    remaining_fees: Fees,
) -> (r: CopyBoundedLiveWindowOptions)
    ensures
        r.leaders@ == o.leaders@,
        r.account_ids@ == target_accounts@,
        r.coin == o.coin,
        r.side == o.side,
        r.persistence_path == persistence_path,
        r.shadow_history_path == shadow_history_path,
        r.leader_notional_usd == o.leader_notional_usd,
        r.leader_size == o.leader_size,
        r.submit == o.submit,
        r.allow_live_submit == o.allow_live_submit,
        r.confirm_mainnet_live == o.confirm_mainnet_live,
        r.max_duration_secs == o.duration_secs,
        r.max_live_orders == o.max_live_orders,
        r.max_total_notional_usd == remaining_notional,
        r.max_total_fees_usd == clamped(floor_zero(remaining_fees as int) / 1000),
        r.max_slippage_bps == o.max_slippage_bps,
        r.cleanup_max_slippage_bps == o.cleanup_max_slippage_bps,
{
    CopyBoundedLiveWindowOptions {
        leaders: clone_texts(&o.leaders),
        account_ids: clone_texts(target_accounts),
        coin: o.coin.clone(),
        side: o.side,
        persistence_path,
        shadow_history_path,
        leader_notional_usd: o.leader_notional_usd,
        leader_size: o.leader_size,
        submit: o.submit,
        allow_live_submit: o.allow_live_submit,
        confirm_mainnet_live: o.confirm_mainnet_live,
        max_duration_secs: o.duration_secs,
        max_live_orders: o.max_live_orders,
        max_total_notional_usd: remaining_notional,
        max_total_fees_usd: if remaining_fees < 0 {
            0
        } else {
            clamp_wide(remaining_fees / 1000)
        },
        max_slippage_bps: o.max_slippage_bps,
        cleanup_max_slippage_bps: o.cleanup_max_slippage_bps,
    }
}

/// Whether a round went well.
pub open spec fn round_passed() -> spec_fn(CopyBoundedLiveWindowReport) -> bool {
    |r: CopyBoundedLiveWindowReport| r.ok
}

/// Whether every round went well.
pub open spec fn rounds_ok(rounds: Seq<CopyBoundedLiveWindowReport>) -> bool {
    forall|i: int| 0 <= i < rounds.len() ==> (#[trigger] rounds[i]).ok
}

fn count_passed(rounds: &Vec<CopyBoundedLiveWindowReport>) -> (r: usize)
    ensures
        r == rounds@.filter(round_passed()).len(),
        r <= rounds@.len(),
        (r == rounds@.len()) == rounds_ok(rounds@),
{
    let mut n: usize = 0;
    let mut i: usize = 0;
    assert(rounds@.subrange(0, 0).filter(round_passed()).len() == 0) by {
        reveal(Seq::filter);
    }
    while i < rounds.len()
        invariant
            n <= i <= rounds@.len(),
            n == rounds@.subrange(0, i as int).filter(round_passed()).len(),
            (n == i) == (forall|k: int| 0 <= k < i ==> (#[trigger] rounds@[k]).ok),
        decreases rounds@.len() - i,
    {
        proof {
            filter_step(rounds@, round_passed(), i as int);
        }
        if rounds[i].ok {
            n += 1;
        }
        i += 1;
    }
    proof {
        whole(rounds@);
    }
    n
}

/// Whether a soak sent as many orders as it should: one per round, or none.
pub open spec fn order_count_ok(submit: bool, orders: int, rounds: int) -> bool {
    if submit {
        orders == rounds
    } else {
        orders == 0
    }
}

/// Whether a soak went well.
pub open spec fn soak_ok(
    submit: bool,
    checks: Seq<Check>,
    rounds: Seq<CopyBoundedLiveWindowReport>,
    orders: int,
    notional: int,
    fees: int,
    o: CopyLiveStabilitySoakOptions,
    s: Seq<CopyBoundedLiveWindowReconcile>,
) -> bool {
    &&& rounds.len() > 0
    &&& all_ok(checks)
    &&& rounds_ok(rounds)
    &&& order_count_ok(submit, orders, rounds.len() as int)
    &&& notional <= o.max_total_notional_usd
    &&& fees_fit(fees, o.max_total_fees_usd)
    &&& all_flat(s)
}

/// Whether a soak went well.
pub fn copy_live_stability_soak_ok(
    submit_requested: bool,
    checks: &Vec<CopyShadowSmokeCheck>,
    rounds: &Vec<CopyBoundedLiveWindowReport>,
    total_submitted_orders: usize,
    total_submitted_notional_usd: Total,
    estimated_fees_usd: Fees,
    options: &CopyLiveStabilitySoakOptions,
    final_reconciliations: &Vec<CopyBoundedLiveWindowReconcile>,
) -> (r: bool)
    ensures
        r == soak_ok(
            submit_requested,
            views(checks@),
            rounds@,
            total_submitted_orders as int,
            total_submitted_notional_usd as int,
            estimated_fees_usd as int,
            *options,
            final_reconciliations@,
        ),
{
    let count_ok: bool = if submit_requested {
        total_submitted_orders == rounds.len()
    } else {
        total_submitted_orders == 0
    };
    rounds.len() > 0 && checks_all_ok(checks) && count_passed(rounds) == rounds.len() && count_ok
        && total_submitted_notional_usd <= options.max_total_notional_usd as i128
        && are_fees_within(estimated_fees_usd, options.max_total_fees_usd) && reconciliations_all_flat(final_reconciliations)
}

/// The checks on what came of a soak.
pub open spec fn soak_end_checks(
    o: CopyLiveStabilitySoakOptions,
    rounds: Seq<CopyBoundedLiveWindowReport>,
    p: SoakProgress,
    s: Seq<CopyBoundedLiveWindowReconcile>,
) -> Seq<Check> {
    let passed = rounds.filter(round_passed()).len();
    seq![
        check(
            "rounds_attempted"@,
            rounds.len() > 0,
            dec(rounds.len()) + " bounded round(s) attempted"@,
        ),
        check(
            "all_rounds_passed"@,
            rounds.len() > 0 && passed == rounds.len(),
            dec(passed) + "/"@ + dec(rounds.len()) + " bounded round(s) passed"@,
        ),
        check(
            "total_live_order_count"@,
            order_count_ok(o.submit, p.total_submitted_orders as int, rounds.len() as int),
            "total_submitted_orders="@ + dec(p.total_submitted_orders as nat) + " rounds="@ + dec(
                rounds.len(),
            ),
        ),
        check(
            "total_notional_limit"@,
            p.total_submitted_notional_usd <= o.max_total_notional_usd,
            "total_submitted_notional_usd="@ + fixed6(p.total_submitted_notional_usd as int)
                + " must be <= "@ + fixed6(o.max_total_notional_usd as int),
        ),
        check(
            "total_fee_limit"@,
            fees_fit(p.estimated_fees_usd as int, o.max_total_fees_usd),
            "estimated_fees_usd="@ + fine6(p.estimated_fees_usd as int) + " must be <= "@
                + fixed6(o.max_total_fees_usd as int),
        ),
        final_flat_check(s),
    ]
}

fn push_soak_end_checks(
    c: &mut Vec<CopyShadowSmokeCheck>,
    o: &CopyLiveStabilitySoakOptions,
    rounds: &Vec<CopyBoundedLiveWindowReport>,
    p: SoakProgress,
    s: &Vec<CopyBoundedLiveWindowReconcile>,
)
    ensures
        views(final(c)@) == views(old(c)@) + soak_end_checks(*o, rounds@, p, s@),
{
    let ghost start = views(c@);
    let ghost goal = soak_end_checks(*o, rounds@, p, s@);
    let n: usize = rounds.len();
    let passed: usize = count_passed(rounds);
    let mut d: String = String::new();
    push_count(&mut d, n);
    d.append(" bounded round(s) attempted");
    assert(d@ =~= goal[0].detail);
    push_check(c, "rounds_attempted", n > 0, d);
    let mut d: String = String::new();
    push_count(&mut d, passed);
    d.append("/");
    push_count(&mut d, n);
    d.append(" bounded round(s) passed");
    assert(d@ =~= goal[1].detail);
    push_check(c, "all_rounds_passed", n > 0 && passed == n, d);
    let mut d: String = "total_submitted_orders=".to_owned();
    push_count(&mut d, p.total_submitted_orders);
    d.append(" rounds=");
    push_count(&mut d, n);
    let count_ok: bool = if o.submit {
        p.total_submitted_orders == n
    } else {
        p.total_submitted_orders == 0
    };
    push_check(c, "total_live_order_count", count_ok, d);
    let mut d: String = "total_submitted_notional_usd=".to_owned();
    push_total6(&mut d, p.total_submitted_notional_usd);
    d.append(" must be <= ");
    push_fixed6(&mut d, o.max_total_notional_usd);
    push_check(
        c,
        "total_notional_limit",
        p.total_submitted_notional_usd <= o.max_total_notional_usd as i128,
        d,
    );
    let mut d: String = "estimated_fees_usd=".to_owned();
    push_fine6(&mut d, p.estimated_fees_usd);
    d.append(" must be <= ");
    push_fixed6(&mut d, o.max_total_fees_usd);
    push_check(
        c,
        "total_fee_limit",
        are_fees_within(p.estimated_fees_usd, o.max_total_fees_usd),
        d,
    );
    push_final_flat_check(c, s);
    assert(views(c@) =~= start + goal);
}

/// What an operator should do after a soak.
pub open spec fn soak_advice(ok: bool, submit: bool) -> Seq<char> {
    if ok && submit {
        "Bounded live stability soak passed; review every round report before increasing duration, account count, or total notional."@
    } else if ok {
        "No-submit live stability soak passed; rerun with --submit true only when ready for a bounded live stability run."@
    } else {
        "Do not widen live copy; inspect failed soak checks, reconcile the target account, and rerun with the same or lower caps."@
    }
}

fn advise(ok: bool, submit: bool) -> (r: Vec<String>)
    ensures
        texts(r@) == seq![soak_advice(ok, submit)],
{
    let s: &str = if ok && submit {
        "Bounded live stability soak passed; review every round report before increasing duration, account count, or total notional."
    } else if ok {
        "No-submit live stability soak passed; rerun with --submit true only when ready for a bounded live stability run."
    } else {
        "Do not widen live copy; inspect failed soak checks, reconcile the target account, and rerun with the same or lower caps."
    };
    let r: Vec<String> = vec![s.to_owned()];
    assert(texts(r@) =~= seq![soak_advice(ok, submit)]);
    r
}

/// A soak on its way: the checks it started with, what a round is expected to
/// send, its rounds, whether a round is due, and why it stopped.
#[derive(Debug)]
pub struct SoakRun {
    pub start_checks: Vec<CopyShadowSmokeCheck>,
    pub expected: Total,
    pub rounds: Vec<CopyBoundedLiveWindowReport>,
    pub due: bool,
    pub stopped: Option<StopReason>,
}

/// Whether a round may start after the given progress: rounds, notional and fees
/// are left, and where orders are sent, what the round is expected to take still
/// fits, up to a billionth.
pub open spec fn round_may_start(
    o: CopyLiveStabilitySoakOptions,
    p: SoakProgress,
    expected: Total,
) -> bool {
    &&& p.rounds < o.max_rounds
    &&& p.total_submitted_notional_usd < o.max_total_notional_usd
    &&& fees_fit(p.estimated_fees_usd as int, o.max_total_fees_usd)
    &&& o.submit ==> p.total_submitted_notional_usd + expected <= o.max_total_notional_usd + 1
    &&& o.submit ==> fees_fit(
        p.estimated_fees_usd + round_trip_fees(expected as int) - 1000,
        o.max_total_fees_usd,
    )
}

/// Whether every round of a list but the last went well.
pub open spec fn all_but_last_ok(rounds: Seq<CopyBoundedLiveWindowReport>) -> bool {
    forall|i: int| 0 <= i < rounds.len() - 1 ==> (#[trigger] rounds[i]).ok
}

/// Whether no round of a list was executed.
pub open spec fn none_executed(rounds: Seq<CopyBoundedLiveWindowReport>) -> bool {
    forall|i: int| 0 <= i < rounds.len() ==> (#[trigger] rounds[i]).execution is None
}

proof fn unexecuted_rounds_send_nothing(rounds: Seq<CopyBoundedLiveWindowReport>)
    requires
        none_executed(rounds),
    ensures
        progress_of(rounds).total_submitted_orders == 0,
        progress_of(rounds).total_submitted_notional_usd == 0,
    decreases rounds.len(),
{
    if rounds.len() > 0 {
        let rest = rounds.drop_last();
        assert forall|i: int| 0 <= i < rest.len() implies (#[trigger] rest[i]).execution is None by {
            assert(rest[i] == rounds[i]);
        }
        unexecuted_rounds_send_nothing(rest);
        assert(rounds[rounds.len() - 1].execution is None);
        let sent = round_orders(rounds.last());
        assert(sent.len() == 0);
        assert(total(sent, sent_size()) == 0);
    }
}

/// What holds of a soak on its way. It has at most as many rounds as it may
/// have, each of which could start when it did, and every round but the last
/// went well. It ran no round where its first checks failed, and it stopped at a
/// round that failed. No round was executed where the soak was not asked to send.
pub open spec fn soak_run_valid(o: CopyLiveStabilitySoakOptions, run: SoakRun) -> bool {
    let rounds = run.rounds@;
    &&& rounds.len() <= o.max_rounds
    &&& forall|k: int|
        0 <= k < rounds.len() ==> round_may_start(
            o,
            progress_of(#[trigger] rounds.subrange(0, k)),
            run.expected,
        )
    &&& all_but_last_ok(rounds)
    &&& !o.submit ==> none_executed(rounds)
    &&& run.due ==> run.stopped is None && rounds.len() < o.max_rounds && round_may_start(
        o,
        progress_of(rounds),
        run.expected,
    )
    &&& all_ok(views(run.start_checks@)) == (run.stopped != Some(StopReason::InitialGateFailed))
    &&& match run.stopped {
        Some(StopReason::InitialGateFailed) => rounds.len() == 0,
        Some(StopReason::RoundFailed(n)) => rounds.len() == n && n > 0 && !rounds.last().ok,
        _ => rounds_ok(rounds),
    }
}

/// A soak before its first round. It is stopped already where its first checks
/// failed.
pub fn new_soak_run(
    options: &CopyLiveStabilitySoakOptions,
    start_checks: Vec<CopyShadowSmokeCheck>,
    expected_round_notional_usd: Total,
) -> (r: SoakRun)
    ensures
        soak_run_valid(*options, r),
        r.start_checks == start_checks,
        r.expected == expected_round_notional_usd,
        r.rounds@.len() == 0,
        !r.due,
        r.stopped == if all_ok(views(start_checks@)) {
            None
        } else {
            Some(StopReason::InitialGateFailed)
        },
{
    let stopped: Option<StopReason> = if checks_all_ok(&start_checks) {
        None
    } else {
        Some(StopReason::InitialGateFailed)
    };
    SoakRun {
        start_checks,
        expected: expected_round_notional_usd,
        rounds: Vec::new(),
        due: false,
        stopped,
    }
}

/// What a soak does before a round: it stays stopped, stops, or has a round due.
pub fn soak_next(
    run: &mut SoakRun,
    options: &CopyLiveStabilitySoakOptions,
    elapsed_nanos: u128,
) -> (r: SoakStep)
    requires
        soak_run_valid(*options, *old(run)),
        soak_error(*options) is None,
    ensures
        soak_run_valid(*options, *final(run)),
        final(run).start_checks == old(run).start_checks,
        final(run).expected == old(run).expected,
        final(run).rounds == old(run).rounds,
        r == match old(run).stopped {
            Some(reason) => SoakStep::Stop(reason),
            None => before_round(
                *options,
                progress_of(old(run).rounds@),
                old(run).expected,
                elapsed_nanos as int,
            ),
        },
        final(run).due == (r is RunRound),
        final(run).stopped == match r {
            SoakStep::Stop(reason) => Some(reason),
            _ => None,
        },
{
    if let Some(reason) = run.stopped {
        return SoakStep::Stop(reason);
    }
    let progress: SoakProgress = soak_progress(&run.rounds);
    let step: SoakStep = soak_before_round(options, progress, run.expected, elapsed_nanos);
    match step {
        SoakStep::Stop(reason) => {
            run.due = false;
            run.stopped = Some(reason);
        },
        _ => {
            run.due = true;
        },
    }
    step
}

/// Takes in the round that was due: the soak stops there, or pauses.
pub fn soak_take_round(
    run: &mut SoakRun,
    options: &CopyLiveStabilitySoakOptions,
    round: CopyBoundedLiveWindowReport,
    elapsed_nanos: u128,
) -> (r: SoakStep)
    requires
        soak_run_valid(*options, *old(run)),
        old(run).due,
        options.submit || round.execution is None,
    ensures
        soak_run_valid(*options, *final(run)),
        final(run).start_checks == old(run).start_checks,
        final(run).expected == old(run).expected,
        final(run).rounds@ == old(run).rounds@.push(round),
        r == after_round(
            *options,
            progress_of(final(run).rounds@),
            round.ok,
            elapsed_nanos as int,
        ),
        !final(run).due,
        final(run).stopped == match r {
            SoakStep::Stop(reason) => Some(reason),
            _ => None,
        },
{
    let ghost before = run.rounds@;
    let round_ok: bool = round.ok;
    run.rounds.push(round);
    proof {
        let now = run.rounds@;
        assert forall|k: int| 0 <= k < now.len() implies round_may_start(
            *options,
            progress_of(#[trigger] now.subrange(0, k)),
            run.expected,
        ) by {
            if k < before.len() {
                assert(now.subrange(0, k) =~= before.subrange(0, k));
            } else {
                assert(now.subrange(0, k) =~= before);
            }
        }
        assert forall|i: int| 0 <= i < now.len() - 1 implies (#[trigger] now[i]).ok by {
            assert(before[i].ok);
        }
        if !options.submit {
            assert forall|i: int| 0 <= i < now.len() implies (#[trigger] now[i]).execution is None by {
                if i < before.len() {
                    assert(before[i].execution is None);
                }
            }
        }
    }
    let progress: SoakProgress = soak_progress(&run.rounds);
    let step: SoakStep = soak_after_round(options, progress, round_ok, elapsed_nanos);
    run.due = false;
    if let SoakStep::Stop(reason) = step {
        run.stopped = Some(reason);
    }
    step
}

/// The report of a soak that stopped.
pub fn run_copy_live_stability_soak(
    config: &AppConfig,
    options: &CopyLiveStabilitySoakOptions,
    target_accounts: Vec<String>,
    run: SoakRun,
    elapsed_ms: u64,
    final_reconciliations: Vec<CopyBoundedLiveWindowReconcile>,
) -> (r: CopyLiveStabilitySoakReport)
    requires
        soak_run_valid(*options, run),
        run.stopped is Some,
    ensures
        r.rounds@.len() <= options.max_rounds,
        all_but_last_ok(r.rounds@),
        !options.submit ==> {
            &&& none_executed(r.rounds@)
            &&& r.total_submitted_orders == 0
            &&& r.total_submitted_notional_usd == 0
        },
        r.ok ==> {
            &&& r.rounds_attempted > 0
            &&& rounds_ok(r.rounds@)
            &&& r.rounds_passed == r.rounds_attempted
            &&& r.total_submitted_orders == if options.submit {
                r.rounds_attempted
            } else {
                0
            }
        },
        ({
            let rounds = run.rounds;
            let checks = views(run.start_checks@) + soak_end_checks(
                *options,
                rounds@,
                progress_of(rounds@),
                final_reconciliations@,
            );
            &&& views(r.checks@) == checks
            &&& r.ok == soak_ok(
                options.submit,
                checks,
                rounds@,
                progress_of(rounds@).total_submitted_orders as int,
                progress_of(rounds@).total_submitted_notional_usd as int,
                progress_of(rounds@).estimated_fees_usd as int,
                *options,
                final_reconciliations@,
            )
        }),
        r.mode@ == if options.submit {
            "copy_live_stability_soak_submit"@
        } else {
            "copy_live_stability_soak_no_submit"@
        },
        r.environment == config.app.environment,
        r.submit_requested == options.submit,
        r.live_submit_allowed == options.allow_live_submit,
        r.confirm_mainnet_live == options.confirm_mainnet_live,
        r.duration_secs == options.duration_secs,
        r.interval_secs == options.interval_secs,
        r.elapsed_ms == elapsed_ms,
        r.max_rounds == options.max_rounds,
        r.rounds_attempted == run.rounds@.len(),
        r.rounds_passed == run.rounds@.filter(round_passed()).len(),
        r.max_live_orders == options.max_live_orders,
        r.max_total_notional_usd == options.max_total_notional_usd,
        r.max_total_fees_usd == options.max_total_fees_usd,
        r.max_slippage_bps == options.max_slippage_bps,
        r.cleanup_max_slippage_bps == options.cleanup_max_slippage_bps,
        r.target_accounts == target_accounts,
        r.rounds == run.rounds,
        r.total_submitted_orders == progress_of(run.rounds@).total_submitted_orders,
        r.total_submitted_notional_usd == progress_of(run.rounds@).total_submitted_notional_usd,
        r.estimated_fees_usd == progress_of(run.rounds@).estimated_fees_usd,
        r.final_reconciliations == final_reconciliations,
        r.stop_reason@ == stop_text(run.stopped->0),
        texts(r.next_actions@) == seq![soak_advice(r.ok, options.submit)],
{
    proof {
        if !options.submit {
            unexecuted_rounds_send_nothing(run.rounds@);
        }
    }
    let rounds: Vec<CopyBoundedLiveWindowReport> = run.rounds;
    let stop: StopReason = match run.stopped {
        Some(reason) => reason,
        None => StopReason::CompletedMaxRounds,
    };
    let progress: SoakProgress = soak_progress(&rounds);
    let mut checks: Vec<CopyShadowSmokeCheck> = run.start_checks;
    push_soak_end_checks(&mut checks, options, &rounds, progress, &final_reconciliations);
    let ok: bool = copy_live_stability_soak_ok(
        options.submit,
        &checks,
        &rounds,
        progress.total_submitted_orders,
        progress.total_submitted_notional_usd,
        progress.estimated_fees_usd,
        options,
        &final_reconciliations,
    );
    let mode: &str = if options.submit {
        "copy_live_stability_soak_submit"
    } else {
        "copy_live_stability_soak_no_submit"
    };
    CopyLiveStabilitySoakReport {
        ok,
        mode: mode.to_owned(),
        environment: config.app.environment.clone(),
        submit_requested: options.submit,
        live_submit_allowed: options.allow_live_submit,
        confirm_mainnet_live: options.confirm_mainnet_live,
        duration_secs: options.duration_secs,
        interval_secs: options.interval_secs,
        elapsed_ms,
        max_rounds: options.max_rounds,
        rounds_attempted: rounds.len(),
        rounds_passed: count_passed(&rounds),
        max_live_orders: options.max_live_orders,
        max_total_notional_usd: options.max_total_notional_usd,
        max_total_fees_usd: options.max_total_fees_usd,
        max_slippage_bps: options.max_slippage_bps,
        cleanup_max_slippage_bps: options.cleanup_max_slippage_bps,
        target_accounts,
        checks,
        rounds,
        total_submitted_orders: progress.total_submitted_orders,
        total_submitted_notional_usd: progress.total_submitted_notional_usd,
        estimated_fees_usd: progress.estimated_fees_usd,
        final_reconciliations,
        stop_reason: stop_reason_text(stop),
        next_actions: advise(ok, options.submit),
    }
}

/// A soak whose first checks failed runs no round, and its report is not in
/// order.
pub proof fn a_refused_soak_runs_no_round(
    o: CopyLiveStabilitySoakOptions,
    run: SoakRun,
    s: Seq<CopyBoundedLiveWindowReconcile>,
)
    requires
        soak_run_valid(o, run),
        !all_ok(views(run.start_checks@)),
    ensures
        run.rounds@.len() == 0,
        !run.due,
        !soak_ok(
            o.submit,
            views(run.start_checks@) + soak_end_checks(o, run.rounds@, progress_of(run.rounds@), s),
            run.rounds@,
            progress_of(run.rounds@).total_submitted_orders as int,
            progress_of(run.rounds@).total_submitted_notional_usd as int,
            progress_of(run.rounds@).estimated_fees_usd as int,
            o,
            s,
        ),
{
}

/// A soak ends with the first round that fails: no further round is due, and the
/// report names that round.
pub proof fn a_failed_round_ends_a_soak(o: CopyLiveStabilitySoakOptions, run: SoakRun)
    requires
        soak_run_valid(o, run),
        !rounds_ok(run.rounds@),
    ensures
        !run.due,
        run.rounds@.len() > 0,
        !run.rounds@.last().ok,
        run.stopped == Some(StopReason::RoundFailed(run.rounds@.len() as usize)),
{
}

/// A soak that was asked to send and went well sent one order per round, kept to
/// its limits and left every account flat.
pub proof fn a_good_submit_soak_keeps_its_limits(
    o: CopyLiveStabilitySoakOptions,
    start: Seq<Check>,
    rounds: Seq<CopyBoundedLiveWindowReport>,
    s: Seq<CopyBoundedLiveWindowReconcile>,
)
    requires
        ({
            let p = progress_of(rounds);
            soak_ok(
                true,
                start + soak_end_checks(o, rounds, p, s),
                rounds,
                p.total_submitted_orders as int,
                p.total_submitted_notional_usd as int,
                p.estimated_fees_usd as int,
                o,
                s,
            )
        }),
    ensures
        all_ok(start),
        rounds.len() > 0,
        forall|i: int| 0 <= i < rounds.len() ==> (#[trigger] rounds[i]).ok,
        progress_of(rounds).total_submitted_orders == rounds.len(),
        progress_of(rounds).total_submitted_notional_usd <= o.max_total_notional_usd,
        fees_fit(progress_of(rounds).estimated_fees_usd as int, o.max_total_fees_usd),
        all_flat(s),
{
    let end = soak_end_checks(o, rounds, progress_of(rounds), s);
    all_ok_concat(start, end);
}

/// The options of a soak are accepted exactly where its time, its rounds and its
/// notional are above zero, its fees are not below, and it asks for one order at
/// a time.
pub proof fn soaks_need_positive_limits(o: CopyLiveStabilitySoakOptions)
    ensures
        soak_error(o) is None <==> o.max_total_notional_usd > 0 && o.max_total_fees_usd >= 0
            && o.max_rounds > 0 && o.duration_secs > 0 && o.max_live_orders == 1,
{
}

/// What each check before a soak means.
pub proof fn each_check_before_a_soak_means_what_it_says(
    config: AppConfig,
    o: CopyLiveStabilitySoakOptions,
    accounts: int,
    expected: Total,
)
    ensures
        ({
            let c = soak_start_checks(config, o, accounts, expected);
            let fees = if expected > 0 {
                2 * expected
            } else {
                0
            };
            &&& c.len() == 10
            &&& c[0].name == "bounded_accounts"@ && (c[0].ok <==> accounts == 1)
            &&& c[1].name == "bounded_rounds"@ && (c[1].ok <==> o.max_rounds >= 1 && o.max_rounds
                <= 24)
            &&& c[2].name == "bounded_duration"@ && (c[2].ok <==> o.duration_secs >= 1
                && o.duration_secs <= 24 * 60 * 60)
            &&& c[3].name == "bounded_live_orders"@ && (c[3].ok <==> o.max_live_orders == 1)
            &&& c[4].name == "bounded_total_notional"@ && (c[4].ok <==> o.max_total_notional_usd
                <= 250_000_000_000)
            &&& c[5].name == "bounded_total_fees"@ && (c[5].ok <==> o.max_total_fees_usd
                <= 1_000_000_000)
            &&& c[6].name == "allow_live_submit_flag"@ && (c[6].ok <==> (o.submit
                ==> o.allow_live_submit))
            &&& c[7].name == "mainnet_confirmation"@ && (c[7].ok <==> (o.submit
                && config.app.environment@ == "mainnet"@ ==> o.confirm_mainnet_live))
            &&& c[8].name == "expected_round_notional"@ && (c[8].ok <==> (o.submit ==> expected
                > 0))
            &&& c[9].name == "expected_round_fee_budget"@ && (c[9].ok <==> (o.submit ==> fees
                <= 1000 * o.max_total_fees_usd))
        }),
{
    let c = soak_start_checks(config, o, accounts, expected);
    let a = soak_bound_checks(o, accounts);
    let b = soak_gate_checks(config, o, expected);
    assert(c[0] == a[0] && c[1] == a[1] && c[2] == a[2] && c[3] == a[3] && c[4] == a[4] && c[5]
        == a[5]);
    assert(c[6] == b[0] && c[7] == b[1] && c[8] == b[2] && c[9] == b[3]);
}

/// What a soak does before a round, in this order: it stops at its limit of
/// rounds, at the end of its time, where no notional or less than no fees are
/// left, and where orders are sent and what a round is expected to take does not
/// fit any more, up to a billionth. Otherwise it runs the next round with what is
/// left.
pub proof fn a_soak_stops_at_the_first_limit(
    o: CopyLiveStabilitySoakOptions,
    p: SoakProgress,
    expected: Total,
    elapsed_nanos: int,
)
    requires
        progress_valid(p),
        0 <= expected <= WIDE_MAX / 2,
    ensures
        ({
            let step = before_round(o, p, expected, elapsed_nanos);
            let notional = o.max_total_notional_usd - p.total_submitted_notional_usd;
            let fees = 1000 * o.max_total_fees_usd - p.estimated_fees_usd;
            if p.rounds >= o.max_rounds {
                step == SoakStep::Stop(StopReason::CompletedMaxRounds)
            } else if elapsed_nanos >= o.duration_secs * 1_000_000_000 {
                step == SoakStep::Stop(StopReason::CompletedDuration)
            } else if notional <= 0 {
                step == SoakStep::Stop(StopReason::TotalNotionalLimit)
            } else if fees < 0 {
                step == SoakStep::Stop(StopReason::TotalFeeLimit)
            } else if o.submit && expected - notional > 1 {
                step == SoakStep::Stop(StopReason::TotalNotionalLimitBeforeRound)
            } else if o.submit && 2 * expected - fees > 1000 {
                step == SoakStep::Stop(StopReason::TotalFeeLimitBeforeRound)
            } else {
                &&& step is RunRound
                &&& step->number == p.rounds + 1
                &&& step->remaining_notional == notional
                &&& step->remaining_fees == fees
            }
        }),
{
}

/// What a soak does after a round, in this order: it stops where the round
/// failed, where what was sent or its fees exceed the caps, at its limit of
/// rounds, and where no time or no pause is left. Otherwise it pauses for its
/// interval, or for the time that is left where that is less.
pub proof fn a_soak_pauses_or_stops_after_a_round(
    o: CopyLiveStabilitySoakOptions,
    p: SoakProgress,
    round_ok: bool,
    elapsed_nanos: int,
)
    requires
        0 <= elapsed_nanos,
    ensures
        ({
            let step = after_round(o, p, round_ok, elapsed_nanos);
            let left = o.duration_secs * 1_000_000_000 - elapsed_nanos;
            let interval = o.interval_secs * 1_000_000_000;
            if !round_ok {
                step == SoakStep::Stop(StopReason::RoundFailed(p.rounds))
            } else if p.total_submitted_notional_usd > o.max_total_notional_usd {
                step == SoakStep::Stop(StopReason::TotalNotionalLimit)
            } else if p.estimated_fees_usd > 1000 * o.max_total_fees_usd {
                step == SoakStep::Stop(StopReason::TotalFeeLimit)
            } else if p.rounds >= o.max_rounds {
                step == SoakStep::Stop(StopReason::CompletedMaxRounds)
            } else if left <= 0 || interval == 0 {
                step == SoakStep::Stop(StopReason::CompletedDuration)
            } else {
                step is SleepNanos && step->SleepNanos_0 == (if interval <= left {
                    interval
                } else {
                    left
                })
            }
        }),
{
}

/// A soak counts what its rounds really sent: one more round adds one, its own
/// orders and their notional, and the fees are two thousandths of all notional.
pub proof fn progress_counts_what_rounds_sent(
    rounds: Seq<CopyBoundedLiveWindowReport>,
    r: CopyBoundedLiveWindowReport,
)
    requires
        rounds.len() < usize::MAX,
        progress_of(rounds).rounds == rounds.len(),
    ensures
        progress_of(Seq::empty()) == (SoakProgress {
            rounds: 0,
            total_submitted_orders: 0,
            total_submitted_notional_usd: 0,
            estimated_fees_usd: 0,
        }),
        ({
            let a = progress_of(rounds);
            let b = progress_of(rounds.push(r));
            let sent = if r.execution is Some {
                live_orders(r.execution->0.submitted_reports@)
            } else {
                Seq::empty()
            };
            let notional = a.total_submitted_notional_usd + total(sent, sent_size());
            &&& b.rounds == a.rounds + 1
            &&& a.total_submitted_orders + sent.len() <= usize::MAX ==> b.total_submitted_orders
                == a.total_submitted_orders + sent.len()
            &&& 0 <= notional <= WIDE_MAX / 2 ==> b.total_submitted_notional_usd == notional
                && b.estimated_fees_usd == 2 * notional
            &&& notional > WIDE_MAX ==> b.total_submitted_notional_usd == WIDE_MAX
        }),
{
    assert(rounds.push(r).drop_last() =~= rounds);
    assert(rounds.push(r).last() == r);
}

/// What was sent adds up order by order; a negative notional counts nothing.
pub proof fn sent_sizes_add_up(sent: Seq<OrderSubmitted>, o: OrderSubmitted)
    ensures
        total(Seq::empty(), sent_size()) == 0,
        total(sent.push(o), sent_size()) == total(sent, sent_size()) + (if o.notional_usd > 0 {
            o.notional_usd as int
        } else {
            0
        }),
{
    assert(sent.push(o).drop_last() =~= sent);
}

/// A soak went well exactly where it ran at least one round, all its checks and
/// rounds passed, it sent one order per round, or none where it was not asked to,
/// what it sent and its fees are within the caps, and every account is flat.
pub proof fn a_good_soak_kept_every_promise(
    submit: bool,
    checks: Seq<Check>,
    rounds: Seq<CopyBoundedLiveWindowReport>,
    orders: int,
    notional: int,
    fees: int,
    o: CopyLiveStabilitySoakOptions,
    s: Seq<CopyBoundedLiveWindowReconcile>,
)
    ensures
        soak_ok(submit, checks, rounds, orders, notional, fees, o, s) <==> rounds.len() > 0
            && all_ok(checks) && (forall|i: int|
            0 <= i < rounds.len() ==> (#[trigger] rounds[i]).ok) && (submit ==> orders
            == rounds.len()) && (!submit ==> orders == 0) && notional <= o.max_total_notional_usd
            && fees <= 1000 * o.max_total_fees_usd && all_flat(s),
        all_flat(s) <==> forall|i: int| 0 <= i < s.len() ==> (#[trigger] s[i]).ok,
{
}

/// What each check after a soak means.
pub proof fn each_check_after_a_soak_means_what_it_says(
    o: CopyLiveStabilitySoakOptions,
    rounds: Seq<CopyBoundedLiveWindowReport>,
    p: SoakProgress,
    s: Seq<CopyBoundedLiveWindowReconcile>,
)
    ensures
        ({
            let c = soak_end_checks(o, rounds, p, s);
            &&& c.len() == 6
            &&& c[0].ok <==> rounds.len() > 0
            &&& c[1].ok <==> rounds.len() > 0 && rounds.filter(round_passed()).len()
                == rounds.len()
            &&& c[2].ok <==> (if o.submit {
                p.total_submitted_orders == rounds.len()
            } else {
                p.total_submitted_orders == 0
            })
            &&& c[3].ok <==> p.total_submitted_notional_usd <= o.max_total_notional_usd
            &&& c[4].ok <==> p.estimated_fees_usd <= 1000 * o.max_total_fees_usd
            &&& c[5].ok <==> all_flat(s)
        }),
{
}

/// A soak that failed is told not to go on; one that passed without sending is
/// told that it sent nothing.
pub proof fn a_failed_soak_is_told_to_stop(ok: bool, submit: bool)
    ensures
        occurs_at(soak_advice(ok, submit), "Do not"@, 0) <==> !ok,
        occurs_at(soak_advice(ok, submit), "No-submit"@, 0) <==> ok && !submit,
{
    let a = soak_advice(ok, submit);
    reveal_strlit("Do not");
    reveal_strlit("No-submit");
    reveal_strlit(
        "Bounded live stability soak passed; review every round report before increasing duration, account count, or total notional.",
    );
    reveal_strlit(
        "No-submit live stability soak passed; rerun with --submit true only when ready for a bounded live stability run.",
    );
    reveal_strlit(
        "Do not widen live copy; inspect failed soak checks, reconcile the target account, and rerun with the same or lower caps.",
    );
    assert(a.subrange(0, 6)[0] == a[0] && a.subrange(0, 9)[0] == a[0]);
    if !ok {
        assert(a.subrange(0, 6) =~= "Do not"@);
    } else if !submit {
        assert(a.subrange(0, 9) =~= "No-submit"@);
    }
}

} // verus!
