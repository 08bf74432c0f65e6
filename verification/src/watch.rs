//! A bounded watch over leaders: what it counts, when it stops, and how it ended.

use vstd::prelude::*;

use crate::checks::{check, copy_shadow_smoke_check, push_check, views, Check, CopyShadowSmokeCheck};
use crate::decimal::{dec, push_count, push_u64};
use crate::pipeline::CopyLeaderWatcherEvent;
use crate::text::{ascii_lower, contains_text, has_text, lower, same_text};

verus! {

/// What a watch has counted so far.
#[derive(Clone, Copy, Debug, PartialEq, Eq, Structural)]
pub struct WatchCounts {
    pub events_received: usize,
    pub fill_events: usize,
    pub snapshot_fill_events: usize,
    pub position_snapshot_events: usize,
    pub position_snapshots: usize,
    pub order_update_events: usize,
    pub shadow_records_written: usize,
}

impl WatchCounts {
    /// Nothing counted yet.
    pub fn new() -> (r: WatchCounts)
        ensures
            r == no_counts(),
    {
        WatchCounts {
            events_received: 0,
            fill_events: 0,
            snapshot_fill_events: 0,
            position_snapshot_events: 0,
            position_snapshots: 0,
            order_update_events: 0,
            shadow_records_written: 0,
        }
    }
}

/// Nothing counted yet.
pub open spec fn no_counts() -> WatchCounts {
    WatchCounts {
        events_received: 0,
        fill_events: 0,
        snapshot_fill_events: 0,
        position_snapshot_events: 0,
        position_snapshots: 0,
        order_update_events: 0,
        shadow_records_written: 0,
    }
}

/// Whether every event was counted under exactly one kind.
pub open spec fn counts_valid(c: WatchCounts) -> bool {
    &&& c.fill_events + c.position_snapshot_events + c.order_update_events == c.events_received
    &&& c.snapshot_fill_events <= c.fill_events
}

/// How many positions an event reports.
pub open spec fn positions_in(e: CopyLeaderWatcherEvent) -> nat {
    match e {
        CopyLeaderWatcherEvent::PositionSnapshots { snapshots, .. } => snapshots@.len(),
        _ => 0,
    }
}

/// The counts after one more event.
pub open spec fn counted(c: WatchCounts, e: CopyLeaderWatcherEvent) -> WatchCounts {
    let c = WatchCounts { events_received: (c.events_received + 1) as usize, ..c };
    match e {
        CopyLeaderWatcherEvent::Fill { is_snapshot, .. } => WatchCounts {
            fill_events: (c.fill_events + 1) as usize,
            snapshot_fill_events: if is_snapshot {
                (c.snapshot_fill_events + 1) as usize
            } else {
                c.snapshot_fill_events
            },
            ..c
        },
        CopyLeaderWatcherEvent::PositionSnapshots { .. } => WatchCounts {
            position_snapshot_events: (c.position_snapshot_events + 1) as usize,
            position_snapshots: (c.position_snapshots + positions_in(e)) as usize,
            ..c
        },
        CopyLeaderWatcherEvent::OrderUpdate { .. } => WatchCounts {
            order_update_events: (c.order_update_events + 1) as usize,
            ..c
        },
    }
}

/// Counts an event.
pub fn count_copy_shadow_watch_event(counts: &mut WatchCounts, event: &CopyLeaderWatcherEvent)
    requires
        counts_valid(*old(counts)),
        old(counts).events_received < usize::MAX,
        old(counts).position_snapshots + positions_in(*event) <= usize::MAX,
    ensures
        *final(counts) == counted(*old(counts), *event),
        counts_valid(*final(counts)),
{
    counts.events_received = counts.events_received + 1;
    match event {
        CopyLeaderWatcherEvent::Fill { is_snapshot, .. } => {
            counts.fill_events = counts.fill_events + 1;
            if *is_snapshot {
                counts.snapshot_fill_events = counts.snapshot_fill_events + 1;
            }
        },
        CopyLeaderWatcherEvent::PositionSnapshots { snapshots, .. } => {
            counts.position_snapshot_events = counts.position_snapshot_events + 1;
            counts.position_snapshots = counts.position_snapshots + snapshots.len();
        },
        CopyLeaderWatcherEvent::OrderUpdate { .. } => {
            counts.order_update_events = counts.order_update_events + 1;
        },
    }
}

/// How a watch stands.
#[derive(Clone, Copy, Debug, PartialEq, Eq, Structural)]
pub enum WatchStatus {
    NotStarted,
    NotStartedNoLocalAccount,
    NotStartedNoLeaders,
    SkippedAcceptanceFailed,
    SkippedMissingLocalAccount,
    SkippedNoLeaders,
    CompletedDuration,
    CompletedDurationWatcherOpen,
    StoppedMaxEvents,
    StoppedImmediateSubmitFailed,
    ChannelClosed,
    RecoverableDisconnect,
    Failed,
    JoinFailed,
}

/// The name of a status.
pub open spec fn status_text(s: WatchStatus) -> Seq<char> {
    match s {
        WatchStatus::NotStarted => "not_started"@,
        WatchStatus::NotStartedNoLocalAccount => "not_started_no_local_account"@,
        WatchStatus::NotStartedNoLeaders => "not_started_no_leaders"@,
        WatchStatus::SkippedAcceptanceFailed => "skipped_acceptance_failed"@,
        WatchStatus::SkippedMissingLocalAccount => "skipped_missing_local_account"@,
        WatchStatus::SkippedNoLeaders => "skipped_no_leaders"@,
        WatchStatus::CompletedDuration => "completed_duration"@,
        WatchStatus::CompletedDurationWatcherOpen => "completed_duration_watcher_open"@,
        WatchStatus::StoppedMaxEvents => "stopped_max_events"@,
        WatchStatus::StoppedImmediateSubmitFailed => "stopped_immediate_submit_failed"@,
        WatchStatus::ChannelClosed => "watcher_channel_closed"@,
        WatchStatus::RecoverableDisconnect => "watcher_recoverable_disconnect"@,
        WatchStatus::Failed => "watcher_error"@,
        WatchStatus::JoinFailed => "watcher_join_error"@,
    }
}

/// The name of a status.
pub fn watch_status_text(s: WatchStatus) -> (r: String)
    ensures
        r@ == status_text(s),
{
    let t: &str = match s {
        WatchStatus::NotStarted => "not_started",
        WatchStatus::NotStartedNoLocalAccount => "not_started_no_local_account",
        WatchStatus::NotStartedNoLeaders => "not_started_no_leaders",
        WatchStatus::SkippedAcceptanceFailed => "skipped_acceptance_failed",
        WatchStatus::SkippedMissingLocalAccount => "skipped_missing_local_account",
        WatchStatus::SkippedNoLeaders => "skipped_no_leaders",
        WatchStatus::CompletedDuration => "completed_duration",
        WatchStatus::CompletedDurationWatcherOpen => "completed_duration_watcher_open",
        WatchStatus::StoppedMaxEvents => "stopped_max_events",
        WatchStatus::StoppedImmediateSubmitFailed => "stopped_immediate_submit_failed",
        WatchStatus::ChannelClosed => "watcher_channel_closed",
        WatchStatus::RecoverableDisconnect => "watcher_recoverable_disconnect",
        WatchStatus::Failed => "watcher_error",
        WatchStatus::JoinFailed => "watcher_join_error",
    };
    t.to_owned()
}

/// What a watch does next.
#[derive(Clone, Copy, Debug, PartialEq, Eq, Structural)]
pub enum WatchStep {
    Stop(WatchStatus),
    WaitNanos(u128),
}

/// What a watch does before it waits for an event: it stops at its event limit
/// or past its deadline, and otherwise waits no longer than the deadline.
pub open spec fn watch_step(
    events_received: usize,
    max_events: usize,
    duration_secs: u64,
    elapsed_nanos: int,
) -> WatchStep {
    if events_received >= max_events {
        WatchStep::Stop(WatchStatus::StoppedMaxEvents)
    } else if elapsed_nanos > duration_secs * 1_000_000_000 {
        WatchStep::Stop(WatchStatus::CompletedDuration)
    } else {
        WatchStep::WaitNanos((duration_secs * 1_000_000_000 - elapsed_nanos) as u128)
    }
}

/// What a watch does before it waits for an event.
pub fn next_watch_step(
    events_received: usize,
    max_events: usize,
    duration_secs: u64,
    elapsed_nanos: u128,
) -> (r: WatchStep)
    ensures
        r == watch_step(events_received, max_events, duration_secs, elapsed_nanos as int),
{
    let duration: u128 = duration_secs as u128 * 1_000_000_000;
    if events_received >= max_events {
        WatchStep::Stop(WatchStatus::StoppedMaxEvents)
    } else if elapsed_nanos > duration {
        WatchStep::Stop(WatchStatus::CompletedDuration)
    } else {
        WatchStep::WaitNanos(duration - elapsed_nanos)
    }
}

/// What came of waiting for an event.
#[derive(Clone, Copy, Debug, PartialEq, Eq, Structural)]
pub enum WaitOutcome {
    Event,
    Closed,
    TimedOut,
}

/// The status with which a wait ends a watch, if it does.
pub open spec fn wait_end(w: WaitOutcome) -> Option<WatchStatus> {
    match w {
        WaitOutcome::Event => None,
        WaitOutcome::Closed => Some(WatchStatus::ChannelClosed),
        WaitOutcome::TimedOut => Some(WatchStatus::CompletedDuration),
    }
}

/// The status with which a wait ends a watch, if it does.
pub fn after_wait(w: WaitOutcome) -> (r: Option<WatchStatus>)
    ensures
        r == wait_end(w),
{
    match w {
        WaitOutcome::Event => None,
        WaitOutcome::Closed => Some(WatchStatus::ChannelClosed),
        WaitOutcome::TimedOut => Some(WatchStatus::CompletedDuration),
    }
}

/// How the task behind a watch stands when the watch is over.
#[derive(Debug)]
pub enum WatcherEnd {
    StillRunning,
    Finished,
    Failed(String),
    JoinFailed(String),
}

/// The status of a watch whose task still runs, or ended well.
pub open spec fn settled_status(
    status: WatchStatus,
    events_received: usize,
    max_events: usize,
    end: WatcherEnd,
) -> WatchStatus {
    if end is StillRunning && events_received > 0 {
        if events_received >= max_events {
            WatchStatus::StoppedMaxEvents
        } else {
            WatchStatus::CompletedDurationWatcherOpen
        }
    } else {
        status
    }
}

fn settle(
    status: WatchStatus,
    events_received: usize,
    max_events: usize,
    end: &WatcherEnd,
) -> (r: WatchStatus)
    ensures
        r == settled_status(status, events_received, max_events, *end),
{
    match end {
        WatcherEnd::StillRunning => if events_received > 0 {
            if events_received >= max_events {
                WatchStatus::StoppedMaxEvents
            } else {
                WatchStatus::CompletedDurationWatcherOpen
            }
        } else {
            status
        },
        _ => status,
    }
}

/// How a read-only watch ends: its status, and the checks that its end adds.
pub open spec fn watch_ended(
    status: WatchStatus,
    events_received: usize,
    max_events: usize,
    end: WatcherEnd,
) -> (WatchStatus, Seq<Check>) {
    match end {
        WatcherEnd::Failed(e) => (
            WatchStatus::Failed,
            seq![check("watcher_runtime"@, false, e@)],
        ),
        WatcherEnd::JoinFailed(e) => (
            WatchStatus::JoinFailed,
            seq![check("watcher_runtime"@, false, e@)],
        ),
        _ => (settled_status(status, events_received, max_events, end), Seq::empty()),
    }
}

/// Ends a read-only watch.
pub fn end_watch(
    checks: &mut Vec<CopyShadowSmokeCheck>,
    status: WatchStatus,
    events_received: usize,
    max_events: usize,
    end: WatcherEnd,
) -> (r: WatchStatus)
    ensures
        ({
            let e = watch_ended(status, events_received, max_events, end);
            r == e.0 && views(final(checks)@) == views(old(checks)@) + e.1
        }),
{
    let ghost start = views(checks@);
    let ghost e = watch_ended(status, events_received, max_events, end);
    let settled: WatchStatus = settle(status, events_received, max_events, &end);
    match end {
        WatcherEnd::Failed(m) => {
            push_check(checks, "watcher_runtime", false, m);
            assert(views(checks@) =~= start + e.1);
            WatchStatus::Failed
        },
        WatcherEnd::JoinFailed(m) => {
            push_check(checks, "watcher_runtime", false, m);
            assert(views(checks@) =~= start + e.1);
            WatchStatus::JoinFailed
        },
        _ => {
            assert(views(checks@) =~= start + e.1);
            settled
        },
    }
}

/// Whether a failure of a watch is a lost connection that a later watch may not
/// meet again.
pub open spec fn recoverable(message: Seq<char>) -> bool {
    let m = lower(message);
    ||| has_text(m, "os error 10054"@)
    ||| has_text(m, "connection reset"@)
    ||| has_text(m, "remote host"@)
    ||| has_text(m, "\u{8fdc}\u{7a0b}\u{4e3b}\u{673a}"@)
    ||| has_text(m, "forcibly closed"@)
    ||| has_text(m, "unexpected eof"@)
}

/// Whether a failure of a watch is a lost connection that a later watch may not
/// meet again.
pub fn copy_live_daemon_recoverable_watcher_error(message: &str) -> (r: bool)
    ensures
        r == recoverable(message@),
{
    let m: String = ascii_lower(message);
    let t: &str = m.as_str();
    contains_text(t, "os error 10054") || contains_text(t, "connection reset") || contains_text(
        t,
        "remote host",
    ) || contains_text(t, "\u{8fdc}\u{7a0b}\u{4e3b}\u{673a}") || contains_text(
        t,
        "forcibly closed",
    ) || contains_text(t, "unexpected eof")
}

/// The check on a supervised watch that failed.
pub open spec fn runtime_check(message: Seq<char>) -> Check {
    check(
        "watcher_runtime"@,
        recoverable(message),
        if recoverable(message) {
            "read-only watcher disconnected with recoverable error; outer soak loop may reconnect next round: "@
                + message
        } else {
            "read-only watcher failed: "@ + message
        },
    )
}

/// How a supervised watch ends: its status, and the checks that its end adds. A
/// lost connection is no failure.
pub open spec fn supervised_ended(
    status: WatchStatus,
    events_received: usize,
    max_events: usize,
    end: WatcherEnd,
) -> (WatchStatus, Seq<Check>) {
    match end {
        WatcherEnd::Failed(e) => (
            if recoverable(e@) {
                WatchStatus::RecoverableDisconnect
            } else {
                WatchStatus::Failed
            },
            seq![runtime_check(e@)],
        ),
        WatcherEnd::JoinFailed(e) => (
            WatchStatus::JoinFailed,
            seq![check("watcher_join"@, false, "read-only watcher task join failed: "@ + e@)],
        ),
        _ => (settled_status(status, events_received, max_events, end), Seq::empty()),
    }
}

/// Ends a supervised watch.
pub fn end_supervised_watch(
    checks: &mut Vec<CopyShadowSmokeCheck>,
    status: WatchStatus,
    events_received: usize,
    max_events: usize,
    end: WatcherEnd,
) -> (r: WatchStatus)
    ensures
        ({
            let e = supervised_ended(status, events_received, max_events, end);
            r == e.0 && views(final(checks)@) == views(old(checks)@) + e.1
        }),
{
    let ghost start = views(checks@);
    let ghost e = supervised_ended(status, events_received, max_events, end);
    let settled: WatchStatus = settle(status, events_received, max_events, &end);
    match end {
        WatcherEnd::Failed(m) => {
            let lost: bool = copy_live_daemon_recoverable_watcher_error(m.as_str());
            let mut d: String = if lost {
                "read-only watcher disconnected with recoverable error; outer soak loop may reconnect next round: ".to_owned()
            } else {
                "read-only watcher failed: ".to_owned()
            };
            d.append(m.as_str());
            push_check(checks, "watcher_runtime", lost, d);
            assert(views(checks@) =~= start + e.1);
            if lost {
                WatchStatus::RecoverableDisconnect
            } else {
                WatchStatus::Failed
            }
        },
        WatcherEnd::JoinFailed(m) => {
            let mut d: String = "read-only watcher task join failed: ".to_owned();
            d.append(m.as_str());
            push_check(checks, "watcher_join", false, d);
            assert(views(checks@) =~= start + e.1);
            WatchStatus::JoinFailed
        },
        _ => {
            assert(views(checks@) =~= start + e.1);
            settled
        },
    }
}

/// Whether a status says that a watch lost its source.
pub open spec fn disconnected(status: Seq<char>) -> bool {
    let s = lower(status);
    ||| s == "watcher_recoverable_disconnect"@
    ||| s == "watcher_channel_closed"@
    ||| s == "watcher_error"@
    ||| s == "watcher_join_error"@
}

/// The check on the progress of a watch: one that lost its source before it saw
/// anything is no healthy watch.
pub open spec fn progress_check(
    status: Seq<char>,
    events_received: usize,
    duration_secs: u64,
    elapsed_ms: u64,
) -> Check {
    let stuck = events_received == 0 && disconnected(status);
    check(
        "watcher_progress"@,
        !stuck,
        if stuck {
            "watcher ended before receiving any events: status="@ + status
                + " events_received=0 elapsed_ms="@ + dec(elapsed_ms as nat) + " duration_secs="@
                + dec(duration_secs as nat)
                + "; restart/backoff required before treating this as a healthy monitoring window"@
        } else {
            "watcher progress acceptable: status="@ + status + " events_received="@ + dec(
                events_received as nat,
            ) + " elapsed_ms="@ + dec(elapsed_ms as nat) + " duration_secs="@ + dec(
                duration_secs as nat,
            )
        },
    )
}

/// Checks the progress of a watch.
pub fn copy_live_daemon_watcher_progress_check(
    watcher_status: &str,
    events_received: usize,
    duration_secs: u64,
    elapsed_ms: u64,
) -> (r: CopyShadowSmokeCheck)
    ensures
        r@ == progress_check(watcher_status@, events_received, duration_secs, elapsed_ms),
{
    let s: String = ascii_lower(watcher_status);
    let t: &str = s.as_str();
    let stuck: bool = events_received == 0 && (same_text(t, "watcher_recoverable_disconnect")
        || same_text(t, "watcher_channel_closed") || same_text(t, "watcher_error") || same_text(
        t,
        "watcher_join_error",
    ));
    let detail: String = if stuck {
        let mut d: String = "watcher ended before receiving any events: status=".to_owned();
        d.append(watcher_status);
        d.append(" events_received=0 elapsed_ms=");
        push_u64(&mut d, elapsed_ms);
        d.append(" duration_secs=");
        push_u64(&mut d, duration_secs);
        d.append(
            "; restart/backoff required before treating this as a healthy monitoring window",
        );
        d
    } else {
        let mut d: String = "watcher progress acceptable: status=".to_owned();
        d.append(watcher_status);
        d.append(" events_received=");
        push_count(&mut d, events_received);
        d.append(" elapsed_ms=");
        push_u64(&mut d, elapsed_ms);
        d.append(" duration_secs=");
        push_u64(&mut d, duration_secs);
        d
    };
    copy_shadow_smoke_check("watcher_progress", !stuck, detail)
}

/// A watch that lost its source fails its progress check exactly where it saw no
/// event at all.
pub proof fn losing_the_source_fails_only_without_events(
    status: WatchStatus,
    events_received: usize,
    duration_secs: u64,
    elapsed_ms: u64,
)
    requires
        status is ChannelClosed || status is RecoverableDisconnect || status is Failed
            || status is JoinFailed,
    ensures
        progress_check(status_text(status), events_received, duration_secs, elapsed_ms).ok == (
        events_received > 0),
{
    reveal_strlit("watcher_channel_closed");
    reveal_strlit("watcher_recoverable_disconnect");
    reveal_strlit("watcher_error");
    reveal_strlit("watcher_join_error");
    assert(lower(status_text(status)) =~= status_text(status));
}

/// A watch never waits past its deadline, and never for an event past its limit.
pub proof fn a_wait_stays_within_the_watch(
    events_received: usize,
    max_events: usize,
    duration_secs: u64,
    elapsed_nanos: int,
    wait: u128,
)
    requires
        0 <= elapsed_nanos,
        watch_step(events_received, max_events, duration_secs, elapsed_nanos)
            == WatchStep::WaitNanos(wait),
    ensures
        events_received < max_events,
        elapsed_nanos + wait == duration_secs * 1_000_000_000,
{
}

/// An event is counted once and under its own kind: a fill, and also as a
/// snapshot where it is one, the positions of a snapshot with their number, or an
/// order update.
pub proof fn events_are_counted_under_their_kind(c: WatchCounts, e: CopyLeaderWatcherEvent)
    requires
        counts_valid(c),
        c.events_received < usize::MAX,
        c.position_snapshots + positions_in(e) <= usize::MAX,
    ensures
        counts_valid(counted(c, e)),
        counted(c, e).events_received == c.events_received + 1,
        counted(c, e).fill_events == c.fill_events + (if e is Fill {
            1int
        } else {
            0int
        }),
        counted(c, e).snapshot_fill_events == c.snapshot_fill_events + (if e is Fill
            && e->Fill_is_snapshot {
            1int
        } else {
            0int
        }),
        counted(c, e).position_snapshot_events == c.position_snapshot_events + (if e
            is PositionSnapshots {
            1int
        } else {
            0int
        }),
        counted(c, e).position_snapshots == c.position_snapshots + (if e is PositionSnapshots {
            e->snapshots@.len() as int
        } else {
            0int
        }),
        counted(c, e).order_update_events == c.order_update_events + (if e is OrderUpdate {
            1int
        } else {
            0int
        }),
        counted(c, e).shadow_records_written == c.shadow_records_written,
{
}

/// A watch stops exactly at its limit of events or past its duration, and
/// otherwise waits for what is left of the duration.
pub proof fn a_watch_ends_at_its_limits(
    events_received: usize,
    max_events: usize,
    duration_secs: u64,
    elapsed_nanos: int,
)
    requires
        0 <= elapsed_nanos,
    ensures
        ({
            let left = duration_secs * 1_000_000_000 - elapsed_nanos;
            let step = watch_step(events_received, max_events, duration_secs, elapsed_nanos);
            &&& step == WatchStep::Stop(WatchStatus::StoppedMaxEvents) <==> events_received
                >= max_events
            &&& step == WatchStep::Stop(WatchStatus::CompletedDuration) <==> events_received
                < max_events && left < 0
            &&& events_received < max_events && left >= 0 ==> step is WaitNanos && step->WaitNanos_0
                == left
        }),
        wait_end(WaitOutcome::Event) is None,
        wait_end(WaitOutcome::Closed) == Some(WatchStatus::ChannelClosed),
        wait_end(WaitOutcome::TimedOut) == Some(WatchStatus::CompletedDuration),
{
}

/// A failure of a watch is a lost connection exactly where its message, whatever
/// its case, speaks of one.
pub proof fn lost_connections_are_said_to_be_lost(message: Seq<char>)
    ensures
        recoverable(message) <==> has_text(lower(message), "os error 10054"@) || has_text(
            lower(message),
            "connection reset"@,
        ) || has_text(lower(message), "remote host"@) || has_text(
            lower(message),
            "\u{8fdc}\u{7a0b}\u{4e3b}\u{673a}"@,
        ) || has_text(lower(message), "forcibly closed"@) || has_text(
            lower(message),
            "unexpected eof"@,
        ),
{
}

/// How a watch ends. One whose task failed says so and fails a check; a supervised
/// one forgives a lost connection. One whose task still runs and that saw events
/// stopped at its limit or at the end of its time; any other keeps its status.
pub proof fn a_watch_ends_as_its_task_did(
    status: WatchStatus,
    events_received: usize,
    max_events: usize,
    end: WatcherEnd,
)
    ensures
        ({
            let own = watch_ended(status, events_received, max_events, end);
            let led = supervised_ended(status, events_received, max_events, end);
            match end {
                WatcherEnd::Failed(e) => {
                    &&& own.0 == WatchStatus::Failed && own.1.len() == 1 && !own.1[0].ok
                    &&& led.1.len() == 1
                    &&& led.1[0].ok <==> recoverable(e@)
                    &&& recoverable(e@) ==> led.0 == WatchStatus::RecoverableDisconnect
                    &&& !recoverable(e@) ==> led.0 == WatchStatus::Failed
                },
                WatcherEnd::JoinFailed(_e) => {
                    &&& own.0 == WatchStatus::JoinFailed && own.1.len() == 1 && !own.1[0].ok
                    &&& led.0 == WatchStatus::JoinFailed && led.1.len() == 1 && !led.1[0].ok
                },
                WatcherEnd::StillRunning => {
                    &&& own.1.len() == 0 && led.1.len() == 0 && own.0 == led.0
                    &&& events_received == 0 ==> own.0 == status
                    &&& events_received > 0 && events_received >= max_events ==> own.0
                        == WatchStatus::StoppedMaxEvents
                    &&& events_received > 0 && events_received < max_events ==> own.0
                        == WatchStatus::CompletedDurationWatcherOpen
                },
                WatcherEnd::Finished => {
                    &&& own.1.len() == 0 && led.1.len() == 0
                    &&& own.0 == status && led.0 == status
                },
            }
        }),
{
}

/// The progress of a watch is in order unless it saw nothing and its status says
/// that it lost its source.
pub proof fn progress_fails_only_where_nothing_was_seen(
    status: Seq<char>,
    events_received: usize,
    duration_secs: u64,
    elapsed_ms: u64,
)
    ensures
        progress_check(status, events_received, duration_secs, elapsed_ms).name
            == "watcher_progress"@,
        !progress_check(status, events_received, duration_secs, elapsed_ms).ok <==> events_received
            == 0 && (lower(status) == "watcher_recoverable_disconnect"@ || lower(status)
            == "watcher_channel_closed"@ || lower(status) == "watcher_error"@ || lower(status)
            == "watcher_join_error"@),
{
}

} // verus!
