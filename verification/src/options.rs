//! What an operator asks of a run.

use vstd::prelude::*;

use crate::decimal::{dec, dec_padded, push_count, push_padded, Fixed};
use crate::domain::OrderSide;
use crate::text::{blank, is_blank};

verus! {

/// A supervisor window.
///
/// `markets` is the market scope of the window: the markets in which new
/// positions may be opened.
#[derive(Clone, Debug)]
pub struct CopyLiveDaemonSupervisorOptions {
    pub leaders: Vec<String>,
    pub account_ids: Vec<String>,
    pub local_account_id: Option<String>,
    pub markets: Vec<String>,
    pub coin: String,
    pub side: OrderSide,
    pub persistence_path: String,
    pub shadow_history_path: String,
    pub leader_notional_usd: Fixed,
    pub leader_size: Fixed,
    pub live_gate: bool,
    pub allow_live_submit: bool,
    pub confirm_mainnet_live: bool,
    pub submit: bool,
    pub hold_positions_after_submit: bool,
    pub cleanup_max_slippage_bps: Fixed,
    pub duration_secs: u64,
    pub max_events: usize,
    pub max_live_orders: usize,
    pub max_total_notional_usd: Fixed,
    pub max_total_fees_usd: Fixed,
    pub max_slippage_bps: Fixed,
    pub environment: Option<String>,
    pub ws_url: Option<String>,
}

/// A dry run of the copy pipeline.
#[derive(Clone, Debug)]
pub struct CopyShadowSmokeOptions {
    pub leaders: Vec<String>,
    pub coin: String,
    pub local_account_id: Option<String>,
    pub shadow_history_path: String,
    pub synthetic_event: bool,
    pub leader_notional_usd: Fixed,
    pub leader_size: Fixed,
}

/// A read-only watch over leaders.
#[derive(Clone, Debug)]
pub struct CopyShadowWatchOptions {
    pub leaders: Vec<String>,
    pub local_account_id: Option<String>,
    pub shadow_history_path: String,
    pub duration_secs: u64,
    pub max_events: usize,
    pub environment: Option<String>,
    pub ws_url: Option<String>,
}

/// A single trial order per account.
#[derive(Clone, Debug)]
pub struct CopyExecutionCanaryOptions {
    pub leaders: Vec<String>,
    pub account_ids: Vec<String>,
    pub coin: String,
    pub side: OrderSide,
    pub local_account_id: Option<String>,
    pub shadow_history_path: String,
    pub leader_notional_usd: Fixed,
    pub leader_size: Fixed,
    pub live: bool,
    pub allow_live_submit: bool,
    pub confirm_mainnet_live: bool,
    pub cleanup_after_submit: bool,
    pub cleanup_max_slippage_bps: Fixed,
    pub preflight_only: bool,
    pub max_orders: usize,
}

/// An acceptance run before an unattended window.
#[derive(Clone, Debug)]
pub struct CopyLiveDaemonAcceptanceOptions {
    pub leaders: Vec<String>,
    pub account_ids: Vec<String>,
    pub coin: String,
    pub side: OrderSide,
    pub persistence_path: String,
    pub shadow_history_path: String,
    pub leader_notional_usd: Fixed,
    pub leader_size: Fixed,
    pub live: bool,
    pub allow_live_submit: bool,
    pub confirm_mainnet_live: bool,
    pub max_duration_secs: u64,
    pub max_live_orders: usize,
    pub max_total_notional_usd: Fixed,
    pub max_total_fees_usd: Fixed,
    pub max_slippage_bps: Fixed,
    pub require_cleanup_after_submit: bool,
    pub require_flat_reconcile_after_submit: bool,
}

/// A window with at most a few live orders.
#[derive(Clone, Debug)]
pub struct CopyBoundedLiveWindowOptions {
    pub leaders: Vec<String>,
    pub account_ids: Vec<String>,
    pub coin: String,
    pub side: OrderSide,
    pub persistence_path: String,
    pub shadow_history_path: String,
    pub leader_notional_usd: Fixed,
    pub leader_size: Fixed,
    pub submit: bool,
    pub allow_live_submit: bool,
    pub confirm_mainnet_live: bool,
    pub max_duration_secs: u64,
    pub max_live_orders: usize,
    pub max_total_notional_usd: Fixed,
    pub max_total_fees_usd: Fixed,
    pub max_slippage_bps: Fixed,
    pub cleanup_max_slippage_bps: Fixed,
}

/// A sequence of bounded windows.
#[derive(Clone, Debug)]
pub struct CopyLiveStabilitySoakOptions {
    pub leaders: Vec<String>,
    pub account_ids: Vec<String>,
    pub coin: String,
    pub side: OrderSide,
    pub persistence_path: String,
    pub shadow_history_path: String,
    pub leader_notional_usd: Fixed,
    pub leader_size: Fixed,
    pub submit: bool,
    pub allow_live_submit: bool,
    pub confirm_mainnet_live: bool,
    pub duration_secs: u64,
    pub interval_secs: u64,
    pub max_rounds: usize,
    pub max_live_orders: usize,
    pub max_total_notional_usd: Fixed,
    pub max_total_fees_usd: Fixed,
    pub max_slippage_bps: Fixed,
    pub cleanup_max_slippage_bps: Fixed,
}

/// Whether slippage is a number of basis points below the whole price.
pub open spec fn slippage_valid(bps: Fixed) -> bool {
    0 <= bps < 10_000_000_000_000
}

/// Whether slippage is a number of basis points below the whole price.
pub fn is_slippage_valid(bps: Fixed) -> (r: bool)
    ensures
        r == slippage_valid(bps),
{
    0 <= bps && bps < 10_000_000_000_000
}

/// A file name, or a stand-in where a path has none.
pub open spec fn name_or(file_name: Option<Seq<char>>, fallback: Seq<char>) -> Seq<char> {
    match file_name {
        Some(n) => if blank(n) {
            fallback
        } else {
            n
        },
        None => fallback,
    }
}

/// What a borrowed optional text says.
pub open spec fn opt_text(s: Option<&str>) -> Option<Seq<char>> {
    match s {
        Some(t) => Some(t@),
        None => None,
    }
}

fn name_or_else(file_name: Option<&str>, fallback: &str) -> (r: String)
    ensures
        r@ == name_or(opt_text(file_name), fallback@),
{
    match file_name {
        Some(n) => if is_blank(n) {
            fallback.to_owned()
        } else {
            n.to_owned()
        },
        None => fallback.to_owned(),
    }
}

/// The name of the file beside another that carries a suffix.
pub fn copy_live_daemon_supervisor_sidecar_path(file_name: Option<&str>, suffix: &str) -> (r:
    String)
    ensures
        r@ == name_or(opt_text(file_name), "copy-live-daemon-supervisor"@) + "."@ + suffix@,
{
    let mut s: String = name_or_else(file_name, "copy-live-daemon-supervisor");
    s.append(".");
    s.append(suffix);
    s
}

/// A number with at least three digits.
pub open spec fn three_digits(n: nat) -> Seq<char> {
    if n < 1000 {
        dec_padded(n, 3)
    } else {
        dec(n)
    }
}

/// The name of the file of one round.
pub fn copy_stability_round_path(file_name: Option<&str>, round_number: usize) -> (r: String)
    ensures
        r@ == name_or(opt_text(file_name), "copy-live-stability-soak"@) + ".round-"@
            + three_digits(round_number as nat),
{
    let mut s: String = name_or_else(file_name, "copy-live-stability-soak");
    s.append(".round-");
    if round_number < 1000 {
        push_padded(&mut s, round_number as u64, 3);
    } else {
        push_count(&mut s, round_number);
    }
    s
}

/// A file keeps its own name unless that is blank; rounds are numbered with three
/// digits at least; and slippage is valid from nothing up to, not including, the
/// whole price of ten thousand basis points.
pub proof fn files_keep_their_names(
    file_name: Option<Seq<char>>,
    fallback: Seq<char>,
    n: nat,
    bps: Fixed,
)
    ensures
        file_name is Some && !blank(file_name->0) ==> name_or(file_name, fallback)
            == file_name->0,
        file_name is None || blank(file_name->0) ==> name_or(file_name, fallback) == fallback,
        n >= 1000 ==> three_digits(n) == dec(n),
        n < 1000 ==> three_digits(n) == seq![
            (48 + n / 100) as char,
            (48 + n / 10 % 10) as char,
            (48 + n % 10) as char,
        ],
        slippage_valid(bps) <==> bps >= 0 && bps < 10_000 * 1_000_000_000,
{
    if n < 1000 {
        reveal_with_fuel(dec_padded, 4);
        assert(n / 10 / 10 == n / 100);
        assert((n / 100) % 10 == n / 100);
        assert(dec_padded(n, 3) =~= seq![
            (48 + n / 100) as char,
            (48 + n / 10 % 10) as char,
            (48 + n % 10) as char,
        ]);
    }
}

} // verus!
