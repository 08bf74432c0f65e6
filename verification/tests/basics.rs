//! Texts, decimals, markets and leaders.

use copy_daemon::config::{
    AccountConfig, AppConfig, AppSection, GlobalRiskSection, HyperliquidSection, ManualOpsSection,
    ProcessSection, RiskSection, copy_daemon_config_for_coin, copy_daemon_max_signal_delay_ms,
    copy_execution_canary_target_accounts,
};
use copy_daemon::decimal::{
    WIDE_MAX, is_infinite_text, is_negative_text, parse_amount_size, parse_amount_worth,
    parse_decimal, parse_size, push_fine6, push_fixed6, push_plain, push_total6,
};
use copy_daemon::domain::{
    ExecutionMode, OrderSide, copy_live_daemon_order_side_key, parse_execution_mode,
    parse_order_side,
};
use copy_daemon::leaders::{leader_arguments_of, parse_copy_shadow_smoke_leaders};
use copy_daemon::market::{
    copy_daemon_live_target_leverage, copy_daemon_market_dex_for_coin,
    copy_daemon_market_scope_allows_open, copy_daemon_market_scope_names, whole_leverage,
};
use copy_daemon::reconcile::{
    AccountReconciliationReport, ClearinghouseState, MarginSummary,
    copy_bounded_live_window_reconcile_from_report, copy_live_daemon_local_side_from_position_szi,
    copy_live_daemon_reconciliations_ready_for_reduce_only, unreadable_reconcile,
};
use copy_daemon::text::{
    ascii_lower, contains_text, is_blank, join, same_text_ignoring_case, text_before, trim,
};

/// An amount in dollars as a fixed-point number.
fn usd(x: f64) -> i64 {
    (x * 1e9).round() as i64
}

fn test_account(account_id: &str, address: &str, copy_ratio: f64) -> AccountConfig {
    AccountConfig {
        account_id: account_id.to_string(),
        address: address.to_string(),
        enabled: true,
        worker_enabled: true,
        copy_ratio: usd(copy_ratio),
        max_order_notional_usd: usd(100.0),
    }
}

fn test_config() -> AppConfig {
    AppConfig {
        app: AppSection { environment: "testnet".to_string(), dry_run: true },
        hyperliquid: HyperliquidSection {
            dex: "xyz".to_string(),
            ws_url: "wss://api.hyperliquid.xyz/ws".to_string(),
        },
        process: ProcessSection { signal_ttl_ms: 3000 },
        manual_ops: ManualOpsSection {
            manual_live_enabled: false,
            mainnet_live_enabled: false,
            max_manual_order_notional_usd: usd(25.0),
        },
        risk: RiskSection {
            global: GlobalRiskSection { allow_reduce_only_when_killed: true },
        },
        accounts: vec![
            test_account("addr_a", "0x0000000000000000000000000000000000000001", 0.10),
            test_account("addr_b", "0x0000000000000000000000000000000000000002", 0.05),
        ],
        copy_blocked_symbols: Vec::new(),
    }
}

#[test]
fn sides_and_modes_are_read_leniently() {
    assert_eq!(parse_order_side(" BUY ").unwrap(), OrderSide::Buy);
    assert_eq!(parse_order_side("s").unwrap(), OrderSide::Sell);
    assert_eq!(
        parse_order_side("Hold").unwrap_err(),
        "unsupported side hold; use buy or sell"
    );
    assert_eq!(parse_execution_mode("IOC").unwrap(), ExecutionMode::Taker);
    assert_eq!(parse_execution_mode("alo").unwrap(), ExecutionMode::Maker);
    assert_eq!(
        parse_execution_mode("x").unwrap_err(),
        "unsupported execution mode x; use taker or maker"
    );
    assert_eq!(copy_live_daemon_order_side_key(OrderSide::Buy), "buy");
    assert_eq!(copy_live_daemon_order_side_key(OrderSide::Sell), "sell");
}

#[test]
fn leaders_are_read_in_every_form() {
    let raw: Vec<String> = ["a = 0xAA", "b:0xbb", "", "0xCC"].iter().map(|s| s.to_string()).collect();
    let leaders = parse_copy_shadow_smoke_leaders(&raw).unwrap();
    assert_eq!(leaders.len(), 3);
    assert_eq!(leaders[0].leader_id, "a");
    assert_eq!(leaders[0].leader_address, "0xAA");
    assert_eq!(leaders[1].leader_address, "0xbb");
    assert_eq!(leaders[2].leader_id, "leader_4");
    assert_eq!(leader_arguments_of(&leaders), "--leader a=0xAA --leader b=0xbb --leader leader_4=0xCC");
    let error = parse_copy_shadow_smoke_leaders(&vec!["x=".to_string()]).unwrap_err();
    assert_eq!(error, "invalid --leader x=; use leader_id=0xAddress");
}

#[test]
fn amounts_are_read_like_decimals() {
    for (text, billionths) in [
        ("12.5", 12_500_000_000),
        ("-0.000000001", 1),
        ("1e3", 1_000_000_000_000),
        (".5", 500_000_000),
        ("5.", 5_000_000_000),
        ("+7", 7_000_000_000),
        ("125E-1", 12_500_000_000),
    ] {
        assert_eq!(parse_amount_size(text), Some(i128::from(billionths)), "{text}");
        assert_eq!(parse_amount_worth(text), Some(billionths), "{text}");
    }
    for unreadable in ["", " 1", "1 ", "abc", "1e", "--1", ".", "1.2.3", "infinit", "+-inf"] {
        assert_eq!(parse_amount_size(unreadable), None, "{unreadable}");
        assert_eq!(parse_amount_worth(unreadable), None, "{unreadable}");
    }
    for infinite in ["inf", "-Infinity", "+INF"] {
        assert!(is_infinite_text(infinite));
        assert_eq!(parse_amount_size(infinite), Some(WIDE_MAX), "{infinite}");
    }
    assert!(!is_infinite_text("1e400"));
    assert_eq!(parse_size("0.000000000001", 12), Some(1));
    assert!(is_negative_text("-1") && !is_negative_text("+1"));
}

#[test]
fn what_is_below_a_billionth_still_counts() {
    assert_eq!(parse_amount_size("0.0000000015"), Some(2));
    assert_eq!(parse_amount_size("-0.0000000015"), Some(2));
    assert_eq!(parse_amount_size("1.5e-9"), Some(2));
    assert_eq!(parse_amount_size("0.0000000010"), Some(1));
    assert_eq!(parse_amount_size("0.0000000000000000001"), Some(1));
    assert_eq!(parse_amount_size("0.000000000000"), Some(0));
    assert_eq!(parse_amount_worth("0.0000000015"), Some(1));
    assert_eq!(parse_amount_worth("0.0000000005"), Some(1));
    assert_eq!(parse_amount_worth("0"), Some(0));
    assert_eq!(parse_decimal("-2.2200000000009", 12), Some(-2_220_000_000_000));
    assert_eq!(parse_decimal("5e40", 12), Some(WIDE_MAX));
    assert_eq!(parse_amount_size("9223372036.8547758071"), Some(9_223_372_036_854_775_808));
    assert_eq!(parse_amount_worth("9223372037"), Some(i64::MAX));
}

#[test]
fn amounts_are_written_like_decimals() {
    let mut s = String::new();
    push_fixed6(&mut s, usd(3.2674975));
    s.push(' ');
    push_fixed6(&mut s, usd(-0.5));
    s.push(' ');
    push_plain(&mut s, usd(250.0));
    s.push(' ');
    push_plain(&mut s, usd(0.1));
    assert_eq!(s, "3.267498 -0.500000 250 0.1");
    let mut wide = String::new();
    push_total6(&mut wide, -123_456_789_012_345_678_901_234_567);
    wide.push(' ');
    push_fine6(&mut wide, 76_000_000_500_001);
    assert_eq!(wide, "-123456789012345678.901235 76.000001");
}

#[test]
fn coins_tell_their_market() {
    for (coin, market, dex) in [
        ("xyz:XYZ100", "xyz_perp", "xyz"),
        ("BTC", "hl_perp", ""),
        ("PURR/USDC", "spot", "spot"),
        ("@107", "spot", "spot"),
    ] {
        let (m, d) = copy_daemon_market_dex_for_coin(coin);
        assert_eq!(m.as_deref(), Some(market), "{coin}");
        assert_eq!(d.as_deref(), Some(dex), "{coin}");
    }
    let config = test_config();
    assert_eq!(copy_daemon_config_for_coin(&config, "cash:USA500").hyperliquid.dex, "cash");
}

#[test]
fn the_market_scope_limits_openings() {
    let scope = vec!["xyz_perp".to_string()];
    assert!(copy_daemon_market_scope_allows_open(&scope, "xyz:GBP"));
    assert!(!copy_daemon_market_scope_allows_open(&scope, "BTC"));
}

#[test]
fn leverage_is_a_whole_number() {
    assert_eq!(copy_daemon_live_target_leverage().unwrap(), 10);
    assert_eq!(whole_leverage(usd(3.0)).unwrap(), 3);
    assert_eq!(
        whole_leverage(usd(0.5)).unwrap_err(),
        "copy max leverage must be a finite value >= 1"
    );
    assert_eq!(
        whole_leverage(usd(2.5)).unwrap_err(),
        "copy max leverage must be a whole-number exchange leverage"
    );
}

#[test]
fn texts_are_trimmed_and_compared() {
    assert_eq!(trim(" \t a b \u{3000}\n"), "a b");
    assert!(is_blank(" \u{a0} "));
    assert!(!is_blank("x"));
    assert_eq!(ascii_lower("AbC-\u{c4}"), "abc-\u{c4}");
    assert!(contains_text("copy submit skipped", "submit"));
    assert!(!contains_text("sub", "submit"));
    assert!(same_text_ignoring_case("TestNet", "testnet"));
    assert!(text_before("a", "ab") && text_before("B", "a") && !text_before("a", "a"));
    assert_eq!(join(&vec!["a".to_string(), "b".to_string()], "; "), "a; b");
}

#[test]
fn accounts_are_chosen_as_asked() {
    let config = test_config();
    assert_eq!(
        copy_execution_canary_target_accounts(&config, &vec!["addr_b".to_string()], Some("x")),
        vec!["addr_b".to_string()]
    );
    assert_eq!(
        copy_execution_canary_target_accounts(&config, &Vec::new(), Some("addr_b")),
        vec!["addr_b".to_string()]
    );
    assert_eq!(
        copy_execution_canary_target_accounts(&config, &Vec::new(), None),
        vec!["addr_a".to_string()]
    );
    assert_eq!(copy_daemon_max_signal_delay_ms(&config), 30_000);
}

#[test]
fn reconciliations_are_read_off_account_reports() {
    let report = AccountReconciliationReport {
        account_id: "addr_a".to_string(),
        open_order_count: 0,
        clearinghouse_state: ClearinghouseState {
            margin_summary: MarginSummary {
                account_value: "100.0".to_string(),
                total_ntl_pos: "0.0".to_string(),
                total_margin_used: "0.0".to_string(),
            },
            withdrawable: Some("100.0".to_string()),
            asset_positions: Vec::new(),
        },
    };
    let reconcile = copy_bounded_live_window_reconcile_from_report(&report);
    assert!(reconcile.ok);
    assert_eq!(reconcile.total_ntl_pos.as_deref(), Some("0.0"));
    let unreadable = unreadable_reconcile("addr_b", "timed out".to_string());
    assert!(!unreadable.ok);
    assert_eq!(unreadable.error.as_deref(), Some("timed out"));
    assert!(!copy_live_daemon_reconciliations_ready_for_reduce_only(&vec![unreadable]));
    assert_eq!(copy_live_daemon_local_side_from_position_szi("-0.5"), Some(OrderSide::Sell));
    assert_eq!(copy_live_daemon_local_side_from_position_szi("0.0"), None);
    assert_eq!(copy_live_daemon_local_side_from_position_szi("0.000000000001"), None);
    assert_eq!(
        copy_live_daemon_local_side_from_position_szi("0.0000000000010000001"),
        Some(OrderSide::Buy)
    );
    assert_eq!(
        copy_live_daemon_local_side_from_position_szi("-0.0000000000010000001"),
        Some(OrderSide::Sell)
    );
}

#[test]
fn an_account_is_flat_up_to_a_billionth() {
    let flat = |total_ntl_pos: &str, total_margin_used: &str| {
        copy_bounded_live_window_reconcile_from_report(&AccountReconciliationReport {
            account_id: "addr_a".to_string(),
            open_order_count: 0,
            clearinghouse_state: ClearinghouseState {
                margin_summary: MarginSummary {
                    account_value: "100.0".to_string(),
                    total_ntl_pos: total_ntl_pos.to_string(),
                    total_margin_used: total_margin_used.to_string(),
                },
                withdrawable: Some("100.0".to_string()),
                asset_positions: Vec::new(),
            },
        })
        .ok
    };
    assert!(flat("0.000000001", "-0.000000001"));
    assert!(!flat("0.0000000015", "0.0"));
    assert!(!flat("0.0", "-0.0000000015"));
    assert!(!flat("inf", "0.0"));
    assert!(!flat("n/a", "0.0"));
}

#[test]
fn a_market_scope_may_be_split_in_any_way() {
    let names = |raw: &[&str]| {
        copy_daemon_market_scope_names(&raw.iter().map(|s| s.to_string()).collect::<Vec<String>>())
    };
    let both = vec!["xyz_perp".to_string(), "hl_perp".to_string()];
    assert_eq!(names(&["xyz_perp,hl_perp"]), both);
    assert_eq!(names(&["xyz_perp ; hl_perp"]), both);
    assert_eq!(names(&["xyz_perp", "hl_perp"]), both);
    assert_eq!(names(&["xyz_perp", "", "hl_perp"]), both);
    assert_eq!(names(&[" ,;", "\u{ff0c}\u{ff1b}\t"]), names(&[]));
    assert!(names(&[]).is_empty());
}
