use chrono::Datelike;
use tui_service::app::{App, RefreshTaskStatus};
use tui_service::app_config::{merge_config_overrides, ConfigOverrides};
use tui_service::config::{
    EnvOverrides, SharedBrokerConfig, SharedConfigFile, SharedDataSources, SharedStrategyConfig,
    SharedTuiConfig, SharedTwsConfig, TuiConfig,
};
use tui_service::input::cycle_index;
use tui_service::labels::LevelFilter;
use tui_service::parse::{format_u64, parse_u64};
use tui_service::tab::Tab;
use tui_service::updates::join_commas;

fn empty_shared() -> SharedConfigFile {
    SharedConfigFile {
        data_sources: SharedDataSources { primary: None },
        tui: SharedTuiConfig {
            provider_type: None,
            update_interval_ms: None,
            refresh_rate_ms: None,
            rest_endpoint: None,
            api_base_url: None,
            rest_fallback: None,
        },
        tws: SharedTwsConfig { nats_url: None },
        strategy: SharedStrategyConfig { symbols: None },
        broker: SharedBrokerConfig { primary: None },
    }
}

fn no_env() -> EnvOverrides {
    EnvOverrides {
        nats_url: None,
        backend_id: None,
        rest_url: None,
        watchlist: None,
        tick_ms: None,
        rest_poll_ms: None,
        rest_fallback: None,
        snapshot_ttl_secs: None,
        split_pane: None,
    }
}

fn from_shared(shared: &SharedConfigFile) -> TuiConfig {
    let mut config = TuiConfig::new_default();
    config.apply_shared_config(shared);
    config
}

#[test]
fn shared_config_maps_nats_primary_and_rest_fallback() {
    let mut shared = empty_shared();
    shared.data_sources.primary = Some("ib".into());
    shared.tws.nats_url = Some("nats://shared:4222".into());
    shared.strategy.symbols = Some(vec!["spx".into(), "xsp".into()]);
    shared.tui.provider_type = Some("rest".into());
    shared.tui.api_base_url = Some("http://shared:8080".into());
    shared.tui.refresh_rate_ms = Some(125);
    shared.tui.update_interval_ms = Some(1400);
    let config = from_shared(&shared);

    assert_eq!(config.backend_id, "ib");
    assert_eq!(config.nats_url, "nats://shared:4222");
    assert_eq!(config.rest_url, "http://shared:8080");
    assert_eq!(config.watchlist, vec!["SPX", "XSP"]);
    assert_eq!(config.tick_ms, 125);
    assert_eq!(config.rest_poll_ms, 1400);
    assert!(config.rest_fallback);
}

#[test]
fn shared_config_nats_provider_disables_rest_fallback_and_normalizes_endpoint() {
    let mut shared = empty_shared();
    shared.broker.primary = Some("IB".into());
    shared.tui.provider_type = Some("nats".into());
    shared.tui.rest_endpoint = Some("http://localhost:8080/api/v1/snapshot".into());
    let config = from_shared(&shared);

    assert_eq!(config.backend_id, "ib");
    assert_eq!(config.rest_url, "http://localhost:8080");
    assert!(!config.rest_fallback);
}

#[test]
fn load_applies_env_over_shared_config() {
    let mut shared = empty_shared();
    shared.tws.nats_url = Some("nats://shared:4222".into());
    let mut env = no_env();
    env.nats_url = Some(" nats://env:4222 ".into());
    env.watchlist = Some("aapl, msft,,".into());
    env.tick_ms = Some("0".into());
    let config = TuiConfig::load(Some(&shared), &env);
    assert_eq!(config.nats_url, "nats://env:4222");
    assert_eq!(config.watchlist, vec!["AAPL", "MSFT"]);
    assert_eq!(config.tick_ms, 1);
}

#[test]
fn load_without_anything_gives_defaults() {
    let config = TuiConfig::load(None, &no_env());
    let default = TuiConfig::new_default();
    assert_eq!(config.nats_url, default.nats_url);
    assert_eq!(config.watchlist, vec!["SPX", "XSP", "NDX"]);
}

#[test]
fn config_hot_reload_updates_app_config() {
    let mut app = App::new(TuiConfig::new_default());
    let mut new_config = TuiConfig::new_default();
    new_config.watchlist = vec!["TSLA".into()];
    app.config_reloaded(new_config);
    assert_eq!(app.config.watchlist, vec!["TSLA"]);
}

#[test]
fn config_reload_keeps_overrides_on_top() {
    let mut app = App::new(TuiConfig::new_default());
    app.config_overrides.insert("TICK_MS", "500");
    let mut new_config = TuiConfig::new_default();
    new_config.tick_ms = 42;
    app.config_reloaded(new_config);
    assert_eq!(app.base_config.tick_ms, 42);
    assert_eq!(app.config.tick_ms, 500);
}

#[test]
fn merging_no_overrides_keeps_the_config() {
    let base = TuiConfig::new_default();
    let merged = merge_config_overrides(base.clone(), &ConfigOverrides::new());
    assert_eq!(merged.nats_url, base.nats_url);
    assert_eq!(merged.tick_ms, base.tick_ms);
    assert_eq!(merged.watchlist, base.watchlist);
}

#[test]
fn nats_override_is_trimmed_into_config() {
    let mut o = ConfigOverrides::new();
    o.insert("NATS_URL", "  nats://other:1 ");
    let merged = merge_config_overrides(TuiConfig::new_default(), &o);
    assert_eq!(merged.nats_url, "nats://other:1");
}

#[test]
fn yield_refresh_tasks_newest_first_and_capped() {
    let mut app = App::new(TuiConfig::new_default());
    for i in 0..10 {
        app.yield_refresh_sent(true, 1000 + i);
    }
    assert!(app.yield_refresh_pending);
    assert_eq!(app.yield_tasks.len(), 8);
    assert_eq!(app.yield_tasks[0].id, 10);
    assert_eq!(app.yield_tasks[0].label, "Yield refresh SPX,XSP,NDX");
    assert_eq!(app.yield_tasks[0].triggered_at_ms, 1009);
    assert_eq!(app.yield_tasks[7].id, 3);

    let before = app.yield_tasks.len();
    app.yield_refresh_sent(false, 2000);
    assert_eq!(app.yield_tasks.len(), before);
}

#[test]
fn yield_curve_closes_oldest_pending_task_first() {
    let mut app = App::new(TuiConfig::new_default());
    app.yield_refresh_sent(true, 1);
    app.yield_refresh_sent(true, 2);
    app.yield_curve_arrived(5);
    assert!(!app.yield_refresh_pending);
    assert_eq!(app.yield_tasks[0].status, RefreshTaskStatus::Done);
    assert_eq!(app.yield_tasks[0].completed_at_ms, Some(5));
    assert_eq!(app.yield_tasks[1].status, RefreshTaskStatus::Pending);
}

#[test]
fn rejected_refresh_marks_task_error() {
    let mut app = App::new(TuiConfig::new_default());
    app.yield_refresh_sent(true, 1);
    app.yield_refresh_ack(true, 3);
    assert!(app.yield_refresh_pending);
    app.yield_refresh_ack(false, 4);
    assert!(!app.yield_refresh_pending);
    assert_eq!(app.yield_tasks[0].status, RefreshTaskStatus::Error("backend rejected refresh".to_string()));
    assert_eq!(app.yield_tasks[0].completed_at_ms, Some(4));
}

#[test]
fn join_commas_joins_in_order() {
    assert_eq!(join_commas(&vec![]), "");
    assert_eq!(join_commas(&vec!["A".to_string()]), "A");
    assert_eq!(join_commas(&vec!["A".to_string(), "B".to_string(), "C".to_string()]), "A,B,C");
}

#[test]
fn cycle_index_steps_and_wraps() {
    assert_eq!(cycle_index(0, 3, true), 1);
    assert_eq!(cycle_index(2, 3, true), 0);
    assert_eq!(cycle_index(0, 3, false), 2);
    assert_eq!(cycle_index(7, 3, true), 2);
    for k in 0..5 {
        assert_eq!(cycle_index(cycle_index(k, 5, true), 5, false), k);
        assert_eq!(cycle_index(cycle_index(k, 5, false), 5, true), k);
    }
}

#[test]
fn format_then_parse_gives_the_number_back() {
    for n in [0u64, 7, 10, 12345, u64::MAX] {
        assert_eq!(parse_u64(&format_u64(n)), Some(n));
    }
    assert_eq!(format_u64(1400), "1400");
}

#[test]
fn tab_next_then_prev_returns() {
    for t in [Tab::Dashboard, Tab::Positions, Tab::Alerts, Tab::Settings, Tab::Scenarios] {
        assert_eq!(t.next().prev(), t);
    }
    assert_eq!(Tab::Logs.next(), Tab::Yield);
    assert_eq!(Tab::Settings.next(), Tab::Dashboard);
}

#[test]
fn level_up_then_down_returns() {
    assert_eq!(LevelFilter::Info.up().down(), LevelFilter::Info);
    assert_eq!(LevelFilter::Warn.down().up(), LevelFilter::Warn);
}

use tui_service::market_hours::{nth_weekday_of_month, ny_utc_offset_hours, nyse_session_open};

#[test]
fn new_york_offset_follows_daylight_saving_boundaries() {
    assert_eq!(ny_utc_offset_hours(2024, 3, 9), Some(-5));
    assert_eq!(ny_utc_offset_hours(2024, 3, 10), Some(-4));
    assert_eq!(ny_utc_offset_hours(2024, 7, 4), Some(-4));
    assert_eq!(ny_utc_offset_hours(2024, 11, 2), Some(-4));
    assert_eq!(ny_utc_offset_hours(2024, 11, 3), Some(-5));
    assert_eq!(ny_utc_offset_hours(2024, 1, 15), Some(-5));
}

#[test]
fn nth_weekday_uses_the_calendar() {
    assert_eq!(nth_weekday_of_month(2024, 3, 6, 2), Some(10));
    assert_eq!(nth_weekday_of_month(2024, 11, 6, 1), Some(3));
    assert_eq!(nth_weekday_of_month(2024, 2, 3, 5), Some(29));
    assert_eq!(nth_weekday_of_month(2023, 2, 3, 5), None);
    assert_eq!(nth_weekday_of_month(2024, 13, 0, 1), None);
}

#[test]
fn nyse_session_hours() {
    assert!(nyse_session_open(0, 9, 30));
    assert!(nyse_session_open(4, 15, 59));
    assert!(!nyse_session_open(4, 16, 0));
    assert!(!nyse_session_open(0, 9, 29));
    assert!(!nyse_session_open(5, 10, 0));
    assert!(!nyse_session_open(6, 12, 0));
}

use tui_service::updates::LoansOutcome;

fn latest_toast(app: &App) -> Option<String> {
    app.toast_manager.latest_active_toast().map(|t| t.message.clone())
}

#[test]
fn loans_outcome_keeps_list_and_clears_pending() {
    let mut app = App::new(TuiConfig::new_default());
    app.loans_fetch_pending = true;
    app.apply_loans_outcome(LoansOutcome::Plain(Ok(3)));
    assert!(!app.loans_fetch_pending);
    assert_eq!(app.loans_list, Some(Ok(3)));
    assert!(app.dirty_flags.content_dirty());
    assert_eq!(latest_toast(&app), None);
}

#[test]
fn failed_refresh_during_bulk_import_is_reported() {
    let mut app = App::new(TuiConfig::new_default());
    app.loans_bulk_import_inflight = true;
    app.apply_loans_outcome(LoansOutcome::Plain(Err("boom".into())));
    assert!(!app.loans_bulk_import_inflight);
    assert_eq!(latest_toast(&app), Some("Bulk import failed: boom".to_string()));
    assert_eq!(app.loans_list, Some(Err("boom".to_string())));
}

#[test]
fn bulk_import_summary_toasts() {
    let mut app = App::new(TuiConfig::new_default());
    app.apply_loans_outcome(LoansOutcome::BulkSuccess { applied: 2, skipped: 0, list: Ok(5) });
    assert_eq!(latest_toast(&app), Some("Bulk import: applied 2 loan(s).".to_string()));
    app.apply_loans_outcome(LoansOutcome::BulkSuccess { applied: 2, skipped: 1, list: Err("x".into()) });
    assert_eq!(latest_toast(&app), Some("Loan list refresh failed: x".to_string()));
    let messages: Vec<String> = app.toast_manager.active_toasts().iter().map(|t| t.message.clone()).collect();
    assert!(messages.contains(&"Bulk import: applied 2 loan(s); 1 row(s) skipped.".to_string()));
}

use tui_service::events::{ConnectionState, ConnectionStatus, ConnectionTarget};

#[test]
fn app_updates_connection_status() {
    let mut app = App::new(TuiConfig::new_default());
    assert_eq!(app.nats_status.state, ConnectionState::Starting);
    assert_eq!(app.nats_status.detail, "Connecting to NATS");
    app.apply_connection(ConnectionTarget::Nats, ConnectionStatus::new(ConnectionState::Connected, "ok"));
    assert_eq!(app.nats_status.state, ConnectionState::Connected);
    assert_eq!(app.nats_status.detail, "ok");
}

#[test]
fn market_session_check_counts_ticks() {
    let mut app = App::new(TuiConfig::new_default());
    assert!(app.market_check_due());
    assert_eq!(app.market_open_tick, 0);
    app.market_open_tick = 5;
    assert!(!app.market_check_due());
    assert_eq!(app.market_open_tick, 6);
    app.market_open_tick = 239;
    assert!(app.market_check_due());
    assert_eq!(app.market_open_tick, 0);
    app.market_open_tick = u32::MAX;
    assert!(app.market_check_due());
}

#[test]
fn settings_config_rows_list_nine_keys() {
    let c = TuiConfig::new_default();
    let keys: Vec<String> = (0..9)
        .map(|i| tui_service::app_config::config_key_value_at(&c, i).expect("row").0)
        .collect();
    assert_eq!(
        keys,
        vec![
            "NATS_URL",
            "BACKEND_ID",
            "TICK_MS",
            "SNAPSHOT_TTL_SECS",
            "SPLIT_PANE",
            "BENCHMARKS_REFRESH_SECS",
            "NATS_KV_BUCKET",
            "TUI_POSITIONS_SORT",
            "TUI_THEME"
        ]
    );
    assert!(tui_service::app_config::config_key_value_at(&c, 9).is_none());
    assert_eq!(tui_service::app_config::config_key_count(&c), 9);
    assert_eq!(
        tui_service::app_config::config_key_value_at(&c, 2),
        Some(("TICK_MS".to_string(), c.tick_ms.to_string()))
    );
}

#[test]
fn overrides_cover_benchmarks_bucket_sort_and_theme() {
    let mut ov = ConfigOverrides::new();
    ov.insert("BENCHMARKS_REFRESH_SECS", " 10 ");
    ov.insert("NATS_KV_BUCKET", "  curves ");
    ov.insert("TUI_POSITIONS_SORT", "Symbol");
    ov.insert("TUI_THEME", "high_contrast");
    let c = merge_config_overrides(TuiConfig::new_default(), &ov);
    assert_eq!(c.benchmarks_refresh_secs, 60);
    assert_eq!(c.yield_kv_bucket, "curves");
    assert_eq!(c.positions_sort, tui_service::config::PositionsSortMode::Symbol);
    assert_eq!(c.theme, tui_service::config::TuiTheme::HighContrast);
    let mut ov2 = ConfigOverrides::new();
    ov2.insert("BENCHMARKS_REFRESH_SECS", "900");
    ov2.insert("NATS_KV_BUCKET", "   ");
    ov2.insert("TUI_THEME", "neon");
    let d = merge_config_overrides(TuiConfig::new_default(), &ov2);
    assert_eq!(d.benchmarks_refresh_secs, 900);
    assert_eq!(d.yield_kv_bucket, TuiConfig::new_default().yield_kv_bucket);
    assert_eq!(d.theme, tui_service::config::TuiTheme::Default);
}

#[test]
fn alerts_keep_the_newest_thirty_two() {
    let mut alerts: Vec<u32> = (0..32).collect();
    tui_service::updates::push_alert(&mut alerts, 32);
    assert_eq!(alerts.len(), 32);
    assert_eq!(alerts[0], 1);
    assert_eq!(alerts[31], 32);
    let mut few = vec![1u32, 2];
    tui_service::updates::push_alert(&mut few, 3);
    assert_eq!(few, vec![1, 2, 3]);
}

#[test]
fn nth_weekday_agrees_with_chrono_calendar() {
    for y in [-4, 0, 1, 1582, 1900, 1970, 2000, 2023, 2024, 2100, 9999] {
        for m in 1u32..=12 {
            let first = chrono::NaiveDate::from_ymd_opt(y, m, 1).unwrap().weekday().num_days_from_monday();
            for wd in 0u32..7 {
                for n in 1u32..=5 {
                    let day = 1 + (7 + wd - first) % 7 + (n - 1) * 7;
                    let expected = chrono::NaiveDate::from_ymd_opt(y, m, day).map(|_| day);
                    assert_eq!(nth_weekday_of_month(y, m, wd, n), expected, "{y}-{m} wd {wd} n {n}");
                }
            }
        }
    }
}
