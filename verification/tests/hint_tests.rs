use std::collections::VecDeque;
use tui_service::app::{App, CommandStatus, CommandStatusView, InputMode, SettingsHealthFocus, SettingsSection};
use tui_service::config::TuiConfig;
use tui_service::focus::{FocusContext, SecondaryFocus, VisibleWorkspace};
use tui_service::hints::{command_cue, key_hints, loading_cues, mode_indicator};
use tui_service::input_views::ViewData;
use tui_service::chart_history::{history_from_saved, history_to_save};
use tui_service::order_rollup::order_status_rollup_line;
use tui_service::tab::Tab;
use tui_service::chrome_layout::operations_workspace_column_constraints;
use tui_service::colors::{mode_indicator_color, UiColor};
use tui_service::feedback::ToastLevel;
use tui_service::hints::layered_chrome_active_at;

fn make_app() -> App {
    App::new(TuiConfig::new_default())
}

fn data(scenarios_len: usize) -> ViewData {
    ViewData {
        filtered_orders_len: 0,
        alert_lines_len: 0,
        dashboard_symbols: Vec::new(),
        scenarios_len,
        chart_expiry_max_index: 0,
        positions_len: 0,
        yield_point_count: None,
        has_snapshot: false,
    }
}

fn has(hints: &[(String, String)], key: &str, label: &str) -> bool {
    hints.iter().any(|(k, l)| k == key && l == label)
}

#[test]
fn focus_context_reflects_tab_and_secondary_focus() {
    let mut app = make_app();
    app.active_tab = Tab::Settings;
    app.settings_section = SettingsSection::Health;
    app.settings_health_focus = SettingsHealthFocus::Services;
    let fc: FocusContext = app.focus_context();
    assert_eq!(fc.active_tab, Tab::Settings);
    assert_eq!(fc.input_mode, InputMode::Normal);
    assert_eq!(fc.secondary_focus, SecondaryFocus::SettingsHealth(SettingsHealthFocus::Services));
    assert_eq!(fc.visible_workspace, VisibleWorkspace::Single);
}

#[test]
fn visible_workspace_follows_the_panes_on_screen() {
    let mut app = make_app();
    app.visible_workspace_tabs = vec![Tab::Dashboard, Tab::Positions, Tab::Orders, Tab::Yield];
    assert_eq!(app.visible_workspace(), VisibleWorkspace::Market);
    app.visible_workspace_tabs = vec![Tab::Loans, Tab::DiscountBank];
    assert_eq!(app.visible_workspace(), VisibleWorkspace::Credit);
    app.visible_workspace_tabs = vec![Tab::Alerts, Tab::Logs, Tab::Settings];
    assert_eq!(app.visible_workspace(), VisibleWorkspace::Operations);
}

#[test]
fn settings_hint_bar_shows_secondary_focus_label() {
    let mut app = make_app();
    app.active_tab = Tab::Settings;
    app.settings_section = SettingsSection::Health;
    app.settings_health_focus = SettingsHealthFocus::Transport;
    let hints = key_hints(&app, &data(0));
    assert!(has(&hints, "focus", "Transport"));
    assert!(has(&hints, "e", "edit"));
}

#[test]
fn hint_bar_renders_async_status_cues() {
    let mut app = make_app();
    app.active_tab = Tab::Yield;
    app.yield_refresh_pending = true;
    app.loans_fetch_pending = true;
    assert_eq!(loading_cues(&app), vec!["Yield:loading", "Loans:loading"]);
    app.loans_fetch_pending = false;
    app.loans_list = Some(Err("timeout".into()));
    assert_eq!(loading_cues(&app), vec!["Yield:loading", "Loans:timeout"]);
}

#[test]
fn hint_bar_starts_with_global_keys_and_pane_hints() {
    let mut app = make_app();
    app.active_tab = Tab::Yield;
    let hints = key_hints(&app, &data(0));
    assert_eq!(hints[0], ("q".to_string(), "quit".to_string()));
    assert_eq!(hints[4], ("M".to_string(), "read-only".to_string()));
    assert_eq!(hints[5], ("←/→".to_string(), "Yield symbol".to_string()));
    assert!(has(&hints, "p", "split pane"));
}

#[test]
fn scenarios_hints_warn_when_filters_leave_nothing() {
    let mut app = make_app();
    app.active_tab = Tab::Scenarios;
    assert!(has(&key_hints(&app, &data(0)), "", "No results — ] widen DTE or w clear width filter"));
    assert!(!has(&key_hints(&app, &data(3)), "", "No results — ] widen DTE or w clear width filter"));
    assert!(has(&key_hints(&app, &data(3)), "", "Exploration mode"));
}

#[test]
fn orders_hint_shows_active_filter() {
    let mut app = make_app();
    app.active_tab = Tab::Orders;
    app.order_filter_active = true;
    assert!(has(&key_hints(&app, &data(0)), "/", "filter active"));
}

#[test]
fn mode_indicator_names_the_edited_key() {
    let mut app = make_app();
    assert_eq!(mode_indicator(&app), None);
    app.settings_edit_config_key = Some("NATS_URL".into());
    app.settings_add_symbol_input = Some(String::new());
    assert_eq!(mode_indicator(&app), Some("SETTINGS:EDIT NATS_URL".to_string()));
    app.settings_edit_config_key = None;
    assert_eq!(mode_indicator(&app), Some("SETTINGS:ADD SYMBOL".to_string()));
}

#[test]
fn command_cue_shows_status_and_message() {
    let mut app = make_app();
    assert_eq!(command_cue(&app), None);
    app.last_command_status = Some(CommandStatusView::success("settings", "Edit cancelled."));
    assert_eq!(
        command_cue(&app),
        Some(("settings:completed".to_string(), Some("Edit cancelled.".to_string())))
    );
}

use tui_service::action::Action;
use tui_service::mouse::{handle_mouse_click, handle_mouse_event, market_workspace_tab_at_point, Area, MouseKind};

fn screen(width: u16, height: u16) -> Area {
    Area { x: 0, y: 0, width, height }
}

#[test]
fn market_workspace_panes_under_the_cursor() {
    let area = screen(190, 32);
    assert_eq!(market_workspace_tab_at_point(5, 6, area), Some(Tab::Dashboard));
    assert_eq!(market_workspace_tab_at_point(150, 6, area), Some(Tab::Positions));
    assert_eq!(market_workspace_tab_at_point(10, 25, area), Some(Tab::Orders));
    assert_eq!(market_workspace_tab_at_point(180, 28, area), Some(Tab::Yield));
    assert_eq!(market_workspace_tab_at_point(5, 0, area), None);
}

#[test]
fn market_workspace_mouse_scroll_targets_pane_under_cursor() {
    let mut app = make_app();
    app.visible_workspace_tabs = vec![Tab::Dashboard, Tab::Positions, Tab::Orders, Tab::Yield];
    app.active_tab = Tab::Yield;
    let action = handle_mouse_event(&app, MouseKind::ScrollDown, 5, 6, screen(190, 32)).expect("expected action");
    assert_eq!(action, Action::MouseScrollDownIn(Tab::Dashboard));

    let mut d = data(0);
    d.has_snapshot = true;
    d.dashboard_symbols = vec!["AAA".into(), "BBB".into(), "CCC".into()];
    let before = app.dashboard_table.selected();
    let mut effects = Vec::new();
    app.handle_action(action, &d, &mut effects);
    let after = app.dashboard_table.selected();
    assert!(after > before, "expected dashboard selection to advance (before={before}, after={after})");
    assert_eq!(app.active_tab, Tab::Yield, "mouse wheel should not steal focus from the active tab");
}

#[test]
fn mouse_wheel_outside_a_workspace_scrolls_the_active_pane() {
    let app = make_app();
    assert_eq!(handle_mouse_event(&app, MouseKind::ScrollUp, 5, 6, screen(120, 24)), Some(Action::MouseScrollUp));
    assert_eq!(handle_mouse_event(&app, MouseKind::Other, 5, 6, screen(120, 24)), None);
}

#[test]
fn mouse_click_on_tab_bar_jumps_to_tab() {
    let app = make_app();
    assert_eq!(handle_mouse_click(&app, 31, 0, screen(120, 24)), Some(Action::JumpToTab(4)));
    assert_eq!(handle_mouse_click(&app, 75, 1, screen(120, 24)), Some(Action::JumpToTab(9)));
    assert_eq!(handle_mouse_click(&app, 9, 1, screen(120, 24)), Some(Action::JumpToTab(1)));
    assert_eq!(handle_mouse_click(&app, 10, 0, screen(120, 24)), None);
    assert_eq!(handle_mouse_click(&app, 85, 0, screen(120, 24)), None);
    assert_eq!(handle_mouse_click(&app, 130, 0, screen(120, 24)), None);
}

#[test]
fn mouse_click_in_content_opens_selection() {
    let mut app = make_app();
    app.active_tab = Tab::Positions;
    assert_eq!(handle_mouse_click(&app, 10, 10, screen(120, 24)), Some(Action::PositionsDetail));
    app.active_tab = Tab::Yield;
    assert_eq!(handle_mouse_click(&app, 10, 10, screen(120, 24)), None);
    app.active_tab = Tab::Orders;
    assert_eq!(handle_mouse_click(&app, 10, 23, screen(120, 24)), None);
}

use tui_service::views::{alerts_view, orders_filter_caption, search_results};

#[test]
fn chart_search_matches_known_symbols_in_order() {
    let none: VecDeque<String> = VecDeque::new();
    assert_eq!(
        search_results("SP", &none),
        vec!["SPX", "SPY", "SPXW", "SPY241220C600", "XSP", "XSP241220C500"]
    );
    assert_eq!(search_results("A", &none), vec!["AAPL", "AMZN", "TSLA", "META", "NVDA", "AMD", "BAC"]);
    assert!(search_results("ZZZ", &none).is_empty());
}

#[test]
fn chart_search_empty_query_offers_recent_history() {
    let history: VecDeque<String> = ["A", "B", "C", "D", "E", "F", "G"].iter().map(|s| s.to_string()).collect();
    assert_eq!(search_results("", &history), vec!["A", "B", "C", "D", "E"]);
    let short: VecDeque<String> = history.iter().take(2).cloned().collect();
    assert_eq!(search_results("", &short), vec!["A", "B"]);
}

#[test]
fn chart_search_update_is_debounced_and_uppercases() {
    let mut app = make_app();
    app.chart_search_input = "msf".into();
    app.chart_search_selected = 3;
    app.update_search_results(100);
    assert!(app.chart_search_results.is_empty());
    assert_eq!(app.chart_search_selected, 3);
    app.update_search_results(400);
    assert_eq!(app.chart_search_results, vec!["MSFT"]);
    assert_eq!(app.chart_search_selected, 0);
    assert_eq!(app.chart_search_last_search_ms, 400);
}

#[test]
fn orders_filter_caption_reflects_filter_state() {
    let mut app = make_app();
    assert_eq!(orders_filter_caption(&app), "Filter: / to activate");
    app.order_filter_active = true;
    assert_eq!(orders_filter_caption(&app), "Filter mode: type symbol, status, or side; Esc clear; / exits when empty");
    app.order_filter = "SPY".into();
    assert_eq!(
        orders_filter_caption(&app),
        "Filter [ACTIVE]: SPY (symbol/status/side substring; Esc clear; / exits when empty)"
    );
}

#[test]
fn alerts_view_scrolls_only_when_lines_overflow() {
    assert_eq!(alerts_view(5, 10, 3), ("Alerts (5)".to_string(), 0));
    assert_eq!(alerts_view(20, 10, 15), ("Alerts (13/20)  [↑↓ PgUp/PgDn]:scroll".to_string(), 12));
    assert_eq!(alerts_view(20, 10, 4), ("Alerts (5/20)  [↑↓ PgUp/PgDn]:scroll".to_string(), 4));
    assert_eq!(alerts_view(3, 1, 9), ("Alerts (3/3)  [↑↓ PgUp/PgDn]:scroll".to_string(), 2));
}

use tui_service::orders::OrderRow;

fn order(id: &str, symbol: &str, side: &str, status: &str, at: i64) -> OrderRow {
    OrderRow {
        id: id.into(),
        symbol: symbol.into(),
        side: side.into(),
        quantity: 1,
        status: status.into(),
        submitted_at_ms: at,
    }
}

#[test]
fn filtered_orders_match_case_insensitively_newest_first() {
    let orders = vec![
        order("1", "SPY", "BUY", "Submitted", 10),
        order("2", "QQQ", "SELL", "Filled", 30),
        order("3", "spy", "SELL", "Cancelled", 20),
    ];
    let mut app = make_app();
    let all = app.filtered_orders(&orders);
    let ids: Vec<&str> = all.iter().map(|o| o.id.as_str()).collect();
    assert_eq!(ids, vec!["2", "3", "1"]);

    app.order_filter = "Spy".into();
    let spy = app.filtered_orders(&orders);
    let ids: Vec<&str> = spy.iter().map(|o| o.id.as_str()).collect();
    assert_eq!(ids, vec!["3", "1"]);
    assert_eq!(app.filtered_orders_len(&orders), 2);

    app.order_filter = "sell".into();
    assert_eq!(app.filtered_orders_len(&orders), 2);
    app.order_filter = "fill".into();
    assert_eq!(app.filtered_orders_len(&orders), 1);
    app.order_filter = "xyz".into();
    assert_eq!(app.filtered_orders_len(&orders), 0);
}

use tui_service::sources::{pick_live_source, SourceSample, LIVE_SOURCE_TTL_SECS};

fn sample(source: &str, priority: u32, age_secs: u64) -> SourceSample {
    SourceSample { source: source.into(), priority, age_secs }
}

#[test]
fn live_source_prefers_real_providers_then_priority_then_age() {
    let samples = vec![sample("mock", 100, 1), sample("polygon", 5, 2), sample("ib", 5, 1), sample("stale", 9, 10)];
    assert_eq!(pick_live_source(&samples, None, LIVE_SOURCE_TTL_SECS), Some(2));
    let tie = vec![sample("zeta", 5, 1), sample("alpha", 5, 1)];
    assert_eq!(pick_live_source(&tie, None, LIVE_SOURCE_TTL_SECS), Some(1));
}

#[test]
fn live_source_falls_back_to_mock_when_nothing_else_is_live() {
    let samples = vec![sample("mock", 1, 0), sample("ib", 9, 30)];
    assert_eq!(pick_live_source(&samples, Some("MOCK"), LIVE_SOURCE_TTL_SECS), Some(0));
    assert_eq!(pick_live_source(&samples, Some("Polygon"), LIVE_SOURCE_TTL_SECS), Some(0));
    let stale = vec![sample("ib", 9, 30)];
    assert_eq!(pick_live_source(&stale, None, LIVE_SOURCE_TTL_SECS), None);
}

use tui_service::events::ConnectionState;
use tui_service::status::{status_segments, transport_badge, SnapshotStatus};

#[test]
fn status_bar_without_snapshot() {
    let app = make_app();
    let segs = status_segments(&app, None, Some(false), ConnectionState::Starting, "ok", false);
    assert_eq!(segs, vec!["IB", "NAV", "---", "---", "READ-ONLY", "[NO DATA]", "MKT:CLOSED", "NATS:START", "T:OK"]);
}

#[test]
fn status_bar_with_snapshot_and_split_pane() {
    let mut app = make_app();
    app.split_pane = true;
    let snap = SnapshotStatus {
        mode: "LIVE".into(),
        strategy: "RUNNING".into(),
        market_data_source: Some("polygon".into()),
        account_id: " DU123 ".into(),
        tws_address: None,
        age_secs: 125,
        stale: true,
    };
    let segs = status_segments(&app, Some(&snap), None, ConnectionState::Connected, "degraded", true);
    assert_eq!(
        segs,
        vec![
            "IB", "NAV", "LIVE", "RUNNING", "READ-ONLY", "Account: DU123", "PANE:DASH+POS", "[POLYGON]", "[STALE]",
            "Updated 2m ago", "NATS:UP", "T:WARN*"
        ]
    );
}

#[test]
fn transport_badges() {
    assert_eq!(transport_badge("error", false), "T:DOWN");
    assert_eq!(transport_badge("disabled", true), "T:DOWN*");
    assert_eq!(transport_badge("weird", false), "T:—");
}

use tui_service::views::expiry_labels;

#[test]
fn expiry_pills_sorted_distinct_and_labelled() {
    let pills = expiry_labels(&vec![90, 30, 200, 30, 45, 120]);
    let expected: Vec<(i32, String)> = vec![
        (30, "30D".to_string()),
        (45, "60D".to_string()),
        (90, "90D".to_string()),
        (120, "6M".to_string()),
        (200, "200D".to_string()),
    ];
    assert_eq!(pills, expected);
    assert!(expiry_labels(&vec![]).is_empty());
}

#[test]
fn focus_label_prefers_nested_settings_focus() {
    let mut app = make_app();
    app.active_tab = Tab::Orders;
    assert_eq!(app.focus_label(), Tab::Orders.title());
    app.active_tab = Tab::Settings;
    app.settings_section = SettingsSection::Symbols;
    assert_eq!(app.focus_label(), "Symbols");
    app.settings_section = SettingsSection::Health;
    app.settings_health_focus = SettingsHealthFocus::Services;
    assert_eq!(app.focus_label(), "Services");
}

#[test]
fn order_rollup_counts_each_status_in_ascending_order() {
    let orders = vec![
        order("1", "SPX", "BUY", "OPEN", 1),
        order("2", "SPX", "BUY", "FILLED", 2),
        order("3", "SPX", "SELL", "OPEN", 3),
        order("4", "SPX", "BUY", "CANCELLED", 4),
    ];
    assert_eq!(
        order_status_rollup_line(&orders),
        Some("By status: CANCELLED:1  FILLED:1  OPEN:2".to_string())
    );
}

#[test]
fn order_rollup_is_absent_without_orders() {
    assert_eq!(order_status_rollup_line(&Vec::new()), None);
    assert_eq!(order_status_rollup_line(&vec![order("1", "SPX", "BUY", "OPEN", 1)]), Some("By status: OPEN:1".to_string()));
}

#[test]
fn saved_history_is_cleaned_on_load() {
    let saved: Vec<String> = vec![" SPY ", "", "QQQ", "SPY", "  ", "IWM"].into_iter().map(String::from).collect();
    assert_eq!(history_from_saved(&saved), vec!["SPY", "QQQ", "IWM"]);
}

#[test]
fn saved_history_keeps_only_the_first_ten_entries() {
    let saved: Vec<String> = (0..12).map(|i| format!("S{i}")).collect();
    let loaded = history_from_saved(&saved);
    assert_eq!(loaded.len(), 10);
    assert_eq!(loaded[9], "S9");
    let all: VecDeque<String> = saved.iter().cloned().collect();
    assert_eq!(history_to_save(&all).len(), 10);
    let clean: VecDeque<String> = vec!["SPY".to_string(), "QQQ".to_string()].into_iter().collect();
    assert_eq!(history_from_saved(&history_to_save(&clean)), clean);
}

#[test]
fn connection_and_command_colours() {
    assert_eq!(ConnectionState::Connected.color(), UiColor::Green);
    assert_eq!(ConnectionState::Starting.color(), UiColor::Blue);
    assert_eq!(ConnectionState::Retrying.color(), UiColor::Red);
    assert_eq!(CommandStatus::Accepted.color(), UiColor::Blue);
    assert_eq!(CommandStatus::Completed.color(), UiColor::Green);
    assert_eq!(CommandStatus::Failed.color(), UiColor::Red);
    assert_eq!(mode_indicator_color(InputMode::ChartSearch), UiColor::Cyan);
    assert_eq!(mode_indicator_color(InputMode::OrdersFilter), UiColor::Yellow);
}

#[test]
fn operations_columns_widen_the_left_column_on_wide_bodies() {
    assert_eq!(operations_workspace_column_constraints(100), (22, 78));
    assert_eq!(operations_workspace_column_constraints(118), (32, 68));
    assert_eq!(operations_workspace_column_constraints(200), (40, 60));
}

#[test]
fn layered_chrome_follows_overlays_and_toasts() {
    let mut app = make_app();
    assert!(!layered_chrome_active_at(&app, 0));
    app.show_help = true;
    assert!(layered_chrome_active_at(&app, 0));
    app.show_help = false;
    app.toast_manager.push_at("hello", ToastLevel::Info, 1_000);
    assert!(layered_chrome_active_at(&app, 1_500));
    assert!(!layered_chrome_active_at(&app, 1_000_000));
}

#[test]
fn orders_at_the_same_time_keep_their_input_order() {
    let app = make_app();
    let orders = vec![
        order("a", "SPX", "BUY", "OPEN", 5),
        order("b", "SPX", "BUY", "OPEN", 9),
        order("c", "SPX", "BUY", "OPEN", 5),
        order("d", "SPX", "BUY", "OPEN", 9),
    ];
    let ids: Vec<String> = app.filtered_orders(&orders).into_iter().map(|o| o.id).collect();
    assert_eq!(ids, vec!["b", "d", "a", "c"]);
}

#[test]
fn toast_expiry_saturates_at_the_end_of_the_clock() {
    let mut app = make_app();
    app.toast_manager.push_at("late", ToastLevel::Error, u64::MAX - 10);
    assert_eq!(app.toast_manager.active_count_at(u64::MAX - 1), 1);
}
