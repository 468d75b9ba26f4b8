use tui_service::field_list_focus::FieldListRegion;
use tui_service::action::Action;
use tui_service::app::{App, CredentialKey, Effect, InputMode, SettingsHealthFocus, SettingsSection};
use tui_service::app_config::config_key_count;
use tui_service::config::TuiConfig;
use tui_service::input::apply_action;
use tui_service::input_loans::loan_form_key_action;
use tui_service::input_router::key_to_action;
use tui_service::input_shell::workspace_focus_target;
use tui_service::input_views::ViewData;
use tui_service::keys::{KeyCode, KeyEvent, KeyModifiers};
use tui_service::mode::AppMode;
use tui_service::tab::Tab;

fn make_app() -> App {
    App::new(TuiConfig::new_default())
}

fn no_data() -> ViewData {
    ViewData {
        filtered_orders_len: 0,
        alert_lines_len: 0,
        dashboard_symbols: Vec::new(),
        scenarios_len: 0,
        chart_expiry_max_index: 0,
        positions_len: 0,
        yield_point_count: None,
        has_snapshot: false,
    }
}

fn press(app: &mut App, code: KeyCode) -> Vec<Effect> {
    let mut effects = Vec::new();
    app.handle_key(KeyEvent::press(code), &no_data(), &mut effects);
    effects
}

fn press_with(app: &mut App, code: KeyCode, modifiers: KeyModifiers) -> Vec<Effect> {
    let mut effects = Vec::new();
    app.handle_key(KeyEvent::with_modifiers(code, modifiers), &no_data(), &mut effects);
    effects
}

fn cmd() -> KeyModifiers {
    KeyModifiers { shift: false, control: false, alt: false, super_key: true }
}

#[test]
fn input_mode_prefers_settings_edit_over_base_flags() {
    let mut app = make_app();
    app.settings_edit_config_key = Some("NATS_URL".into());
    app.settings_add_symbol_input = Some("nats://demo".into());
    assert_eq!(app.input_mode(), InputMode::SettingsEditConfig);
}

#[test]
fn input_mode_reports_chart_search_when_active() {
    let mut app = make_app();
    app.active_tab = Tab::Charts;
    app.chart_search_visible = true;
    assert_eq!(app.input_mode(), InputMode::ChartSearch);
}

#[test]
fn input_mode_reports_command_palette_when_visible() {
    let mut app = make_app();
    app.command_palette.show();
    assert_eq!(app.input_mode(), InputMode::CommandPalette);
}

#[test]
fn app_mode_tracks_input_mode_chart_search_and_normal() {
    assert_eq!(App::app_mode_for_input_mode(InputMode::Normal), AppMode::Navigation);
    assert_eq!(App::app_mode_for_input_mode(InputMode::ChartSearch), AppMode::Edit);
    assert_eq!(App::app_mode_for_input_mode(InputMode::CommandPalette), AppMode::Edit);
    assert_eq!(App::app_mode_for_input_mode(InputMode::Help), AppMode::View);
}

#[test]
fn update_app_mode_pushes_toast_on_transition() {
    let mut app = make_app();
    app.app_mode = AppMode::Navigation;
    app.active_tab = Tab::Charts;
    app.chart_search_visible = true;
    let before = app.toast_manager.active_count();
    app.update_app_mode();
    assert_eq!(app.app_mode, AppMode::Edit);
    assert!(app.toast_manager.active_count() > before);
}

#[test]
fn charts_tab_k_prefers_pill_navigation_over_strategy_cancel() {
    let app = make_app();
    assert_eq!(key_to_action(&app, KeyEvent::press(KeyCode::Char('k'))), Some(Action::StrategyCancelAll));

    let mut app_charts = make_app();
    app_charts.active_tab = Tab::Charts;
    assert_eq!(key_to_action(&app_charts, KeyEvent::press(KeyCode::Char('k'))), Some(Action::ChartPillUp));
}

#[test]
fn positions_tab_r_cycles_sort_mode() {
    let mut app = make_app();
    app.active_tab = Tab::Positions;
    assert_eq!(key_to_action(&app, KeyEvent::press(KeyCode::Char('r'))), Some(Action::PositionsCycleSort));
}

#[test]
fn chart_symbol_search_home_end_jumps_list_ends() {
    let mut app = make_app();
    app.active_tab = Tab::Charts;
    app.chart_search_visible = true;
    app.chart_search_results = vec!["A".into(), "B".into(), "C".into()];
    app.chart_search_selected = 0;

    press(&mut app, KeyCode::End);
    assert_eq!(app.chart_search_selected, 2);

    press(&mut app, KeyCode::Home);
    assert_eq!(app.chart_search_selected, 0);
}

#[test]
fn log_tab_keys_do_not_panic() {
    let mut app = make_app();
    app.active_tab = Tab::Logs;
    for key in [
        KeyCode::Up,
        KeyCode::Down,
        KeyCode::PageUp,
        KeyCode::PageDown,
        KeyCode::Char('+'),
        KeyCode::Char('-'),
        KeyCode::Esc,
    ] {
        press(&mut app, key);
    }
}

#[test]
fn positions_and_alerts_scroll_keys_do_not_panic() {
    let mut app = make_app();
    app.active_tab = Tab::Positions;
    for key in [KeyCode::Up, KeyCode::Down, KeyCode::PageUp, KeyCode::PageDown] {
        press(&mut app, key);
    }
    app.active_tab = Tab::Alerts;
    for key in [KeyCode::Up, KeyCode::Down, KeyCode::PageUp, KeyCode::PageDown] {
        press(&mut app, key);
    }
}

#[test]
fn tab_cycle_skips_logs_as_primary_shell_tab() {
    let mut app = make_app();
    app.active_tab = Tab::Alerts;
    press(&mut app, KeyCode::Tab);
    assert_eq!(app.active_tab, Tab::Yield);
}

#[test]
fn macos_cmd_comma_opens_settings() {
    let mut app = make_app();
    app.active_tab = Tab::Dashboard;
    press_with(&mut app, KeyCode::Char(','), cmd());
    assert_eq!(app.active_tab, Tab::Settings);
}

#[test]
fn macos_cmd_shift_p_toggles_command_palette() {
    let mut app = make_app();
    let cmd_shift = KeyModifiers { shift: true, control: false, alt: false, super_key: true };
    assert!(!app.command_palette.visible);
    press_with(&mut app, KeyCode::Char('p'), cmd_shift);
    assert!(app.command_palette.visible);
    press_with(&mut app, KeyCode::Char('p'), cmd_shift);
    assert!(!app.command_palette.visible);
}

#[test]
fn command_palette_closes_after_executing_non_palette_action() {
    let mut app = make_app();
    app.command_palette.visible = true;
    let mut effects = Vec::new();
    apply_action(&mut app, Action::JumpToTab(2), &no_data(), &mut effects);
    assert!(!app.command_palette.visible, "palette should close after a command runs");
}

#[test]
fn left_right_no_longer_switch_tabs_globally() {
    let mut app = make_app();
    app.active_tab = Tab::Dashboard;
    press(&mut app, KeyCode::Right);
    assert_eq!(app.active_tab, Tab::Dashboard);
    press(&mut app, KeyCode::Left);
    assert_eq!(app.active_tab, Tab::Dashboard);
}

#[test]
fn settings_left_right_escapes_nested_sections() {
    let mut app = make_app();
    app.active_tab = Tab::Settings;
    app.settings_section = SettingsSection::Config;
    app.settings_config_key_index = 3;

    press(&mut app, KeyCode::Left);
    assert_eq!(app.settings_section, SettingsSection::Health);
    press(&mut app, KeyCode::Right);
    assert_eq!(app.settings_section, SettingsSection::Config);
    press(&mut app, KeyCode::Right);
    assert_eq!(app.settings_section, SettingsSection::Symbols);
    press(&mut app, KeyCode::Left);
    assert_eq!(app.settings_section, SettingsSection::Config);
}

#[test]
fn settings_tab_tab_cycles_settings_section_when_no_workspace_focus_cycle() {
    let mut app = make_app();
    app.active_tab = Tab::Settings;
    app.settings_section = SettingsSection::Health;
    app.settings_health_focus = SettingsHealthFocus::Transport;

    press(&mut app, KeyCode::Tab);
    assert_eq!(app.active_tab, Tab::Settings, "Tab should not leave Settings");
    assert_eq!(app.settings_section, SettingsSection::Config, "Tab should advance Settings focus");

    press(&mut app, KeyCode::BackTab);
    assert_eq!(app.active_tab, Tab::Settings, "BackTab should not leave Settings");
    assert_eq!(app.settings_section, SettingsSection::Health, "BackTab should reverse Settings focus");
}

#[test]
fn settings_up_down_escape_at_list_boundaries() {
    let mut app = make_app();
    app.active_tab = Tab::Settings;
    app.settings_section = SettingsSection::Config;
    app.settings_config_key_index = 0;

    press(&mut app, KeyCode::Up);
    assert_eq!(app.settings_section, SettingsSection::Health);

    app.settings_section = SettingsSection::Config;
    app.settings_config_key_index = config_key_count(&app.config).saturating_sub(1);
    press(&mut app, KeyCode::Down);
    assert_eq!(app.settings_section, SettingsSection::Symbols);

    app.settings_section = SettingsSection::Symbols;
    app.settings_symbol_index = 0;
    press(&mut app, KeyCode::Up);
    assert_eq!(app.settings_section, SettingsSection::Config);
}

#[test]
fn settings_health_scroll_down_advances_nested_focus_before_next_section() {
    let mut app = make_app();
    app.active_tab = Tab::Settings;
    app.settings_section = SettingsSection::Health;
    app.settings_health_focus = SettingsHealthFocus::Transport;

    press(&mut app, KeyCode::Down);
    assert_eq!(app.settings_section, SettingsSection::Health);
    assert_eq!(app.settings_health_focus, SettingsHealthFocus::Services);

    press(&mut app, KeyCode::Down);
    assert_eq!(app.settings_section, SettingsSection::Config);
}

#[test]
fn orders_filter_typing_mode_deactivates_when_navigating_away() {
    let mut app = make_app();
    app.active_tab = Tab::Orders;
    app.order_filter_active = true;
    app.order_filter = "SPY".into();

    press_with(&mut app, KeyCode::Char('1'), cmd());

    assert_eq!(app.active_tab, Tab::Dashboard);
    assert!(!app.order_filter_active);
    assert_eq!(app.order_filter, "SPY");
}

#[test]
fn workspace_focus_target_returns_none_when_no_workspace_is_visible() {
    let mut app = make_app();
    app.active_tab = Tab::Alerts;
    app.visible_workspace_tabs = Vec::new();
    assert_eq!(workspace_focus_target(&app, true), None);
    assert_eq!(workspace_focus_target(&app, false), None);
}

#[test]
fn workspace_focus_target_cycles_market_workspace_tabs() {
    let mut app = make_app();
    app.visible_workspace_tabs = vec![Tab::Dashboard, Tab::Positions, Tab::Orders, Tab::Yield];
    app.active_tab = Tab::Dashboard;
    assert_eq!(workspace_focus_target(&app, true), Some(Tab::Positions));
    assert_eq!(workspace_focus_target(&app, false), Some(Tab::Yield));

    app.active_tab = Tab::Yield;
    assert_eq!(workspace_focus_target(&app, true), Some(Tab::Dashboard));
    assert_eq!(workspace_focus_target(&app, false), Some(Tab::Orders));
}

#[test]
fn workspace_focus_target_cycles_credit_workspace_tabs() {
    let mut app = make_app();
    app.visible_workspace_tabs = vec![Tab::Loans, Tab::DiscountBank];
    app.active_tab = Tab::Loans;
    assert_eq!(workspace_focus_target(&app, true), Some(Tab::DiscountBank));
    assert_eq!(workspace_focus_target(&app, false), Some(Tab::DiscountBank));
}

#[test]
fn request_loans_fetch_if_uncached_skips_when_list_already_ok() {
    let mut app = make_app();
    app.wiring.loans_fetch = true;
    app.loans_list = Some(Ok(0));
    assert!(!app.request_loans_fetch_if_uncached());
    assert!(!app.loans_fetch_pending);

    app.loans_list = None;
    let send = app.request_loans_fetch_if_uncached();
    assert!(send);
    app.loans_fetch_sent(send);
    assert!(app.loans_fetch_pending);
}

#[test]
fn loan_form_key_action_maps_navigation_and_input_keys() {
    assert_eq!(loan_form_key_action(KeyCode::Esc), Some(Action::LoansInputEscape));
    assert_eq!(loan_form_key_action(KeyCode::Enter), Some(Action::LoansInputEnter));
    assert_eq!(loan_form_key_action(KeyCode::Tab), Some(Action::LoansInputNavDown));
    assert_eq!(loan_form_key_action(KeyCode::BackTab), Some(Action::LoansInputNavUp));
    assert_eq!(loan_form_key_action(KeyCode::Up), Some(Action::LoansInputNavUp));
    assert_eq!(loan_form_key_action(KeyCode::Down), Some(Action::LoansInputNavDown));
    assert_eq!(loan_form_key_action(KeyCode::Backspace), Some(Action::LoansInputBackspace));
    assert_eq!(loan_form_key_action(KeyCode::Char('7')), Some(Action::LoansInputChar('7')));
    assert_eq!(loan_form_key_action(KeyCode::Char('-')), Some(Action::LoansInputChar('-')));
    assert_eq!(loan_form_key_action(KeyCode::Char('.')), Some(Action::LoansInputChar('.')));
    assert_eq!(loan_form_key_action(KeyCode::Char('a')), Some(Action::LoansInputChar('a')));
    assert_eq!(loan_form_key_action(KeyCode::F(1)), Some(Action::NoOp));
}

#[test]
fn loan_entry_to_loan_record_none_when_incomplete_or_invalid() {
    let entry = tui_service::app::LoanEntryState::new();
    assert!(!entry.is_complete());

    let mut bad = tui_service::app::LoanEntryState::new();
    bad.bank_name = "B".into();
    bad.account_number = "A".into();
    bad.principal = "x".into();
    bad.interest_rate = "5".into();
    bad.origination_date = "2025-01-01".into();
    bad.first_payment_date = "2025-02-01".into();
    bad.num_payments = "12".into();
    assert!(!bad.is_complete());
}

#[test]
fn help_overlay_closes_on_any_key() {
    let mut app = make_app();
    app.show_help = true;
    press(&mut app, KeyCode::Char('x'));
    assert!(!app.show_help);
    assert!(app.needs_redraw);
}

#[test]
fn symbol_editor_adds_uppercased_symbol_sorted() {
    let mut app = make_app();
    app.settings_add_symbol_input = Some(String::new());
    for c in [' ', 'a', 'b'] {
        press(&mut app, KeyCode::Char(c));
    }
    press(&mut app, KeyCode::Enter);
    assert_eq!(app.settings_add_symbol_input, None);
    assert_eq!(
        app.watchlist_override,
        Some(vec!["AB".to_string(), "NDX".to_string(), "SPX".to_string(), "XSP".to_string()])
    );
    assert_eq!(
        app.toast_manager.latest_active_toast().map(|t| t.message.clone()),
        Some("Symbol AB added to watchlist.".to_string())
    );
}

#[test]
fn symbol_editor_ignores_listed_symbol() {
    let mut app = make_app();
    app.settings_add_symbol_input = Some("spx".into());
    press(&mut app, KeyCode::Enter);
    assert_eq!(app.watchlist_override, None);
    assert_eq!(app.settings_add_symbol_input, None);
}

#[test]
fn config_editor_saves_override_and_rebuilds_config() {
    let mut app = make_app();
    app.settings_edit_config_key = Some("TICK_MS".into());
    app.settings_add_symbol_input = Some(" 250 ".into());
    press(&mut app, KeyCode::Enter);
    assert_eq!(app.config.tick_ms, 250);
    assert_eq!(app.settings_edit_config_key, None);
    assert_eq!(app.settings_add_symbol_input, None);
    let status = app.last_command_status.clone().expect("status");
    assert_eq!(status.message, Some("Saved override for TICK_MS.".to_string()));
}

#[test]
fn config_editor_esc_cancels() {
    let mut app = make_app();
    app.settings_edit_config_key = Some("TICK_MS".into());
    app.settings_add_symbol_input = Some("9".into());
    press(&mut app, KeyCode::Backspace);
    assert_eq!(app.settings_add_symbol_input, Some(String::new()));
    press(&mut app, KeyCode::Esc);
    assert_eq!(app.settings_edit_config_key, None);
    assert_eq!(app.settings_add_symbol_input, None);
    assert_eq!(app.config.tick_ms, TuiConfig::new_default().tick_ms);
    let status = app.last_command_status.clone().expect("status");
    assert_eq!(status.message, Some("Edit cancelled.".to_string()));
}

#[test]
fn credential_editor_asks_to_store_trimmed_value() {
    let mut app = make_app();
    app.settings_credential_edit_key = Some(CredentialKey::FmpApiKey);
    app.settings_credential_buffer = Some(" key1 ".into());
    let effects = press(&mut app, KeyCode::Enter);
    assert_eq!(effects.len(), 1);
    match &effects[0] {
        Effect::SaveCredential(k, v) => {
            assert_eq!(*k, CredentialKey::FmpApiKey);
            assert_eq!(v, "key1");
        },
        other => panic!("unexpected effect {other:?}"),
    }
    assert_eq!(app.settings_credential_buffer, None);
    assert_eq!(app.settings_credential_edit_key, None);

    app.credential_result("FMP API key", false, None);
    let status = app.last_command_status.clone().expect("status");
    assert_eq!(status.message, Some("Saved FMP API key.".to_string()));
}

#[test]
fn credential_editor_empty_value_deletes() {
    let mut app = make_app();
    app.settings_credential_edit_key = Some(CredentialKey::FredApiKey);
    app.settings_credential_buffer = Some("   ".into());
    let effects = press(&mut app, KeyCode::Enter);
    assert!(matches!(effects.as_slice(), [Effect::DeleteCredential(CredentialKey::FredApiKey)]));
    app.credential_result("FRED API key", true, Some("denied".into()));
    let status = app.last_command_status.clone().expect("status");
    assert_eq!(status.error, Some("Credential error: denied".to_string()));
}

#[test]
fn yield_symbol_keys_wrap_around_the_watchlist() {
    let mut app = make_app();
    app.active_tab = Tab::Yield;
    let effects = press(&mut app, KeyCode::Left);
    assert_eq!(app.yield_symbol_index, 2);
    assert!(matches!(effects.as_slice(), [Effect::SyncYieldCurve]));
    press(&mut app, KeyCode::Right);
    assert_eq!(app.yield_symbol_index, 0);
    press(&mut app, KeyCode::Right);
    assert_eq!(app.yield_symbol_index, 1);
}

#[test]
fn mouse_scroll_moves_positions_selection() {
    let mut app = make_app();
    let mut data = no_data();
    data.positions_len = 10;
    let mut effects = Vec::new();
    apply_action(&mut app, Action::MouseScrollDownIn(Tab::Positions), &data, &mut effects);
    assert_eq!(app.positions_table.selected(), 3);
    apply_action(&mut app, Action::MouseScrollUpIn(Tab::Positions), &data, &mut effects);
    assert_eq!(app.positions_table.selected(), 0);
    assert!(effects.is_empty());
}

#[test]
fn positions_sort_cycle_requests_resort() {
    let mut app = make_app();
    app.active_tab = Tab::Positions;
    let effects = press(&mut app, KeyCode::Char('r'));
    assert!(matches!(effects.as_slice(), [Effect::CyclePositionsSort]));
    assert_eq!(app.positions_table.selected(), 0);
}

#[test]
fn bulk_import_not_delivered_warns() {
    let mut app = make_app();
    app.bulk_import_sent(false);
    assert!(!app.loans_fetch_pending);
    assert_eq!(
        app.toast_manager.latest_active_toast().map(|t| t.message.clone()),
        Some("Bulk import channel closed.".to_string())
    );
    app.bulk_import_sent(true);
    assert!(app.loans_fetch_pending);
}

#[test]
fn mark_regions_records_only_the_named_regions() {
    let mut app = App::new(TuiConfig::new_default());
    app.needs_redraw = false;
    app.dirty_flags = tui_service::dirty_flags::DirtyFlags::new();
    app.mark_regions(|d| d.content = true);
    assert!(app.needs_redraw);
    assert!(app.dirty_flags.content);
    assert!(!app.dirty_flags.tabs);
    assert!(!app.dirty_flags.status_bar);
}

#[test]
fn positions_sort_cycle_records_the_next_order() {
    let mut app = App::new(TuiConfig::new_default());
    app.active_tab = Tab::Positions;
    let mut effects = Vec::new();
    apply_action(&mut app, Action::PositionsCycleSort, &no_data(), &mut effects);
    assert_eq!(app.config.positions_sort, tui_service::config::PositionsSortMode::Symbol);
    assert_eq!(app.config_overrides.get("TUI_POSITIONS_SORT"), Some("symbol".to_string()));
}

#[test]
fn orders_filter_and_chart_search_move_their_band_focus() {
    let mut app = App::new(TuiConfig::new_default());
    let mut effects = Vec::new();
    assert_eq!(app.orders_filter_interact.focused_region(), None);
    apply_action(&mut app, Action::OrdersFilterFocus, &no_data(), &mut effects);
    assert_eq!(app.orders_filter_interact.focused_region(), Some(FieldListRegion::Field));
    apply_action(&mut app, Action::OrdersFilterFocusNext, &no_data(), &mut effects);
    assert_eq!(app.orders_filter_interact.focused_region(), Some(FieldListRegion::List));
    apply_action(&mut app, Action::OrdersFilterClear, &no_data(), &mut effects);
    assert_eq!(app.orders_filter_interact.focused_region(), None);

    apply_action(&mut app, Action::ChartSearchFocus, &no_data(), &mut effects);
    assert_eq!(app.chart_search_interact.focused_region(), Some(FieldListRegion::Field));
    apply_action(&mut app, Action::ChartSearchFocusPrev, &no_data(), &mut effects);
    assert_eq!(app.chart_search_interact.focused_region(), Some(FieldListRegion::List));
    apply_action(&mut app, Action::ChartSearchEscape, &no_data(), &mut effects);
    assert_eq!(app.chart_search_interact.focused_region(), None);
}

#[test]
fn maturity_is_thirty_days_per_payment_less_one() {
    let mut e = tui_service::app::LoanEntryState::new();
    e.first_payment_date = "2025-01-01".to_string();
    e.num_payments = "12".to_string();
    e.calculate_maturity();
    assert_eq!(e.maturity_date, "2025-12-26");
    e.num_payments = "-1".to_string();
    e.first_payment_date = "2024-02-29".to_string();
    e.calculate_maturity();
    assert_eq!(e.maturity_date, "2024-01-29");
}

#[test]
fn maturity_is_left_alone_when_the_form_does_not_parse() {
    let mut e = tui_service::app::LoanEntryState::new();
    e.maturity_date = "unchanged".to_string();
    e.first_payment_date = "2025-01-01".to_string();
    e.num_payments = "12 ".to_string();
    e.calculate_maturity();
    assert_eq!(e.maturity_date, "unchanged");
    e.num_payments = "12".to_string();
    e.first_payment_date = "2025-02-30".to_string();
    e.calculate_maturity();
    assert_eq!(e.maturity_date, "unchanged");
    e.first_payment_date = String::new();
    e.calculate_maturity();
    assert_eq!(e.maturity_date, "unchanged");
}

#[test]
fn iso_dates_follow_chrono_year_padding() {
    assert_eq!(tui_service::loan_dates::format_iso_date((2025, 3, 7)), "2025-03-07");
    assert_eq!(tui_service::loan_dates::format_iso_date((987, 12, 31)), "0987-12-31");
    assert_eq!(tui_service::loan_dates::format_iso_date((12345, 1, 1)), "+12345-01-01");
    assert_eq!(tui_service::loan_dates::format_iso_date((-5, 1, 1)), "-0005-01-01");
}

#[test]
fn iso_dates_agree_with_chrono_formatting() {
    for y in [-262_000, -10_000, -1, 0, 1, 999, 1969, 2024, 9999, 10_000, 262_000] {
        for (m, d) in [(1u32, 1u32), (2, 28), (12, 31)] {
            let date = chrono::NaiveDate::from_ymd_opt(y, m, d).expect("valid date");
            assert_eq!(
                tui_service::loan_dates::format_iso_date((y, m, d)),
                date.format("%Y-%m-%d").to_string()
            );
        }
    }
}

#[test]
fn test_context_hints_navigation() {
    let app = App::new(TuiConfig::new_default());
    let hints = tui_service::discoverability::get_context_hints(app.app_mode, app.active_tab);
    assert!(!hints.is_empty());
}

#[test]
fn split_pane_tab_cycles_focus_between_dashboard_and_positions() {
    let mut app = App::new(TuiConfig::new_default());
    app.split_pane = true;
    app.active_tab = Tab::Dashboard;
    // Drawing the split pane records the panes on screen.
    app.visible_workspace_tabs = vec![Tab::Dashboard, Tab::Positions];
    press(&mut app, KeyCode::Tab);
    assert_eq!(app.active_tab, Tab::Positions);
    press(&mut app, KeyCode::BackTab);
    assert_eq!(app.active_tab, Tab::Dashboard);
}

#[test]
fn wide_operations_workspace_tab_cycles_focus_between_panes() {
    let mut app = App::new(TuiConfig::new_default());
    app.active_tab = Tab::Alerts;
    // Drawing the wide Operations workspace records the panes on screen.
    app.visible_workspace_tabs = vec![Tab::Alerts, Tab::Logs, Tab::Settings];
    press(&mut app, KeyCode::Tab);
    assert_eq!(app.active_tab, Tab::Logs);
    press(&mut app, KeyCode::Tab);
    assert_eq!(app.active_tab, Tab::Settings);
    press(&mut app, KeyCode::BackTab);
    assert_eq!(app.active_tab, Tab::Logs);
}
