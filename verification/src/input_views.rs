//! View-level actions that move selections and scroll offsets, edit the Orders filter
//! and Charts search, and open detail overlays.
//!
//! The row counts these rules read come from the data on screen; the caller passes them
//! in a [`ViewData`].
use vstd::prelude::*;
use crate::action::Action;
use crate::app::{App, DetailPopup, Effect, LogWidgetKey, TreeKey};
use crate::field_list_focus::{tabbed, FieldListFocus, FieldListRegion};
use crate::labels::LevelFilter;
use std::collections::VecDeque;
use crate::scrollable_table::{spec_clamp, ScrollableTableState, TableView};
use crate::tab::Tab;
use crate::text::{copy_str, pop_char, push_char, str_eq, strings_view};

verus! {

/// Row counts and values of the data on screen that view actions read.
#[derive(Debug, Clone)]
pub struct ViewData {
    /// Orders after the filter.
    pub filtered_orders_len: usize,
    /// Lines of the Alerts pane.
    pub alert_lines_len: usize,
    /// Symbols of the Dashboard rows, in display order.
    pub dashboard_symbols: Vec<String>,
    /// Scenarios after the DTE and strike-width filters.
    pub scenarios_len: usize,
    /// Highest expiry pill index on the Charts tab.
    pub chart_expiry_max_index: usize,
    /// Rows of the Positions pane (combos and legs as displayed).
    pub positions_len: usize,
    /// Points of the selected yield curve, when one is loaded.
    pub yield_point_count: Option<usize>,
    /// Whether a snapshot has arrived (the Dashboard lists the watchlist before).
    pub has_snapshot: bool,
}

/// Number of strike-width pills on the Charts tab (25, 50, 100 and 200 wide).
pub const CHART_STRIKE_PILL_COUNT: usize = 4;
/// Searched chart symbols kept in the history.
pub const CHART_SEARCH_HISTORY_MAX: usize = 10;

/// Message shown when the Orders filter stops taking input.
pub const FILTER_OFF_MESSAGE: &'static str =
    "Filter mode off (/ or i to type again). Saved text kept until Esc clears.";
/// Message shown when the Orders filter starts taking input.
pub const FILTER_ON_MESSAGE: &'static str =
    "Filter mode: type symbol, status, or side (/ or i to focus; Esc clears; / exits when empty).";
/// Message shown when the Orders filter is cleared.
pub const FILTER_CLEARED_MESSAGE: &'static str = "Filter cleared.";

/// Selection one row up (stays at 0).
pub open spec fn spec_up(t: TableView) -> TableView {
    TableView { selected: if t.selected == 0 { 0 } else { (t.selected - 1) as nat }, ..t }
}

/// Selection one row down within `max` rows (0 when there are none).
pub open spec fn spec_down(t: TableView, max: nat) -> TableView {
    TableView {
        selected: if max == 0 { 0 } else if t.selected + 1 < max { t.selected + 1 } else { (max - 1) as nat },
        ..t
    }
}

/// Selection moved by `delta` rows, clamped to the `max` rows (0 when there are none).
pub open spec fn spec_shift(t: TableView, delta: int, max: nat) -> TableView {
    TableView { selected: if max == 0 { 0 } else { spec_clamp(t.selected + delta, 0, max - 1) as nat }, ..t }
}

/// Viewport moved by `delta` rows, clamped to `[0, max_offset]`.
pub open spec fn spec_shift_scroll(t: TableView, delta: int, max_offset: nat) -> TableView {
    TableView { scroll: spec_clamp(t.scroll + delta, 0, max_offset as int) as nat, ..t }
}

/// The row a detail overlay opens: the selection, clamped to the last of `len` rows.
pub open spec fn spec_detail_index(selected: nat, len: nat) -> usize {
    (if selected < len - 1 { selected as int } else { len - 1 }) as usize
}

/// Orders pane actions.
/// Effect of `Action::OrdersScrollUp`.
#[verifier::opaque]
pub open spec fn spec_orders_scroll_up_post(a: &App, b: &App, d: &ViewData, e0: Seq<Effect>, e1: Seq<Effect>) -> bool {
    let len = d.filtered_orders_len as nat;
    *b == (App { orders_table: b.orders_table, ..*a })
            && b.orders_table@ == spec_up(a.orders_table@) && e1 == e0
}
/// Effect of `Action::OrdersScrollDown`.
#[verifier::opaque]
pub open spec fn spec_orders_scroll_down_post(a: &App, b: &App, d: &ViewData, e0: Seq<Effect>, e1: Seq<Effect>) -> bool {
    let len = d.filtered_orders_len as nat;
    *b == (App { orders_table: b.orders_table, ..*a })
            && b.orders_table@ == spec_down(a.orders_table@, len) && e1 == e0
}
/// Effect of `Action::OrdersScrollPageUp`.
#[verifier::opaque]
pub open spec fn spec_orders_scroll_page_up_post(a: &App, b: &App, d: &ViewData, e0: Seq<Effect>, e1: Seq<Effect>) -> bool {
    let len = d.filtered_orders_len as nat;
    *b == (App { orders_table: b.orders_table, ..*a })
            && b.orders_table@ == spec_shift(a.orders_table@, -10, len) && e1 == e0
}
/// Effect of `Action::OrdersScrollPageDown`.
#[verifier::opaque]
pub open spec fn spec_orders_scroll_page_down_post(a: &App, b: &App, d: &ViewData, e0: Seq<Effect>, e1: Seq<Effect>) -> bool {
    let len = d.filtered_orders_len as nat;
    *b == (App { orders_table: b.orders_table, ..*a })
            && b.orders_table@ == spec_shift(a.orders_table@, 10, len) && e1 == e0
}
/// Effect of `Action::OrdersDetail`.
#[verifier::opaque]
pub open spec fn spec_orders_detail_post(a: &App, b: &App, d: &ViewData, e0: Seq<Effect>, e1: Seq<Effect>) -> bool {
    let len = d.filtered_orders_len as nat;
    e1 == e0 && if len > 0 {
            *b == (App { detail_popup: Some(DetailPopup::Order(spec_detail_index(a.orders_table@.selected, len))), ..*a })
        } else {
            *b == *a
        }
}
/// Effect of `Action::OrdersFilterFocus`.
#[verifier::opaque]
pub open spec fn spec_orders_filter_focus_post(a: &App, b: &App, d: &ViewData, e0: Seq<Effect>, e1: Seq<Effect>) -> bool {
    let len = d.filtered_orders_len as nat;
    e1 == e0 && b.toast_manager@ == a.toast_manager@
            && *b == (App { order_filter_active: b.order_filter_active, last_command_status: b.last_command_status,
                toast_manager: b.toast_manager, dirty_flags: b.dirty_flags, needs_redraw: true,
                orders_filter_interact: b.orders_filter_interact, ..*a })
            && b.orders_filter_interact@ == (if b.order_filter_active { Some(FieldListRegion::Field) } else {
                None::<FieldListRegion> })
            && if a.order_filter_active && a.order_filter@.len() == 0 {
                !b.order_filter_active && (b.last_command_status matches Some(s) && s.message matches Some(m)
                    && m@ == FILTER_OFF_MESSAGE@)
            } else {
                b.order_filter_active && (b.last_command_status matches Some(s) && s.message matches Some(m)
                    && m@ == FILTER_ON_MESSAGE@)
            }
}
/// Effect of `Action::OrdersFilterChar`.
#[verifier::opaque]
pub open spec fn spec_orders_filter_char_post(a: &App, b: &App, d: &ViewData, e0: Seq<Effect>, e1: Seq<Effect>, c: char) -> bool {
    let len = d.filtered_orders_len as nat;
    *b == (App { order_filter: b.order_filter, order_filter_active: true, ..*a })
            && b.order_filter@ == a.order_filter@.push(c) && e1 == e0.push(Effect::ClampOrdersSelection)
}
/// Effect of `Action::OrdersFilterBackspace`.
#[verifier::opaque]
pub open spec fn spec_orders_filter_backspace_post(a: &App, b: &App, d: &ViewData, e0: Seq<Effect>, e1: Seq<Effect>) -> bool {
    let len = d.filtered_orders_len as nat;
    *b == (App { order_filter: b.order_filter, ..*a })
            && b.order_filter@ == (if a.order_filter@.len() == 0 { a.order_filter@ } else { a.order_filter@.drop_last() })
            && e1 == e0.push(Effect::ClampOrdersSelection)
}
/// Effect of `Action::OrdersFilterClear`.
#[verifier::opaque]
pub open spec fn spec_orders_filter_clear_post(a: &App, b: &App, d: &ViewData, e0: Seq<Effect>, e1: Seq<Effect>) -> bool {
    let len = d.filtered_orders_len as nat;
    b.order_filter@.len() == 0 && !b.order_filter_active
            && b.toast_manager@ == a.toast_manager@
            && (b.last_command_status matches Some(s) && s.message matches Some(m) && m@ == FILTER_CLEARED_MESSAGE@)
            && *b == (App { order_filter: b.order_filter, order_filter_active: false,
                last_command_status: b.last_command_status, toast_manager: b.toast_manager,
                dirty_flags: b.dirty_flags, needs_redraw: true, orders_filter_interact: b.orders_filter_interact, ..*a })
            && b.orders_filter_interact@ == None::<FieldListRegion>
            && e1 == e0.push(Effect::ClampOrdersSelection)
}
/// Effect of `Action::OrdersCancel`.
#[verifier::opaque]
pub open spec fn spec_orders_cancel_post(a: &App, b: &App, d: &ViewData, e0: Seq<Effect>, e1: Seq<Effect>) -> bool {
    let len = d.filtered_orders_len as nat;
    e1 == e0 && b.toast_manager@ == a.toast_manager@
            && (b.last_command_status matches Some(s) && s.action@ == "cancel_all"@ && !s.toast_on_failure)
            && *b == (App { last_command_status: b.last_command_status, toast_manager: b.toast_manager,
                dirty_flags: b.dirty_flags, needs_redraw: true, ..*a })
}
pub open spec fn spec_orders_view_post(a: &App, b: &App, action: Action, d: &ViewData, e0: Seq<Effect>, e1: Seq<Effect>) -> bool {
    match action {
        Action::OrdersScrollUp => spec_orders_scroll_up_post(a, b, d, e0, e1),
        Action::OrdersScrollDown => spec_orders_scroll_down_post(a, b, d, e0, e1),
        Action::OrdersScrollPageUp => spec_orders_scroll_page_up_post(a, b, d, e0, e1),
        Action::OrdersScrollPageDown => spec_orders_scroll_page_down_post(a, b, d, e0, e1),
        Action::OrdersDetail => spec_orders_detail_post(a, b, d, e0, e1),
        Action::OrdersFilterFocus => spec_orders_filter_focus_post(a, b, d, e0, e1),
        Action::OrdersFilterChar(c) => spec_orders_filter_char_post(a, b, d, e0, e1, c),
        Action::OrdersFilterBackspace => spec_orders_filter_backspace_post(a, b, d, e0, e1),
        Action::OrdersFilterClear => spec_orders_filter_clear_post(a, b, d, e0, e1),
        Action::OrdersCancel => spec_orders_cancel_post(a, b, d, e0, e1),
        _ => *b == *a && e1 == e0,
    }
}

/// Alerts, Dashboard and Scenarios pane actions.
/// Effect of `Action::AlertsScrollUp`.
#[verifier::opaque]
pub open spec fn spec_alerts_scroll_up_post(a: &App, b: &App, d: &ViewData, e0: Seq<Effect>, e1: Seq<Effect>) -> bool {
    let alerts_max = if d.alert_lines_len == 0 { 0nat } else { (d.alert_lines_len - 1) as nat };
    let dash = strings_view(d.dashboard_symbols@);
    let sc = d.scenarios_len as nat;
    e1 == e0 && *b == (App { alerts_scroll: b.alerts_scroll, ..*a })
            && b.alerts_scroll@ == spec_shift_scroll(a.alerts_scroll@, -1, alerts_max)
}
/// Effect of `Action::AlertsScrollDown`.
#[verifier::opaque]
pub open spec fn spec_alerts_scroll_down_post(a: &App, b: &App, d: &ViewData, e0: Seq<Effect>, e1: Seq<Effect>) -> bool {
    let alerts_max = if d.alert_lines_len == 0 { 0nat } else { (d.alert_lines_len - 1) as nat };
    let dash = strings_view(d.dashboard_symbols@);
    let sc = d.scenarios_len as nat;
    e1 == e0 && *b == (App { alerts_scroll: b.alerts_scroll, ..*a })
            && b.alerts_scroll@ == spec_shift_scroll(a.alerts_scroll@, 1, alerts_max)
}
/// Effect of `Action::AlertsScrollPageUp`.
#[verifier::opaque]
pub open spec fn spec_alerts_scroll_page_up_post(a: &App, b: &App, d: &ViewData, e0: Seq<Effect>, e1: Seq<Effect>) -> bool {
    let alerts_max = if d.alert_lines_len == 0 { 0nat } else { (d.alert_lines_len - 1) as nat };
    let dash = strings_view(d.dashboard_symbols@);
    let sc = d.scenarios_len as nat;
    e1 == e0 && *b == (App { alerts_scroll: b.alerts_scroll, ..*a })
            && b.alerts_scroll@ == spec_shift_scroll(a.alerts_scroll@, -10, alerts_max)
}
/// Effect of `Action::AlertsScrollPageDown`.
#[verifier::opaque]
pub open spec fn spec_alerts_scroll_page_down_post(a: &App, b: &App, d: &ViewData, e0: Seq<Effect>, e1: Seq<Effect>) -> bool {
    let alerts_max = if d.alert_lines_len == 0 { 0nat } else { (d.alert_lines_len - 1) as nat };
    let dash = strings_view(d.dashboard_symbols@);
    let sc = d.scenarios_len as nat;
    e1 == e0 && *b == (App { alerts_scroll: b.alerts_scroll, ..*a })
            && b.alerts_scroll@ == spec_shift_scroll(a.alerts_scroll@, 10, alerts_max)
}
/// Effect of `Action::DashboardScrollUp`.
#[verifier::opaque]
pub open spec fn spec_dashboard_scroll_up_post(a: &App, b: &App, d: &ViewData, e0: Seq<Effect>, e1: Seq<Effect>) -> bool {
    let alerts_max = if d.alert_lines_len == 0 { 0nat } else { (d.alert_lines_len - 1) as nat };
    let dash = strings_view(d.dashboard_symbols@);
    let sc = d.scenarios_len as nat;
    e1 == e0 && *b == (App { dashboard_table: b.dashboard_table, ..*a })
            && b.dashboard_table@ == spec_up(a.dashboard_table@)
}
/// Effect of `Action::DashboardScrollDown`.
#[verifier::opaque]
pub open spec fn spec_dashboard_scroll_down_post(a: &App, b: &App, d: &ViewData, e0: Seq<Effect>, e1: Seq<Effect>) -> bool {
    let alerts_max = if d.alert_lines_len == 0 { 0nat } else { (d.alert_lines_len - 1) as nat };
    let dash = strings_view(d.dashboard_symbols@);
    let sc = d.scenarios_len as nat;
    e1 == e0 && *b == (App { dashboard_table: b.dashboard_table, ..*a })
            && b.dashboard_table@ == spec_down(a.dashboard_table@, dash.len())
}
/// Effect of `Action::DashboardNavigateToChart`.
#[verifier::opaque]
pub open spec fn spec_dashboard_navigate_to_chart_post(a: &App, b: &App, d: &ViewData, e0: Seq<Effect>, e1: Seq<Effect>) -> bool {
    let alerts_max = if d.alert_lines_len == 0 { 0nat } else { (d.alert_lines_len - 1) as nat };
    let dash = strings_view(d.dashboard_symbols@);
    let sc = d.scenarios_len as nat;
    e1 == e0 && if dash.len() > 0 {
            *b == (App { active_tab: Tab::Charts, symbol_for_chart: b.symbol_for_chart, chart_search_visible: false,
                chart_search_input: b.chart_search_input, chart_search_interact: b.chart_search_interact, ..*a })
                && b.chart_search_interact@ == None::<FieldListRegion>
                && b.symbol_for_chart@ == dash[spec_detail_index(a.dashboard_table@.selected, dash.len()) as int]
                && b.chart_search_input@.len() == 0
        } else {
            *b == *a
        }
}
/// Effect of `Action::ScenariosScrollUp`.
#[verifier::opaque]
pub open spec fn spec_scenarios_scroll_up_post(a: &App, b: &App, d: &ViewData, e0: Seq<Effect>, e1: Seq<Effect>) -> bool {
    let alerts_max = if d.alert_lines_len == 0 { 0nat } else { (d.alert_lines_len - 1) as nat };
    let dash = strings_view(d.dashboard_symbols@);
    let sc = d.scenarios_len as nat;
    e1 == e0 && *b == (App { scenarios_table: b.scenarios_table, ..*a })
            && b.scenarios_table@ == spec_up(a.scenarios_table@)
}
/// Effect of `Action::ScenariosScrollDown`.
#[verifier::opaque]
pub open spec fn spec_scenarios_scroll_down_post(a: &App, b: &App, d: &ViewData, e0: Seq<Effect>, e1: Seq<Effect>) -> bool {
    let alerts_max = if d.alert_lines_len == 0 { 0nat } else { (d.alert_lines_len - 1) as nat };
    let dash = strings_view(d.dashboard_symbols@);
    let sc = d.scenarios_len as nat;
    e1 == e0 && *b == (App { scenarios_table: b.scenarios_table, ..*a })
            && b.scenarios_table@ == spec_down(a.scenarios_table@, sc)
}
/// Effect of `Action::ScenariosScrollPageUp`.
#[verifier::opaque]
pub open spec fn spec_scenarios_scroll_page_up_post(a: &App, b: &App, d: &ViewData, e0: Seq<Effect>, e1: Seq<Effect>) -> bool {
    let alerts_max = if d.alert_lines_len == 0 { 0nat } else { (d.alert_lines_len - 1) as nat };
    let dash = strings_view(d.dashboard_symbols@);
    let sc = d.scenarios_len as nat;
    e1 == e0 && *b == (App { scenarios_table: b.scenarios_table, ..*a })
            && b.scenarios_table@ == spec_shift(a.scenarios_table@, -10, sc)
}
/// Effect of `Action::ScenariosScrollPageDown`.
#[verifier::opaque]
pub open spec fn spec_scenarios_scroll_page_down_post(a: &App, b: &App, d: &ViewData, e0: Seq<Effect>, e1: Seq<Effect>) -> bool {
    let alerts_max = if d.alert_lines_len == 0 { 0nat } else { (d.alert_lines_len - 1) as nat };
    let dash = strings_view(d.dashboard_symbols@);
    let sc = d.scenarios_len as nat;
    e1 == e0 && *b == (App { scenarios_table: b.scenarios_table, ..*a })
            && b.scenarios_table@ == spec_shift(a.scenarios_table@, 10, sc)
}
/// Effect of `Action::ScenariosDetail`.
#[verifier::opaque]
pub open spec fn spec_scenarios_detail_post(a: &App, b: &App, d: &ViewData, e0: Seq<Effect>, e1: Seq<Effect>) -> bool {
    let alerts_max = if d.alert_lines_len == 0 { 0nat } else { (d.alert_lines_len - 1) as nat };
    let dash = strings_view(d.dashboard_symbols@);
    let sc = d.scenarios_len as nat;
    e1 == e0 && if sc > 0 {
            *b == (App { detail_popup: Some(DetailPopup::Scenario(spec_detail_index(a.scenarios_table@.selected, sc))), ..*a })
        } else {
            *b == *a
        }
}
/// Effect of `Action::ScenariosDteContract`.
#[verifier::opaque]
pub open spec fn spec_scenarios_dte_contract_post(a: &App, b: &App, d: &ViewData, e0: Seq<Effect>, e1: Seq<Effect>) -> bool {
    let alerts_max = if d.alert_lines_len == 0 { 0nat } else { (d.alert_lines_len - 1) as nat };
    let dash = strings_view(d.dashboard_symbols@);
    let sc = d.scenarios_len as nat;
    e1 == e0 && *b == (App {
            scenarios_dte_half_width: (if a.scenarios_dte_half_width - 1 < 0 { 0 } else { a.scenarios_dte_half_width - 1 }) as i32,
            ..*a
        })
}
/// Effect of `Action::ScenariosDteExpand`.
#[verifier::opaque]
pub open spec fn spec_scenarios_dte_expand_post(a: &App, b: &App, d: &ViewData, e0: Seq<Effect>, e1: Seq<Effect>) -> bool {
    let alerts_max = if d.alert_lines_len == 0 { 0nat } else { (d.alert_lines_len - 1) as nat };
    let dash = strings_view(d.dashboard_symbols@);
    let sc = d.scenarios_len as nat;
    e1 == e0 && *b == (App {
            scenarios_dte_half_width: (if a.scenarios_dte_half_width + 1 > 60 { 60 } else { a.scenarios_dte_half_width + 1 }) as i32,
            ..*a
        })
}
/// Effect of `Action::ScenariosCycleStrikeWidth`.
#[verifier::opaque]
pub open spec fn spec_scenarios_cycle_strike_width_post(a: &App, b: &App, d: &ViewData, e0: Seq<Effect>, e1: Seq<Effect>) -> bool {
    let alerts_max = if d.alert_lines_len == 0 { 0nat } else { (d.alert_lines_len - 1) as nat };
    let dash = strings_view(d.dashboard_symbols@);
    let sc = d.scenarios_len as nat;
    e1 == e0 && *b == (App {
            scenarios_strike_width_filter: match a.scenarios_strike_width_filter {
                None => Some(25u32),
                Some(w) => if w == 25 { Some(50u32) } else if w == 50 { Some(100u32) } else { None },
            },
            ..*a
        })
}
pub open spec fn spec_lists_view_post(a: &App, b: &App, action: Action, d: &ViewData, e0: Seq<Effect>, e1: Seq<Effect>) -> bool {
    e1 == e0 && match action {
        Action::AlertsScrollUp => spec_alerts_scroll_up_post(a, b, d, e0, e1),
        Action::AlertsScrollDown => spec_alerts_scroll_down_post(a, b, d, e0, e1),
        Action::AlertsScrollPageUp => spec_alerts_scroll_page_up_post(a, b, d, e0, e1),
        Action::AlertsScrollPageDown => spec_alerts_scroll_page_down_post(a, b, d, e0, e1),
        Action::DashboardScrollUp => spec_dashboard_scroll_up_post(a, b, d, e0, e1),
        Action::DashboardScrollDown => spec_dashboard_scroll_down_post(a, b, d, e0, e1),
        Action::DashboardNavigateToChart => spec_dashboard_navigate_to_chart_post(a, b, d, e0, e1),
        Action::ScenariosScrollUp => spec_scenarios_scroll_up_post(a, b, d, e0, e1),
        Action::ScenariosScrollDown => spec_scenarios_scroll_down_post(a, b, d, e0, e1),
        Action::ScenariosScrollPageUp => spec_scenarios_scroll_page_up_post(a, b, d, e0, e1),
        Action::ScenariosScrollPageDown => spec_scenarios_scroll_page_down_post(a, b, d, e0, e1),
        Action::ScenariosDetail => spec_scenarios_detail_post(a, b, d, e0, e1),
        Action::ScenariosDteContract => spec_scenarios_dte_contract_post(a, b, d, e0, e1),
        Action::ScenariosDteExpand => spec_scenarios_dte_expand_post(a, b, d, e0, e1),
        Action::ScenariosCycleStrikeWidth => spec_scenarios_cycle_strike_width_post(a, b, d, e0, e1),
        _ => *b == *a,
    }
}

/// The history after searching `s`: new symbols go to the front, and the oldest is
/// dropped beyond the cap; a symbol already present leaves it unchanged.
pub open spec fn spec_history_add(h: Seq<Seq<char>>, s: Seq<char>) -> Seq<Seq<char>> {
    if h.contains(s) {
        h
    } else {
        let h2 = seq![s] + h;
        if h2.len() > CHART_SEARCH_HISTORY_MAX { h2.drop_last() } else { h2 }
    }
}

/// Charts search actions.
/// Effect of `Action::ChartSearchFocus`.
#[verifier::opaque]
pub open spec fn spec_chart_search_focus_post(a: &App, b: &App, e0: Seq<Effect>, e1: Seq<Effect>) -> bool {
    let results = strings_view(a.chart_search_results@);
    *b == (App { chart_search_visible: true, chart_search_input: b.chart_search_input,
            chart_search_results: b.chart_search_results, chart_search_selected: 0,
            chart_search_interact: b.chart_search_interact, ..*a })
            && b.chart_search_interact@ == Some(FieldListRegion::Field)
            && b.chart_search_input@.len() == 0 && b.chart_search_results@.len() == 0
            && e1 == e0.push(Effect::UpdateChartSearchResults)
}
/// Effect of `Action::ChartSearchChar`.
#[verifier::opaque]
pub open spec fn spec_chart_search_char_post(a: &App, b: &App, e0: Seq<Effect>, e1: Seq<Effect>, c: char) -> bool {
    let results = strings_view(a.chart_search_results@);
    *b == (App { chart_search_input: b.chart_search_input, chart_search_selected: 0, ..*a })
            && b.chart_search_input@ == a.chart_search_input@.push(c)
            && e1 == e0.push(Effect::UpdateChartSearchResults)
}
/// Effect of `Action::ChartSearchBackspace`.
#[verifier::opaque]
pub open spec fn spec_chart_search_backspace_post(a: &App, b: &App, e0: Seq<Effect>, e1: Seq<Effect>) -> bool {
    let results = strings_view(a.chart_search_results@);
    *b == (App { chart_search_input: b.chart_search_input, chart_search_selected: 0, ..*a })
            && b.chart_search_input@ == (if a.chart_search_input@.len() == 0 { a.chart_search_input@ } else {
                a.chart_search_input@.drop_last() })
            && e1 == e0.push(Effect::UpdateChartSearchResults)
}
/// Effect of `Action::ChartSearchUp`.
#[verifier::opaque]
pub open spec fn spec_chart_search_up_post(a: &App, b: &App, e0: Seq<Effect>, e1: Seq<Effect>) -> bool {
    let results = strings_view(a.chart_search_results@);
    e1 == e0 && *b == (App {
            chart_search_selected: if results.len() > 0 && a.chart_search_selected > 0 {
                (a.chart_search_selected - 1) as usize
            } else {
                a.chart_search_selected
            },
            ..*a
        })
}
/// Effect of `Action::ChartSearchDown`.
#[verifier::opaque]
pub open spec fn spec_chart_search_down_post(a: &App, b: &App, e0: Seq<Effect>, e1: Seq<Effect>) -> bool {
    let results = strings_view(a.chart_search_results@);
    e1 == e0 && *b == (App {
            chart_search_selected: if results.len() == 0 {
                0
            } else if a.chart_search_selected + 1 < results.len() {
                (a.chart_search_selected + 1) as usize
            } else {
                (results.len() - 1) as usize
            },
            ..*a
        })
}
/// Effect of `Action::ChartSearchEnter`.
#[verifier::opaque]
pub open spec fn spec_chart_search_enter_post(a: &App, b: &App, e0: Seq<Effect>, e1: Seq<Effect>) -> bool {
    &&& *b == (App { symbol_for_chart: b.symbol_for_chart, chart_search_history: b.chart_search_history,
        chart_search_visible: false, chart_search_input: b.chart_search_input,
        chart_search_interact: b.chart_search_interact, ..*a })
    &&& b.chart_search_interact@ == None::<FieldListRegion>
    &&& b.chart_search_input@.len() == 0
    &&& e1 == e0.push(Effect::SaveChartSearchHistory)
    &&& match spec_search_pick(a.chart_search_input@, strings_view(a.chart_search_results@), a.chart_search_selected as int) {
        Some(p) => b.symbol_for_chart@ == p && strings_view(b.chart_search_history@) == spec_history_add(
            strings_view(a.chart_search_history@), p),
        None => b.symbol_for_chart == a.symbol_for_chart && b.chart_search_history == a.chart_search_history,
    }
}
/// Effect of `Action::ChartSearchEscape`.
#[verifier::opaque]
pub open spec fn spec_chart_search_escape_post(a: &App, b: &App, e0: Seq<Effect>, e1: Seq<Effect>) -> bool {
    let results = strings_view(a.chart_search_results@);
    e1 == e0 && *b == (App { chart_search_visible: false,
            chart_search_input: b.chart_search_input, chart_search_results: b.chart_search_results,
            chart_search_interact: b.chart_search_interact, ..*a })
            && b.chart_search_interact@ == None::<FieldListRegion>
            && b.chart_search_input@.len() == 0 && b.chart_search_results@.len() == 0
}
/// Effect of `Action::ChartSearchFirst`.
#[verifier::opaque]
pub open spec fn spec_chart_search_first_post(a: &App, b: &App, e0: Seq<Effect>, e1: Seq<Effect>) -> bool {
    let results = strings_view(a.chart_search_results@);
    e1 == e0 && *b == (App {
            chart_search_selected: if results.len() > 0 { 0 } else { a.chart_search_selected },
            ..*a
        })
}
/// Effect of `Action::ChartSearchLast`.
#[verifier::opaque]
pub open spec fn spec_chart_search_last_post(a: &App, b: &App, e0: Seq<Effect>, e1: Seq<Effect>) -> bool {
    let results = strings_view(a.chart_search_results@);
    e1 == e0 && *b == (App {
            chart_search_selected: if results.len() > 0 { (results.len() - 1) as usize } else { a.chart_search_selected },
            ..*a
        })
}
pub open spec fn spec_chart_search_post(a: &App, b: &App, action: Action, e0: Seq<Effect>, e1: Seq<Effect>) -> bool {
    match action {
        Action::ChartSearchFocus => spec_chart_search_focus_post(a, b, e0, e1),
        Action::ChartSearchChar(c) => spec_chart_search_char_post(a, b, e0, e1, c),
        Action::ChartSearchBackspace => spec_chart_search_backspace_post(a, b, e0, e1),
        Action::ChartSearchUp => spec_chart_search_up_post(a, b, e0, e1),
        Action::ChartSearchDown => spec_chart_search_down_post(a, b, e0, e1),
        Action::ChartSearchEnter => spec_chart_search_enter_post(a, b, e0, e1),
        Action::ChartSearchEscape => spec_chart_search_escape_post(a, b, e0, e1),
        Action::ChartSearchFirst => spec_chart_search_first_post(a, b, e0, e1),
        Action::ChartSearchLast => spec_chart_search_last_post(a, b, e0, e1),
        _ => *b == *a && e1 == e0,
    }
}

/// Charts pill actions.
/// Effect of `Action::ChartPillLeft`.
#[verifier::opaque]
pub open spec fn spec_chart_pill_left_post(a: &App, b: &App, d: &ViewData) -> bool {
    *b == (App {
            chart_expiry_index: if a.chart_pill_row == 0 && a.chart_expiry_index > 0 {
                (a.chart_expiry_index - 1) as usize
            } else {
                a.chart_expiry_index
            },
            ..*a
        })
}
/// Effect of `Action::ChartPillRight`.
#[verifier::opaque]
pub open spec fn spec_chart_pill_right_post(a: &App, b: &App, d: &ViewData) -> bool {
    *b == (App {
            chart_expiry_index: if a.chart_pill_row == 0 && a.chart_expiry_index < d.chart_expiry_max_index {
                (a.chart_expiry_index + 1) as usize
            } else {
                a.chart_expiry_index
            },
            ..*a
        })
}
/// Effect of `Action::ChartPillUp`.
#[verifier::opaque]
pub open spec fn spec_chart_pill_up_post(a: &App, b: &App, d: &ViewData) -> bool {
    *b == (App {
            chart_pill_row: if a.chart_pill_row > 0 { (a.chart_pill_row - 1) as usize } else { 1 },
            ..*a
        })
}
/// Effect of `Action::ChartPillDown`.
#[verifier::opaque]
pub open spec fn spec_chart_pill_down_post(a: &App, b: &App, d: &ViewData) -> bool {
    *b == (App {
            chart_pill_row: if a.chart_pill_row < 1 { (a.chart_pill_row + 1) as usize } else { a.chart_pill_row },
            ..*a
        })
}
/// Effect of `Action::ChartPillSelect`.
#[verifier::opaque]
pub open spec fn spec_chart_pill_select_post(a: &App, b: &App, d: &ViewData) -> bool {
    *b == (App {
            chart_strike_index: if a.chart_pill_row == 1 {
                ((a.chart_strike_index + 1) % (CHART_STRIKE_PILL_COUNT as int)) as usize
            } else {
                a.chart_strike_index
            },
            ..*a
        })
}
pub open spec fn spec_chart_pill_post(a: &App, b: &App, action: Action, d: &ViewData) -> bool {
    match action {
        Action::ChartPillLeft => spec_chart_pill_left_post(a, b, d),
        Action::ChartPillRight => spec_chart_pill_right_post(a, b, d),
        Action::ChartPillUp => spec_chart_pill_up_post(a, b, d),
        Action::ChartPillDown => spec_chart_pill_down_post(a, b, d),
        Action::ChartPillSelect => spec_chart_pill_select_post(a, b, d),
        _ => *b == *a,
    }
}

/// Log pane and tree panel actions.
/// Effect of `Action::LogScrollUp`.
#[verifier::opaque]
pub open spec fn spec_log_scroll_up_post(a: &App, b: &App, e0: Seq<Effect>, e1: Seq<Effect>) -> bool {
    *b == *a && e1 == e0.push(Effect::LogWidget(LogWidgetKey::Up))
}
/// Effect of `Action::LogScrollDown`.
#[verifier::opaque]
pub open spec fn spec_log_scroll_down_post(a: &App, b: &App, e0: Seq<Effect>, e1: Seq<Effect>) -> bool {
    *b == *a && e1 == e0.push(Effect::LogWidget(LogWidgetKey::Down))
}
/// Effect of `Action::LogPageUp`.
#[verifier::opaque]
pub open spec fn spec_log_page_up_post(a: &App, b: &App, e0: Seq<Effect>, e1: Seq<Effect>) -> bool {
    *b == *a && e1 == e0.push(Effect::LogWidget(LogWidgetKey::PrevPage))
}
/// Effect of `Action::LogPageDown`.
#[verifier::opaque]
pub open spec fn spec_log_page_down_post(a: &App, b: &App, e0: Seq<Effect>, e1: Seq<Effect>) -> bool {
    *b == *a && e1 == e0.push(Effect::LogWidget(LogWidgetKey::NextPage))
}
/// Effect of `Action::LogHide`.
#[verifier::opaque]
pub open spec fn spec_log_hide_post(a: &App, b: &App, e0: Seq<Effect>, e1: Seq<Effect>) -> bool {
    *b == *a && e1 == e0.push(Effect::LogWidget(LogWidgetKey::Hide))
}
/// Effect of `Action::LogEscape`.
#[verifier::opaque]
pub open spec fn spec_log_escape_post(a: &App, b: &App, e0: Seq<Effect>, e1: Seq<Effect>) -> bool {
    *b == *a && e1 == e0.push(Effect::LogWidget(LogWidgetKey::Escape))
}
/// Effect of `Action::LogLevelUp`.
#[verifier::opaque]
pub open spec fn spec_log_level_up_post(a: &App, b: &App, e0: Seq<Effect>, e1: Seq<Effect>) -> bool {
    *b == (App { log_display_level: a.log_display_level.spec_up(), ..*a })
            && e1 == e0.push(Effect::LogWidget(LogWidgetKey::Plus)).push(Effect::SetLogLevel(a.log_display_level.spec_up()))
}
/// Effect of `Action::LogLevelDown`.
#[verifier::opaque]
pub open spec fn spec_log_level_down_post(a: &App, b: &App, e0: Seq<Effect>, e1: Seq<Effect>) -> bool {
    *b == (App { log_display_level: a.log_display_level.spec_down(), ..*a })
            && e1 == e0.push(Effect::LogWidget(LogWidgetKey::Minus)).push(Effect::SetLogLevel(a.log_display_level.spec_down()))
}
/// Effect of `Action::LogLevelError`.
#[verifier::opaque]
pub open spec fn spec_log_level_error_post(a: &App, b: &App, e0: Seq<Effect>, e1: Seq<Effect>) -> bool {
    *b == (App { log_display_level: LevelFilter::Error, ..*a })
            && e1 == e0.push(Effect::SetLogLevel(LevelFilter::Error))
}
/// Effect of `Action::LogLevelWarn`.
#[verifier::opaque]
pub open spec fn spec_log_level_warn_post(a: &App, b: &App, e0: Seq<Effect>, e1: Seq<Effect>) -> bool {
    *b == (App { log_display_level: LevelFilter::Warn, ..*a })
            && e1 == e0.push(Effect::SetLogLevel(LevelFilter::Warn))
}
/// Effect of `Action::LogLevelInfo`.
#[verifier::opaque]
pub open spec fn spec_log_level_info_post(a: &App, b: &App, e0: Seq<Effect>, e1: Seq<Effect>) -> bool {
    *b == (App { log_display_level: LevelFilter::Info, ..*a })
            && e1 == e0.push(Effect::SetLogLevel(LevelFilter::Info))
}
/// Effect of `Action::LogLevelDebug`.
#[verifier::opaque]
pub open spec fn spec_log_level_debug_post(a: &App, b: &App, e0: Seq<Effect>, e1: Seq<Effect>) -> bool {
    *b == (App { log_display_level: LevelFilter::Debug, ..*a })
            && e1 == e0.push(Effect::SetLogLevel(LevelFilter::Debug))
}
/// Effect of `Action::TreeUp`.
#[verifier::opaque]
pub open spec fn spec_tree_up_post(a: &App, b: &App, e0: Seq<Effect>, e1: Seq<Effect>) -> bool {
    *b == *a && e1 == e0.push(Effect::Tree(TreeKey::Up))
}
/// Effect of `Action::TreeDown`.
#[verifier::opaque]
pub open spec fn spec_tree_down_post(a: &App, b: &App, e0: Seq<Effect>, e1: Seq<Effect>) -> bool {
    *b == *a && e1 == e0.push(Effect::Tree(TreeKey::Down))
}
/// Effect of `Action::TreeLeft`.
#[verifier::opaque]
pub open spec fn spec_tree_left_post(a: &App, b: &App, e0: Seq<Effect>, e1: Seq<Effect>) -> bool {
    *b == *a && e1 == e0.push(Effect::Tree(TreeKey::Left))
}
/// Effect of `Action::TreeRight`.
#[verifier::opaque]
pub open spec fn spec_tree_right_post(a: &App, b: &App, e0: Seq<Effect>, e1: Seq<Effect>) -> bool {
    *b == *a && e1 == e0.push(Effect::Tree(TreeKey::Right))
}
/// Effect of `Action::TreeToggle`.
#[verifier::opaque]
pub open spec fn spec_tree_toggle_post(a: &App, b: &App, e0: Seq<Effect>, e1: Seq<Effect>) -> bool {
    *b == *a && e1 == e0.push(Effect::Tree(TreeKey::Toggle))
}
/// Effect of `Action::TreeEscape`.
#[verifier::opaque]
pub open spec fn spec_tree_escape_post(a: &App, b: &App, e0: Seq<Effect>, e1: Seq<Effect>) -> bool {
    *b == (App { show_tree_panel: false, ..*a }) && e1 == e0
}
pub open spec fn spec_log_tree_post(a: &App, b: &App, action: Action, e0: Seq<Effect>, e1: Seq<Effect>) -> bool {
    match action {
        Action::LogScrollUp => spec_log_scroll_up_post(a, b, e0, e1),
        Action::LogScrollDown => spec_log_scroll_down_post(a, b, e0, e1),
        Action::LogPageUp => spec_log_page_up_post(a, b, e0, e1),
        Action::LogPageDown => spec_log_page_down_post(a, b, e0, e1),
        Action::LogHide => spec_log_hide_post(a, b, e0, e1),
        Action::LogEscape => spec_log_escape_post(a, b, e0, e1),
        Action::LogLevelUp => spec_log_level_up_post(a, b, e0, e1),
        Action::LogLevelDown => spec_log_level_down_post(a, b, e0, e1),
        Action::LogLevelError => spec_log_level_error_post(a, b, e0, e1),
        Action::LogLevelWarn => spec_log_level_warn_post(a, b, e0, e1),
        Action::LogLevelInfo => spec_log_level_info_post(a, b, e0, e1),
        Action::LogLevelDebug => spec_log_level_debug_post(a, b, e0, e1),
        Action::TreeUp => spec_tree_up_post(a, b, e0, e1),
        Action::TreeDown => spec_tree_down_post(a, b, e0, e1),
        Action::TreeLeft => spec_tree_left_post(a, b, e0, e1),
        Action::TreeRight => spec_tree_right_post(a, b, e0, e1),
        Action::TreeToggle => spec_tree_toggle_post(a, b, e0, e1),
        Action::TreeEscape => spec_tree_escape_post(a, b, e0, e1),
        _ => *b == *a && e1 == e0,
    }
}

/// Orders pane actions handled here.
pub open spec fn spec_is_orders_view(action: Action) -> bool {
    match action {
        Action::OrdersScrollUp | Action::OrdersScrollDown | Action::OrdersScrollPageUp
        | Action::OrdersScrollPageDown | Action::OrdersDetail | Action::OrdersFilterFocus
        | Action::OrdersFilterChar(_) | Action::OrdersFilterBackspace | Action::OrdersFilterClear
        | Action::OrdersCancel => true,
        _ => false,
    }
}

/// Alerts, Dashboard and Scenarios actions handled here.
pub open spec fn spec_is_lists_view(action: Action) -> bool {
    match action {
        Action::AlertsScrollUp | Action::AlertsScrollDown | Action::AlertsScrollPageUp
        | Action::AlertsScrollPageDown | Action::DashboardScrollUp | Action::DashboardScrollDown
        | Action::DashboardNavigateToChart | Action::ScenariosScrollUp | Action::ScenariosScrollDown
        | Action::ScenariosScrollPageUp | Action::ScenariosScrollPageDown | Action::ScenariosDetail
        | Action::ScenariosDteContract | Action::ScenariosDteExpand | Action::ScenariosCycleStrikeWidth => true,
        _ => false,
    }
}

/// Charts search actions handled here.
pub open spec fn spec_is_chart_search(action: Action) -> bool {
    match action {
        Action::ChartSearchFocus | Action::ChartSearchChar(_) | Action::ChartSearchBackspace
        | Action::ChartSearchUp | Action::ChartSearchDown | Action::ChartSearchEnter
        | Action::ChartSearchEscape | Action::ChartSearchFirst | Action::ChartSearchLast => true,
        _ => false,
    }
}

/// Charts pill actions handled here.
pub open spec fn spec_is_chart_pill(action: Action) -> bool {
    match action {
        Action::ChartPillLeft | Action::ChartPillRight | Action::ChartPillUp | Action::ChartPillDown
        | Action::ChartPillSelect => true,
        _ => false,
    }
}

/// Log and tree actions handled here.
pub open spec fn spec_is_log_tree(action: Action) -> bool {
    match action {
        Action::LogScrollUp | Action::LogScrollDown | Action::LogPageUp | Action::LogPageDown
        | Action::LogLevelUp | Action::LogLevelDown | Action::LogHide | Action::LogEscape
        | Action::LogLevelError | Action::LogLevelWarn | Action::LogLevelInfo | Action::LogLevelDebug
        | Action::TreeUp | Action::TreeDown | Action::TreeLeft | Action::TreeRight | Action::TreeToggle
        | Action::TreeEscape => true,
        _ => false,
    }
}

/// Focus moves between the field and the list of the Orders filter and the Charts
/// search (Tab and Shift+Tab).
pub open spec fn spec_is_focus_cycle(action: Action) -> bool {
    match action {
        Action::OrdersFilterFocusNext | Action::OrdersFilterFocusPrev | Action::ChartSearchFocusNext
        | Action::ChartSearchFocusPrev => true,
        _ => false,
    }
}

/// Effect of a focus move: the overlay's field/list focus moves to the other band (a
/// closed overlay stays without focus); nothing else changes.
pub open spec fn spec_focus_cycle_post(a: &App, b: &App, action: Action, e0: Seq<Effect>, e1: Seq<Effect>) -> bool {
    e1 == e0 && match action {
        Action::OrdersFilterFocusNext | Action::OrdersFilterFocusPrev => *b == (App {
            orders_filter_interact: b.orders_filter_interact,
            ..*a
        }) && b.orders_filter_interact@ == tabbed(a.orders_filter_interact@),
        _ => *b == (App { chart_search_interact: b.chart_search_interact, ..*a })
            && b.chart_search_interact@ == tabbed(a.chart_search_interact@),
    }
}

/// Whether `action` is a view action.
pub open spec fn spec_is_view_action(action: Action) -> bool {
    spec_is_orders_view(action) || spec_is_lists_view(action) || spec_is_chart_search(action)
        || spec_is_chart_pill(action) || spec_is_log_tree(action) || spec_is_focus_cycle(action)
}

/// What a view action does (see the group specifications); other actions change
/// nothing.
pub open spec fn spec_view_post(a: &App, b: &App, action: Action, d: &ViewData, e0: Seq<Effect>, e1: Seq<Effect>) -> bool {
    if spec_is_orders_view(action) {
        spec_orders_view_post(a, b, action, d, e0, e1)
    } else if spec_is_lists_view(action) {
        spec_lists_view_post(a, b, action, d, e0, e1)
    } else if spec_is_chart_search(action) {
        spec_chart_search_post(a, b, action, e0, e1)
    } else if spec_is_chart_pill(action) {
        spec_chart_pill_post(a, b, action, d) && e1 == e0
    } else if spec_is_log_tree(action) {
        spec_log_tree_post(a, b, action, e0, e1)
    } else if spec_is_focus_cycle(action) {
        spec_focus_cycle_post(a, b, action, e0, e1)
    } else {
        *b == *a && e1 == e0
    }
}


#[verifier::spinoff_prover]
fn view_orders_scroll_up(app: &mut App, d: &ViewData, effects: &mut Vec<Effect>)
    ensures
        spec_orders_scroll_up_post(old(app), final(app), d, old(effects)@, final(effects)@),
{
    proof {
        reveal(spec_orders_scroll_up_post);
    }
    let len = d.filtered_orders_len;

        app.orders_table.move_up();
}

#[verifier::spinoff_prover]
fn view_orders_scroll_down(app: &mut App, d: &ViewData, effects: &mut Vec<Effect>)
    ensures
        spec_orders_scroll_down_post(old(app), final(app), d, old(effects)@, final(effects)@),
{
    proof {
        reveal(spec_orders_scroll_down_post);
    }
    let len = d.filtered_orders_len;

        app.orders_table.move_down(len);
}

#[verifier::spinoff_prover]
fn view_orders_scroll_page_up(app: &mut App, d: &ViewData, effects: &mut Vec<Effect>)
    ensures
        spec_orders_scroll_page_up_post(old(app), final(app), d, old(effects)@, final(effects)@),
{
    proof {
        reveal(spec_orders_scroll_page_up_post);
    }
    let len = d.filtered_orders_len;

        app.orders_table.shift_selected(-10, len);
}

#[verifier::spinoff_prover]
fn view_orders_scroll_page_down(app: &mut App, d: &ViewData, effects: &mut Vec<Effect>)
    ensures
        spec_orders_scroll_page_down_post(old(app), final(app), d, old(effects)@, final(effects)@),
{
    proof {
        reveal(spec_orders_scroll_page_down_post);
    }
    let len = d.filtered_orders_len;

        app.orders_table.shift_selected(10, len);
}

#[verifier::spinoff_prover]
fn view_orders_detail(app: &mut App, d: &ViewData, effects: &mut Vec<Effect>)
    ensures
        spec_orders_detail_post(old(app), final(app), d, old(effects)@, final(effects)@),
{
    proof {
        reveal(spec_orders_detail_post);
    }
    let len = d.filtered_orders_len;

            if len > 0 {
                let sel = app.orders_table.selected();
                let idx = if sel < len - 1 { sel } else { len - 1 };
                app.detail_popup = Some(DetailPopup::Order(idx));
            }
}

fn set_band_focus(f: &mut FieldListFocus, open: bool)
    ensures
        final(f)@ == (if open { Some(FieldListRegion::Field) } else { None::<FieldListRegion> }),
{
    if open {
        f.on_open();
    } else {
        f.on_close();
    }
}

#[verifier::spinoff_prover]
#[verifier::rlimit(100)]
fn view_orders_filter_focus(app: &mut App, d: &ViewData, effects: &mut Vec<Effect>)
    ensures
        spec_orders_filter_focus_post(old(app), final(app), d, old(effects)@, final(effects)@),
{
    proof {
        reveal(spec_orders_filter_focus_post);
    }
    let turn_off = app.order_filter_active && app.order_filter.unicode_len() == 0;
    app.order_filter_active = !turn_off;
    set_band_focus(&mut app.orders_filter_interact, !turn_off);
    let msg = if turn_off { FILTER_OFF_MESSAGE } else { FILTER_ON_MESSAGE };
    app.command_success("orders_filter", msg);
}

#[verifier::spinoff_prover]
fn view_orders_filter_char(app: &mut App, d: &ViewData, effects: &mut Vec<Effect>, c: char)
    ensures
        spec_orders_filter_char_post(old(app), final(app), d, old(effects)@, final(effects)@, c),
{
    proof {
        reveal(spec_orders_filter_char_post);
    }
    let len = d.filtered_orders_len;

            app.order_filter_active = true;
            push_char(&mut app.order_filter, c);
            effects.push(Effect::ClampOrdersSelection);
}

#[verifier::spinoff_prover]
fn view_orders_filter_backspace(app: &mut App, d: &ViewData, effects: &mut Vec<Effect>)
    ensures
        spec_orders_filter_backspace_post(old(app), final(app), d, old(effects)@, final(effects)@),
{
    proof {
        reveal(spec_orders_filter_backspace_post);
    }
    let len = d.filtered_orders_len;

            let _ = pop_char(&mut app.order_filter);
            effects.push(Effect::ClampOrdersSelection);
}

#[verifier::spinoff_prover]
#[verifier::rlimit(100)]
fn view_orders_filter_clear(app: &mut App, d: &ViewData, effects: &mut Vec<Effect>)
    ensures
        spec_orders_filter_clear_post(old(app), final(app), d, old(effects)@, final(effects)@),
{
    proof {
        reveal(spec_orders_filter_clear_post);
    }
    let len = d.filtered_orders_len;

            app.order_filter = String::new();
            app.order_filter_active = false;
            app.orders_filter_interact.on_close();
            effects.push(Effect::ClampOrdersSelection);
            app.command_success("orders_filter", FILTER_CLEARED_MESSAGE);
}

#[verifier::spinoff_prover]
#[verifier::rlimit(100)]
fn view_orders_cancel(app: &mut App, d: &ViewData, effects: &mut Vec<Effect>)
    ensures
        spec_orders_cancel_post(old(app), final(app), d, old(effects)@, final(effects)@),
{
    proof {
        reveal(spec_orders_cancel_post);
    }
    let len = d.filtered_orders_len;

            app.command_disabled("cancel_all");
}

#[verifier::spinoff_prover]
fn orders_view(app: &mut App, action: Action, d: &ViewData, effects: &mut Vec<Effect>)
    requires
        spec_is_orders_view(action),
    ensures
        spec_orders_view_post(old(app), final(app), action, d, old(effects)@, final(effects)@),
{
    match action {
        Action::OrdersScrollUp => view_orders_scroll_up(app, d, effects),
        Action::OrdersScrollDown => view_orders_scroll_down(app, d, effects),
        Action::OrdersScrollPageUp => view_orders_scroll_page_up(app, d, effects),
        Action::OrdersScrollPageDown => view_orders_scroll_page_down(app, d, effects),
        Action::OrdersDetail => view_orders_detail(app, d, effects),
        Action::OrdersFilterFocus => view_orders_filter_focus(app, d, effects),
        Action::OrdersFilterChar(c) => view_orders_filter_char(app, d, effects, c),
        Action::OrdersFilterBackspace => view_orders_filter_backspace(app, d, effects),
        Action::OrdersFilterClear => view_orders_filter_clear(app, d, effects),
        Action::OrdersCancel => view_orders_cancel(app, d, effects),
        _ => {},
    }
}

#[verifier::spinoff_prover]
fn view_alerts_scroll_up(app: &mut App, d: &ViewData, effects: &Vec<Effect>)
    ensures
        spec_alerts_scroll_up_post(old(app), final(app), d, effects@, effects@),
{
    proof {
        reveal(spec_alerts_scroll_up_post);
    }
    let alerts_max = if d.alert_lines_len == 0 { 0 } else { d.alert_lines_len - 1 };
    let sc = d.scenarios_len;
    let dash_len = d.dashboard_symbols.len();

        app.alerts_scroll.shift_scroll(-1, alerts_max);
}

#[verifier::spinoff_prover]
fn view_alerts_scroll_down(app: &mut App, d: &ViewData, effects: &Vec<Effect>)
    ensures
        spec_alerts_scroll_down_post(old(app), final(app), d, effects@, effects@),
{
    proof {
        reveal(spec_alerts_scroll_down_post);
    }
    let alerts_max = if d.alert_lines_len == 0 { 0 } else { d.alert_lines_len - 1 };
    let sc = d.scenarios_len;
    let dash_len = d.dashboard_symbols.len();

        app.alerts_scroll.shift_scroll(1, alerts_max);
}

#[verifier::spinoff_prover]
fn view_alerts_scroll_page_up(app: &mut App, d: &ViewData, effects: &Vec<Effect>)
    ensures
        spec_alerts_scroll_page_up_post(old(app), final(app), d, effects@, effects@),
{
    proof {
        reveal(spec_alerts_scroll_page_up_post);
    }
    let alerts_max = if d.alert_lines_len == 0 { 0 } else { d.alert_lines_len - 1 };
    let sc = d.scenarios_len;
    let dash_len = d.dashboard_symbols.len();

        app.alerts_scroll.shift_scroll(-10, alerts_max);
}

#[verifier::spinoff_prover]
fn view_alerts_scroll_page_down(app: &mut App, d: &ViewData, effects: &Vec<Effect>)
    ensures
        spec_alerts_scroll_page_down_post(old(app), final(app), d, effects@, effects@),
{
    proof {
        reveal(spec_alerts_scroll_page_down_post);
    }
    let alerts_max = if d.alert_lines_len == 0 { 0 } else { d.alert_lines_len - 1 };
    let sc = d.scenarios_len;
    let dash_len = d.dashboard_symbols.len();

        app.alerts_scroll.shift_scroll(10, alerts_max);
}

#[verifier::spinoff_prover]
fn view_dashboard_scroll_up(app: &mut App, d: &ViewData, effects: &Vec<Effect>)
    ensures
        spec_dashboard_scroll_up_post(old(app), final(app), d, effects@, effects@),
{
    proof {
        reveal(spec_dashboard_scroll_up_post);
    }
    let alerts_max = if d.alert_lines_len == 0 { 0 } else { d.alert_lines_len - 1 };
    let sc = d.scenarios_len;
    let dash_len = d.dashboard_symbols.len();

        app.dashboard_table.move_up();
}

#[verifier::spinoff_prover]
fn view_dashboard_scroll_down(app: &mut App, d: &ViewData, effects: &Vec<Effect>)
    ensures
        spec_dashboard_scroll_down_post(old(app), final(app), d, effects@, effects@),
{
    proof {
        reveal(spec_dashboard_scroll_down_post);
    }
    let alerts_max = if d.alert_lines_len == 0 { 0 } else { d.alert_lines_len - 1 };
    let sc = d.scenarios_len;
    let dash_len = d.dashboard_symbols.len();

        app.dashboard_table.move_down(dash_len);
}

#[verifier::spinoff_prover]
fn view_dashboard_navigate_to_chart(app: &mut App, d: &ViewData, effects: &Vec<Effect>)
    ensures
        spec_dashboard_navigate_to_chart_post(old(app), final(app), d, effects@, effects@),
{
    proof {
        reveal(spec_dashboard_navigate_to_chart_post);
    }
    let alerts_max = if d.alert_lines_len == 0 { 0 } else { d.alert_lines_len - 1 };
    let sc = d.scenarios_len;
    let dash_len = d.dashboard_symbols.len();

            if dash_len > 0 {
                let sel = app.dashboard_table.selected();
                let idx = if sel < dash_len - 1 { sel } else { dash_len - 1 };
                app.active_tab = Tab::Charts;
                app.symbol_for_chart = copy_str(d.dashboard_symbols[idx].as_str());
                app.chart_search_visible = false;
                app.chart_search_input = String::new();
                app.chart_search_interact.on_close();
            }
}

#[verifier::spinoff_prover]
fn view_scenarios_scroll_up(app: &mut App, d: &ViewData, effects: &Vec<Effect>)
    ensures
        spec_scenarios_scroll_up_post(old(app), final(app), d, effects@, effects@),
{
    proof {
        reveal(spec_scenarios_scroll_up_post);
    }
    let alerts_max = if d.alert_lines_len == 0 { 0 } else { d.alert_lines_len - 1 };
    let sc = d.scenarios_len;
    let dash_len = d.dashboard_symbols.len();

        app.scenarios_table.move_up();
}

#[verifier::spinoff_prover]
fn view_scenarios_scroll_down(app: &mut App, d: &ViewData, effects: &Vec<Effect>)
    ensures
        spec_scenarios_scroll_down_post(old(app), final(app), d, effects@, effects@),
{
    proof {
        reveal(spec_scenarios_scroll_down_post);
    }
    let alerts_max = if d.alert_lines_len == 0 { 0 } else { d.alert_lines_len - 1 };
    let sc = d.scenarios_len;
    let dash_len = d.dashboard_symbols.len();

        app.scenarios_table.move_down(sc);
}

#[verifier::spinoff_prover]
fn view_scenarios_scroll_page_up(app: &mut App, d: &ViewData, effects: &Vec<Effect>)
    ensures
        spec_scenarios_scroll_page_up_post(old(app), final(app), d, effects@, effects@),
{
    proof {
        reveal(spec_scenarios_scroll_page_up_post);
    }
    let alerts_max = if d.alert_lines_len == 0 { 0 } else { d.alert_lines_len - 1 };
    let sc = d.scenarios_len;
    let dash_len = d.dashboard_symbols.len();

        app.scenarios_table.shift_selected(-10, sc);
}

#[verifier::spinoff_prover]
fn view_scenarios_scroll_page_down(app: &mut App, d: &ViewData, effects: &Vec<Effect>)
    ensures
        spec_scenarios_scroll_page_down_post(old(app), final(app), d, effects@, effects@),
{
    proof {
        reveal(spec_scenarios_scroll_page_down_post);
    }
    let alerts_max = if d.alert_lines_len == 0 { 0 } else { d.alert_lines_len - 1 };
    let sc = d.scenarios_len;
    let dash_len = d.dashboard_symbols.len();

        app.scenarios_table.shift_selected(10, sc);
}

#[verifier::spinoff_prover]
fn view_scenarios_detail(app: &mut App, d: &ViewData, effects: &Vec<Effect>)
    ensures
        spec_scenarios_detail_post(old(app), final(app), d, effects@, effects@),
{
    proof {
        reveal(spec_scenarios_detail_post);
    }
    let alerts_max = if d.alert_lines_len == 0 { 0 } else { d.alert_lines_len - 1 };
    let sc = d.scenarios_len;
    let dash_len = d.dashboard_symbols.len();

            if sc > 0 {
                let sel = app.scenarios_table.selected();
                let idx = if sel < sc - 1 { sel } else { sc - 1 };
                app.detail_popup = Some(DetailPopup::Scenario(idx));
            }
}

#[verifier::spinoff_prover]
fn view_scenarios_dte_contract(app: &mut App, d: &ViewData, effects: &Vec<Effect>)
    ensures
        spec_scenarios_dte_contract_post(old(app), final(app), d, effects@, effects@),
{
    proof {
        reveal(spec_scenarios_dte_contract_post);
    }
    let alerts_max = if d.alert_lines_len == 0 { 0 } else { d.alert_lines_len - 1 };
    let sc = d.scenarios_len;
    let dash_len = d.dashboard_symbols.len();

            let hw = app.scenarios_dte_half_width;
            app.scenarios_dte_half_width = if hw <= 1 { 0 } else { hw - 1 };
}

#[verifier::spinoff_prover]
fn view_scenarios_dte_expand(app: &mut App, d: &ViewData, effects: &Vec<Effect>)
    ensures
        spec_scenarios_dte_expand_post(old(app), final(app), d, effects@, effects@),
{
    proof {
        reveal(spec_scenarios_dte_expand_post);
    }
    let alerts_max = if d.alert_lines_len == 0 { 0 } else { d.alert_lines_len - 1 };
    let sc = d.scenarios_len;
    let dash_len = d.dashboard_symbols.len();

            let hw = app.scenarios_dte_half_width;
            app.scenarios_dte_half_width = if hw >= 59 { 60 } else { hw + 1 };
}

#[verifier::spinoff_prover]
fn view_scenarios_cycle_strike_width(app: &mut App, d: &ViewData, effects: &Vec<Effect>)
    ensures
        spec_scenarios_cycle_strike_width_post(old(app), final(app), d, effects@, effects@),
{
    proof {
        reveal(spec_scenarios_cycle_strike_width_post);
    }
    let alerts_max = if d.alert_lines_len == 0 { 0 } else { d.alert_lines_len - 1 };
    let sc = d.scenarios_len;
    let dash_len = d.dashboard_symbols.len();

            app.scenarios_strike_width_filter = match app.scenarios_strike_width_filter {
                None => Some(25),
                Some(w) => if w == 25 { Some(50) } else if w == 50 { Some(100) } else { None },
            };
}

#[verifier::spinoff_prover]
fn lists_view(app: &mut App, action: Action, d: &ViewData, effects: &Vec<Effect>)
    requires
        spec_is_lists_view(action),
    ensures
        spec_lists_view_post(old(app), final(app), action, d, effects@, effects@),
{
    match action {
        Action::AlertsScrollUp => view_alerts_scroll_up(app, d, effects),
        Action::AlertsScrollDown => view_alerts_scroll_down(app, d, effects),
        Action::AlertsScrollPageUp => view_alerts_scroll_page_up(app, d, effects),
        Action::AlertsScrollPageDown => view_alerts_scroll_page_down(app, d, effects),
        Action::DashboardScrollUp => view_dashboard_scroll_up(app, d, effects),
        Action::DashboardScrollDown => view_dashboard_scroll_down(app, d, effects),
        Action::DashboardNavigateToChart => view_dashboard_navigate_to_chart(app, d, effects),
        Action::ScenariosScrollUp => view_scenarios_scroll_up(app, d, effects),
        Action::ScenariosScrollDown => view_scenarios_scroll_down(app, d, effects),
        Action::ScenariosScrollPageUp => view_scenarios_scroll_page_up(app, d, effects),
        Action::ScenariosScrollPageDown => view_scenarios_scroll_page_down(app, d, effects),
        Action::ScenariosDetail => view_scenarios_detail(app, d, effects),
        Action::ScenariosDteContract => view_scenarios_dte_contract(app, d, effects),
        Action::ScenariosDteExpand => view_scenarios_dte_expand(app, d, effects),
        Action::ScenariosCycleStrikeWidth => view_scenarios_cycle_strike_width(app, d, effects),
        _ => {},
    }
}

fn history_contains(h: &VecDeque<String>, s: &str) -> (r: bool)
    ensures
        r == strings_view(h@).contains(s@),
{
    let mut i: usize = 0;
    while i < h.len()
        invariant
            i <= h@.len(),
            forall|j: int| 0 <= j < i ==> h@[j]@ != s@,
        decreases h@.len() - i,
    {
        if str_eq(h[i].as_str(), s) {
            assert(strings_view(h@)[i as int] == s@);
            return true;
        }
        i = i + 1;
    }
    assert forall|j: int| 0 <= j < strings_view(h@).len() implies strings_view(h@)[j] != s@ by {
        assert(strings_view(h@)[j] == h@[j]@);
    }
    false
}

/// Add a searched symbol to the history (see `spec_history_add`).
pub fn history_add(h: &mut VecDeque<String>, s: &str)
    ensures
        strings_view(final(h)@) == spec_history_add(strings_view(old(h)@), s@),
{
    if history_contains(h, s) {
        return;
    }
    let ghost before = strings_view(h@);
    h.push_front(copy_str(s));
    assert(strings_view(h@) =~= seq![s@] + before);
    if h.len() > CHART_SEARCH_HISTORY_MAX {
        let _ = h.pop_back();
        assert(strings_view(h@) =~= (seq![s@] + before).drop_last());
    }
}

#[verifier::spinoff_prover]
fn view_chart_search_focus(app: &mut App, effects: &mut Vec<Effect>)
    ensures
        spec_chart_search_focus_post(old(app), final(app), old(effects)@, final(effects)@),
{
    proof {
        reveal(spec_chart_search_focus_post);
    }
    let n = app.chart_search_results.len();

            app.chart_search_visible = true;
            app.chart_search_input = String::new();
            app.chart_search_results = Vec::new();
            app.chart_search_selected = 0;
            app.chart_search_interact.on_open();
            effects.push(Effect::UpdateChartSearchResults);
}

#[verifier::spinoff_prover]
fn view_chart_search_char(app: &mut App, effects: &mut Vec<Effect>, c: char)
    ensures
        spec_chart_search_char_post(old(app), final(app), old(effects)@, final(effects)@, c),
{
    proof {
        reveal(spec_chart_search_char_post);
    }
    let n = app.chart_search_results.len();

            push_char(&mut app.chart_search_input, c);
            app.chart_search_selected = 0;
            effects.push(Effect::UpdateChartSearchResults);
}

#[verifier::spinoff_prover]
fn view_chart_search_backspace(app: &mut App, effects: &mut Vec<Effect>)
    ensures
        spec_chart_search_backspace_post(old(app), final(app), old(effects)@, final(effects)@),
{
    proof {
        reveal(spec_chart_search_backspace_post);
    }
    let n = app.chart_search_results.len();

            let _ = pop_char(&mut app.chart_search_input);
            app.chart_search_selected = 0;
            effects.push(Effect::UpdateChartSearchResults);
}

#[verifier::spinoff_prover]
fn view_chart_search_up(app: &mut App, effects: &mut Vec<Effect>)
    ensures
        spec_chart_search_up_post(old(app), final(app), old(effects)@, final(effects)@),
{
    proof {
        reveal(spec_chart_search_up_post);
    }
    let n = app.chart_search_results.len();

            if n > 0 && app.chart_search_selected > 0 {
                app.chart_search_selected = app.chart_search_selected - 1;
            }
}

#[verifier::spinoff_prover]
fn view_chart_search_down(app: &mut App, effects: &mut Vec<Effect>)
    ensures
        spec_chart_search_down_post(old(app), final(app), old(effects)@, final(effects)@),
{
    proof {
        reveal(spec_chart_search_down_post);
    }
    let n = app.chart_search_results.len();

            app.chart_search_selected = if n == 0 {
                0
            } else if app.chart_search_selected < n - 1 {
                app.chart_search_selected + 1
            } else {
                n - 1
            };
}

/// The symbol a Charts search submits: the selected result when the query is empty and
/// there are results, else the typed query; none when both are empty (or the selection
/// is out of range).
pub open spec fn spec_search_pick(input: Seq<char>, results: Seq<Seq<char>>, sel: int) -> Option<Seq<char>> {
    if input.len() == 0 && results.len() > 0 {
        if sel < results.len() { Some(results[sel]) } else { None }
    } else if input.len() > 0 {
        Some(input)
    } else {
        None
    }
}

fn record_pick(input: &String, results: &Vec<String>, sel: usize, history: &mut VecDeque<String>, symbol: &mut String)
    ensures
        match spec_search_pick(input@, strings_view(results@), sel as int) {
            Some(p) => final(symbol)@ == p && strings_view(final(history)@) == spec_history_add(strings_view(old(history)@), p),
            None => *final(symbol) == *old(symbol) && *final(history) == *old(history),
        },
{
    let n = results.len();
    let input_len = input.unicode_len();
    if input_len == 0 && n > 0 {
        if sel < n {
            let picked = copy_str(results[sel].as_str());
            assert(picked@ == strings_view(results@)[sel as int]);
            history_add(history, picked.as_str());
            *symbol = picked;
        }
    } else if input_len > 0 {
        let picked = copy_str(input.as_str());
        history_add(history, picked.as_str());
        *symbol = picked;
    }
}

#[verifier::spinoff_prover]
#[verifier::rlimit(100)]
fn view_chart_search_enter(app: &mut App, effects: &mut Vec<Effect>)
    ensures
        spec_chart_search_enter_post(old(app), final(app), old(effects)@, final(effects)@),
{
    proof {
        reveal(spec_chart_search_enter_post);
    }
    record_pick(&app.chart_search_input, &app.chart_search_results, app.chart_search_selected,
        &mut app.chart_search_history, &mut app.symbol_for_chart);
    effects.push(Effect::SaveChartSearchHistory);
    app.chart_search_visible = false;
    app.chart_search_input = String::new();
    app.chart_search_interact.on_close();
}

#[verifier::spinoff_prover]
fn view_chart_search_escape(app: &mut App, effects: &mut Vec<Effect>)
    ensures
        spec_chart_search_escape_post(old(app), final(app), old(effects)@, final(effects)@),
{
    proof {
        reveal(spec_chart_search_escape_post);
    }
    let n = app.chart_search_results.len();

            app.chart_search_visible = false;
            app.chart_search_input = String::new();
            app.chart_search_results = Vec::new();
            app.chart_search_interact.on_close();
}

#[verifier::spinoff_prover]
fn view_chart_search_first(app: &mut App, effects: &mut Vec<Effect>)
    ensures
        spec_chart_search_first_post(old(app), final(app), old(effects)@, final(effects)@),
{
    proof {
        reveal(spec_chart_search_first_post);
    }
    let n = app.chart_search_results.len();

            if n > 0 {
                app.chart_search_selected = 0;
            }
}

#[verifier::spinoff_prover]
fn view_chart_search_last(app: &mut App, effects: &mut Vec<Effect>)
    ensures
        spec_chart_search_last_post(old(app), final(app), old(effects)@, final(effects)@),
{
    proof {
        reveal(spec_chart_search_last_post);
    }
    let n = app.chart_search_results.len();

            if n > 0 {
                app.chart_search_selected = n - 1;
            }
}

#[verifier::spinoff_prover]
fn chart_search(app: &mut App, action: Action, effects: &mut Vec<Effect>)
    requires
        spec_is_chart_search(action),
    ensures
        spec_chart_search_post(old(app), final(app), action, old(effects)@, final(effects)@),
{
    match action {
        Action::ChartSearchFocus => view_chart_search_focus(app, effects),
        Action::ChartSearchChar(c) => view_chart_search_char(app, effects, c),
        Action::ChartSearchBackspace => view_chart_search_backspace(app, effects),
        Action::ChartSearchUp => view_chart_search_up(app, effects),
        Action::ChartSearchDown => view_chart_search_down(app, effects),
        Action::ChartSearchEnter => view_chart_search_enter(app, effects),
        Action::ChartSearchEscape => view_chart_search_escape(app, effects),
        Action::ChartSearchFirst => view_chart_search_first(app, effects),
        Action::ChartSearchLast => view_chart_search_last(app, effects),
        _ => {},
    }
}

#[verifier::spinoff_prover]
fn view_chart_pill_left(app: &mut App, d: &ViewData)
    ensures
        spec_chart_pill_left_post(old(app), final(app), d),
{
    proof {
        reveal(spec_chart_pill_left_post);
    }

            if app.chart_pill_row == 0 && app.chart_expiry_index > 0 {
                app.chart_expiry_index = app.chart_expiry_index - 1;
            }
}

#[verifier::spinoff_prover]
fn view_chart_pill_right(app: &mut App, d: &ViewData)
    ensures
        spec_chart_pill_right_post(old(app), final(app), d),
{
    proof {
        reveal(spec_chart_pill_right_post);
    }

            if app.chart_pill_row == 0 && app.chart_expiry_index < d.chart_expiry_max_index {
                app.chart_expiry_index = app.chart_expiry_index + 1;
            }
}

#[verifier::spinoff_prover]
fn view_chart_pill_up(app: &mut App, d: &ViewData)
    ensures
        spec_chart_pill_up_post(old(app), final(app), d),
{
    proof {
        reveal(spec_chart_pill_up_post);
    }

            app.chart_pill_row = if app.chart_pill_row > 0 { app.chart_pill_row - 1 } else { 1 };
}

#[verifier::spinoff_prover]
fn view_chart_pill_down(app: &mut App, d: &ViewData)
    ensures
        spec_chart_pill_down_post(old(app), final(app), d),
{
    proof {
        reveal(spec_chart_pill_down_post);
    }

            if app.chart_pill_row < 1 {
                app.chart_pill_row = app.chart_pill_row + 1;
            }
}

#[verifier::spinoff_prover]
fn view_chart_pill_select(app: &mut App, d: &ViewData)
    ensures
        spec_chart_pill_select_post(old(app), final(app), d),
{
    proof {
        reveal(spec_chart_pill_select_post);
    }

            if app.chart_pill_row == 1 {
                app.chart_strike_index = next_strike_pill(app.chart_strike_index);
            }
}

/// The strike-width pill after `i`, wrapping after the last.
fn next_strike_pill(i: usize) -> (r: usize)
    ensures
        r == (i + 1) % (CHART_STRIKE_PILL_COUNT as int),
{
    let m: usize = i % CHART_STRIKE_PILL_COUNT;
    assert((i + 1) % 4 == if m == 3 { 0 } else { m + 1 });
    if m + 1 == CHART_STRIKE_PILL_COUNT { 0 } else { m + 1 }
}

#[verifier::spinoff_prover]
fn chart_pill(app: &mut App, action: Action, d: &ViewData)
    requires
        spec_is_chart_pill(action),
    ensures
        spec_chart_pill_post(old(app), final(app), action, d),
{
    match action {
        Action::ChartPillLeft => view_chart_pill_left(app, d),
        Action::ChartPillRight => view_chart_pill_right(app, d),
        Action::ChartPillUp => view_chart_pill_up(app, d),
        Action::ChartPillDown => view_chart_pill_down(app, d),
        Action::ChartPillSelect => view_chart_pill_select(app, d),
        _ => {},
    }
}

#[verifier::spinoff_prover]
fn view_log_scroll_up(app: &mut App, effects: &mut Vec<Effect>)
    ensures
        spec_log_scroll_up_post(old(app), final(app), old(effects)@, final(effects)@),
{
    proof {
        reveal(spec_log_scroll_up_post);
    }

        effects.push(Effect::LogWidget(LogWidgetKey::Up));
}

#[verifier::spinoff_prover]
fn view_log_scroll_down(app: &mut App, effects: &mut Vec<Effect>)
    ensures
        spec_log_scroll_down_post(old(app), final(app), old(effects)@, final(effects)@),
{
    proof {
        reveal(spec_log_scroll_down_post);
    }

        effects.push(Effect::LogWidget(LogWidgetKey::Down));
}

#[verifier::spinoff_prover]
fn view_log_page_up(app: &mut App, effects: &mut Vec<Effect>)
    ensures
        spec_log_page_up_post(old(app), final(app), old(effects)@, final(effects)@),
{
    proof {
        reveal(spec_log_page_up_post);
    }

        effects.push(Effect::LogWidget(LogWidgetKey::PrevPage));
}

#[verifier::spinoff_prover]
fn view_log_page_down(app: &mut App, effects: &mut Vec<Effect>)
    ensures
        spec_log_page_down_post(old(app), final(app), old(effects)@, final(effects)@),
{
    proof {
        reveal(spec_log_page_down_post);
    }

        effects.push(Effect::LogWidget(LogWidgetKey::NextPage));
}

#[verifier::spinoff_prover]
fn view_log_hide(app: &mut App, effects: &mut Vec<Effect>)
    ensures
        spec_log_hide_post(old(app), final(app), old(effects)@, final(effects)@),
{
    proof {
        reveal(spec_log_hide_post);
    }

        effects.push(Effect::LogWidget(LogWidgetKey::Hide));
}

#[verifier::spinoff_prover]
fn view_log_escape(app: &mut App, effects: &mut Vec<Effect>)
    ensures
        spec_log_escape_post(old(app), final(app), old(effects)@, final(effects)@),
{
    proof {
        reveal(spec_log_escape_post);
    }

        effects.push(Effect::LogWidget(LogWidgetKey::Escape));
}

#[verifier::spinoff_prover]
fn view_log_level_up(app: &mut App, effects: &mut Vec<Effect>)
    ensures
        spec_log_level_up_post(old(app), final(app), old(effects)@, final(effects)@),
{
    proof {
        reveal(spec_log_level_up_post);
    }

            effects.push(Effect::LogWidget(LogWidgetKey::Plus));
            app.log_display_level = app.log_display_level.up();
            effects.push(Effect::SetLogLevel(app.log_display_level));
}

#[verifier::spinoff_prover]
fn view_log_level_down(app: &mut App, effects: &mut Vec<Effect>)
    ensures
        spec_log_level_down_post(old(app), final(app), old(effects)@, final(effects)@),
{
    proof {
        reveal(spec_log_level_down_post);
    }

            effects.push(Effect::LogWidget(LogWidgetKey::Minus));
            app.log_display_level = app.log_display_level.down();
            effects.push(Effect::SetLogLevel(app.log_display_level));
}

#[verifier::spinoff_prover]
fn view_log_level_error(app: &mut App, effects: &mut Vec<Effect>)
    ensures
        spec_log_level_error_post(old(app), final(app), old(effects)@, final(effects)@),
{
    proof {
        reveal(spec_log_level_error_post);
    }

            app.log_display_level = LevelFilter::Error;
            effects.push(Effect::SetLogLevel(LevelFilter::Error));
}

#[verifier::spinoff_prover]
fn view_log_level_warn(app: &mut App, effects: &mut Vec<Effect>)
    ensures
        spec_log_level_warn_post(old(app), final(app), old(effects)@, final(effects)@),
{
    proof {
        reveal(spec_log_level_warn_post);
    }

            app.log_display_level = LevelFilter::Warn;
            effects.push(Effect::SetLogLevel(LevelFilter::Warn));
}

#[verifier::spinoff_prover]
fn view_log_level_info(app: &mut App, effects: &mut Vec<Effect>)
    ensures
        spec_log_level_info_post(old(app), final(app), old(effects)@, final(effects)@),
{
    proof {
        reveal(spec_log_level_info_post);
    }

            app.log_display_level = LevelFilter::Info;
            effects.push(Effect::SetLogLevel(LevelFilter::Info));
}

#[verifier::spinoff_prover]
fn view_log_level_debug(app: &mut App, effects: &mut Vec<Effect>)
    ensures
        spec_log_level_debug_post(old(app), final(app), old(effects)@, final(effects)@),
{
    proof {
        reveal(spec_log_level_debug_post);
    }

            app.log_display_level = LevelFilter::Debug;
            effects.push(Effect::SetLogLevel(LevelFilter::Debug));
}

#[verifier::spinoff_prover]
fn view_tree_up(app: &mut App, effects: &mut Vec<Effect>)
    ensures
        spec_tree_up_post(old(app), final(app), old(effects)@, final(effects)@),
{
    proof {
        reveal(spec_tree_up_post);
    }

        effects.push(Effect::Tree(TreeKey::Up));
}

#[verifier::spinoff_prover]
fn view_tree_down(app: &mut App, effects: &mut Vec<Effect>)
    ensures
        spec_tree_down_post(old(app), final(app), old(effects)@, final(effects)@),
{
    proof {
        reveal(spec_tree_down_post);
    }

        effects.push(Effect::Tree(TreeKey::Down));
}

#[verifier::spinoff_prover]
fn view_tree_left(app: &mut App, effects: &mut Vec<Effect>)
    ensures
        spec_tree_left_post(old(app), final(app), old(effects)@, final(effects)@),
{
    proof {
        reveal(spec_tree_left_post);
    }

        effects.push(Effect::Tree(TreeKey::Left));
}

#[verifier::spinoff_prover]
fn view_tree_right(app: &mut App, effects: &mut Vec<Effect>)
    ensures
        spec_tree_right_post(old(app), final(app), old(effects)@, final(effects)@),
{
    proof {
        reveal(spec_tree_right_post);
    }

        effects.push(Effect::Tree(TreeKey::Right));
}

#[verifier::spinoff_prover]
fn view_tree_toggle(app: &mut App, effects: &mut Vec<Effect>)
    ensures
        spec_tree_toggle_post(old(app), final(app), old(effects)@, final(effects)@),
{
    proof {
        reveal(spec_tree_toggle_post);
    }

        effects.push(Effect::Tree(TreeKey::Toggle));
}

#[verifier::spinoff_prover]
fn view_tree_escape(app: &mut App, effects: &mut Vec<Effect>)
    ensures
        spec_tree_escape_post(old(app), final(app), old(effects)@, final(effects)@),
{
    proof {
        reveal(spec_tree_escape_post);
    }

            app.show_tree_panel = false;
}

#[verifier::spinoff_prover]
fn log_tree(app: &mut App, action: Action, effects: &mut Vec<Effect>)
    requires
        spec_is_log_tree(action),
    ensures
        spec_log_tree_post(old(app), final(app), action, old(effects)@, final(effects)@),
{
    match action {
        Action::LogScrollUp => view_log_scroll_up(app, effects),
        Action::LogScrollDown => view_log_scroll_down(app, effects),
        Action::LogPageUp => view_log_page_up(app, effects),
        Action::LogPageDown => view_log_page_down(app, effects),
        Action::LogHide => view_log_hide(app, effects),
        Action::LogEscape => view_log_escape(app, effects),
        Action::LogLevelUp => view_log_level_up(app, effects),
        Action::LogLevelDown => view_log_level_down(app, effects),
        Action::LogLevelError => view_log_level_error(app, effects),
        Action::LogLevelWarn => view_log_level_warn(app, effects),
        Action::LogLevelInfo => view_log_level_info(app, effects),
        Action::LogLevelDebug => view_log_level_debug(app, effects),
        Action::TreeUp => view_tree_up(app, effects),
        Action::TreeDown => view_tree_down(app, effects),
        Action::TreeLeft => view_tree_left(app, effects),
        Action::TreeRight => view_tree_right(app, effects),
        Action::TreeToggle => view_tree_toggle(app, effects),
        Action::TreeEscape => view_tree_escape(app, effects),
        _ => {},
    }
}

/// Apply a view action (see `spec_view_post`); returns whether `action` is one.
#[verifier::spinoff_prover]
#[verifier::rlimit(100)]
pub fn apply_view_action(app: &mut App, action: Action, data: &ViewData, effects: &mut Vec<Effect>) -> (r: bool)
    ensures
        r == spec_is_view_action(action),
        spec_view_post(old(app), final(app), action, data, old(effects)@, final(effects)@),
{
    if command_is(action, 0) {
        orders_view(app, action, data, effects);
    } else if command_is(action, 1) {
        lists_view(app, action, data, effects);
    } else if command_is(action, 2) {
        chart_search(app, action, effects);
    } else if command_is(action, 3) {
        chart_pill(app, action, data);
    } else if command_is(action, 4) {
        log_tree(app, action, effects);
    } else if command_is(action, 5) {
        match action {
            Action::OrdersFilterFocusNext => app.orders_filter_interact.tab_next(),
            Action::OrdersFilterFocusPrev => app.orders_filter_interact.tab_prev(),
            Action::ChartSearchFocusNext => app.chart_search_interact.tab_next(),
            _ => app.chart_search_interact.tab_prev(),
        }
    } else {
        return false;
    }
    true
}

/// Whether `action` belongs to view group `g` (orders, lists, chart search, chart pills,
/// log and tree, focus cycling).
fn command_is(action: Action, g: u8) -> (r: bool)
    ensures
        g == 0 ==> r == spec_is_orders_view(action),
        g == 1 ==> r == spec_is_lists_view(action),
        g == 2 ==> r == spec_is_chart_search(action),
        g == 3 ==> r == spec_is_chart_pill(action),
        g == 4 ==> r == spec_is_log_tree(action),
        g == 5 ==> r == spec_is_focus_cycle(action),
        g > 5 ==> !r,
{
    match action {
        Action::OrdersScrollUp | Action::OrdersScrollDown | Action::OrdersScrollPageUp
        | Action::OrdersScrollPageDown | Action::OrdersDetail | Action::OrdersFilterFocus
        | Action::OrdersFilterChar(_) | Action::OrdersFilterBackspace | Action::OrdersFilterClear
        | Action::OrdersCancel => g == 0,
        Action::AlertsScrollUp | Action::AlertsScrollDown | Action::AlertsScrollPageUp
        | Action::AlertsScrollPageDown | Action::DashboardScrollUp | Action::DashboardScrollDown
        | Action::DashboardNavigateToChart | Action::ScenariosScrollUp | Action::ScenariosScrollDown
        | Action::ScenariosScrollPageUp | Action::ScenariosScrollPageDown | Action::ScenariosDetail
        | Action::ScenariosDteContract | Action::ScenariosDteExpand | Action::ScenariosCycleStrikeWidth => g == 1,
        Action::ChartSearchFocus | Action::ChartSearchChar(_) | Action::ChartSearchBackspace
        | Action::ChartSearchUp | Action::ChartSearchDown | Action::ChartSearchEnter
        | Action::ChartSearchEscape | Action::ChartSearchFirst | Action::ChartSearchLast => g == 2,
        Action::ChartPillLeft | Action::ChartPillRight | Action::ChartPillUp | Action::ChartPillDown
        | Action::ChartPillSelect => g == 3,
        Action::LogScrollUp | Action::LogScrollDown | Action::LogPageUp | Action::LogPageDown
        | Action::LogLevelUp | Action::LogLevelDown | Action::LogHide | Action::LogEscape
        | Action::LogLevelError | Action::LogLevelWarn | Action::LogLevelInfo | Action::LogLevelDebug
        | Action::TreeUp | Action::TreeDown | Action::TreeLeft | Action::TreeRight | Action::TreeToggle
        | Action::TreeEscape => g == 4,
        Action::OrdersFilterFocusNext | Action::OrdersFilterFocusPrev | Action::ChartSearchFocusNext
        | Action::ChartSearchFocusPrev => g == 5,
        _ => false,
    }
}

} // verus!
