//! Per-tab key maps (Yield, Charts, Positions, … → [`Action`]).
use vstd::prelude::*;
use crate::action::Action;
use crate::app::{spec_input_mode, App, InputMode};
use crate::input_settings::{settings_key_action, spec_settings_key_action};
use crate::keys::{is_control, spec_is_control, KeyCode};
use crate::tab::Tab;

verus! {

/// Tree panel overlay: arrows move, Enter toggles, Esc closes.
pub open spec fn spec_tree_panel_key_action(key: KeyCode) -> Option<Action> {
    match key {
        KeyCode::Up => Some(Action::TreeUp),
        KeyCode::Down => Some(Action::TreeDown),
        KeyCode::Left => Some(Action::TreeLeft),
        KeyCode::Right => Some(Action::TreeRight),
        KeyCode::Enter => Some(Action::TreeToggle),
        KeyCode::Esc => Some(Action::TreeEscape),
        _ => None,
    }
}

/// Tree panel overlay: arrows move, Enter toggles, Esc closes.
pub fn tree_panel_key_action(key: KeyCode) -> (r: Option<Action>)
    ensures
        r == spec_tree_panel_key_action(key),
{
    match key {
        KeyCode::Up => Some(Action::TreeUp),
        KeyCode::Down => Some(Action::TreeDown),
        KeyCode::Left => Some(Action::TreeLeft),
        KeyCode::Right => Some(Action::TreeRight),
        KeyCode::Enter => Some(Action::TreeToggle),
        KeyCode::Esc => Some(Action::TreeEscape),
        _ => None,
    }
}

/// Yield tab: Left/Right pick the symbol, Up/Down scroll the curve, Enter opens a point, r refreshes.
pub open spec fn spec_yield_key_action(key: KeyCode) -> Option<Action> {
    match key {
        KeyCode::Left => Some(Action::YieldSymbolPrev),
        KeyCode::Right => Some(Action::YieldSymbolNext),
        KeyCode::Up => Some(Action::YieldCurveScrollUp),
        KeyCode::Down => Some(Action::YieldCurveScrollDown),
        KeyCode::Enter => Some(Action::YieldCurveDetail),
        KeyCode::Char('r') | KeyCode::Char('R') => Some(Action::YieldRefresh),
        _ => None,
    }
}

/// Yield tab: Left/Right pick the symbol, Up/Down scroll the curve, Enter opens a point, r refreshes.
pub fn yield_key_action(key: KeyCode) -> (r: Option<Action>)
    ensures
        r == spec_yield_key_action(key),
{
    match key {
        KeyCode::Left => Some(Action::YieldSymbolPrev),
        KeyCode::Right => Some(Action::YieldSymbolNext),
        KeyCode::Up => Some(Action::YieldCurveScrollUp),
        KeyCode::Down => Some(Action::YieldCurveScrollDown),
        KeyCode::Enter => Some(Action::YieldCurveDetail),
        KeyCode::Char('r') | KeyCode::Char('R') => Some(Action::YieldRefresh),
        _ => None,
    }
}

/// Positions tab: c or Space toggles combo view, r cycles sort, arrows and pages scroll, Enter opens detail.
pub open spec fn spec_positions_key_action(key: KeyCode) -> Option<Action> {
    match key {
        KeyCode::Char('c') | KeyCode::Char('C') | KeyCode::Char(' ') => Some(Action::PositionsToggleCombo),
        KeyCode::Char('r') | KeyCode::Char('R') => Some(Action::PositionsCycleSort),
        KeyCode::Up => Some(Action::PositionsScrollUp),
        KeyCode::Down => Some(Action::PositionsScrollDown),
        KeyCode::PageUp => Some(Action::PositionsScrollPageUp),
        KeyCode::PageDown => Some(Action::PositionsScrollPageDown),
        KeyCode::Enter => Some(Action::PositionsDetail),
        _ => None,
    }
}

/// Positions tab: c or Space toggles combo view, r cycles sort, arrows and pages scroll, Enter opens detail.
pub fn positions_key_action(key: KeyCode) -> (r: Option<Action>)
    ensures
        r == spec_positions_key_action(key),
{
    match key {
        KeyCode::Char('c') | KeyCode::Char('C') | KeyCode::Char(' ') => Some(Action::PositionsToggleCombo),
        KeyCode::Char('r') | KeyCode::Char('R') => Some(Action::PositionsCycleSort),
        KeyCode::Up => Some(Action::PositionsScrollUp),
        KeyCode::Down => Some(Action::PositionsScrollDown),
        KeyCode::PageUp => Some(Action::PositionsScrollPageUp),
        KeyCode::PageDown => Some(Action::PositionsScrollPageDown),
        KeyCode::Enter => Some(Action::PositionsDetail),
        _ => None,
    }
}

/// Discount Bank tab: arrows and pages scroll, r refreshes.
pub open spec fn spec_discount_bank_key_action(key: KeyCode) -> Option<Action> {
    match key {
        KeyCode::Up => Some(Action::DiscountBankScrollUp),
        KeyCode::Down => Some(Action::DiscountBankScrollDown),
        KeyCode::PageUp => Some(Action::DiscountBankScrollPageUp),
        KeyCode::PageDown => Some(Action::DiscountBankScrollPageDown),
        KeyCode::Char('r') | KeyCode::Char('R') => Some(Action::DiscountBankRefresh),
        _ => None,
    }
}

/// Discount Bank tab: arrows and pages scroll, r refreshes.
pub fn discount_bank_key_action(key: KeyCode) -> (r: Option<Action>)
    ensures
        r == spec_discount_bank_key_action(key),
{
    match key {
        KeyCode::Up => Some(Action::DiscountBankScrollUp),
        KeyCode::Down => Some(Action::DiscountBankScrollDown),
        KeyCode::PageUp => Some(Action::DiscountBankScrollPageUp),
        KeyCode::PageDown => Some(Action::DiscountBankScrollPageDown),
        KeyCode::Char('r') | KeyCode::Char('R') => Some(Action::DiscountBankRefresh),
        _ => None,
    }
}

/// Alerts tab: arrows and pages scroll.
pub open spec fn spec_alerts_key_action(key: KeyCode) -> Option<Action> {
    match key {
        KeyCode::Up => Some(Action::AlertsScrollUp),
        KeyCode::Down => Some(Action::AlertsScrollDown),
        KeyCode::PageUp => Some(Action::AlertsScrollPageUp),
        KeyCode::PageDown => Some(Action::AlertsScrollPageDown),
        _ => None,
    }
}

/// Alerts tab: arrows and pages scroll.
pub fn alerts_key_action(key: KeyCode) -> (r: Option<Action>)
    ensures
        r == spec_alerts_key_action(key),
{
    match key {
        KeyCode::Up => Some(Action::AlertsScrollUp),
        KeyCode::Down => Some(Action::AlertsScrollDown),
        KeyCode::PageUp => Some(Action::AlertsScrollPageUp),
        KeyCode::PageDown => Some(Action::AlertsScrollPageDown),
        _ => None,
    }
}

/// Dashboard tab: arrows scroll, Enter charts the selected symbol.
pub open spec fn spec_dashboard_key_action(key: KeyCode) -> Option<Action> {
    match key {
        KeyCode::Up => Some(Action::DashboardScrollUp),
        KeyCode::Down => Some(Action::DashboardScrollDown),
        KeyCode::Enter => Some(Action::DashboardNavigateToChart),
        _ => None,
    }
}

/// Dashboard tab: arrows scroll, Enter charts the selected symbol.
pub fn dashboard_key_action(key: KeyCode) -> (r: Option<Action>)
    ensures
        r == spec_dashboard_key_action(key),
{
    match key {
        KeyCode::Up => Some(Action::DashboardScrollUp),
        KeyCode::Down => Some(Action::DashboardScrollDown),
        KeyCode::Enter => Some(Action::DashboardNavigateToChart),
        _ => None,
    }
}

/// Scenarios tab: arrows and pages scroll, Enter opens detail, o is the disabled execute key, [ and ] narrow and widen the DTE window, w cycles the strike width.
pub open spec fn spec_scenarios_key_action(key: KeyCode) -> Option<Action> {
    match key {
        KeyCode::Up => Some(Action::ScenariosScrollUp),
        KeyCode::Down => Some(Action::ScenariosScrollDown),
        KeyCode::PageUp => Some(Action::ScenariosScrollPageUp),
        KeyCode::PageDown => Some(Action::ScenariosScrollPageDown),
        KeyCode::Enter => Some(Action::ScenariosDetail),
        KeyCode::Char('o') | KeyCode::Char('O') => Some(Action::ScenariosExecute),
        KeyCode::Char('[') => Some(Action::ScenariosDteContract),
        KeyCode::Char(']') => Some(Action::ScenariosDteExpand),
        KeyCode::Char('w') | KeyCode::Char('W') => Some(Action::ScenariosCycleStrikeWidth),
        _ => None,
    }
}

/// Scenarios tab: arrows and pages scroll, Enter opens detail, o is the disabled execute key, [ and ] narrow and widen the DTE window, w cycles the strike width.
pub fn scenarios_key_action(key: KeyCode) -> (r: Option<Action>)
    ensures
        r == spec_scenarios_key_action(key),
{
    match key {
        KeyCode::Up => Some(Action::ScenariosScrollUp),
        KeyCode::Down => Some(Action::ScenariosScrollDown),
        KeyCode::PageUp => Some(Action::ScenariosScrollPageUp),
        KeyCode::PageDown => Some(Action::ScenariosScrollPageDown),
        KeyCode::Enter => Some(Action::ScenariosDetail),
        KeyCode::Char('o') | KeyCode::Char('O') => Some(Action::ScenariosExecute),
        KeyCode::Char('[') => Some(Action::ScenariosDteContract),
        KeyCode::Char(']') => Some(Action::ScenariosDteExpand),
        KeyCode::Char('w') | KeyCode::Char('W') => Some(Action::ScenariosCycleStrikeWidth),
        _ => None,
    }
}

/// Logs tab: arrows and pages scroll, + and - change the level, h hides, Esc resets, e/w/i/d pick a level.
pub open spec fn spec_logs_key_action(key: KeyCode) -> Option<Action> {
    match key {
        KeyCode::Up => Some(Action::LogScrollUp),
        KeyCode::Down => Some(Action::LogScrollDown),
        KeyCode::PageUp => Some(Action::LogPageUp),
        KeyCode::PageDown => Some(Action::LogPageDown),
        KeyCode::Char('+') => Some(Action::LogLevelUp),
        KeyCode::Char('-') => Some(Action::LogLevelDown),
        KeyCode::Char('h') | KeyCode::Char('H') => Some(Action::LogHide),
        KeyCode::Esc => Some(Action::LogEscape),
        KeyCode::Char('e') | KeyCode::Char('E') => Some(Action::LogLevelError),
        KeyCode::Char('w') | KeyCode::Char('W') => Some(Action::LogLevelWarn),
        KeyCode::Char('i') | KeyCode::Char('I') => Some(Action::LogLevelInfo),
        KeyCode::Char('d') | KeyCode::Char('D') => Some(Action::LogLevelDebug),
        _ => None,
    }
}

/// Logs tab: arrows and pages scroll, + and - change the level, h hides, Esc resets, e/w/i/d pick a level.
pub fn logs_key_action(key: KeyCode) -> (r: Option<Action>)
    ensures
        r == spec_logs_key_action(key),
{
    match key {
        KeyCode::Up => Some(Action::LogScrollUp),
        KeyCode::Down => Some(Action::LogScrollDown),
        KeyCode::PageUp => Some(Action::LogPageUp),
        KeyCode::PageDown => Some(Action::LogPageDown),
        KeyCode::Char('+') => Some(Action::LogLevelUp),
        KeyCode::Char('-') => Some(Action::LogLevelDown),
        KeyCode::Char('h') | KeyCode::Char('H') => Some(Action::LogHide),
        KeyCode::Esc => Some(Action::LogEscape),
        KeyCode::Char('e') | KeyCode::Char('E') => Some(Action::LogLevelError),
        KeyCode::Char('w') | KeyCode::Char('W') => Some(Action::LogLevelWarn),
        KeyCode::Char('i') | KeyCode::Char('I') => Some(Action::LogLevelInfo),
        KeyCode::Char('d') | KeyCode::Char('D') => Some(Action::LogLevelDebug),
        _ => None,
    }
}
/// Charts tab. `/` focuses the search. While searching, arrows and Home/End move in the
/// result list, Enter picks, Esc closes, Backspace and printable characters edit the
/// query, and Left/Right do nothing. Otherwise arrows and h/j/k/l move between expiry and
/// strike pills and Enter selects one.
pub open spec fn spec_charts_key_action(key: KeyCode, input_mode: InputMode) -> Option<Action> {
    let s = input_mode == InputMode::ChartSearch;
    match key {
        KeyCode::Char(c) => if c == '/' {
            Some(Action::ChartSearchFocus)
        } else if s && !spec_is_control(c) {
            Some(Action::ChartSearchChar(c))
        } else if c == 'h' || c == 'H' {
            Some(Action::ChartPillLeft)
        } else if c == 'l' || c == 'L' {
            Some(Action::ChartPillRight)
        } else if c == 'j' || c == 'J' {
            Some(Action::ChartPillDown)
        } else if c == 'k' || c == 'K' {
            Some(Action::ChartPillUp)
        } else {
            None
        },
        KeyCode::Left => if s { None } else { Some(Action::ChartPillLeft) },
        KeyCode::Right => if s { None } else { Some(Action::ChartPillRight) },
        KeyCode::Home => if s { Some(Action::ChartSearchFirst) } else { None },
        KeyCode::End => if s { Some(Action::ChartSearchLast) } else { None },
        KeyCode::Up => if s { Some(Action::ChartSearchUp) } else { Some(Action::ChartPillUp) },
        KeyCode::Down => if s { Some(Action::ChartSearchDown) } else { Some(Action::ChartPillDown) },
        KeyCode::Enter => if s { Some(Action::ChartSearchEnter) } else { Some(Action::ChartPillSelect) },
        KeyCode::Esc => if s { Some(Action::ChartSearchEscape) } else { None },
        KeyCode::Backspace => if s { Some(Action::ChartSearchBackspace) } else { None },
        _ => None,
    }
}

/// Charts tab key map (see `spec_charts_key_action`).
pub fn charts_key_action(key: KeyCode, input_mode: InputMode) -> (r: Option<Action>)
    ensures
        r == spec_charts_key_action(key, input_mode),
{
    let s = input_mode == InputMode::ChartSearch;
    match key {
        KeyCode::Char(c) => if c == '/' {
            Some(Action::ChartSearchFocus)
        } else if s && !is_control(c) {
            Some(Action::ChartSearchChar(c))
        } else if c == 'h' || c == 'H' {
            Some(Action::ChartPillLeft)
        } else if c == 'l' || c == 'L' {
            Some(Action::ChartPillRight)
        } else if c == 'j' || c == 'J' {
            Some(Action::ChartPillDown)
        } else if c == 'k' || c == 'K' {
            Some(Action::ChartPillUp)
        } else {
            None
        },
        KeyCode::Left => if s { None } else { Some(Action::ChartPillLeft) },
        KeyCode::Right => if s { None } else { Some(Action::ChartPillRight) },
        KeyCode::Home => if s { Some(Action::ChartSearchFirst) } else { None },
        KeyCode::End => if s { Some(Action::ChartSearchLast) } else { None },
        KeyCode::Up => if s { Some(Action::ChartSearchUp) } else { Some(Action::ChartPillUp) },
        KeyCode::Down => if s { Some(Action::ChartSearchDown) } else { Some(Action::ChartPillDown) },
        KeyCode::Enter => if s { Some(Action::ChartSearchEnter) } else { Some(Action::ChartPillSelect) },
        KeyCode::Esc => if s { Some(Action::ChartSearchEscape) } else { None },
        KeyCode::Backspace => if s { Some(Action::ChartSearchBackspace) } else { None },
        _ => None,
    }
}

/// Orders tab: arrows and pages scroll, Enter opens detail, x is the disabled cancel key,
/// `/` focuses the filter; while filtering, Esc clears it, Backspace deletes and other
/// printable characters are typed into it.
pub open spec fn spec_orders_key_action(key: KeyCode, input_mode: InputMode) -> Option<Action> {
    let f = input_mode == InputMode::OrdersFilter;
    match key {
        KeyCode::Up => Some(Action::OrdersScrollUp),
        KeyCode::Down => Some(Action::OrdersScrollDown),
        KeyCode::PageUp => Some(Action::OrdersScrollPageUp),
        KeyCode::PageDown => Some(Action::OrdersScrollPageDown),
        KeyCode::Enter => Some(Action::OrdersDetail),
        KeyCode::Char(c) => if c == 'x' || c == 'X' {
            Some(Action::OrdersCancel)
        } else if c == '/' {
            Some(Action::OrdersFilterFocus)
        } else if f && !spec_is_control(c) {
            Some(Action::OrdersFilterChar(c))
        } else {
            None
        },
        KeyCode::Esc => if f { Some(Action::OrdersFilterClear) } else { None },
        KeyCode::Backspace => if f { Some(Action::OrdersFilterBackspace) } else { None },
        _ => None,
    }
}

/// Orders tab key map (see `spec_orders_key_action`).
pub fn orders_key_action(key: KeyCode, input_mode: InputMode) -> (r: Option<Action>)
    ensures
        r == spec_orders_key_action(key, input_mode),
{
    let f = input_mode == InputMode::OrdersFilter;
    match key {
        KeyCode::Up => Some(Action::OrdersScrollUp),
        KeyCode::Down => Some(Action::OrdersScrollDown),
        KeyCode::PageUp => Some(Action::OrdersScrollPageUp),
        KeyCode::PageDown => Some(Action::OrdersScrollPageDown),
        KeyCode::Enter => Some(Action::OrdersDetail),
        KeyCode::Char(c) => if c == 'x' || c == 'X' {
            Some(Action::OrdersCancel)
        } else if c == '/' {
            Some(Action::OrdersFilterFocus)
        } else if f && !is_control(c) {
            Some(Action::OrdersFilterChar(c))
        } else {
            None
        },
        KeyCode::Esc => if f { Some(Action::OrdersFilterClear) } else { None },
        KeyCode::Backspace => if f { Some(Action::OrdersFilterBackspace) } else { None },
        _ => None,
    }
}

/// Loans tab. While a bulk-import path is typed, Esc cancels, Enter submits, Backspace
/// and printable characters edit it and every other key does nothing. Otherwise arrows
/// and pages scroll, n opens a new-loan form and b or i starts a bulk import.
pub open spec fn spec_loans_key_action(key: KeyCode, input_mode: InputMode) -> Option<Action> {
    if input_mode == InputMode::LoanImportPath {
        match key {
            KeyCode::Esc => Some(Action::LoansImportPathEscape),
            KeyCode::Enter => Some(Action::LoansImportPathEnter),
            KeyCode::Backspace => Some(Action::LoansImportPathBackspace),
            KeyCode::Char(c) => if !spec_is_control(c) { Some(Action::LoansImportPathChar(c)) } else { Some(Action::NoOp) },
            _ => Some(Action::NoOp),
        }
    } else {
        match key {
            KeyCode::Up => Some(Action::LoansScrollUp),
            KeyCode::Down => Some(Action::LoansScrollDown),
            KeyCode::PageUp => Some(Action::LoansScrollPageUp),
            KeyCode::PageDown => Some(Action::LoansScrollPageDown),
            KeyCode::Char(c) => if c == 'n' || c == 'N' {
                Some(Action::LoansNewLoan)
            } else if c == 'b' || c == 'B' || c == 'i' || c == 'I' {
                Some(Action::LoansBulkImportFocus)
            } else {
                None
            },
            _ => None,
        }
    }
}

/// Loans tab key map (see `spec_loans_key_action`).
pub fn loans_key_action(key: KeyCode, input_mode: InputMode) -> (r: Option<Action>)
    ensures
        r == spec_loans_key_action(key, input_mode),
{
    if input_mode == InputMode::LoanImportPath {
        match key {
            KeyCode::Esc => Some(Action::LoansImportPathEscape),
            KeyCode::Enter => Some(Action::LoansImportPathEnter),
            KeyCode::Backspace => Some(Action::LoansImportPathBackspace),
            KeyCode::Char(c) => if !is_control(c) { Some(Action::LoansImportPathChar(c)) } else { Some(Action::NoOp) },
            _ => Some(Action::NoOp),
        }
    } else {
        match key {
            KeyCode::Up => Some(Action::LoansScrollUp),
            KeyCode::Down => Some(Action::LoansScrollDown),
            KeyCode::PageUp => Some(Action::LoansScrollPageUp),
            KeyCode::PageDown => Some(Action::LoansScrollPageDown),
            KeyCode::Char(c) => if c == 'n' || c == 'N' {
                Some(Action::LoansNewLoan)
            } else if c == 'b' || c == 'B' || c == 'i' || c == 'I' {
                Some(Action::LoansBulkImportFocus)
            } else {
                None
            },
            _ => None,
        }
    }
}

/// Key map of the active tab; the tree panel, when it has the input, takes the keys.
pub open spec fn spec_tab_key_action(app: &App, key: KeyCode, input_mode: InputMode) -> Option<Action> {
    if input_mode == InputMode::TreePanel {
        spec_tree_panel_key_action(key)
    } else {
        match app.active_tab {
            Tab::Yield => spec_yield_key_action(key),
            Tab::Charts => spec_charts_key_action(key, input_mode),
            Tab::Settings => spec_settings_key_action(app, key),
            Tab::Positions => spec_positions_key_action(key),
            Tab::Orders => spec_orders_key_action(key, input_mode),
            Tab::Loans => spec_loans_key_action(key, input_mode),
            Tab::DiscountBank => spec_discount_bank_key_action(key),
            Tab::Alerts => spec_alerts_key_action(key),
            Tab::Dashboard => spec_dashboard_key_action(key),
            Tab::Scenarios => spec_scenarios_key_action(key),
            Tab::Logs => spec_logs_key_action(key),
        }
    }
}

/// Key map of the active tab (see `spec_tab_key_action`).
pub fn tab_key_action(app: &App, key: KeyCode, input_mode: InputMode) -> (r: Option<Action>)
    ensures
        r == spec_tab_key_action(app, key, input_mode),
{
    if input_mode == InputMode::TreePanel {
        return tree_panel_key_action(key);
    }
    match app.active_tab {
        Tab::Yield => yield_key_action(key),
        Tab::Charts => charts_key_action(key, input_mode),
        Tab::Settings => settings_key_action(app, key),
        Tab::Positions => positions_key_action(key),
        Tab::Orders => orders_key_action(key, input_mode),
        Tab::Loans => loans_key_action(key, input_mode),
        Tab::DiscountBank => discount_bank_key_action(key),
        Tab::Alerts => alerts_key_action(key),
        Tab::Dashboard => dashboard_key_action(key),
        Tab::Scenarios => scenarios_key_action(key),
        Tab::Logs => logs_key_action(key),
    }
}

} // verus!
