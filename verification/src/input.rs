//! Applying actions to the application state: the command palette closes once a command
//! runs, then the Settings, shell, loans and view handlers are tried in turn, and the
//! remaining Yield, Positions, mouse and config-edit actions are handled here.
use vstd::prelude::*;
use crate::action::{command_palette_input_action, spec_palette_input_action, Action};
use crate::app::{App, CommandStatus, DetailPopup, Effect};
use crate::app_config::{spec_config_hint, spec_config_row, spec_merge_overrides};
use crate::config::{spec_sort_next, spec_sort_value};
use crate::handle::set_override;
use crate::discoverability::CommandPalette;
use crate::input_loans::{apply_loan_action, spec_is_loan_action, spec_loan_post};
use crate::input_settings::{apply_settings_action, spec_is_settings_action, spec_settings_post};
use crate::input_shell::{apply_shell_action, spec_is_shell_action, spec_shell_post};
use crate::input_views::{
    apply_view_action, spec_down, spec_is_view_action, spec_shift, spec_up, spec_view_post, ViewData,
};
use crate::scrollable_table::TableView;
use crate::tab::Tab;

verus! {

/// Message shown when a config value opens for editing.
pub const CONFIG_EDIT_MESSAGE: &'static str = "Config edit mode active.";

/// The state an action starts from: an open command palette closes unless the action
/// is typing or navigating inside it.
pub open spec fn spec_palette_closed(a: &App, action: Action) -> App {
    if a.command_palette.visible && !spec_palette_input_action(action) {
        App { command_palette: CommandPalette { visible: false, ..a.command_palette }, ..*a }
    } else {
        *a
    }
}

/// Rows the Dashboard lists: the snapshot's symbols, or the watchlist before a snapshot.
pub open spec fn spec_dashboard_rows(a: &App, d: &ViewData) -> nat {
    if d.has_snapshot {
        d.dashboard_symbols@.len()
    } else {
        match a.watchlist_override {
            Some(w) => w@.len(),
            None => a.config.watchlist@.len(),
        }
    }
}

/// Mouse wheel over Positions: the selection moves by `delta` within the displayed rows.
#[verifier::opaque]
pub open spec fn spec_mouse_positions_post(a: &App, b: &App, delta: int, d: &ViewData) -> bool {
    *b == (App { positions_table: b.positions_table, ..*a })
        && b.positions_table@ == spec_shift(a.positions_table@, delta, d.positions_len as nat)
}

/// Mouse wheel over Orders: the selection moves by `delta` within the filtered orders.
#[verifier::opaque]
pub open spec fn spec_mouse_orders_post(a: &App, b: &App, delta: int, d: &ViewData) -> bool {
    *b == (App { orders_table: b.orders_table, ..*a })
        && b.orders_table@ == spec_shift(a.orders_table@, delta, d.filtered_orders_len as nat)
}

/// Mouse wheel over the Dashboard: the selection moves by `delta` within its rows.
#[verifier::opaque]
pub open spec fn spec_mouse_dashboard_post(a: &App, b: &App, delta: int, d: &ViewData) -> bool {
    *b == (App { dashboard_table: b.dashboard_table, ..*a })
        && b.dashboard_table@ == spec_shift(a.dashboard_table@, delta, spec_dashboard_rows(a, d))
}

/// Mouse wheel over the yield curve: the selection moves by `delta` within its points,
/// when a curve is loaded.
#[verifier::opaque]
pub open spec fn spec_mouse_yield_post(a: &App, b: &App, delta: int, d: &ViewData) -> bool {
    match d.yield_point_count {
        Some(n) => *b == (App { yield_curve_table: b.yield_curve_table, ..*a })
            && b.yield_curve_table@ == spec_shift(a.yield_curve_table@, delta, n as nat),
        None => *b == *a,
    }
}

/// Mouse wheel over `tab`: scrolls the selection of Positions, Orders, Dashboard or the
/// yield curve by `delta` rows; other panes ignore it.
pub open spec fn spec_mouse_post(a: &App, b: &App, delta: int, tab: Tab, d: &ViewData) -> bool {
    match tab {
        Tab::Positions => spec_mouse_positions_post(a, b, delta, d),
        Tab::Orders => spec_mouse_orders_post(a, b, delta, d),
        Tab::Dashboard => spec_mouse_dashboard_post(a, b, delta, d),
        Tab::Yield => spec_mouse_yield_post(a, b, delta, d),
        _ => *b == *a,
    }
}

/// Length of the effective watchlist.
pub open spec fn spec_watchlist_count(a: &App) -> nat {
    match a.watchlist_override {
        Some(w) => w@.len(),
        None => a.config.watchlist@.len(),
    }
}

/// Yield refresh: a request goes out when none is pending, the channel is wired and the
/// configured watchlist is not empty.
#[verifier::opaque]
pub open spec fn spec_yield_refresh_post(a: &App, b: &App, e0: Seq<Effect>, e1: Seq<Effect>) -> bool {
    *b == *a && e1 == e0 + if !a.yield_refresh_pending && a.wiring.yield_refresh
        && a.config.watchlist@.len() > 0 {
        seq![Effect::SendYieldRefresh]
    } else {
        Seq::empty()
    }
}

/// Yield symbol Left/Right: with a watchlist of `n` symbols, the index steps back or
/// forward modulo `n`, the curve table resets and the cached curve is shown.
#[verifier::opaque]
pub open spec fn spec_yield_symbol_post(a: &App, b: &App, forward: bool, e0: Seq<Effect>, e1: Seq<Effect>) -> bool {
    let n = spec_watchlist_count(a);
    if n > 0 {
        *b == (App { yield_symbol_index: b.yield_symbol_index, yield_curve_table: b.yield_curve_table, ..*a })
            && b.yield_symbol_index == spec_cycle_index(a.yield_symbol_index as int, n as int, forward)
            && b.yield_curve_table@ == (TableView { selected: 0, scroll: 0 })
            && e1 == e0.push(Effect::SyncYieldCurve)
    } else {
        *b == *a && e1 == e0
    }
}

/// Yield curve Up: the selection moves one point up.
#[verifier::opaque]
pub open spec fn spec_yield_up_post(a: &App, b: &App) -> bool {
    *b == (App { yield_curve_table: b.yield_curve_table, ..*a })
        && b.yield_curve_table@ == spec_up(a.yield_curve_table@)
}

/// Yield curve Down: the selection moves one point down, when a curve is loaded.
#[verifier::opaque]
pub open spec fn spec_yield_down_post(a: &App, b: &App, d: &ViewData) -> bool {
    match d.yield_point_count {
        Some(c) => *b == (App { yield_curve_table: b.yield_curve_table, ..*a })
            && b.yield_curve_table@ == spec_down(a.yield_curve_table@, c as nat),
        None => *b == *a,
    }
}

/// Yield curve Enter: the selected point opens, when it exists.
#[verifier::opaque]
pub open spec fn spec_yield_detail_post(a: &App, b: &App, d: &ViewData) -> bool {
    match d.yield_point_count {
        Some(c) => if a.yield_curve_table@.selected < c {
            *b == (App { detail_popup: Some(DetailPopup::YieldPoint(a.yield_curve_table@.selected as usize)), ..*a })
        } else {
            *b == *a
        },
        None => *b == *a,
    }
}

/// The index after stepping forward or back from `k` among `n` entries.
pub open spec fn spec_cycle_index(k: int, n: int, forward: bool) -> int {
    if forward { (k + 1) % n } else { (k + n - 1) % n }
}

/// Stepping forward then back (or back then forward) among `n` entries returns to the
/// entry one started from.
pub proof fn law_cycle_index_inverse(k: int, n: int)
    requires
        0 <= k < n,
    ensures
        spec_cycle_index(spec_cycle_index(k, n, true), n, false) == k,
        spec_cycle_index(spec_cycle_index(k, n, false), n, true) == k,
{
    vstd::arithmetic::div_mod::lemma_small_mod(k as nat, n as nat);
    vstd::arithmetic::div_mod::lemma_mod_add_multiples_vanish(k, n);
    if k + 1 < n {
        vstd::arithmetic::div_mod::lemma_small_mod((k + 1) as nat, n as nat);
    } else {
        vstd::arithmetic::div_mod::lemma_mod_self_0(n);
        vstd::arithmetic::div_mod::lemma_small_mod((n - 1) as nat, n as nat);
    }
    if k == 0 {
        vstd::arithmetic::div_mod::lemma_small_mod((n - 1) as nat, n as nat);
        vstd::arithmetic::div_mod::lemma_mod_self_0(n);
    } else {
        vstd::arithmetic::div_mod::lemma_mod_add_multiples_vanish(k - 1, n);
        vstd::arithmetic::div_mod::lemma_small_mod((k - 1) as nat, n as nat);
        assert(k + n - 1 == n + (k - 1));
    }
}

/// Yield tab actions: refresh publishes a request; Left/Right cycle the symbol; Up/Down
/// move in the curve; Enter opens the selected point.
pub open spec fn spec_yield_post(a: &App, b: &App, action: Action, d: &ViewData, e0: Seq<Effect>, e1: Seq<Effect>) -> bool {
    match action {
        Action::YieldRefresh => spec_yield_refresh_post(a, b, e0, e1),
        Action::YieldSymbolPrev => spec_yield_symbol_post(a, b, false, e0, e1),
        Action::YieldSymbolNext => spec_yield_symbol_post(a, b, true, e0, e1),
        Action::YieldCurveScrollUp => spec_yield_up_post(a, b) && e1 == e0,
        Action::YieldCurveScrollDown => spec_yield_down_post(a, b, d) && e1 == e0,
        Action::YieldCurveDetail => spec_yield_detail_post(a, b, d) && e1 == e0,
        _ => *b == *a && e1 == e0,
    }
}

/// Positions combo toggle: the combo view flips and the selection resets.
#[verifier::opaque]
pub open spec fn spec_positions_combo_post(a: &App, b: &App) -> bool {
    *b == (App { positions_combo_view: !a.positions_combo_view, positions_table: b.positions_table, ..*a })
        && b.positions_table@ == (TableView { selected: 0, scroll: 0 })
}

/// Positions sort cycle: the next order is recorded as the `TUI_POSITIONS_SORT`
/// override and the configuration rebuilt from the base with the overrides (hint and
/// split pane follow it); the selection resets (the caller re-sorts).
#[verifier::opaque]
pub open spec fn spec_positions_sort_post(a: &App, b: &App) -> bool {
    let ov = a.config_overrides@.insert(
        "TUI_POSITIONS_SORT"@,
        spec_sort_value(spec_sort_next(a.config.positions_sort)),
    );
    &&& *b == (App {
        positions_table: b.positions_table,
        config_overrides: b.config_overrides,
        config: b.config,
        config_warning: b.config_warning,
        split_pane: b.split_pane,
        ..*a
    })
    &&& b.positions_table@ == (TableView { selected: 0, scroll: 0 })
    &&& b.config_overrides@ == ov
    &&& b.config@ == spec_merge_overrides(a.base_config@, ov)
    &&& match b.config_warning {
        Some(w) => spec_config_hint(b.config@) == Some(w@),
        None => spec_config_hint(b.config@) is None,
    }
    &&& b.split_pane == b.config.split_pane
}

/// Positions scrolling by `delta` rows (one row: `spec_up` / `spec_down`; a page: ten).
#[verifier::opaque]
pub open spec fn spec_positions_scroll_post(a: &App, b: &App, delta: int, d: &ViewData) -> bool {
    let len = d.positions_len as nat;
    *b == (App { positions_table: b.positions_table, ..*a })
        && b.positions_table@ == if delta == -1 {
            spec_up(a.positions_table@)
        } else if delta == 1 {
            spec_down(a.positions_table@, len)
        } else {
            spec_shift(a.positions_table@, delta, len)
        }
}

/// Positions tab actions: toggling the combo view or cycling the sort resets the
/// selection (the sort itself is re-applied by the caller); scrolling moves within the
/// displayed rows; Enter opens the selected row.
pub open spec fn spec_positions_post(a: &App, b: &App, action: Action, d: &ViewData, e0: Seq<Effect>, e1: Seq<Effect>) -> bool {
    match action {
        Action::PositionsToggleCombo => spec_positions_combo_post(a, b) && e1 == e0,
        Action::PositionsCycleSort => spec_positions_sort_post(a, b) && e1 == e0.push(Effect::CyclePositionsSort),
        Action::PositionsScrollUp => spec_positions_scroll_post(a, b, -1, d) && e1 == e0,
        Action::PositionsScrollDown => spec_positions_scroll_post(a, b, 1, d) && e1 == e0,
        Action::PositionsScrollPageUp => spec_positions_scroll_post(a, b, -10, d) && e1 == e0,
        Action::PositionsScrollPageDown => spec_positions_scroll_post(a, b, 10, d) && e1 == e0,
        Action::PositionsDetail => *b == *a && e1 == e0.push(Effect::OpenPositionDetail),
        _ => *b == *a && e1 == e0,
    }
}

/// Opening a config value for editing: the selected Settings config row, when there is
/// one, fills the edit key and buffer and explains the mode.
#[verifier::opaque]
pub open spec fn spec_edit_config_post(a: &App, b: &App) -> bool {
    match spec_config_row(a.config@, a.settings_config_key_index as int) {
        Some((k, v)) => (b.settings_edit_config_key matches Some(key) && key@ == k)
            && (b.settings_add_symbol_input matches Some(buf) && buf@ == v)
            && b.toast_manager@ == a.toast_manager@
            && (b.last_command_status matches Some(st) && st.status == CommandStatus::Completed
                && (st.message matches Some(m) && m@ == CONFIG_EDIT_MESSAGE@))
            && *b == (App { settings_edit_config_key: b.settings_edit_config_key,
                settings_add_symbol_input: b.settings_add_symbol_input,
                last_command_status: b.last_command_status, toast_manager: b.toast_manager,
                dirty_flags: b.dirty_flags, needs_redraw: true, ..*a }),
        None => *b == *a,
    }
}

/// Actions no handler owns, on the state after the palette check.
pub open spec fn spec_rest_post(a: &App, b: &App, action: Action, d: &ViewData, e0: Seq<Effect>, e1: Seq<Effect>) -> bool {
    match action {
        Action::YieldRefresh | Action::YieldSymbolPrev | Action::YieldSymbolNext | Action::YieldCurveScrollUp
        | Action::YieldCurveScrollDown | Action::YieldCurveDetail => spec_yield_post(a, b, action, d, e0, e1),
        Action::PositionsToggleCombo | Action::PositionsCycleSort | Action::PositionsScrollUp
        | Action::PositionsScrollDown | Action::PositionsScrollPageUp | Action::PositionsScrollPageDown
        | Action::PositionsDetail => spec_positions_post(a, b, action, d, e0, e1),
        Action::MouseScrollUp => spec_mouse_post(a, b, -3, a.active_tab, d) && e1 == e0,
        Action::MouseScrollDown => spec_mouse_post(a, b, 3, a.active_tab, d) && e1 == e0,
        Action::MouseScrollUpIn(t) => spec_mouse_post(a, b, -3, t, d) && e1 == e0,
        Action::MouseScrollDownIn(t) => spec_mouse_post(a, b, 3, t, d) && e1 == e0,
        Action::SettingsEditConfig => spec_edit_config_post(a, b) && e1 == e0,
        _ => *b == *a && e1 == e0,
    }
}

/// What the first handler that owns `action` does to `a`.
#[verifier::opaque]
pub open spec fn spec_dispatch(a: &App, b: &App, action: Action, d: &ViewData, e0: Seq<Effect>, e1: Seq<Effect>) -> bool {
    if spec_is_settings_action(a, action) {
        spec_settings_post(a, b, action, e0, e1)
    } else if spec_is_shell_action(action) {
        spec_shell_post(a, b, action, e0, e1)
    } else if spec_is_loan_action(a, action) {
        spec_loan_post(a, b, action, e0, e1)
    } else if spec_is_view_action(action) {
        spec_view_post(a, b, action, d, e0, e1)
    } else {
        spec_rest_post(a, b, action, d, e0, e1)
    }
}

/// What applying `action` does: after the palette check, the first handler that owns
/// the action decides the result.
pub open spec fn spec_apply_action(a: &App, b: &App, action: Action, d: &ViewData, e0: Seq<Effect>, e1: Seq<Effect>) -> bool {
    spec_dispatch(&spec_palette_closed(a, action), b, action, d, e0, e1)
}

#[verifier::spinoff_prover]
fn mouse_positions(app: &mut App, delta: isize, d: &ViewData)
    ensures
        spec_mouse_positions_post(old(app), final(app), delta as int, d),
{
    proof {
        reveal(spec_mouse_positions_post);
    }
    app.positions_table.shift_selected(delta, d.positions_len);
}

#[verifier::spinoff_prover]
fn mouse_orders(app: &mut App, delta: isize, d: &ViewData)
    ensures
        spec_mouse_orders_post(old(app), final(app), delta as int, d),
{
    proof {
        reveal(spec_mouse_orders_post);
    }
    app.orders_table.shift_selected(delta, d.filtered_orders_len);
}

#[verifier::spinoff_prover]
fn mouse_dashboard(app: &mut App, delta: isize, d: &ViewData)
    ensures
        spec_mouse_dashboard_post(old(app), final(app), delta as int, d),
{
    proof {
        reveal(spec_mouse_dashboard_post);
    }
    let len: usize = if d.has_snapshot {
        d.dashboard_symbols.len()
    } else {
        match &app.watchlist_override {
            Some(w) => w.len(),
            None => app.config.watchlist.len(),
        }
    };
    app.dashboard_table.shift_selected(delta, len);
}

#[verifier::spinoff_prover]
fn mouse_yield(app: &mut App, delta: isize, d: &ViewData)
    ensures
        spec_mouse_yield_post(old(app), final(app), delta as int, d),
{
    proof {
        reveal(spec_mouse_yield_post);
    }
    if let Some(n) = d.yield_point_count {
        app.yield_curve_table.shift_selected(delta, n);
    }
}

fn apply_mouse_scroll(app: &mut App, delta: isize, tab: Tab, d: &ViewData)
    ensures
        spec_mouse_post(old(app), final(app), delta as int, tab, d),
{
    match tab {
        Tab::Positions => mouse_positions(app, delta, d),
        Tab::Orders => mouse_orders(app, delta, d),
        Tab::Dashboard => mouse_dashboard(app, delta, d),
        Tab::Yield => mouse_yield(app, delta, d),
        _ => {},
    }
}

/// Step `k` forward or back among `n` entries, wrapping around.
pub fn cycle_index(k: usize, n: usize, forward: bool) -> (r: usize)
    requires
        n > 0,
    ensures
        r as int == spec_cycle_index(k as int, n as int, forward),
        r < n,
{
    let i: usize = k % n;
    proof {
        let ni = n as int;
        let ki = k as int;
        if forward {
            vstd::arithmetic::div_mod::lemma_add_mod_noop_right(1, ki, ni);
            if i + 1 < n {
                vstd::arithmetic::div_mod::lemma_small_mod((i + 1) as nat, n as nat);
            } else {
                vstd::arithmetic::div_mod::lemma_mod_self_0(ni);
            }
        } else {
            vstd::arithmetic::div_mod::lemma_add_mod_noop_right(ni - 1, ki, ni);
            if i == 0 {
                vstd::arithmetic::div_mod::lemma_small_mod((n - 1) as nat, n as nat);
            } else {
                vstd::arithmetic::div_mod::lemma_mod_add_multiples_vanish(i - 1, ni);
                vstd::arithmetic::div_mod::lemma_small_mod((i - 1) as nat, n as nat);
                assert(ni - 1 + i == ni + (i - 1));
            }
        }
    }
    if forward {
        if i + 1 == n { 0 } else { i + 1 }
    } else {
        if i == 0 { n - 1 } else { i - 1 }
    }
}

#[verifier::spinoff_prover]
fn yield_refresh(app: &mut App, effects: &mut Vec<Effect>)
    ensures
        spec_yield_refresh_post(old(app), final(app), old(effects)@, final(effects)@),
{
    proof {
        reveal(spec_yield_refresh_post);
    }
    if app.request_yield_fetch() {
        effects.push(Effect::SendYieldRefresh);
        assert(effects@ =~= old(effects)@ + seq![Effect::SendYieldRefresh]);
    } else {
        assert(effects@ =~= old(effects)@ + Seq::<Effect>::empty());
    }
}

fn watchlist_count(app: &App) -> (n: usize)
    ensures
        n == spec_watchlist_count(app),
{
    match &app.watchlist_override {
        Some(w) => w.len(),
        None => app.config.watchlist.len(),
    }
}

#[verifier::spinoff_prover]
fn yield_symbol(app: &mut App, forward: bool, effects: &mut Vec<Effect>)
    ensures
        spec_yield_symbol_post(old(app), final(app), forward, old(effects)@, final(effects)@),
{
    proof {
        reveal(spec_yield_symbol_post);
    }
    let n: usize = watchlist_count(app);
    if n > 0 {
        let next: usize = cycle_index(app.yield_symbol_index, n, forward);
        app.yield_symbol_index = next;
        app.yield_curve_table.reset();
        effects.push(Effect::SyncYieldCurve);
    }
}

#[verifier::spinoff_prover]
fn yield_up(app: &mut App)
    ensures
        spec_yield_up_post(old(app), final(app)),
{
    proof {
        reveal(spec_yield_up_post);
    }
    app.yield_curve_table.move_up();
}

#[verifier::spinoff_prover]
fn yield_down(app: &mut App, d: &ViewData)
    ensures
        spec_yield_down_post(old(app), final(app), d),
{
    proof {
        reveal(spec_yield_down_post);
    }
    if let Some(c) = d.yield_point_count {
        app.yield_curve_table.move_down(c);
    }
}

#[verifier::spinoff_prover]
fn yield_detail(app: &mut App, d: &ViewData)
    ensures
        spec_yield_detail_post(old(app), final(app), d),
{
    proof {
        reveal(spec_yield_detail_post);
    }
    if let Some(c) = d.yield_point_count {
        let sel: usize = app.yield_curve_table.selected();
        if sel < c {
            app.detail_popup = Some(DetailPopup::YieldPoint(sel));
        }
    }
}

fn apply_yield_action(app: &mut App, action: Action, d: &ViewData, effects: &mut Vec<Effect>)
    ensures
        spec_yield_post(old(app), final(app), action, d, old(effects)@, final(effects)@),
{
    match action {
        Action::YieldRefresh => yield_refresh(app, effects),
        Action::YieldSymbolPrev => yield_symbol(app, false, effects),
        Action::YieldSymbolNext => yield_symbol(app, true, effects),
        Action::YieldCurveScrollUp => yield_up(app),
        Action::YieldCurveScrollDown => yield_down(app, d),
        Action::YieldCurveDetail => yield_detail(app, d),
        _ => {},
    }
}

#[verifier::spinoff_prover]
fn positions_combo(app: &mut App)
    ensures
        spec_positions_combo_post(old(app), final(app)),
{
    proof {
        reveal(spec_positions_combo_post);
    }
    app.positions_combo_view = !app.positions_combo_view;
    app.positions_table.reset();
}

#[verifier::spinoff_prover]
fn positions_sort(app: &mut App)
    ensures
        spec_positions_sort_post(old(app), final(app)),
{
    proof {
        reveal(spec_positions_sort_post);
    }
    let next = app.config.positions_sort.next();
    set_override(&mut app.config_overrides, &mut app.config, &mut app.config_warning, &mut app.split_pane,
        &app.base_config, "TUI_POSITIONS_SORT", next.as_setting_value());
    app.positions_table.reset();
}

#[verifier::spinoff_prover]
fn positions_up(app: &mut App, d: &ViewData)
    ensures
        spec_positions_scroll_post(old(app), final(app), -1, d),
{
    proof {
        reveal(spec_positions_scroll_post);
    }
    app.positions_table.move_up();
}

#[verifier::spinoff_prover]
fn positions_down(app: &mut App, d: &ViewData)
    ensures
        spec_positions_scroll_post(old(app), final(app), 1, d),
{
    proof {
        reveal(spec_positions_scroll_post);
    }
    app.positions_table.move_down(d.positions_len);
}

#[verifier::spinoff_prover]
fn positions_page(app: &mut App, delta: isize, d: &ViewData)
    requires
        delta == 10 || delta == -10,
    ensures
        spec_positions_scroll_post(old(app), final(app), delta as int, d),
{
    proof {
        reveal(spec_positions_scroll_post);
    }
    app.positions_table.shift_selected(delta, d.positions_len);
}

fn apply_positions_action(app: &mut App, action: Action, d: &ViewData, effects: &mut Vec<Effect>)
    ensures
        spec_positions_post(old(app), final(app), action, d, old(effects)@, final(effects)@),
{
    match action {
        Action::PositionsToggleCombo => positions_combo(app),
        Action::PositionsCycleSort => {
            positions_sort(app);
            effects.push(Effect::CyclePositionsSort);
        },
        Action::PositionsScrollUp => positions_up(app, d),
        Action::PositionsScrollDown => positions_down(app, d),
        Action::PositionsScrollPageUp => positions_page(app, -10, d),
        Action::PositionsScrollPageDown => positions_page(app, 10, d),
        Action::PositionsDetail => effects.push(Effect::OpenPositionDetail),
        _ => {},
    }
}

#[verifier::spinoff_prover]
#[verifier::rlimit(50)]
fn open_config_edit(app: &mut App)
    ensures
        spec_edit_config_post(old(app), final(app)),
{
    proof {
        reveal(spec_edit_config_post);
    }
    if let Some((key, value)) = app.config_key_value_at(app.settings_config_key_index) {
        app.settings_edit_config_key = Some(key);
        app.settings_add_symbol_input = Some(value);
        app.command_success("settings", CONFIG_EDIT_MESSAGE);
    }
}

#[verifier::spinoff_prover]
fn apply_rest(app: &mut App, action: Action, d: &ViewData, effects: &mut Vec<Effect>)
    ensures
        spec_rest_post(old(app), final(app), action, d, old(effects)@, final(effects)@),
{
    match action {
        Action::YieldRefresh | Action::YieldSymbolPrev | Action::YieldSymbolNext | Action::YieldCurveScrollUp
        | Action::YieldCurveScrollDown | Action::YieldCurveDetail => apply_yield_action(app, action, d, effects),
        Action::PositionsToggleCombo | Action::PositionsCycleSort | Action::PositionsScrollUp
        | Action::PositionsScrollDown | Action::PositionsScrollPageUp | Action::PositionsScrollPageDown
        | Action::PositionsDetail => apply_positions_action(app, action, d, effects),
        Action::MouseScrollUp => {
            let t = app.active_tab;
            apply_mouse_scroll(app, -3, t, d);
        },
        Action::MouseScrollDown => {
            let t = app.active_tab;
            apply_mouse_scroll(app, 3, t, d);
        },
        Action::MouseScrollUpIn(t) => apply_mouse_scroll(app, -3, t, d),
        Action::MouseScrollDownIn(t) => apply_mouse_scroll(app, 3, t, d),
        Action::SettingsEditConfig => open_config_edit(app),
        _ => {},
    }
}

proof fn lemma_not_settings(a: &App, b: &App, action: Action, e0: Seq<Effect>, e1: Seq<Effect>)
    requires
        !spec_is_settings_action(a, action),
        spec_settings_post(a, b, action, e0, e1),
    ensures
        *b == *a,
        e1 == e0,
{
}

proof fn lemma_not_shell(a: &App, b: &App, action: Action, e0: Seq<Effect>, e1: Seq<Effect>)
    requires
        !spec_is_shell_action(action),
        spec_shell_post(a, b, action, e0, e1),
    ensures
        *b == *a,
        e1 == e0,
{
}

proof fn lemma_not_loan(a: &App, b: &App, action: Action, e0: Seq<Effect>, e1: Seq<Effect>)
    requires
        !spec_is_loan_action(a, action),
        spec_loan_post(a, b, action, e0, e1),
    ensures
        *b == *a,
        e1 == e0,
{
    if action == Action::SettingsDelete {
        reveal(crate::input_loans::spec_settings_delete_post);
    }
}

proof fn lemma_not_view(a: &App, b: &App, action: Action, d: &ViewData, e0: Seq<Effect>, e1: Seq<Effect>)
    requires
        !spec_is_view_action(action),
        spec_view_post(a, b, action, d, e0, e1),
    ensures
        *b == *a,
        e1 == e0,
{
}

#[verifier::spinoff_prover]
#[verifier::rlimit(100)]
fn dispatch(app: &mut App, action: Action, data: &ViewData, effects: &mut Vec<Effect>)
    ensures
        spec_dispatch(old(app), final(app), action, data, old(effects)@, final(effects)@),
{
    proof {
        reveal(spec_dispatch);
    }
    if apply_settings_action(app, action, effects) {
        return;
    }
    proof {
        lemma_not_settings(old(app), app, action, old(effects)@, effects@);
    }
    if apply_shell_action(app, action, effects) {
        return;
    }
    proof {
        lemma_not_shell(old(app), app, action, old(effects)@, effects@);
    }
    if apply_loan_action(app, action, effects) {
        return;
    }
    proof {
        lemma_not_loan(old(app), app, action, old(effects)@, effects@);
    }
    if apply_view_action(app, action, data, effects) {
        return;
    }
    proof {
        lemma_not_view(old(app), app, action, data, old(effects)@, effects@);
    }
    apply_rest(app, action, data, effects);
}

/// Apply an action to the state (see `spec_apply_action`); outside work is appended to
/// `effects`.
pub fn apply_action(app: &mut App, action: Action, data: &ViewData, effects: &mut Vec<Effect>)
    ensures
        spec_apply_action(old(app), final(app), action, data, old(effects)@, final(effects)@),
{
    if app.command_palette.visible && !command_palette_input_action(&action) {
        app.command_palette.close();
    }
    dispatch(app, action, data, effects);
}

} // verus!
