//! Shell keys and actions: quitting, overlays, tab switching, the command palette and
//! the controls that exploration mode turns off.
use vstd::prelude::*;
use crate::action::Action;
use crate::app::{
    spec_toast_pushed, App, CommandStatus, CommandStatusView, Effect, InputMode,
};
use crate::discoverability::{spec_palette_backspaced, spec_palette_moved, spec_palette_toggled, spec_palette_typed};
use crate::feedback::ToastLevel;
use crate::keys::KeyCode;
use crate::tab::{spec_tab_next, spec_tab_prev, Tab};

verus! {

/// Keys that work on every tab: q quits, ? opens help, : the command palette, ` or ~
/// the log panel, g the tree panel; Esc closes the log panel (from normal input or the
/// log panel) or the tree panel.
pub open spec fn spec_global_key_action(input_mode: InputMode, key: KeyCode) -> Option<Action> {
    match key {
        KeyCode::Char(c) => if c == 'q' || c == 'Q' {
            Some(Action::Quit)
        } else if c == '?' {
            Some(Action::ShowHelp)
        } else if c == ':' {
            Some(Action::CommandPalette)
        } else if c == '`' || c == '~' {
            Some(Action::ToggleLogPanel)
        } else if c == 'g' || c == 'G' {
            Some(Action::ToggleTreePanel)
        } else {
            None
        },
        KeyCode::Esc => if input_mode == InputMode::Normal || input_mode == InputMode::LogPanel {
            Some(Action::ToggleLogPanel)
        } else if input_mode == InputMode::TreePanel {
            Some(Action::ToggleTreePanel)
        } else {
            None
        },
        _ => None,
    }
}

/// Global key map (see `spec_global_key_action`).
pub fn global_key_action(input_mode: InputMode, key: KeyCode) -> (r: Option<Action>)
    ensures
        r == spec_global_key_action(input_mode, key),
{
    match key {
        KeyCode::Char(c) => if c == 'q' || c == 'Q' {
            Some(Action::Quit)
        } else if c == '?' {
            Some(Action::ShowHelp)
        } else if c == ':' {
            Some(Action::CommandPalette)
        } else if c == '`' || c == '~' {
            Some(Action::ToggleLogPanel)
        } else if c == 'g' || c == 'G' {
            Some(Action::ToggleTreePanel)
        } else {
            None
        },
        KeyCode::Esc => if input_mode == InputMode::Normal || input_mode == InputMode::LogPanel {
            Some(Action::ToggleLogPanel)
        } else if input_mode == InputMode::TreePanel {
            Some(Action::ToggleTreePanel)
        } else {
            None
        },
        _ => None,
    }
}

/// Position of the first `t` in `tabs`.
pub open spec fn spec_position(tabs: Seq<Tab>, t: Tab) -> Option<int>
    decreases tabs.len(),
{
    if tabs.len() == 0 {
        None
    } else {
        match spec_position(tabs.drop_last(), t) {
            Some(i) => Some(i),
            None => if tabs.last() == t { Some(tabs.len() - 1) } else { None },
        }
    }
}

/// The workspace pane that focus moves to: the next (or previous) tab of the visible
/// workspace after the active tab, cyclically; none when no workspace is visible or the
/// active tab is not in it.
pub open spec fn spec_workspace_focus_target(tabs: Seq<Tab>, active: Tab, forward: bool) -> Option<Tab> {
    match spec_position(tabs, active) {
        Some(i) => Some(if forward {
            if i + 1 < tabs.len() { tabs[i + 1] } else { tabs[0] }
        } else {
            if i > 0 { tabs[i - 1] } else { tabs[tabs.len() - 1] }
        }),
        None => None,
    }
}

proof fn lemma_position_bounds(tabs: Seq<Tab>, t: Tab)
    ensures
        spec_position(tabs, t) matches Some(i) ==> 0 <= i < tabs.len() && tabs[i] == t,
        spec_position(tabs, t) is None ==> forall|j: int| 0 <= j < tabs.len() ==> tabs[j] != t,
    decreases tabs.len(),
{
    if tabs.len() > 0 {
        lemma_position_bounds(tabs.drop_last(), t);
        assert forall|j: int| 0 <= j < tabs.len() - 1 implies tabs.drop_last()[j] == tabs[j] by {}
    }
}

/// Pane focus target in the visible workspace (see `spec_workspace_focus_target`).
pub fn workspace_focus_target(app: &App, forward: bool) -> (r: Option<Tab>)
    ensures
        r == spec_workspace_focus_target(app.visible_workspace_tabs@, app.active_tab, forward),
{
    let tabs = &app.visible_workspace_tabs;
    let ghost s = tabs@;
    let mut i: usize = 0;
    while i < tabs.len()
        invariant
            s == tabs@,
            s == app.visible_workspace_tabs@,
            i <= s.len(),
            forall|j: int| 0 <= j < i ==> s[j] != app.active_tab,
        decreases s.len() - i,
    {
        if tabs[i] == app.active_tab {
            proof {
                lemma_position_bounds(s, app.active_tab);
                lemma_first_position(s, app.active_tab, i as int);
            }
            let n = tabs.len();
            assert(spec_position(s, app.active_tab) == Some(i as int));
            let next = if forward {
                if i + 1 < n { i + 1 } else { 0 }
            } else {
                if i > 0 { i - 1 } else { n - 1 }
            };
            let r = tabs[next];
            assert(spec_workspace_focus_target(s, app.active_tab, forward) == Some(s[next as int]));
            return Some(r);
        }
        i = i + 1;
    }
    proof {
        lemma_position_bounds(s, app.active_tab);
        if spec_position(s, app.active_tab) is Some {
            let k = spec_position(s, app.active_tab)->0;
            assert(s[k] == app.active_tab);
        }
    }
    None
}

proof fn lemma_first_position(tabs: Seq<Tab>, t: Tab, i: int)
    requires
        0 <= i < tabs.len(),
        tabs[i] == t,
        forall|j: int| 0 <= j < i ==> tabs[j] != t,
    ensures
        spec_position(tabs, t) == Some(i),
    decreases tabs.len(),
{
    if i < tabs.len() - 1 {
        lemma_first_position(tabs.drop_last(), t, i);
    } else {
        lemma_position_bounds(tabs.drop_last(), t);
        if spec_position(tabs.drop_last(), t) is Some {
            let k = spec_position(tabs.drop_last(), t)->0;
            assert(tabs.drop_last()[k] == tabs[k]);
        }
    }
}

/// The tab a digit key jumps to: 1–9 for the first nine primary tabs, 0 for Settings;
/// any other number keeps the current tab.
pub open spec fn spec_jump_target(n: u8, current: Tab) -> Tab {
    if n == 1 {
        Tab::Dashboard
    } else if n == 2 {
        Tab::Positions
    } else if n == 3 {
        Tab::Charts
    } else if n == 4 {
        Tab::Orders
    } else if n == 5 {
        Tab::Alerts
    } else if n == 6 {
        Tab::Yield
    } else if n == 7 {
        Tab::Loans
    } else if n == 8 {
        Tab::DiscountBank
    } else if n == 9 {
        Tab::Scenarios
    } else if n == 0 {
        Tab::Settings
    } else {
        current
    }
}

/// Tab a digit key jumps to (see `spec_jump_target`).
pub fn jump_target(n: u8, current: Tab) -> (r: Tab)
    ensures
        r == spec_jump_target(n, current),
{
    match n {
        1 => Tab::Dashboard,
        2 => Tab::Positions,
        3 => Tab::Charts,
        4 => Tab::Orders,
        5 => Tab::Alerts,
        6 => Tab::Yield,
        7 => Tab::Loans,
        8 => Tab::DiscountBank,
        9 => Tab::Scenarios,
        0 => Tab::Settings,
        _ => current,
    }
}

/// The digit of a number key, if `c` is one.
pub open spec fn spec_digit_of(c: char) -> Option<u8> {
    if c == '0' { Some(0u8) } else if c == '1' { Some(1u8) } else if c == '2' { Some(2u8) }
    else if c == '3' { Some(3u8) } else if c == '4' { Some(4u8) } else if c == '5' { Some(5u8) }
    else if c == '6' { Some(6u8) } else if c == '7' { Some(7u8) } else if c == '8' { Some(8u8) }
    else if c == '9' { Some(9u8) } else { None }
}

fn digit_of(c: char) -> (r: Option<u8>)
    ensures
        r == spec_digit_of(c),
{
    if c == '0' { Some(0) } else if c == '1' { Some(1) } else if c == '2' { Some(2) }
    else if c == '3' { Some(3) } else if c == '4' { Some(4) } else if c == '5' { Some(5) }
    else if c == '6' { Some(6) } else if c == '7' { Some(7) } else if c == '8' { Some(8) }
    else if c == '9' { Some(9) } else { None }
}

/// Shell keys, consulted after the tab's own map. Tab/BackTab move focus within the
/// visible workspace when there is one, else cycle Settings sections on the Settings tab,
/// else switch tabs; digits jump to tabs; m explains modes; s/t/k are the disabled
/// strategy controls (not on Orders); f opens fundamentals on Dashboard and Positions and
/// is the disabled snapshot control elsewhere; p toggles the split pane.
pub open spec fn spec_shell_key_action(app: &App, key: KeyCode) -> Option<Action> {
    let tabs = app.visible_workspace_tabs@;
    let tab = app.active_tab;
    match key {
        KeyCode::Tab => if spec_workspace_focus_target(tabs, tab, true) is Some {
            Some(Action::WorkspaceFocusNext)
        } else if tab == Tab::Settings {
            Some(Action::SettingsSectionNext)
        } else {
            Some(Action::TabNext)
        },
        KeyCode::BackTab => if spec_workspace_focus_target(tabs, tab, false) is Some {
            Some(Action::WorkspaceFocusPrev)
        } else if tab == Tab::Settings {
            Some(Action::SettingsSectionPrev)
        } else {
            Some(Action::TabPrev)
        },
        KeyCode::Char(c) => if spec_digit_of(c) is Some {
            Some(Action::JumpToTab(spec_digit_of(c)->0))
        } else if c == 'm' || c == 'M' {
            Some(Action::ModeCycle)
        } else if (c == 's' || c == 'S') && tab != Tab::Orders {
            Some(Action::StrategyStart)
        } else if (c == 't' || c == 'T') && tab != Tab::Orders {
            Some(Action::StrategyStop)
        } else if (c == 'k' || c == 'K') && tab != Tab::Orders {
            Some(Action::StrategyCancelAll)
        } else if (c == 'f' || c == 'F') && (tab == Tab::Dashboard || tab == Tab::Positions) {
            Some(Action::FmpDetail)
        } else if c == 'f' || c == 'F' {
            Some(Action::ForceSnapshot)
        } else if c == 'p' || c == 'P' {
            Some(Action::SplitPaneToggle)
        } else {
            None
        },
        _ => None,
    }
}

/// Shell key map (see `spec_shell_key_action`).
pub fn shell_key_action(app: &App, key: KeyCode) -> (r: Option<Action>)
    ensures
        r == spec_shell_key_action(app, key),
{
    let tab = app.active_tab;
    match key {
        KeyCode::Tab => if workspace_focus_target(app, true).is_some() {
            Some(Action::WorkspaceFocusNext)
        } else if tab == Tab::Settings {
            Some(Action::SettingsSectionNext)
        } else {
            Some(Action::TabNext)
        },
        KeyCode::BackTab => if workspace_focus_target(app, false).is_some() {
            Some(Action::WorkspaceFocusPrev)
        } else if tab == Tab::Settings {
            Some(Action::SettingsSectionPrev)
        } else {
            Some(Action::TabPrev)
        },
        KeyCode::Char(c) => {
            if let Some(d) = digit_of(c) {
                Some(Action::JumpToTab(d))
            } else if c == 'm' || c == 'M' {
                Some(Action::ModeCycle)
            } else if (c == 's' || c == 'S') && tab != Tab::Orders {
                Some(Action::StrategyStart)
            } else if (c == 't' || c == 'T') && tab != Tab::Orders {
                Some(Action::StrategyStop)
            } else if (c == 'k' || c == 'K') && tab != Tab::Orders {
                Some(Action::StrategyCancelAll)
            } else if (c == 'f' || c == 'F') && (tab == Tab::Dashboard || tab == Tab::Positions) {
                Some(Action::FmpDetail)
            } else if c == 'f' || c == 'F' {
                Some(Action::ForceSnapshot)
            } else if c == 'p' || c == 'P' {
                Some(Action::SplitPaneToggle)
            } else {
                None
            }
        },
        _ => None,
    }
}

/// App state after switching to `tab`: the bulk-import path closes unless the tab is
/// Loans, and the Orders filter stops taking input unless the tab is Orders.
pub open spec fn spec_switched(app: &App, tab: Tab) -> App {
    App {
        active_tab: tab,
        loan_import_path: if tab != Tab::Loans { None } else { app.loan_import_path },
        order_filter_active: if tab != Tab::Orders { false } else { app.order_filter_active },
        ..*app
    }
}

/// Outside work a tab switch asks for: Yield shows its cached curve; Loans fetches the
/// list unless one was loaded or a fetch is in flight (and the channel is wired);
/// Discount Bank fetches unless one is in flight (and the channel is wired).
pub open spec fn spec_switch_effects(app: &App, tab: Tab) -> Seq<Effect> {
    if tab == Tab::Yield {
        seq![Effect::SyncYieldCurve]
    } else if tab == Tab::Loans {
        if !(app.loans_list matches Some(Ok(_))) && !app.loans_fetch_pending && app.wiring.loans_fetch {
            seq![Effect::SendLoansFetch]
        } else {
            Seq::empty()
        }
    } else if tab == Tab::DiscountBank {
        if !app.discount_bank_fetch_pending && app.wiring.discount_bank_fetch {
            seq![Effect::SendDiscountBankFetch]
        } else {
            Seq::empty()
        }
    } else {
        Seq::empty()
    }
}

/// Switch to `tab` (see `spec_switched` and `spec_switch_effects`).
#[verifier::rlimit(60)]
pub fn set_active_tab(app: &mut App, tab: Tab, effects: &mut Vec<Effect>)
    ensures
        *final(app) == spec_switched(old(app), tab),
        final(effects)@ == old(effects)@ + spec_switch_effects(old(app), tab),
{
    let mut eff: Vec<Effect> = Vec::new();
    if tab == Tab::Yield {
        eff.push(Effect::SyncYieldCurve);
    } else if tab == Tab::Loans {
        if app.request_loans_fetch_if_uncached() {
            eff.push(Effect::SendLoansFetch);
        }
    } else if tab == Tab::DiscountBank {
        if app.request_discount_bank_fetch() {
            eff.push(Effect::SendDiscountBankFetch);
        }
    }
    assert(eff@ =~= spec_switch_effects(old(app), tab));
    app.active_tab = tab;
    if tab != Tab::Loans {
        app.loan_import_path = None;
    }
    if tab != Tab::Orders {
        app.order_filter_active = false;
    }
    effects.append(&mut eff);
}

/// Text of the toast that explains modes.
pub const MODE_HELP_MESSAGE: &'static str =
    "NAV / EDIT / VIEW follow your focus (forms, search, overlays). Esc closes overlays. ? help  : palette";

/// Whether `action` is a shell action.
pub open spec fn spec_is_shell_action(action: Action) -> bool {
    match action {
        Action::Quit | Action::ShowHelp | Action::ToggleLogPanel | Action::ToggleTreePanel
        | Action::CloseDetail | Action::TabNext | Action::TabPrev | Action::JumpToTab(_)
        | Action::ModeCycle | Action::CommandPalette | Action::CommandPalettePrev
        | Action::CommandPaletteNext | Action::CommandPaletteBackspace
        | Action::CommandPaletteChar(_) | Action::StrategyStart | Action::StrategyStop
        | Action::StrategyCancelAll | Action::ForceSnapshot | Action::FmpDetail
        | Action::SplitPaneToggle | Action::WorkspaceFocusPrev | Action::WorkspaceFocusNext => true,
        _ => false,
    }
}

/// The disabled control an action stands for.
pub open spec fn spec_disabled_control(action: Action) -> Seq<char> {
    match action {
        Action::StrategyStart => "start"@,
        Action::StrategyStop => "stop"@,
        Action::StrategyCancelAll => "cancel_all"@,
        _ => "publish_snapshot"@,
    }
}

/// `b` and the effects `e1` follow from switching `a` to `t` with effects `e0` so far.
pub open spec fn spec_switch_post(a: &App, b: &App, t: Tab, e0: Seq<Effect>, e1: Seq<Effect>) -> bool {
    *b == spec_switched(a, t) && e1 == e0 + spec_switch_effects(a, t)
}

/// `b` is `a` with the command palette replaced (by `b`'s).
pub open spec fn spec_only_palette(a: &App, b: &App) -> bool {
    *b == (App { command_palette: b.command_palette, ..*a })
}

/// What a shell action does: `b` is the state after `a`, and `e1` the effects after `e0`.
pub open spec fn spec_shell_post(a: &App, b: &App, action: Action, e0: Seq<Effect>, e1: Seq<Effect>) -> bool {
    match action {
        Action::Quit => *b == (App { should_quit: true, ..*a }) && e1 == e0,
        Action::ShowHelp => *b == (App { show_help: true, ..*a }) && e1 == e0,
        Action::ToggleLogPanel => *b == (App { show_log_panel: !a.show_log_panel, ..*a }) && e1 == e0,
        Action::ToggleTreePanel => *b == (App { show_tree_panel: !a.show_tree_panel, ..*a })
            && e1 == e0 + if b.show_tree_panel { seq![Effect::InitTreePanel] } else { Seq::empty() },
        Action::CloseDetail => *b == (App {
            detail_popup: None,
            show_help: false,
            show_log_panel: false,
            show_tree_panel: false,
            ..*a
        }) && e1 == e0,
        Action::TabNext => spec_switch_post(a, b, spec_tab_next(a.active_tab), e0, e1),
        Action::TabPrev => spec_switch_post(a, b, spec_tab_prev(a.active_tab), e0, e1),
        Action::JumpToTab(n) => spec_switch_post(a, b, spec_jump_target(n, a.active_tab), e0, e1),
        Action::WorkspaceFocusNext => match spec_workspace_focus_target(a.visible_workspace_tabs@, a.active_tab, true) {
            Some(t) => spec_switch_post(a, b, t, e0, e1),
            None => *b == *a && e1 == e0,
        },
        Action::WorkspaceFocusPrev => match spec_workspace_focus_target(a.visible_workspace_tabs@, a.active_tab, false) {
            Some(t) => spec_switch_post(a, b, t, e0, e1),
            None => *b == *a && e1 == e0,
        },
        Action::ModeCycle => spec_toast_pushed(&a.toast_manager, &b.toast_manager, MODE_HELP_MESSAGE@, ToastLevel::Info)
            && *b == (App { toast_manager: b.toast_manager, dirty_flags: b.dirty_flags, needs_redraw: true, ..*a })
            && b.dirty_flags.overlay && e1 == e0,
        Action::StrategyStart | Action::StrategyStop | Action::StrategyCancelAll | Action::ForceSnapshot =>
            (b.last_command_status matches Some(st) && st.action@ == spec_disabled_control(action)
                && st.status == CommandStatus::Failed && !st.toast_on_failure)
            && b.toast_manager@ == a.toast_manager@
            && *b == (App { last_command_status: b.last_command_status, toast_manager: b.toast_manager,
                dirty_flags: b.dirty_flags, needs_redraw: true, ..*a })
            && b.dirty_flags.hint_bar && b.dirty_flags.status_bar && e1 == e0,
        Action::FmpDetail => *b == *a && e1 == e0.push(Effect::FetchFmpForSelection),
        Action::SplitPaneToggle => *b == (App { split_pane: !a.split_pane, positions_table: b.positions_table, ..*a })
            && b.positions_table@.selected == 0 && b.positions_table@.scroll == 0 && e1 == e0,
        Action::CommandPalette => spec_only_palette(a, b) && e1 == e0
            && spec_palette_toggled(a.command_palette, b.command_palette),
        Action::CommandPalettePrev => spec_only_palette(a, b) && e1 == e0
            && spec_palette_moved(a.command_palette, b.command_palette, true),
        Action::CommandPaletteNext => spec_only_palette(a, b) && e1 == e0
            && spec_palette_moved(a.command_palette, b.command_palette, false),
        Action::CommandPaletteBackspace => spec_only_palette(a, b) && e1 == e0
            && spec_palette_backspaced(a.command_palette, b.command_palette),
        Action::CommandPaletteChar(c) => spec_only_palette(a, b) && e1 == e0
            && spec_palette_typed(a.command_palette, b.command_palette, c),
        _ => *b == *a && e1 == e0,
    }
}

fn apply_shell_panels(app: &mut App, action: Action, effects: &mut Vec<Effect>)
    requires
        action == Action::Quit || action == Action::ShowHelp || action == Action::ToggleLogPanel
            || action == Action::ToggleTreePanel || action == Action::CloseDetail
            || action == Action::FmpDetail || action == Action::SplitPaneToggle,
    ensures
        spec_shell_post(old(app), final(app), action, old(effects)@, final(effects)@),
{
    match action {
        Action::Quit => {
            app.should_quit = true;
        },
        Action::ShowHelp => {
            app.show_help = true;
        },
        Action::ToggleLogPanel => {
            app.show_log_panel = !app.show_log_panel;
        },
        Action::ToggleTreePanel => {
            app.show_tree_panel = !app.show_tree_panel;
            if app.show_tree_panel {
                effects.push(Effect::InitTreePanel);
                assert(effects@ =~= old(effects)@ + seq![Effect::InitTreePanel]);
            } else {
                assert(effects@ =~= old(effects)@ + Seq::<Effect>::empty());
            }
        },
        Action::CloseDetail => {
            app.detail_popup = None;
            app.show_help = false;
            app.show_log_panel = false;
            app.show_tree_panel = false;
        },
        Action::FmpDetail => {
            effects.push(Effect::FetchFmpForSelection);
        },
        _ => {
            app.split_pane = !app.split_pane;
            app.positions_table.reset();
        },
    }
}

fn apply_shell_tabs(app: &mut App, action: Action, effects: &mut Vec<Effect>)
    requires
        action == Action::TabNext || action == Action::TabPrev || action is JumpToTab
            || action == Action::WorkspaceFocusNext || action == Action::WorkspaceFocusPrev,
    ensures
        spec_shell_post(old(app), final(app), action, old(effects)@, final(effects)@),
{
    match action {
        Action::TabNext => {
            let t = app.active_tab.next();
            set_active_tab(app, t, effects);
        },
        Action::TabPrev => {
            let t = app.active_tab.prev();
            set_active_tab(app, t, effects);
        },
        Action::JumpToTab(n) => {
            let t = jump_target(n, app.active_tab);
            set_active_tab(app, t, effects);
        },
        Action::WorkspaceFocusPrev => {
            if let Some(t) = workspace_focus_target(app, false) {
                set_active_tab(app, t, effects);
            }
        },
        _ => {
            if let Some(t) = workspace_focus_target(app, true) {
                set_active_tab(app, t, effects);
            }
        },
    }
}

fn apply_shell_palette(app: &mut App, action: Action)
    requires
        action == Action::CommandPalette || action == Action::CommandPalettePrev
            || action == Action::CommandPaletteNext || action == Action::CommandPaletteBackspace
            || action is CommandPaletteChar,
    ensures
        spec_shell_post(old(app), final(app), action, Seq::empty(), Seq::empty()),
{
    match action {
        Action::CommandPalette => {
            app.command_palette.toggle();
        },
        Action::CommandPalettePrev => {
            app.command_palette.select_prev();
        },
        Action::CommandPaletteNext => {
            app.command_palette.select_next();
        },
        Action::CommandPaletteBackspace => {
            app.command_palette.backspace();
        },
        Action::CommandPaletteChar(c) => {
            app.command_palette.push_char(c);
        },
        _ => {},
    }
}

fn apply_shell_controls(app: &mut App, action: Action)
    requires
        action == Action::ModeCycle || action == Action::StrategyStart || action == Action::StrategyStop
            || action == Action::StrategyCancelAll || action == Action::ForceSnapshot,
    ensures
        spec_shell_post(old(app), final(app), action, Seq::empty(), Seq::empty()),
{
    match action {
        Action::ModeCycle => {
            app.push_toast(MODE_HELP_MESSAGE, ToastLevel::Info);
        },
        Action::StrategyStart => {
            app.command_disabled("start");
        },
        Action::StrategyStop => {
            app.command_disabled("stop");
        },
        Action::StrategyCancelAll => {
            app.command_disabled("cancel_all");
        },
        _ => {
            app.command_disabled("publish_snapshot");
        },
    }
}

/// Apply a shell action (see `spec_shell_post`). Returns whether the action is a shell
/// action; other actions change nothing.
pub fn apply_shell_action(app: &mut App, action: Action, effects: &mut Vec<Effect>) -> (r: bool)
    ensures
        r == spec_is_shell_action(action),
        spec_shell_post(old(app), final(app), action, old(effects)@, final(effects)@),
{
    match action {
        Action::Quit | Action::ShowHelp | Action::ToggleLogPanel | Action::ToggleTreePanel
        | Action::CloseDetail | Action::FmpDetail | Action::SplitPaneToggle => {
            apply_shell_panels(app, action, effects);
        },
        Action::TabNext | Action::TabPrev | Action::JumpToTab(_) | Action::WorkspaceFocusNext
        | Action::WorkspaceFocusPrev => {
            apply_shell_tabs(app, action, effects);
        },
        Action::CommandPalette | Action::CommandPalettePrev | Action::CommandPaletteNext
        | Action::CommandPaletteBackspace | Action::CommandPaletteChar(_) => {
            apply_shell_palette(app, action);
        },
        Action::ModeCycle | Action::StrategyStart | Action::StrategyStop | Action::StrategyCancelAll
        | Action::ForceSnapshot => {
            apply_shell_controls(app, action);
        },
        _ => {
            return false;
        },
    }
    true
}

} // verus!
