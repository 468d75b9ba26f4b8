//! Central keyboard dispatch: stages run in order and the first match wins. Precedence
//! follows the input surface (palette and overlays before tab keys before shell keys).
use vstd::prelude::*;
use crate::action::Action;
use crate::app::{spec_input_mode, App, InputMode};
use crate::discoverability::{commands_view, spec_available};
use crate::input_loans::{loan_form_key_action, spec_loan_form_key_action};
use crate::input_shell::{global_key_action, shell_key_action, spec_global_key_action, spec_shell_key_action};
use crate::input_tabs::{spec_tab_key_action, tab_key_action};
use crate::keys::{KeyCode, KeyEvent, KeyEventKind};

verus! {

/// macOS Command-key bindings: q quits, w closes overlays, `,` opens Settings, `/` help,
/// digits jump to tabs, p toggles the split pane, r is the snapshot control.
pub open spec fn spec_macos_cmd_key(key: KeyCode) -> Option<Action> {
    match key {
        KeyCode::Char(c) => if c == 'q' || c == 'Q' {
            Some(Action::Quit)
        } else if c == 'w' || c == 'W' {
            Some(Action::CloseDetail)
        } else if c == ',' || c == '0' {
            Some(Action::JumpToTab(0))
        } else if c == '/' {
            Some(Action::ShowHelp)
        } else if c == '1' {
            Some(Action::JumpToTab(1))
        } else if c == '2' {
            Some(Action::JumpToTab(2))
        } else if c == '3' {
            Some(Action::JumpToTab(3))
        } else if c == '4' {
            Some(Action::JumpToTab(4))
        } else if c == '5' {
            Some(Action::JumpToTab(5))
        } else if c == '6' {
            Some(Action::JumpToTab(6))
        } else if c == '7' {
            Some(Action::JumpToTab(7))
        } else if c == '8' {
            Some(Action::JumpToTab(8))
        } else if c == '9' {
            Some(Action::JumpToTab(9))
        } else if c == 'p' || c == 'P' {
            Some(Action::SplitPaneToggle)
        } else if c == 'r' || c == 'R' {
            Some(Action::ForceSnapshot)
        } else {
            None
        },
        _ => None,
    }
}

/// macOS Command-key map (see `spec_macos_cmd_key`).
pub fn handle_macos_cmd_key(key: KeyCode) -> (r: Option<Action>)
    ensures
        r == spec_macos_cmd_key(key),
{
    match key {
        KeyCode::Char(c) => if c == 'q' || c == 'Q' {
            Some(Action::Quit)
        } else if c == 'w' || c == 'W' {
            Some(Action::CloseDetail)
        } else if c == ',' || c == '0' {
            Some(Action::JumpToTab(0))
        } else if c == '/' {
            Some(Action::ShowHelp)
        } else if c == '1' {
            Some(Action::JumpToTab(1))
        } else if c == '2' {
            Some(Action::JumpToTab(2))
        } else if c == '3' {
            Some(Action::JumpToTab(3))
        } else if c == '4' {
            Some(Action::JumpToTab(4))
        } else if c == '5' {
            Some(Action::JumpToTab(5))
        } else if c == '6' {
            Some(Action::JumpToTab(6))
        } else if c == '7' {
            Some(Action::JumpToTab(7))
        } else if c == '8' {
            Some(Action::JumpToTab(8))
        } else if c == '9' {
            Some(Action::JumpToTab(9))
        } else if c == 'p' || c == 'P' {
            Some(Action::SplitPaneToggle)
        } else if c == 'r' || c == 'R' {
            Some(Action::ForceSnapshot)
        } else {
            None
        },
        _ => None,
    }
}

/// The action of the selected palette entry, when it is offered in the current mode on
/// the active tab.
pub open spec fn spec_palette_selection(app: &App) -> Option<Action> {
    let p = app.command_palette;
    if p.selected < p.filtered@.len() && p.filtered@[p.selected as int] < p.commands@.len()
        && spec_available(p.commands@[p.filtered@[p.selected as int] as int]@, app.app_mode, app.active_tab) {
        Some(p.commands@[p.filtered@[p.selected as int] as int].action)
    } else {
        None
    }
}

/// Keys while the command palette is open: Esc closes it, Enter runs the selected
/// command (or does nothing when none is available), arrows move the selection,
/// Backspace and characters edit the search; other keys do nothing.
pub open spec fn spec_palette_key_action(app: &App, key: KeyCode) -> Option<Action> {
    match key {
        KeyCode::Esc => Some(Action::CommandPalette),
        KeyCode::Enter => match spec_palette_selection(app) {
            Some(a) => Some(a),
            None => Some(Action::NoOp),
        },
        KeyCode::Up => Some(Action::CommandPalettePrev),
        KeyCode::Down => Some(Action::CommandPaletteNext),
        KeyCode::Backspace => Some(Action::CommandPaletteBackspace),
        KeyCode::Char(c) => Some(Action::CommandPaletteChar(c)),
        _ => Some(Action::NoOp),
    }
}

/// Palette key map (see `spec_palette_key_action`).
pub fn handle_command_palette_input(app: &App, key: KeyCode) -> (r: Option<Action>)
    ensures
        r == spec_palette_key_action(app, key),
{
    match key {
        KeyCode::Esc => Some(Action::CommandPalette),
        KeyCode::Enter => {
            match app.command_palette.selected_command_if_available(app.app_mode, app.active_tab) {
                Some(cmd) => Some(cmd.action),
                None => Some(Action::NoOp),
            }
        },
        KeyCode::Up => Some(Action::CommandPalettePrev),
        KeyCode::Down => Some(Action::CommandPaletteNext),
        KeyCode::Backspace => Some(Action::CommandPaletteBackspace),
        KeyCode::Char(c) => Some(Action::CommandPaletteChar(c)),
        _ => Some(Action::NoOp),
    }
}

/// The action a key event maps to. Only presses count. Command+Shift+P opens the palette;
/// other Command keys use the macOS map; an open palette takes the keys; then global
/// keys; overlays and Settings text entry swallow the rest; the loan form has its own
/// map; then the active tab's keys, then shell keys.
pub open spec fn spec_dispatch_key_event(app: &App, key: KeyEvent) -> Option<Action> {
    let mode = spec_input_mode(app);
    if key.kind != KeyEventKind::Press {
        None
    } else if key.modifiers.super_key && key.modifiers.shift && (key.code == KeyCode::Char('p')
        || key.code == KeyCode::Char('P')) {
        Some(Action::CommandPalette)
    } else if key.modifiers.super_key {
        spec_macos_cmd_key(key.code)
    } else if app.command_palette.visible {
        spec_palette_key_action(app, key.code)
    } else if spec_global_key_action(mode, key.code) is Some {
        spec_global_key_action(mode, key.code)
    } else if mode == InputMode::Help || mode == InputMode::DetailPopup
        || mode == InputMode::SettingsEditConfig || mode == InputMode::SettingsAddSymbol
        || mode == InputMode::SettingsCredentialEntry {
        Some(Action::NoOp)
    } else if mode == InputMode::LoanForm {
        spec_loan_form_key_action(key.code)
    } else if spec_tab_key_action(app, key.code, mode) is Some {
        spec_tab_key_action(app, key.code, mode)
    } else {
        spec_shell_key_action(app, key.code)
    }
}

/// Map a key event to an action (see `spec_dispatch_key_event`).
pub fn dispatch_key_event(app: &App, key: KeyEvent) -> (r: Option<Action>)
    ensures
        r == spec_dispatch_key_event(app, key),
{
    if key.kind != KeyEventKind::Press {
        return None;
    }
    if key.modifiers.super_key && key.modifiers.shift {
        if key.code == KeyCode::Char('p') || key.code == KeyCode::Char('P') {
            return Some(Action::CommandPalette);
        }
    }
    if key.modifiers.super_key {
        return handle_macos_cmd_key(key.code);
    }
    if app.command_palette.visible {
        return handle_command_palette_input(app, key.code);
    }
    let input_mode = app.input_mode();
    if let Some(action) = global_key_action(input_mode, key.code) {
        return Some(action);
    }
    match input_mode {
        InputMode::Help | InputMode::DetailPopup => {
            return Some(Action::NoOp);
        },
        InputMode::SettingsEditConfig | InputMode::SettingsAddSymbol
        | InputMode::SettingsCredentialEntry => {
            return Some(Action::NoOp);
        },
        InputMode::LoanForm => {
            return loan_form_key_action(key.code);
        },
        _ => {},
    }
    if let Some(action) = tab_key_action(app, key.code, input_mode) {
        return Some(action);
    }
    shell_key_action(app, key.code)
}

/// Converts a key event to an action, or `None` when no layer handles it.
pub fn key_to_action(app: &App, key: KeyEvent) -> (r: Option<Action>)
    ensures
        r == spec_dispatch_key_event(app, key),
{
    dispatch_key_event(app, key)
}

} // verus!
