//! Settings tab input: section navigation, edit/add flows and credential rows.
use vstd::prelude::*;
use crate::action::Action;
use crate::app::{
    alpaca_credential_key_for_row, credential_key_for_sources_row, spec_alpaca_key_for_row,
    spec_sources_key_for_row, App, CommandStatus, Effect, SettingsHealthFocus, SettingsSection,
    spec_section_next, spec_section_prev, ALPACA_CREDENTIAL_ROW_COUNT, SOURCES_TABLE_ROW_COUNT,
};
use crate::app_config::{config_key_count, spec_config_row, CONFIG_ROW_COUNT};
use crate::keys::KeyCode;
use crate::text::strings_view;

verus! {

/// Settings tab keys: Left/Right change section, Up/Down scroll; `a` adds a symbol in
/// Symbols; `d` (or Delete) removes in Symbols and Alpaca, and in Sources on a row with a
/// credential; `e` or Enter edits in Config, and edits the credential in Alpaca or on a
/// Sources row with one; `r` resets the watchlist.
pub open spec fn spec_settings_key_action(app: &App, key: KeyCode) -> Option<Action> {
    let sec = app.settings_section;
    let src_key = spec_sources_key_for_row(app.settings_sources_row as int) is Some;
    let can_delete = sec == SettingsSection::Symbols || sec == SettingsSection::Alpaca
        || (sec == SettingsSection::Sources && src_key);
    let edit = if sec == SettingsSection::Config {
        Some(Action::SettingsEditConfig)
    } else if sec == SettingsSection::Alpaca || (sec == SettingsSection::Sources && src_key) {
        Some(Action::SettingsEditCredential)
    } else {
        None
    };
    match key {
        KeyCode::Left => Some(Action::SettingsSectionPrev),
        KeyCode::Right => Some(Action::SettingsSectionNext),
        KeyCode::Up => Some(Action::SettingsScrollUp),
        KeyCode::Down => Some(Action::SettingsScrollDown),
        KeyCode::Enter => edit,
        KeyCode::Delete => if can_delete { Some(Action::SettingsDelete) } else { None },
        KeyCode::Char(c) => if (c == 'a' || c == 'A') && sec == SettingsSection::Symbols {
            Some(Action::SettingsAddSymbol)
        } else if (c == 'd' || c == 'D') && can_delete {
            Some(Action::SettingsDelete)
        } else if (c == 'e' || c == 'E') && edit is Some {
            edit
        } else if c == 'r' || c == 'R' {
            Some(Action::SettingsReset)
        } else {
            None
        },
        _ => None,
    }
}

/// Settings tab key map (see `spec_settings_key_action`).
pub fn settings_key_action(app: &App, key: KeyCode) -> (r: Option<Action>)
    ensures
        r == spec_settings_key_action(app, key),
{
    let sec = app.settings_section;
    let src_key = credential_key_for_sources_row(app.settings_sources_row).is_some();
    let can_delete = sec == SettingsSection::Symbols || sec == SettingsSection::Alpaca
        || (sec == SettingsSection::Sources && src_key);
    let edit = if sec == SettingsSection::Config {
        Some(Action::SettingsEditConfig)
    } else if sec == SettingsSection::Alpaca || (sec == SettingsSection::Sources && src_key) {
        Some(Action::SettingsEditCredential)
    } else {
        None
    };
    match key {
        KeyCode::Left => Some(Action::SettingsSectionPrev),
        KeyCode::Right => Some(Action::SettingsSectionNext),
        KeyCode::Up => Some(Action::SettingsScrollUp),
        KeyCode::Down => Some(Action::SettingsScrollDown),
        KeyCode::Enter => edit,
        KeyCode::Delete => if can_delete { Some(Action::SettingsDelete) } else { None },
        KeyCode::Char(c) => if (c == 'a' || c == 'A') && sec == SettingsSection::Symbols {
            Some(Action::SettingsAddSymbol)
        } else if (c == 'd' || c == 'D') && can_delete {
            Some(Action::SettingsDelete)
        } else if (c == 'e' || c == 'E') && edit.is_some() {
            edit
        } else if c == 'r' || c == 'R' {
            Some(Action::SettingsReset)
        } else {
            None
        },
        _ => None,
    }
}


/// Message shown when Add symbol mode starts.
pub const ADD_SYMBOL_MESSAGE: &'static str = "Add symbol mode active.";
/// Message shown when a credential edit starts.
pub const CREDENTIAL_EDIT_MESSAGE: &'static str = "Credential edit (Enter save, Esc cancel).";

/// Length of the effective watchlist of `a`.
pub open spec fn spec_watchlist_len(a: &App) -> nat {
    match a.watchlist_override {
        Some(w) => w@.len(),
        None => a.config.watchlist@.len(),
    }
}

/// Settings focus: section, Health sub-focus and the selected row of each list
/// (symbols, config keys, sources, Alpaca credentials).
pub type SettingsFocus = (SettingsSection, SettingsHealthFocus, usize, usize, usize, usize);

/// The Settings focus of `a`.
pub open spec fn spec_focus(a: &App) -> SettingsFocus {
    (a.settings_section, a.settings_health_focus, a.settings_symbol_index, a.settings_config_key_index,
        a.settings_sources_row, a.settings_alpaca_row)
}

/// `b` is `a` with only the Settings focus changed.
pub open spec fn spec_only_focus(a: &App, b: &App) -> bool {
    *b == (App { settings_section: b.settings_section, settings_health_focus: b.settings_health_focus,
        settings_symbol_index: b.settings_symbol_index, settings_config_key_index: b.settings_config_key_index,
        settings_sources_row: b.settings_sources_row, settings_alpaca_row: b.settings_alpaca_row, ..*a })
}

/// Up in Settings: moves within the focused list, and at its top escapes to the
/// previous section (Health flips its sub-focus; from Alpaca focus lands on the last
/// Sources row).
pub open spec fn spec_focus_up(f: SettingsFocus) -> SettingsFocus {
    let (sec, hf, si, ci, sr, ar) = f;
    match sec {
        SettingsSection::Health => (sec, if hf == SettingsHealthFocus::Transport {
            SettingsHealthFocus::Services
        } else {
            SettingsHealthFocus::Transport
        }, si, ci, sr, ar),
        SettingsSection::Symbols => if si > 0 { (sec, hf, (si - 1) as usize, ci, sr, ar) } else {
            (SettingsSection::Config, hf, si, ci, sr, ar)
        },
        SettingsSection::Config => if ci > 0 { (sec, hf, si, (ci - 1) as usize, sr, ar) } else {
            (SettingsSection::Health, hf, si, ci, sr, ar)
        },
        SettingsSection::Sources => if sr > 0 { (sec, hf, si, ci, (sr - 1) as usize, ar) } else {
            (SettingsSection::Symbols, hf, si, ci, sr, ar)
        },
        SettingsSection::Alpaca => if ar > 0 { (sec, hf, si, ci, sr, (ar - 1) as usize) } else {
            (SettingsSection::Sources, hf, si, ci, (SOURCES_TABLE_ROW_COUNT - 1) as usize, ar)
        },
    }
}

/// Down in Settings with `symbols` watchlist entries and `config_rows` config rows:
/// moves within the focused list, and at its end escapes to the next section (Health
/// first moves from Transport to Services; Sources and Alpaca are entered at their first
/// row; leaving Alpaca lands on Health → Transport).
pub open spec fn spec_focus_down(f: SettingsFocus, symbols: nat, config_rows: nat) -> SettingsFocus {
    let (sec, hf, si, ci, sr, ar) = f;
    match sec {
        SettingsSection::Health => if hf == SettingsHealthFocus::Transport {
            (sec, SettingsHealthFocus::Services, si, ci, sr, ar)
        } else {
            (SettingsSection::Config, hf, si, ci, sr, ar)
        },
        SettingsSection::Symbols => if symbols > 0 && si + 1 < symbols { (sec, hf, (si + 1) as usize, ci, sr, ar) } else {
            (SettingsSection::Sources, hf, si, ci, 0, ar)
        },
        SettingsSection::Config => if ci + 1 < config_rows { (sec, hf, si, (ci + 1) as usize, sr, ar) } else {
            (SettingsSection::Symbols, hf, si, ci, sr, ar)
        },
        SettingsSection::Sources => if sr + 1 < SOURCES_TABLE_ROW_COUNT { (sec, hf, si, ci, (sr + 1) as usize, ar) } else {
            (SettingsSection::Alpaca, hf, si, ci, sr, 0)
        },
        SettingsSection::Alpaca => if ar + 1 < ALPACA_CREDENTIAL_ROW_COUNT { (sec, hf, si, ci, sr, (ar + 1) as usize) } else {
            (SettingsSection::Health, SettingsHealthFocus::Transport, si, ci, sr, ar)
        },
    }
}

/// Up in Settings (see `spec_focus_up`).
pub open spec fn spec_settings_scroll_up_post(a: &App, b: &App) -> bool {
    spec_only_focus(a, b) && spec_focus(b) == spec_focus_up(spec_focus(a))
}

/// Down in Settings (see `spec_focus_down`); the config list has `config_rows` rows.
pub open spec fn spec_settings_scroll_down_post(a: &App, b: &App, config_rows: nat) -> bool {
    spec_only_focus(a, b) && spec_focus(b) == spec_focus_down(spec_focus(a), spec_watchlist_len(a), config_rows)
}

/// Left/Right in Settings: the previous or next section; arriving at Health resets its
/// sub-focus to Transport.
#[verifier::opaque]
pub open spec fn spec_settings_section_post(a: &App, b: &App, forward: bool) -> bool {
    let s = if forward { spec_section_next(a.settings_section) } else { spec_section_prev(a.settings_section) };
    if s == SettingsSection::Health {
        *b == (App { settings_section: s, settings_health_focus: SettingsHealthFocus::Transport, ..*a })
    } else {
        *b == (App { settings_section: s, ..*a })
    }
}

/// Credential edited from the focused Settings row, if any.
pub open spec fn spec_focused_credential(a: &App) -> Option<crate::app::CredentialKey> {
    match a.settings_section {
        SettingsSection::Alpaca => spec_alpaca_key_for_row(a.settings_alpaca_row as int),
        SettingsSection::Sources => spec_sources_key_for_row(a.settings_sources_row as int),
        _ => None,
    }
}

/// Settings actions other than navigation: adding a symbol (Symbols only) opens an
/// empty input; editing a credential opens its buffer, asks for the stored value and
/// explains the keys; deleting a credential (Alpaca, Sources) asks for its removal.
#[verifier::opaque]
pub open spec fn spec_settings_edit_post(a: &App, b: &App, action: Action, e0: Seq<Effect>, e1: Seq<Effect>) -> bool {
    match action {
        Action::SettingsAddSymbol => e1 == e0 && if a.settings_section == SettingsSection::Symbols {
            (b.settings_add_symbol_input matches Some(buf) && buf@.len() == 0)
                && b.toast_manager@ == a.toast_manager@
                && (b.last_command_status matches Some(st) && st.status == CommandStatus::Completed
                    && (st.message matches Some(m) && m@ == ADD_SYMBOL_MESSAGE@))
                && *b == (App { settings_add_symbol_input: b.settings_add_symbol_input,
                    last_command_status: b.last_command_status, toast_manager: b.toast_manager,
                    dirty_flags: b.dirty_flags, needs_redraw: true, ..*a })
        } else {
            *b == *a
        },
        Action::SettingsEditCredential => match spec_focused_credential(a) {
            Some(ck) => e1 == e0.push(Effect::LoadCredential(ck))
                && b.settings_credential_edit_key == Some(ck)
                && (b.settings_credential_buffer matches Some(buf) && buf@.len() == 0)
                && b.toast_manager@ == a.toast_manager@
                && (b.last_command_status matches Some(st) && st.status == CommandStatus::Completed
                    && (st.message matches Some(m) && m@ == CREDENTIAL_EDIT_MESSAGE@))
                && *b == (App { settings_credential_edit_key: Some(ck),
                    settings_credential_buffer: b.settings_credential_buffer,
                    last_command_status: b.last_command_status, toast_manager: b.toast_manager,
                    dirty_flags: b.dirty_flags, needs_redraw: true, ..*a }),
            None => *b == *a && e1 == e0,
        },
        Action::SettingsDelete => *b == *a && e1 == e0 + match spec_focused_credential(a) {
            Some(ck) => seq![Effect::DeleteCredential(ck)],
            None => Seq::empty(),
        },
        _ => *b == *a && e1 == e0,
    }
}

/// Whether the Settings handler owns `action` in state `a`.
pub open spec fn spec_is_settings_action(a: &App, action: Action) -> bool {
    match action {
        Action::SettingsScrollUp | Action::SettingsScrollDown | Action::SettingsAddSymbol
        | Action::SettingsSectionPrev | Action::SettingsSectionNext | Action::SettingsEditCredential => true,
        Action::SettingsDelete => a.settings_section == SettingsSection::Alpaca
            || a.settings_section == SettingsSection::Sources,
        _ => false,
    }
}

/// What a Settings action does; actions the handler does not own change nothing.
pub open spec fn spec_settings_post(a: &App, b: &App, action: Action, e0: Seq<Effect>, e1: Seq<Effect>) -> bool {
    match action {
        Action::SettingsScrollUp => spec_settings_scroll_up_post(a, b) && e1 == e0,
        Action::SettingsScrollDown => spec_settings_scroll_down_post(a, b, CONFIG_ROW_COUNT as nat) && e1 == e0,
        Action::SettingsSectionPrev => spec_settings_section_post(a, b, false) && e1 == e0,
        Action::SettingsSectionNext => spec_settings_section_post(a, b, true) && e1 == e0,
        Action::SettingsAddSymbol | Action::SettingsEditCredential => spec_settings_edit_post(a, b, action, e0, e1),
        Action::SettingsDelete => if spec_is_settings_action(a, action) {
            spec_settings_edit_post(a, b, action, e0, e1)
        } else {
            *b == *a && e1 == e0
        },
        _ => *b == *a && e1 == e0,
    }
}

fn move_focus(sec: &mut SettingsSection, hf: &mut SettingsHealthFocus, si: &mut usize, ci: &mut usize,
    sr: &mut usize, ar: &mut usize, down: bool, symbols: usize, config_rows: usize)
    ensures
        (*final(sec), *final(hf), *final(si), *final(ci), *final(sr), *final(ar)) == if down {
            spec_focus_down((*old(sec), *old(hf), *old(si), *old(ci), *old(sr), *old(ar)), symbols as nat, config_rows as nat)
        } else {
            spec_focus_up((*old(sec), *old(hf), *old(si), *old(ci), *old(sr), *old(ar)))
        },
{
    match *sec {
        SettingsSection::Health => {
            if down {
                if *hf == SettingsHealthFocus::Transport {
                    *hf = SettingsHealthFocus::Services;
                } else {
                    *sec = SettingsSection::Config;
                }
            } else {
                *hf = hf.prev();
            }
        },
        SettingsSection::Symbols => {
            if down {
                if symbols > 0 && *si < symbols - 1 {
                    *si = *si + 1;
                } else {
                    *sec = SettingsSection::Sources;
                    *sr = 0;
                }
            } else if *si > 0 {
                *si = *si - 1;
            } else {
                *sec = SettingsSection::Config;
            }
        },
        SettingsSection::Config => {
            if down {
                if config_rows > 0 && *ci < config_rows - 1 {
                    *ci = *ci + 1;
                } else {
                    *sec = SettingsSection::Symbols;
                }
            } else if *ci > 0 {
                *ci = *ci - 1;
            } else {
                *sec = SettingsSection::Health;
            }
        },
        SettingsSection::Sources => {
            if down {
                if *sr < SOURCES_TABLE_ROW_COUNT - 1 {
                    *sr = *sr + 1;
                } else {
                    *sec = SettingsSection::Alpaca;
                    *ar = 0;
                }
            } else if *sr > 0 {
                *sr = *sr - 1;
            } else {
                *sec = SettingsSection::Symbols;
            }
        },
        SettingsSection::Alpaca => {
            if down {
                if *ar < ALPACA_CREDENTIAL_ROW_COUNT - 1 {
                    *ar = *ar + 1;
                } else {
                    *sec = SettingsSection::Health;
                    *hf = SettingsHealthFocus::Transport;
                }
            } else if *ar > 0 {
                *ar = *ar - 1;
            } else {
                *sec = SettingsSection::Sources;
                *sr = SOURCES_TABLE_ROW_COUNT - 1;
            }
        },
    }
}

#[verifier::spinoff_prover]
#[verifier::rlimit(100)]
fn settings_scroll(app: &mut App, down: bool)
    ensures
        down ==> spec_settings_scroll_down_post(old(app), final(app), CONFIG_ROW_COUNT as nat),
        !down ==> spec_settings_scroll_up_post(old(app), final(app)),
{
    let rows = config_key_count(&app.config);
    let symbols = match &app.watchlist_override {
        Some(w) => w.len(),
        None => app.config.watchlist.len(),
    };
    move_focus(&mut app.settings_section, &mut app.settings_health_focus, &mut app.settings_symbol_index,
        &mut app.settings_config_key_index, &mut app.settings_sources_row, &mut app.settings_alpaca_row,
        down, symbols, rows);
}

#[verifier::spinoff_prover]
fn settings_section(app: &mut App, forward: bool)
    ensures
        spec_settings_section_post(old(app), final(app), forward),
{
    proof {
        reveal(spec_settings_section_post);
    }
    app.settings_section = if forward { app.settings_section.next() } else { app.settings_section.prev() };
    if app.settings_section == SettingsSection::Health {
        app.settings_health_focus = SettingsHealthFocus::Transport;
    }
}

fn focused_credential(app: &App) -> (r: Option<crate::app::CredentialKey>)
    ensures
        r == spec_focused_credential(app),
{
    match app.settings_section {
        SettingsSection::Alpaca => alpaca_credential_key_for_row(app.settings_alpaca_row),
        SettingsSection::Sources => credential_key_for_sources_row(app.settings_sources_row),
        _ => None,
    }
}

#[verifier::spinoff_prover]
#[verifier::rlimit(100)]
fn settings_edit(app: &mut App, action: Action, effects: &mut Vec<Effect>)
    requires
        action == Action::SettingsAddSymbol || action == Action::SettingsEditCredential
            || action == Action::SettingsDelete,
    ensures
        spec_settings_edit_post(old(app), final(app), action, old(effects)@, final(effects)@),
{
    proof {
        reveal(spec_settings_edit_post);
    }
    match action {
        Action::SettingsAddSymbol => {
            if app.settings_section == SettingsSection::Symbols {
                app.settings_add_symbol_input = Some(String::new());
                app.command_success("settings", ADD_SYMBOL_MESSAGE);
            }
        },
        Action::SettingsEditCredential => {
            if let Some(ck) = focused_credential(app) {
                effects.push(Effect::LoadCredential(ck));
                app.settings_credential_edit_key = Some(ck);
                app.settings_credential_buffer = Some(String::new());
                app.command_success("settings", CREDENTIAL_EDIT_MESSAGE);
            }
        },
        _ => {
            match focused_credential(app) {
                Some(ck) => {
                    effects.push(Effect::DeleteCredential(ck));
                    assert(effects@ =~= old(effects)@ + seq![Effect::DeleteCredential(ck)]);
                },
                None => {
                    assert(effects@ =~= old(effects)@ + Seq::<Effect>::empty());
                },
            }
        },
    }
}

/// Apply a Settings action (see `spec_settings_post`); returns whether the handler owns
/// it. Deleting in the Symbols section is left to the watchlist handler.
pub fn apply_settings_action(app: &mut App, action: Action, effects: &mut Vec<Effect>) -> (r: bool)
    ensures
        r == spec_is_settings_action(old(app), action),
        spec_settings_post(old(app), final(app), action, old(effects)@, final(effects)@),
{
    match action {
        Action::SettingsScrollUp => settings_scroll(app, false),
        Action::SettingsScrollDown => settings_scroll(app, true),
        Action::SettingsSectionPrev => settings_section(app, false),
        Action::SettingsSectionNext => settings_section(app, true),
        Action::SettingsAddSymbol | Action::SettingsEditCredential => settings_edit(app, action, effects),
        Action::SettingsDelete => {
            if app.settings_section == SettingsSection::Alpaca || app.settings_section == SettingsSection::Sources {
                settings_edit(app, action, effects);
            } else {
                return false;
            }
        },
        _ => {
            return false;
        },
    }
    true
}

} // verus!
