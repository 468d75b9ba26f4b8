//! Key handling at the top of the application: overlays close on any key, the
//! credential and config/symbol editors take typed text, and every other key goes
//! through the key map to `apply_action`. Also the replies that finish outside work
//! (a credential stored, a yield refresh published, a bulk import handed over).
use vstd::prelude::*;
use crate::action::Action;
use crate::app::{
    notify, spec_input_mode, spec_toast_pushed, App, CommandStatus, CommandStatusView, Effect, InputMode,
    RefreshTask, RefreshTaskStatus, MAX_REFRESH_TASKS,
};
use crate::app_config::{merge_config_overrides, ConfigOverrides, spec_config_hint, spec_merge_overrides, validate_config_hint};
use crate::config::TuiConfig;
use crate::dirty_flags::DirtyFlags;
use crate::feedback::ToastLevel;
use crate::input::{apply_action, spec_apply_action};
use crate::input_loans::spec_effective_watchlist;
use crate::input_router::{key_to_action, spec_dispatch_key_event};
use crate::input_views::ViewData;
use crate::keys::{is_control, spec_is_control, KeyCode, KeyEvent};
use crate::text::{
    concat, copy_str, copy_strings, pop_char, push_char, push_str, sort_strings, spec_sorted_strings,
    spec_str_to_uppercase, spec_trim, str_eq, strings_view, to_uppercase, trim,
};

verus! {

/// Message shown when the credential editor is left with Esc.
pub const CREDENTIAL_CANCELLED_MESSAGE: &'static str = "Credential edit cancelled.";
/// Message shown when the config or symbol editor is left with Esc.
pub const EDIT_CANCELLED_MESSAGE: &'static str = "Edit cancelled.";
/// Message shown when a bulk import cannot be handed to the loans worker.
pub const BULK_IMPORT_CLOSED_MESSAGE: &'static str = "Bulk import channel closed.";

/// The state after `mark_dirty`.
pub open spec fn spec_marked(a: &App) -> App {
    App { needs_redraw: true, dirty_flags: DirtyFlags::all_dirty(), ..*a }
}

/// A text buffer after a typed key: Backspace drops the last character, a printable
/// character is appended, other keys leave it.
pub open spec fn spec_typed(buf: Seq<char>, code: KeyCode) -> Seq<char> {
    match code {
        KeyCode::Backspace => if buf.len() == 0 { buf } else { buf.drop_last() },
        KeyCode::Char(c) => if spec_is_control(c) { buf } else { buf.push(c) },
        _ => buf,
    }
}

/// `b` records a completed `settings` command with `msg` (no toast, hint and status bars
/// redrawn) and may differ from `a` only there and in the fields `rest` replaces.
pub open spec fn spec_settings_success(b: &App, msg: Seq<char>) -> bool {
    &&& b.last_command_status matches Some(st) && st.action@ == "settings"@
        && st.status == CommandStatus::Completed && (st.message matches Some(m) && m@ == msg)
    &&& b.needs_redraw
}

/// Enter in the credential editor: the trimmed value is to be stored (or the
/// credential deleted when it is empty) when a credential is being edited; the editor
/// closes.
#[verifier::opaque]
pub open spec fn spec_credential_enter_post(a: &App, b: &App, buf: Seq<char>, e0: Seq<Effect>, e1: Seq<Effect>) -> bool {
    *b == (App { settings_credential_edit_key: None, settings_credential_buffer: None, ..*a })
        && match a.settings_credential_edit_key {
            Some(ck) => e1.len() == e0.len() + 1 && e1.take(e0.len() as int) == e0
                && if spec_trim(buf).len() == 0 {
                    e1.last() == Effect::DeleteCredential(ck)
                } else {
                    e1.last() matches Effect::SaveCredential(k, v) && k == ck && v@ == spec_trim(buf)
                },
            None => e1 == e0,
        }
}

/// Esc in the credential editor: it closes with a note.
#[verifier::opaque]
pub open spec fn spec_credential_cancel_post(a: &App, b: &App) -> bool {
    spec_settings_success(b, CREDENTIAL_CANCELLED_MESSAGE@)
        && b.toast_manager@ == a.toast_manager@
        && *b == (App { settings_credential_edit_key: None, settings_credential_buffer: None,
            last_command_status: b.last_command_status, toast_manager: b.toast_manager,
            dirty_flags: b.dirty_flags, needs_redraw: true, ..*a })
}

/// Credential editor keys. Enter asks for the value to be stored and closes the editor;
/// Esc closes it with a note; other keys edit the buffer.
pub open spec fn spec_credential_key_post(a: &App, b: &App, code: KeyCode, e0: Seq<Effect>, e1: Seq<Effect>) -> bool {
    match a.settings_credential_buffer {
        None => *b == *a && e1 == e0,
        Some(buf) => match code {
            KeyCode::Enter => spec_credential_enter_post(a, b, buf@, e0, e1),
            KeyCode::Esc => e1 == e0 && spec_credential_cancel_post(a, b),
            _ => e1 == e0 && (b.settings_credential_buffer matches Some(nb) && nb@ == spec_typed(buf@, code))
                && *b == (App { settings_credential_buffer: b.settings_credential_buffer, ..*a }),
        },
    }
}

/// A non-empty override `val` of `key` committed: the configuration is rebuilt from the
/// base with all overrides and checked again, the split-pane layout follows it, and
/// the editor closes with a note.
#[verifier::opaque]
pub open spec fn spec_config_commit_post(a: &App, b: &App, key: Seq<char>, val: Seq<char>) -> bool {
    &&& b.config_overrides@ == a.config_overrides@.insert(key, val)
    &&& b.config@ == spec_merge_overrides(a.base_config@, b.config_overrides@)
    &&& (match b.config_warning {
        Some(w) => spec_config_hint(b.config@) == Some(w@),
        None => spec_config_hint(b.config@) is None,
    })
    &&& b.split_pane == b.config.split_pane
    &&& spec_settings_success(b, "Saved override for "@ + key + "."@)
    &&& b.toast_manager@ == a.toast_manager@
    &&& *b == (App { config: b.config, config_overrides: b.config_overrides, config_warning: b.config_warning,
        split_pane: b.split_pane, last_command_status: b.last_command_status, toast_manager: b.toast_manager,
        dirty_flags: b.dirty_flags, needs_redraw: true, settings_edit_config_key: None,
        settings_add_symbol_input: None, ..*a })
}

/// Enter in the config editor: a non-empty trimmed value is committed as the override
/// of the key being edited (see `spec_config_commit_post`); the editor closes either way.
pub open spec fn spec_config_enter_post(a: &App, b: &App, key: Seq<char>, buf: Seq<char>) -> bool {
    if spec_trim(buf).len() > 0 {
        spec_config_commit_post(a, b, key, spec_trim(buf))
    } else {
        *b == (App { settings_edit_config_key: None, settings_add_symbol_input: None, ..*a })
    }
}

/// A new symbol `s` added: the effective watchlist with it, sorted, becomes the
/// override, an info toast says so, and the editor closes.
#[verifier::opaque]
pub open spec fn spec_symbol_add_post(a: &App, b: &App, s: Seq<char>) -> bool {
    let wl = spec_effective_watchlist(a.watchlist_override, a.config.watchlist);
    &&& b.watchlist_override matches Some(l) && spec_sorted_strings(strings_view(l@))
        && strings_view(l@).to_multiset() == wl.push(s).to_multiset()
    &&& spec_toast_pushed(&a.toast_manager, &b.toast_manager, "Symbol "@ + s + " added to watchlist."@,
        ToastLevel::Info)
    &&& b.dirty_flags == (DirtyFlags { overlay: true, ..a.dirty_flags })
    &&& *b == (App { watchlist_override: b.watchlist_override, toast_manager: b.toast_manager,
        dirty_flags: b.dirty_flags, needs_redraw: true, settings_add_symbol_input: None, ..*a })
}

/// Enter in the symbol editor: the trimmed, uppercased symbol joins the effective
/// watchlist (see `spec_symbol_add_post`) unless it is empty or already listed; the
/// editor closes either way.
pub open spec fn spec_symbol_enter_post(a: &App, b: &App, buf: Seq<char>) -> bool {
    let s = spec_str_to_uppercase(spec_trim(buf));
    if s.len() > 0 && !spec_effective_watchlist(a.watchlist_override, a.config.watchlist).contains(s) {
        spec_symbol_add_post(a, b, s)
    } else {
        *b == (App { settings_add_symbol_input: None, ..*a })
    }
}

/// Config and symbol editor keys: Enter commits (see `spec_config_enter_post` and
/// `spec_symbol_enter_post`), Esc closes the editor with a note, other keys edit the
/// buffer.
#[verifier::opaque]
pub open spec fn spec_edit_key_post(a: &App, b: &App, code: KeyCode) -> bool {
    match a.settings_add_symbol_input {
        None => *b == *a,
        Some(buf) => match code {
            KeyCode::Enter => match a.settings_edit_config_key {
                Some(k) => spec_config_enter_post(a, b, k@, buf@),
                None => spec_symbol_enter_post(a, b, buf@),
            },
            KeyCode::Esc => spec_settings_success(b, EDIT_CANCELLED_MESSAGE@)
                && b.toast_manager@ == a.toast_manager@
                && *b == (App { settings_edit_config_key: None, settings_add_symbol_input: None,
                    last_command_status: b.last_command_status, toast_manager: b.toast_manager,
                    dirty_flags: b.dirty_flags, needs_redraw: true, ..*a }),
            _ => (b.settings_add_symbol_input matches Some(nb) && nb@ == spec_typed(buf@, code))
                && *b == (App { settings_add_symbol_input: b.settings_add_symbol_input, ..*a }),
        },
    }
}

/// What a key does, on the state after `mark_dirty`: Help and detail overlays close,
/// the credential and config/symbol editors take the key, and otherwise the key map
/// picks an action that `apply_action` applies.
pub open spec fn spec_key_post(a: &App, b: &App, key: KeyEvent, d: &ViewData, e0: Seq<Effect>, e1: Seq<Effect>) -> bool {
    match spec_input_mode(a) {
        InputMode::Help => *b == (App { show_help: false, ..*a }) && e1 == e0,
        InputMode::DetailPopup => *b == (App { detail_popup: None, ..*a }) && e1 == e0,
        InputMode::SettingsCredentialEntry => spec_credential_key_post(a, b, key.code, e0, e1),
        InputMode::SettingsEditConfig | InputMode::SettingsAddSymbol => spec_edit_key_post(a, b, key.code)
            && e1 == e0,
        _ => match spec_dispatch_key_event(a, key) {
            Some(action) => spec_apply_action(a, b, action, d, e0, e1),
            None => *b == *a && e1 == e0,
        },
    }
}

/// A symbol added from the Settings editor is in the watchlist afterwards, and the
/// watchlist is sorted.
pub proof fn law_added_symbol_is_listed(a: &App, b: &App, s: Seq<char>)
    requires
        spec_symbol_add_post(a, b, s),
    ensures
        b.watchlist_override matches Some(l) && strings_view(l@).contains(s) && spec_sorted_strings(strings_view(l@)),
{
    reveal(spec_symbol_add_post);
    let wl = spec_effective_watchlist(a.watchlist_override, a.config.watchlist);
    let l = b.watchlist_override->0;
    assert(wl.push(s)[wl.len() as int] == s);
    assert(wl.push(s).contains(s));
    vstd::seq_lib::to_multiset_contains(wl.push(s), s);
    vstd::seq_lib::to_multiset_contains(strings_view(l@), s);
}

/// Whether `list` holds a string equal to `s`.
fn contains_str(list: &Vec<String>, s: &str) -> (r: bool)
    ensures
        r == strings_view(list@).contains(s@),
{
    let mut i: usize = 0;
    while i < list.len()
        invariant
            i <= list@.len(),
            forall|j: int| 0 <= j < i ==> (#[trigger] list@[j])@ != s@,
        decreases list@.len() - i,
    {
        if str_eq(list[i].as_str(), s) {
            proof {
                assert(strings_view(list@)[i as int] == s@);
            }
            return true;
        }
        i = i + 1;
    }
    proof {
        if strings_view(list@).contains(s@) {
            let j = choose|j: int| 0 <= j < strings_view(list@).len() && strings_view(list@)[j] == s@;
            assert(list@[j]@ == s@);
        }
    }
    false
}

/// Add `s`, not yet listed, to the effective watchlist as an override, sorted.
fn add_watch_symbol(ov: &mut Option<Vec<String>>, configured: &Vec<String>, s: &str)
    ensures
        *final(ov) matches Some(l) && spec_sorted_strings(strings_view(l@))
            && strings_view(l@).to_multiset() == spec_effective_watchlist(*old(ov), *configured).push(s@).to_multiset(),
{
    let mut list = match ov {
        Some(w) => copy_strings(w),
        None => copy_strings(configured),
    };
    let ghost before = strings_view(list@);
    list.push(copy_str(s));
    assert(strings_view(list@) =~= before.push(s@));
    sort_strings(&mut list);
    *ov = Some(list);
}

/// Ask for `buf`, trimmed, to be stored as credential `key` (deleted when empty).
fn credential_effect(key: Option<crate::app::CredentialKey>, buf: &str, effects: &mut Vec<Effect>)
    ensures
        match key {
            Some(ck) => final(effects)@.len() == old(effects)@.len() + 1
                && final(effects)@.take(old(effects)@.len() as int) == old(effects)@
                && if spec_trim(buf@).len() == 0 {
                    final(effects)@.last() == Effect::DeleteCredential(ck)
                } else {
                    final(effects)@.last() matches Effect::SaveCredential(k, v) && k == ck && v@ == spec_trim(buf@)
                },
            None => final(effects)@ == old(effects)@,
        },
{
    if let Some(ck) = key {
        let val = trim(buf);
        if val.unicode_len() == 0 {
            effects.push(Effect::DeleteCredential(ck));
        } else {
            effects.push(Effect::SaveCredential(ck, val));
        }
        assert(effects@.take(old(effects)@.len() as int) =~= old(effects)@);
    }
}

#[verifier::spinoff_prover]
#[verifier::rlimit(100)]
fn credential_enter(app: &mut App, effects: &mut Vec<Effect>)
    requires
        old(app).settings_credential_buffer is Some,
    ensures
        spec_credential_enter_post(old(app), final(app), old(app).settings_credential_buffer->0@,
            old(effects)@, final(effects)@),
{
    proof {
        reveal(spec_credential_enter_post);
    }
    if let Some(buf) = &app.settings_credential_buffer {
        credential_effect(app.settings_credential_edit_key, buf.as_str(), effects);
    }
    app.settings_credential_edit_key = None;
    app.settings_credential_buffer = None;
}

#[verifier::spinoff_prover]
fn credential_cancel(app: &mut App)
    ensures
        spec_credential_cancel_post(old(app), final(app)),
{
    proof {
        reveal(spec_credential_cancel_post);
    }
    app.settings_credential_edit_key = None;
    app.settings_credential_buffer = None;
    app.command_success("settings", CREDENTIAL_CANCELLED_MESSAGE);
}

#[verifier::spinoff_prover]
fn credential_key(app: &mut App, code: KeyCode, effects: &mut Vec<Effect>)
    ensures
        spec_credential_key_post(old(app), final(app), code, old(effects)@, final(effects)@),
{
    if app.settings_credential_buffer.is_none() {
        return;
    }
    match code {
        KeyCode::Enter => credential_enter(app, effects),
        KeyCode::Esc => credential_cancel(app),
        _ => type_into(&mut app.settings_credential_buffer, code),
    }
}

/// Edit an open buffer with a typed key (see `spec_typed`).
fn type_into(buf: &mut Option<String>, code: KeyCode)
    requires
        *old(buf) is Some,
    ensures
        *final(buf) matches Some(nb) && nb@ == spec_typed((*old(buf))->0@, code),
{
    if let Some(b) = buf {
        match code {
            KeyCode::Backspace => {
                pop_char(b);
            },
            KeyCode::Char(c) => {
                if !is_control(c) {
                    push_char(b, c);
                }
            },
            _ => {},
        }
    }
}

/// Record `val` as the override of `key` and rebuild the configuration from `base`.
pub(crate) fn set_override(overrides: &mut ConfigOverrides, config: &mut TuiConfig, warning: &mut Option<String>,
    split: &mut bool, base: &TuiConfig, key: &str, val: &str)
    ensures
        final(overrides)@ == old(overrides)@.insert(key@, val@),
        final(config)@ == spec_merge_overrides(base@, final(overrides)@),
        match *final(warning) {
            Some(w) => spec_config_hint(final(config)@) == Some(w@),
            None => spec_config_hint(final(config)@) is None,
        },
        *final(split) == final(config).split_pane,
{
    overrides.insert(key, val);
    *config = merge_config_overrides(base.clone_config(), overrides);
    *warning = validate_config_hint(config);
    *split = config.split_pane;
}

#[verifier::spinoff_prover]
#[verifier::rlimit(100)]
fn config_commit(app: &mut App, key: &str, val: &str)
    ensures
        spec_config_commit_post(old(app), final(app), key@, val@),
{
    proof {
        reveal(spec_config_commit_post);
    }
    set_override(&mut app.config_overrides, &mut app.config, &mut app.config_warning, &mut app.split_pane,
        &app.base_config, key, val);
    let mut msg = concat("Saved override for ", key);
    push_str(&mut msg, ".");
    app.command_success("settings", msg.as_str());
    app.settings_edit_config_key = None;
    app.settings_add_symbol_input = None;
}

#[verifier::spinoff_prover]
fn config_enter(app: &mut App)
    requires
        old(app).settings_add_symbol_input is Some,
        old(app).settings_edit_config_key is Some,
    ensures
        spec_config_enter_post(old(app), final(app), old(app).settings_edit_config_key->0@,
            old(app).settings_add_symbol_input->0@),
{
    let key = match &app.settings_edit_config_key {
        Some(k) => copy_str(k.as_str()),
        None => String::new(),
    };
    let val = match &app.settings_add_symbol_input {
        Some(buf) => trim(buf.as_str()),
        None => String::new(),
    };
    if val.unicode_len() > 0 {
        config_commit(app, key.as_str(), val.as_str());
    } else {
        app.settings_edit_config_key = None;
        app.settings_add_symbol_input = None;
    }
}

#[verifier::spinoff_prover]
#[verifier::rlimit(100)]
fn symbol_add(app: &mut App, s: &str)
    requires
        !spec_effective_watchlist(old(app).watchlist_override, old(app).config.watchlist).contains(s@),
    ensures
        spec_symbol_add_post(old(app), final(app), s@),
{
    proof {
        reveal(spec_symbol_add_post);
    }
    add_watch_symbol(&mut app.watchlist_override, &app.config.watchlist, s);
    let mut msg = concat("Symbol ", s);
    push_str(&mut msg, " added to watchlist.");
    notify(&mut app.toast_manager, &mut app.dirty_flags, &mut app.needs_redraw, msg.as_str(), ToastLevel::Info);
    app.settings_add_symbol_input = None;
}

#[verifier::spinoff_prover]
#[verifier::rlimit(100)]
fn symbol_enter(app: &mut App)
    requires
        old(app).settings_add_symbol_input is Some,
    ensures
        spec_symbol_enter_post(old(app), final(app), old(app).settings_add_symbol_input->0@),
{
    let s = match &app.settings_add_symbol_input {
        Some(buf) => {
            let t = trim(buf.as_str());
            to_uppercase(t.as_str())
        },
        None => String::new(),
    };
    if s.unicode_len() > 0 && !watchlist_has(app, s.as_str()) {
        symbol_add(app, s.as_str());
    } else {
        app.settings_add_symbol_input = None;
    }
}

/// Whether the effective watchlist lists `s`.
fn watchlist_has(app: &App, s: &str) -> (r: bool)
    ensures
        r == spec_effective_watchlist(app.watchlist_override, app.config.watchlist).contains(s@),
{
    match &app.watchlist_override {
        Some(w) => contains_str(w, s),
        None => contains_str(&app.config.watchlist, s),
    }
}

#[verifier::spinoff_prover]
#[verifier::rlimit(100)]
fn edit_key(app: &mut App, code: KeyCode)
    ensures
        spec_edit_key_post(old(app), final(app), code),
{
    proof {
        reveal(spec_edit_key_post);
    }
    if app.settings_add_symbol_input.is_none() {
        return;
    }
    match code {
        KeyCode::Enter => {
            if app.settings_edit_config_key.is_some() {
                config_enter(app);
            } else {
                symbol_enter(app);
            }
        },
        KeyCode::Esc => {
            app.settings_edit_config_key = None;
            app.settings_add_symbol_input = None;
            app.command_success("settings", EDIT_CANCELLED_MESSAGE);
        },
        _ => type_into(&mut app.settings_add_symbol_input, code),
    }
}

impl App {
    /// Handle a key: everything is marked for redraw, then the key acts as
    /// `spec_key_post` says on the marked state.
    #[verifier::spinoff_prover]
    #[verifier::rlimit(100)]
    pub fn handle_key(&mut self, key: KeyEvent, data: &ViewData, effects: &mut Vec<Effect>)
        ensures
            spec_key_post(&spec_marked(old(self)), final(self), key, data, old(effects)@, final(effects)@),
    {
        self.mark_dirty();
        let mode = self.input_mode();
        match mode {
            InputMode::Help => {
                self.show_help = false;
            },
            InputMode::DetailPopup => {
                self.detail_popup = None;
            },
            InputMode::SettingsCredentialEntry => credential_key(self, key.code, effects),
            InputMode::SettingsEditConfig | InputMode::SettingsAddSymbol => edit_key(self, key.code),
            _ => {
                if let Some(action) = key_to_action(self, key) {
                    apply_action(self, action, data, effects);
                }
            },
        }
    }

    /// Apply an action directly (as a click or a command would): everything is marked
    /// for redraw first.
    pub fn handle_action(&mut self, action: Action, data: &ViewData, effects: &mut Vec<Effect>)
        ensures
            spec_apply_action(&spec_marked(old(self)), final(self), action, data, old(effects)@, final(effects)@),
    {
        self.mark_dirty();
        apply_action(self, action, data, effects);
    }

    /// Record how storing a credential went: `Saved <name>.` (or `Cleared <name>.` when
    /// it was deleted) on success, else a failed `settings` command with
    /// `Credential error: <error>`.
    pub fn credential_result(&mut self, name: &str, cleared: bool, error: Option<String>)
        ensures
            match error {
                None => final(self).last_command_status matches Some(st) && st.status == CommandStatus::Completed
                    && st.action@ == "settings"@ && (st.message matches Some(m)
                    && m@ == (if cleared { "Cleared "@ } else { "Saved "@ }) + name@ + "."@),
                Some(e) => final(self).last_command_status matches Some(st) && st.status == CommandStatus::Failed
                    && st.action@ == "settings"@ && (st.error matches Some(m) && m@ == "Credential error: "@ + e@)
                    && st.toast_on_failure,
            },
    {
        match error {
            None => {
                let mut msg = concat(if cleared { "Cleared " } else { "Saved " }, name);
                push_str(&mut msg, ".");
                self.command_success("settings", msg.as_str());
            },
            Some(e) => {
                let msg = concat("Credential error: ", e.as_str());
                self.set_command_status(CommandStatusView::failure("settings", msg.as_str()));
            },
        }
    }

    /// Report whether a bulk import reached the loans worker: delivered, a loans fetch is
    /// pending; not delivered, an error toast says the channel is closed.
    pub fn bulk_import_sent(&mut self, delivered: bool)
        ensures
            delivered ==> *final(self) == (App { loans_fetch_pending: true, ..*old(self) }),
            !delivered ==> spec_toast_pushed(&old(self).toast_manager, &final(self).toast_manager,
                BULK_IMPORT_CLOSED_MESSAGE@, ToastLevel::Error)
                && *final(self) == (App { toast_manager: final(self).toast_manager,
                    dirty_flags: DirtyFlags { overlay: true, ..old(self).dirty_flags }, needs_redraw: true,
                    ..*old(self) }),
    {
        if delivered {
            self.loans_fetch_pending = true;
        } else {
            self.push_toast(BULK_IMPORT_CLOSED_MESSAGE, ToastLevel::Error);
        }
    }
}

} // verus!
