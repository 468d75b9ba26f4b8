//! What the hint bar says: key/label pairs for the global keys, the active pane and the
//! input surface, the mode indicator, the loading cues and the last command's status.
//! Drawing them (bold keys, colours) is left to the caller.
use vstd::prelude::*;
use crate::app::{spec_input_mode, App, CommandStatus, InputMode};
use crate::app_config::pairs_view;
use crate::feedback::spec_retain_active;
use crate::focus::{spec_focus_label, spec_secondary_focus};
use crate::input_views::ViewData;
use crate::labels::truncate_detail;
use crate::pane::{pane_spec, spec_pane_hint_mode, PaneHintMode};
use crate::tab::Tab;
use crate::text::{concat, copy_str, spec_truncate_chars, strings_view};

verus! {

/// A hint: key (empty for a plain cue) and label.
pub type HintPairs = Seq<(Seq<char>, Seq<char>)>;

/// Hints every pane starts with.
pub open spec fn spec_leading_hints() -> HintPairs {
    Seq::empty().push(("q"@, "quit"@)).push(("?"@, "help"@)).push(("Tab/BackTab"@, "next/prev tab"@))
        .push(("0-9"@, "jump to tab"@)).push(("M"@, "read-only"@))
}

/// `s` followed by the hints of a pane in `mode`, for the input surface `input`;
/// `no_scenarios` says whether the Scenarios filters leave nothing to show, `focus` is
/// the label of the nested Settings focus.
pub open spec fn spec_pane_hints(s: HintPairs, mode: PaneHintMode, input: InputMode, no_scenarios: bool,
    focus: Option<Seq<char>>) -> HintPairs {
    match mode {
        PaneHintMode::Yield => s.push(("←/→"@, "Yield symbol"@)),
        PaneHintMode::Settings => match focus {
            Some(l) => s.push(("←/→"@, "section"@)).push(("focus"@, l)),
            None => s.push(("←/→"@, "section"@)),
        },
        PaneHintMode::Charts => if input == InputMode::ChartSearch {
            s.push(("/"@, "search"@)).push(("↑↓ Home End"@, "pick"@)).push(("Enter Esc"@, "apply/close"@))
        } else {
            s.push(("/"@, "search"@)).push(("←→·hl"@, "expiry"@)).push(("↑↓·jk"@, "row"@)).push(("Enter"@, "width"@))
        },
        PaneHintMode::Orders => s.push(("/"@, if input == InputMode::OrdersFilter { "filter active"@ } else {
            "filter"@ })).push(("Enter"@, "detail"@)),
        PaneHintMode::Scenarios => {
            let t = s.push(("Enter"@, "detail"@)).push(("[ ]"@, "DTE"@)).push(("w"@, "width"@))
                .push(("o"@, "execute (off)"@));
            if no_scenarios { t.push((""@, "No results — ] widen DTE or w clear width filter"@)) } else { t }
        },
        PaneHintMode::Plain => s,
    }
}

/// `s` followed by the hints for the split pane, scrolling and the disabled controls.
pub open spec fn spec_control_hints(s: HintPairs, tab: Tab, split_pane: bool) -> HintPairs {
    let s1 = if split_pane && (tab == Tab::Dashboard || tab == Tab::Positions) {
        s.push(("Tab/BackTab"@, "focus pane"@))
    } else {
        s
    };
    let s2 = s1.push(("↑/↓ PgUp/PgDn"@, "scroll"@)).push(("c"@, "combo"@))
        .push(("p"@, if split_pane { "single pane"@ } else { "split pane"@ }))
        .push(("S"@, "disabled"@)).push(("T"@, "disabled"@)).push(("K"@, "disabled"@)).push(("F"@, "disabled"@));
    if tab == Tab::Orders || tab == Tab::Scenarios { s2.push((""@, "Exploration mode"@)) } else { s2 }
}

/// `s` followed by the Loans and Settings key hints of `tab`.
pub open spec fn spec_tab_key_hints(s: HintPairs, tab: Tab, input: InputMode) -> HintPairs {
    if tab == Tab::Loans {
        if input == InputMode::LoanImportPath {
            s.push(("Enter"@, "import"@)).push(("Esc"@, "cancel path"@))
        } else if input == InputMode::LoanForm {
            s.push(("Tab"@, "next field"@)).push(("Enter"@, "submit"@)).push(("Esc"@, "cancel"@))
        } else {
            s.push(("n"@, "new"@)).push(("b/i"@, "bulk JSON"@))
        }
    } else if tab == Tab::Settings {
        s.push(("e"@, "edit"@)).push(("a"@, "add"@)).push(("Del"@, "remove"@)).push(("r"@, "reset symbols"@))
    } else {
        s
    }
}

/// All key hints of the hint bar for `a`.
pub open spec fn spec_key_hints(a: &App, d: &ViewData) -> HintPairs {
    let input = spec_input_mode(a);
    let s = spec_pane_hints(spec_leading_hints(), spec_pane_hint_mode(a.active_tab), input, d.scenarios_len == 0,
        spec_focus_label(spec_secondary_focus(a)));
    spec_tab_key_hints(spec_control_hints(s, a.active_tab, a.split_pane), a.active_tab, input)
}

/// The mode indicator for an input surface (the config key being edited, cut to 16
/// characters, or `CONFIG`).
pub open spec fn spec_mode_indicator(input: InputMode, edit_key: Option<Seq<char>>) -> Option<Seq<char>> {
    match input {
        InputMode::SettingsEditConfig => Some("SETTINGS:EDIT "@ + spec_truncate_chars(
            match edit_key { Some(k) => k, None => "CONFIG"@ }, 16)),
        InputMode::SettingsAddSymbol => Some("SETTINGS:ADD SYMBOL"@),
        InputMode::SettingsCredentialEntry => Some("SETTINGS:API KEY"@),
        InputMode::ChartSearch => Some("CHARTS:SEARCH"@),
        InputMode::OrdersFilter => Some("ORDERS:FILTER"@),
        InputMode::LoanForm => Some("LOANS:FORM"@),
        InputMode::LoanImportPath => Some("LOANS:IMPORT"@),
        InputMode::LogPanel => Some("LOGS:PANEL"@),
        InputMode::TreePanel => Some("TREE:PANEL"@),
        _ => None,
    }
}

/// Label of a command status.
pub open spec fn spec_command_status_label(s: CommandStatus) -> Seq<char> {
    match s {
        CommandStatus::Accepted => "accepted"@,
        CommandStatus::Completed => "completed"@,
        CommandStatus::Failed => "failed"@,
    }
}

/// Loading cues: the yield refresh, then the loans list (loading, or its error cut to
/// 24 characters).
pub open spec fn spec_loading_cues(a: &App) -> Seq<Seq<char>> {
    let s0: Seq<Seq<char>> = Seq::empty();
    let s1 = if a.yield_refresh_pending { s0.push("Yield:loading"@) } else { s0 };
    if a.loans_fetch_pending {
        s1.push("Loans:loading"@)
    } else {
        match a.loans_list {
            Some(Err(e)) => s1.push("Loans:"@ + spec_truncate_chars(e@, 24)),
            _ => s1,
        }
    }
}

/// The last command's cue: `action:status`, then its message or error cut to 28
/// characters.
pub open spec fn spec_command_cue(a: &App) -> Option<(Seq<char>, Option<Seq<char>>)> {
    match a.last_command_status {
        Some(c) => Some((c.action@ + ":"@ + spec_command_status_label(c.status), match c.message {
            Some(m) => Some(spec_truncate_chars(m@, 28)),
            None => match c.error {
                Some(e) => Some(spec_truncate_chars(e@, 28)),
                None => None,
            },
        })),
        None => None,
    }
}

fn push_hint(v: &mut Vec<(String, String)>, key: &str, label: &str)
    ensures
        pairs_view(final(v)@) == pairs_view(old(v)@).push((key@, label@)),
{
    v.push((copy_str(key), copy_str(label)));
    assert(pairs_view(v@) =~= pairs_view(old(v)@).push((key@, label@)));
}

fn pane_hints(v: &mut Vec<(String, String)>, mode: PaneHintMode, input: InputMode, no_scenarios: bool,
    focus: Option<&str>)
    ensures
        pairs_view(final(v)@) == spec_pane_hints(pairs_view(old(v)@), mode, input, no_scenarios, match focus {
            Some(l) => Some(l@),
            None => None,
        }),
{
    match mode {
        PaneHintMode::Yield => push_hint(v, "←/→", "Yield symbol"),
        PaneHintMode::Settings => {
            push_hint(v, "←/→", "section");
            if let Some(l) = focus {
                push_hint(v, "focus", l);
            }
        },
        PaneHintMode::Charts => {
            push_hint(v, "/", "search");
            if input == InputMode::ChartSearch {
                push_hint(v, "↑↓ Home End", "pick");
                push_hint(v, "Enter Esc", "apply/close");
            } else {
                push_hint(v, "←→·hl", "expiry");
                push_hint(v, "↑↓·jk", "row");
                push_hint(v, "Enter", "width");
            }
        },
        PaneHintMode::Orders => {
            push_hint(v, "/", if input == InputMode::OrdersFilter { "filter active" } else { "filter" });
            push_hint(v, "Enter", "detail");
        },
        PaneHintMode::Scenarios => {
            push_hint(v, "Enter", "detail");
            push_hint(v, "[ ]", "DTE");
            push_hint(v, "w", "width");
            push_hint(v, "o", "execute (off)");
            if no_scenarios {
                push_hint(v, "", "No results — ] widen DTE or w clear width filter");
            }
        },
        PaneHintMode::Plain => {},
    }
}

fn control_hints(v: &mut Vec<(String, String)>, tab: Tab, split_pane: bool)
    ensures
        pairs_view(final(v)@) == spec_control_hints(pairs_view(old(v)@), tab, split_pane),
{
    if split_pane && (tab == Tab::Dashboard || tab == Tab::Positions) {
        push_hint(v, "Tab/BackTab", "focus pane");
    }
    push_hint(v, "↑/↓ PgUp/PgDn", "scroll");
    push_hint(v, "c", "combo");
    push_hint(v, "p", if split_pane { "single pane" } else { "split pane" });
    push_hint(v, "S", "disabled");
    push_hint(v, "T", "disabled");
    push_hint(v, "K", "disabled");
    push_hint(v, "F", "disabled");
    if tab == Tab::Orders || tab == Tab::Scenarios {
        push_hint(v, "", "Exploration mode");
    }
}

fn tab_key_hints(v: &mut Vec<(String, String)>, tab: Tab, input: InputMode)
    ensures
        pairs_view(final(v)@) == spec_tab_key_hints(pairs_view(old(v)@), tab, input),
{
    if tab == Tab::Loans {
        if input == InputMode::LoanImportPath {
            push_hint(v, "Enter", "import");
            push_hint(v, "Esc", "cancel path");
        } else if input == InputMode::LoanForm {
            push_hint(v, "Tab", "next field");
            push_hint(v, "Enter", "submit");
            push_hint(v, "Esc", "cancel");
        } else {
            push_hint(v, "n", "new");
            push_hint(v, "b/i", "bulk JSON");
        }
    } else if tab == Tab::Settings {
        push_hint(v, "e", "edit");
        push_hint(v, "a", "add");
        push_hint(v, "Del", "remove");
        push_hint(v, "r", "reset symbols");
    }
}

/// The key hints of the hint bar, in order (see `spec_key_hints`).
pub fn key_hints(app: &App, data: &ViewData) -> (r: Vec<(String, String)>)
    ensures
        pairs_view(r@) == spec_key_hints(app, data),
{
    let mut v: Vec<(String, String)> = Vec::new();
    assert(pairs_view(v@) =~= Seq::empty());
    push_hint(&mut v, "q", "quit");
    push_hint(&mut v, "?", "help");
    push_hint(&mut v, "Tab/BackTab", "next/prev tab");
    push_hint(&mut v, "0-9", "jump to tab");
    push_hint(&mut v, "M", "read-only");
    let input = app.input_mode();
    let mode = pane_spec(app.active_tab).hint_mode;
    let focus = app.secondary_focus();
    pane_hints(&mut v, mode, input, data.scenarios_len == 0, focus.label());
    control_hints(&mut v, app.active_tab, app.split_pane);
    tab_key_hints(&mut v, app.active_tab, input);
    v
}

/// The mode indicator of the input surface (see `spec_mode_indicator`).
pub fn mode_indicator(app: &App) -> (r: Option<String>)
    ensures
        match r {
            Some(s) => spec_mode_indicator(spec_input_mode(app), match app.settings_edit_config_key {
                Some(k) => Some(k@),
                None => None,
            }) == Some(s@),
            None => spec_mode_indicator(spec_input_mode(app), match app.settings_edit_config_key {
                Some(k) => Some(k@),
                None => None,
            }) is None,
        },
{
    match app.input_mode() {
        InputMode::SettingsEditConfig => {
            let key = match &app.settings_edit_config_key {
                Some(k) => truncate_detail(k.as_str(), 16),
                None => truncate_detail("CONFIG", 16),
            };
            Some(concat("SETTINGS:EDIT ", key.as_str()))
        },
        InputMode::SettingsAddSymbol => Some(copy_str("SETTINGS:ADD SYMBOL")),
        InputMode::SettingsCredentialEntry => Some(copy_str("SETTINGS:API KEY")),
        InputMode::ChartSearch => Some(copy_str("CHARTS:SEARCH")),
        InputMode::OrdersFilter => Some(copy_str("ORDERS:FILTER")),
        InputMode::LoanForm => Some(copy_str("LOANS:FORM")),
        InputMode::LoanImportPath => Some(copy_str("LOANS:IMPORT")),
        InputMode::LogPanel => Some(copy_str("LOGS:PANEL")),
        InputMode::TreePanel => Some(copy_str("TREE:PANEL")),
        _ => None,
    }
}

/// Label of a command status (see `spec_command_status_label`).
pub fn command_status_label(s: CommandStatus) -> (r: &'static str)
    ensures
        r@ == spec_command_status_label(s),
{
    match s {
        CommandStatus::Accepted => "accepted",
        CommandStatus::Completed => "completed",
        CommandStatus::Failed => "failed",
    }
}

/// The loading cues (see `spec_loading_cues`).
pub fn loading_cues(app: &App) -> (r: Vec<String>)
    ensures
        strings_view(r@) == spec_loading_cues(app),
{
    let mut v: Vec<String> = Vec::new();
    if app.yield_refresh_pending {
        v.push(copy_str("Yield:loading"));
    }
    if app.loans_fetch_pending {
        v.push(copy_str("Loans:loading"));
    } else if let Some(Err(e)) = &app.loans_list {
        let cut = truncate_detail(e.as_str(), 24);
        v.push(concat("Loans:", cut.as_str()));
    }
    assert(strings_view(v@) =~= spec_loading_cues(app));
    v
}

/// The last command's cue (see `spec_command_cue`).
pub fn command_cue(app: &App) -> (r: Option<(String, Option<String>)>)
    ensures
        match (r, spec_command_cue(app)) {
            (Some((h, t)), Some((sh, st))) => h@ == sh && match (t, st) {
                (Some(x), Some(y)) => x@ == y,
                (None, None) => true,
                _ => false,
            },
            (None, None) => true,
            _ => false,
        },
{
    match &app.last_command_status {
        Some(c) => {
            let mut head = concat(c.action.as_str(), ":");
            let label = command_status_label(c.status);
            head = concat(head.as_str(), label);
            let tail = match &c.message {
                Some(m) => Some(truncate_detail(m.as_str(), 28)),
                None => match &c.error {
                    Some(e) => Some(truncate_detail(e.as_str(), 28)),
                    None => None,
                },
            };
            Some((head, tail))
        },
        None => None,
    }
}

/// Whether an overlay covers the screen at time `now` (help, the log or tree panel, a
/// detail popup, the command palette, or an active toast), so that the whole screen is
/// redrawn rather than only the changed regions.
pub open spec fn spec_layered_chrome_active(app: &App, now: u64) -> bool {
    app.show_help || app.show_log_panel || app.show_tree_panel || app.detail_popup is Some
        || app.command_palette.visible || spec_retain_active(app.toast_manager@.toasts, now).len() > 0
}

/// Whether an overlay covers the screen at time `now` (see `spec_layered_chrome_active`).
pub fn layered_chrome_active_at(app: &App, now: u64) -> (r: bool)
    ensures
        r == spec_layered_chrome_active(app, now),
{
    app.show_help || app.show_log_panel || app.show_tree_panel || app.detail_popup.is_some()
        || app.command_palette.visible || app.toast_manager.has_active_at(now)
}

/// Whether an overlay covers the screen now, reading the toast clock.
pub fn layered_chrome_active(app: &App) -> (r: bool)
    ensures
        exists|now: u64| r == #[trigger] spec_layered_chrome_active(app, now),
{
    let now = app.toast_manager.now_ms();
    layered_chrome_active_at(app, now)
}

} // verus!
