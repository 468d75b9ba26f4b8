//! A compact snapshot of where input goes: the input surface, the tab, the nested
//! Settings focus and which workspace is on screen.
use vstd::prelude::*;
use crate::app::{spec_input_mode, App, InputMode, SettingsHealthFocus, SettingsSection};
use crate::tab::Tab;
use crate::pane::spec_pane_title;
use crate::text::copy_str;

verus! {

/// Field vs list band of an overlay with a text field above a list.
#[derive(Debug, Clone, Copy, PartialEq, Eq, Structural)]
pub enum FieldListSubFocus {
    Field,
    List,
}

/// Focus nested inside the active tab (only Settings has one).
#[derive(Debug, Clone, Copy, PartialEq, Eq, Structural)]
pub enum SecondaryFocus {
    /// The tab has no nested focus.
    Plain,
    SettingsSection(SettingsSection),
    SettingsHealth(SettingsHealthFocus),
}

/// Which multi-pane workspace is on screen.
#[derive(Debug, Clone, Copy, PartialEq, Eq, Structural)]
pub enum VisibleWorkspace {
    /// One pane, no workspace.
    Single,
    Market,
    Operations,
    Credit,
}

/// Current input surface, tab, nested focus and workspace.
#[derive(Debug, Clone, Copy, PartialEq, Eq, Structural)]
pub struct FocusContext {
    pub input_mode: InputMode,
    pub active_tab: Tab,
    pub secondary_focus: SecondaryFocus,
    pub visible_workspace: VisibleWorkspace,
}

/// Nested focus of a state: on Settings, the Health sub-focus inside Health, else the
/// section.
pub open spec fn spec_secondary_focus(a: &App) -> SecondaryFocus {
    if a.active_tab == Tab::Settings {
        if a.settings_section == SettingsSection::Health {
            SecondaryFocus::SettingsHealth(a.settings_health_focus)
        } else {
            SecondaryFocus::SettingsSection(a.settings_section)
        }
    } else {
        SecondaryFocus::Plain
    }
}

/// The workspace the visible panes make up: Market when it shows the Dashboard, Credit
/// when it shows Loans, Operations when it shows Alerts, a single pane otherwise.
pub open spec fn spec_visible_workspace(tabs: Seq<Tab>) -> VisibleWorkspace {
    if tabs.contains(Tab::Dashboard) {
        VisibleWorkspace::Market
    } else if tabs.contains(Tab::Loans) {
        VisibleWorkspace::Credit
    } else if tabs.contains(Tab::Alerts) {
        VisibleWorkspace::Operations
    } else {
        VisibleWorkspace::Single
    }
}

/// Label of a nested focus.
pub open spec fn spec_focus_label(f: SecondaryFocus) -> Option<Seq<char>> {
    match f {
        SecondaryFocus::Plain => None,
        SecondaryFocus::SettingsHealth(h) => Some(match h {
            SettingsHealthFocus::Transport => "Transport"@,
            SettingsHealthFocus::Services => "Services"@,
        }),
        SecondaryFocus::SettingsSection(s) => Some(match s {
            SettingsSection::Health => "Health"@,
            SettingsSection::Config => "Config"@,
            SettingsSection::Symbols => "Symbols"@,
            SettingsSection::Sources => "Sources"@,
            SettingsSection::Alpaca => "Alpaca"@,
        }),
    }
}

impl SecondaryFocus {
    /// Label shown for the nested focus (see `spec_focus_label`).
    pub fn label(&self) -> (r: Option<&'static str>)
        ensures
            match r {
                Some(s) => spec_focus_label(*self) == Some(s@),
                None => spec_focus_label(*self) is None,
            },
    {
        match self {
            SecondaryFocus::Plain => None,
            SecondaryFocus::SettingsHealth(h) => Some(match h {
                SettingsHealthFocus::Transport => "Transport",
                SettingsHealthFocus::Services => "Services",
            }),
            SecondaryFocus::SettingsSection(s) => Some(match s {
                SettingsSection::Health => "Health",
                SettingsSection::Config => "Config",
                SettingsSection::Symbols => "Symbols",
                SettingsSection::Sources => "Sources",
                SettingsSection::Alpaca => "Alpaca",
            }),
        }
    }
}

fn contains_tab(tabs: &Vec<Tab>, t: Tab) -> (r: bool)
    ensures
        r == tabs@.contains(t),
{
    let mut i: usize = 0;
    while i < tabs.len()
        invariant
            i <= tabs@.len(),
            forall|j: int| 0 <= j < i ==> tabs@[j] != t,
        decreases tabs@.len() - i,
    {
        if tabs[i] == t {
            return true;
        }
        i = i + 1;
    }
    false
}

impl App {
    /// Nested focus (see `spec_secondary_focus`).
    pub fn secondary_focus(&self) -> (r: SecondaryFocus)
        ensures
            r == spec_secondary_focus(self),
    {
        if self.active_tab == Tab::Settings {
            if self.settings_section == SettingsSection::Health {
                SecondaryFocus::SettingsHealth(self.settings_health_focus)
            } else {
                SecondaryFocus::SettingsSection(self.settings_section)
            }
        } else {
            SecondaryFocus::Plain
        }
    }

    /// Workspace on screen (see `spec_visible_workspace`).
    pub fn visible_workspace(&self) -> (r: VisibleWorkspace)
        ensures
            r == spec_visible_workspace(self.visible_workspace_tabs@),
    {
        if contains_tab(&self.visible_workspace_tabs, Tab::Dashboard) {
            VisibleWorkspace::Market
        } else if contains_tab(&self.visible_workspace_tabs, Tab::Loans) {
            VisibleWorkspace::Credit
        } else if contains_tab(&self.visible_workspace_tabs, Tab::Alerts) {
            VisibleWorkspace::Operations
        } else {
            VisibleWorkspace::Single
        }
    }

    /// Where input goes now.
    pub fn focus_context(&self) -> (r: FocusContext)
        ensures
            r == (FocusContext {
                input_mode: spec_input_mode(self),
                active_tab: self.active_tab,
                secondary_focus: spec_secondary_focus(self),
                visible_workspace: spec_visible_workspace(self.visible_workspace_tabs@),
            }),
    {
        FocusContext {
            input_mode: self.input_mode(),
            active_tab: self.active_tab,
            secondary_focus: self.secondary_focus(),
            visible_workspace: self.visible_workspace(),
        }
    }

    /// Title of the focused place: the nested Settings focus when there is one, else
    /// the active tab's title.
    pub fn focus_label(&self) -> (r: String)
        ensures
            r@ == (match spec_focus_label(spec_secondary_focus(self)) {
                Some(l) => l,
                None => spec_pane_title(self.active_tab),
            }),
    {
        match self.secondary_focus().label() {
            Some(l) => copy_str(l),
            None => copy_str(self.active_tab.title()),
        }
    }
}

} // verus!
