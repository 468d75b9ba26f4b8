//! Per-tab pane metadata (labels, titles, hint-bar mode).
use vstd::prelude::*;
use crate::tab::Tab;

verus! {

/// Which tab-specific hints the hint bar shows for a pane.
#[derive(Debug, Clone, Copy, PartialEq, Eq, Structural)]
pub enum PaneHintMode {
    Plain,
    Yield,
    Settings,
    Charts,
    Orders,
    Scenarios,
}

/// Labels and hint mode for one pane.
#[derive(Debug, Clone, Copy, PartialEq, Eq)]
pub struct PaneSpec {
    pub tab: Tab,
    pub label: &'static str,
    pub title: &'static str,
    pub hint_mode: PaneHintMode,
}

/// Short label of a tab.
pub open spec fn spec_pane_label(tab: Tab) -> Seq<char> {
    match tab {
        Tab::Dashboard => "Dash"@,
        Tab::Positions => "Pos"@,
        Tab::Charts => "Charts"@,
        Tab::Orders => "Orders"@,
        Tab::Alerts => "Alerts"@,
        Tab::Yield => "Yield"@,
        Tab::Loans => "Loans"@,
        Tab::DiscountBank => "Bank"@,
        Tab::Scenarios => "Scen"@,
        Tab::Logs => "Logs"@,
        Tab::Settings => "Set"@,
    }
}

/// Title of a tab.
pub open spec fn spec_pane_title(tab: Tab) -> Seq<char> {
    match tab {
        Tab::Dashboard => "Dashboard"@,
        Tab::Positions => "Positions"@,
        Tab::Charts => "Charts"@,
        Tab::Orders => "Orders"@,
        Tab::Alerts => "Alerts"@,
        Tab::Yield => "Yield"@,
        Tab::Loans => "Loans"@,
        Tab::DiscountBank => "Bank"@,
        Tab::Scenarios => "Scenarios"@,
        Tab::Logs => "Logs"@,
        Tab::Settings => "Settings"@,
    }
}

/// Hint-bar mode of a tab.
pub open spec fn spec_pane_hint_mode(tab: Tab) -> PaneHintMode {
    match tab {
        Tab::Charts => PaneHintMode::Charts,
        Tab::Orders => PaneHintMode::Orders,
        Tab::Yield => PaneHintMode::Yield,
        Tab::Scenarios => PaneHintMode::Scenarios,
        Tab::Settings => PaneHintMode::Settings,
        _ => PaneHintMode::Plain,
    }
}

/// Pane metadata for a tab.
pub fn pane_spec(tab: Tab) -> (r: PaneSpec)
    ensures
        r.tab == tab,
        r.label@ == spec_pane_label(tab),
        r.title@ == spec_pane_title(tab),
        r.hint_mode == spec_pane_hint_mode(tab),
{
    match tab {
        Tab::Dashboard => PaneSpec { tab, label: "Dash", title: "Dashboard", hint_mode: PaneHintMode::Plain },
        Tab::Positions => PaneSpec { tab, label: "Pos", title: "Positions", hint_mode: PaneHintMode::Plain },
        Tab::Charts => PaneSpec { tab, label: "Charts", title: "Charts", hint_mode: PaneHintMode::Charts },
        Tab::Orders => PaneSpec { tab, label: "Orders", title: "Orders", hint_mode: PaneHintMode::Orders },
        Tab::Alerts => PaneSpec { tab, label: "Alerts", title: "Alerts", hint_mode: PaneHintMode::Plain },
        Tab::Yield => PaneSpec { tab, label: "Yield", title: "Yield", hint_mode: PaneHintMode::Yield },
        Tab::Loans => PaneSpec { tab, label: "Loans", title: "Loans", hint_mode: PaneHintMode::Plain },
        Tab::DiscountBank => PaneSpec { tab, label: "Bank", title: "Bank", hint_mode: PaneHintMode::Plain },
        Tab::Scenarios => PaneSpec { tab, label: "Scen", title: "Scenarios", hint_mode: PaneHintMode::Scenarios },
        Tab::Logs => PaneSpec { tab, label: "Logs", title: "Logs", hint_mode: PaneHintMode::Plain },
        Tab::Settings => PaneSpec { tab, label: "Set", title: "Settings", hint_mode: PaneHintMode::Settings },
    }
}

} // verus!
