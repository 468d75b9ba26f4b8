//! Tabs of the terminal UI and their cyclic order.
use vstd::prelude::*;
use crate::pane::{pane_spec, spec_pane_label, spec_pane_title};

verus! {

/// One top-level screen of the UI.
#[derive(Debug, Clone, Copy, PartialEq, Eq, Structural)]
pub enum Tab {
    Dashboard,
    Positions,
    Charts,
    Orders,
    Alerts,
    Yield,
    Loans,
    DiscountBank,
    Scenarios,
    Logs,
    Settings,
}

/// Number of primary tabs in the cycle (Logs shares the Alerts slot).
pub const PRIMARY_TAB_COUNT: usize = 10;

/// The primary tab at position `i` of the cycle.
pub open spec fn spec_primary_tab(i: int) -> Tab {
    if i == 0 {
        Tab::Dashboard
    } else if i == 1 {
        Tab::Positions
    } else if i == 2 {
        Tab::Charts
    } else if i == 3 {
        Tab::Orders
    } else if i == 4 {
        Tab::Alerts
    } else if i == 5 {
        Tab::Yield
    } else if i == 6 {
        Tab::Loans
    } else if i == 7 {
        Tab::DiscountBank
    } else if i == 8 {
        Tab::Scenarios
    } else {
        Tab::Settings
    }
}

/// Position of a tab in the primary cycle; Logs is placed at the Alerts slot.
pub open spec fn spec_tab_index(t: Tab) -> int {
    match t {
        Tab::Dashboard => 0,
        Tab::Positions => 1,
        Tab::Charts => 2,
        Tab::Orders => 3,
        Tab::Alerts => 4,
        Tab::Logs => 4,
        Tab::Yield => 5,
        Tab::Loans => 6,
        Tab::DiscountBank => 7,
        Tab::Scenarios => 8,
        Tab::Settings => 9,
    }
}

/// The tab that follows `t` in the cycle.
pub open spec fn spec_tab_next(t: Tab) -> Tab {
    spec_primary_tab((spec_tab_index(t) + 1) % 10)
}

/// The tab that precedes `t` in the cycle.
pub open spec fn spec_tab_prev(t: Tab) -> Tab {
    spec_primary_tab((spec_tab_index(t) + 9) % 10)
}

/// The primary tab at position `i` of the cycle (`i < PRIMARY_TAB_COUNT`).
pub fn primary_tab(i: usize) -> (r: Tab)
    requires
        i < PRIMARY_TAB_COUNT,
    ensures
        r == spec_primary_tab(i as int),
{
    if i == 0 {
        Tab::Dashboard
    } else if i == 1 {
        Tab::Positions
    } else if i == 2 {
        Tab::Charts
    } else if i == 3 {
        Tab::Orders
    } else if i == 4 {
        Tab::Alerts
    } else if i == 5 {
        Tab::Yield
    } else if i == 6 {
        Tab::Loans
    } else if i == 7 {
        Tab::DiscountBank
    } else if i == 8 {
        Tab::Scenarios
    } else {
        Tab::Settings
    }
}

impl Tab {
    /// Short label shown in the tab bar.
    pub fn label(&self) -> (r: &'static str)
        ensures
            r@ == spec_pane_label(*self),
    {
        pane_spec(*self).label
    }

    /// Full title of the tab.
    pub fn title(&self) -> (r: &'static str)
        ensures
            r@ == spec_pane_title(*self),
    {
        pane_spec(*self).title
    }

    /// Position in the primary cycle (Logs maps to the Alerts slot).
    pub fn index(&self) -> (r: usize)
        ensures
            r as int == spec_tab_index(*self),
            r < PRIMARY_TAB_COUNT,
    {
        match self {
            Tab::Dashboard => 0,
            Tab::Positions => 1,
            Tab::Charts => 2,
            Tab::Orders => 3,
            Tab::Alerts => 4,
            Tab::Logs => 4,
            Tab::Yield => 5,
            Tab::Loans => 6,
            Tab::DiscountBank => 7,
            Tab::Scenarios => 8,
            Tab::Settings => 9,
        }
    }

    /// The next primary tab, wrapping from Settings to Dashboard.
    pub fn next(&self) -> (r: Tab)
        ensures
            r == spec_tab_next(*self),
    {
        let i = (self.index() + 1) % PRIMARY_TAB_COUNT;
        primary_tab(i)
    }

    /// The previous primary tab, wrapping from Dashboard to Settings.
    pub fn prev(&self) -> (r: Tab)
        ensures
            r == spec_tab_prev(*self),
    {
        let i = (self.index() + PRIMARY_TAB_COUNT - 1) % PRIMARY_TAB_COUNT;
        primary_tab(i)
    }
}

/// Stepping back then forward (or forward then back) returns to the same tab for every
/// primary tab; from Logs both round trips land on Alerts.
pub proof fn law_tab_next_prev_inverse(t: Tab)
    ensures
        t != Tab::Logs ==> spec_tab_next(spec_tab_prev(t)) == t,
        t != Tab::Logs ==> spec_tab_prev(spec_tab_next(t)) == t,
        t == Tab::Logs ==> spec_tab_next(spec_tab_prev(t)) == Tab::Alerts,
        t == Tab::Logs ==> spec_tab_prev(spec_tab_next(t)) == Tab::Alerts,
{
}

/// Cycling never lands on Logs: it is not a primary shell tab.
pub proof fn law_tab_cycle_skips_logs(t: Tab)
    ensures
        spec_tab_next(t) != Tab::Logs,
        spec_tab_prev(t) != Tab::Logs,
{
}

} // verus!
