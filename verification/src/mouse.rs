//! Mouse input: a click on the tab bar jumps to a tab, a click in the content opens the
//! selected row, and the wheel scrolls the pane under the cursor in the Market
//! workspace (the active pane otherwise).
use vstd::prelude::*;
use crate::action::Action;
use crate::app::App;
use crate::focus::{spec_visible_workspace, VisibleWorkspace};
use crate::tab::Tab;
use ratatui::layout::{Constraint, Direction, Layout, Rect};

verus! {

/// A rectangle of terminal cells.
#[derive(Debug, Clone, Copy, PartialEq, Eq, Structural)]
pub struct Area {
    pub x: u16,
    pub y: u16,
    pub width: u16,
    pub height: u16,
}

/// A size rule for one part of a split.
#[derive(Debug, Clone, Copy, PartialEq, Eq, Structural)]
pub enum LayoutConstraint {
    Length(u16),
    Min(u16),
    Percentage(u16),
}

/// What the mouse did.
#[derive(Debug, Clone, Copy, PartialEq, Eq, Structural)]
pub enum MouseKind {
    LeftDown,
    ScrollUp,
    ScrollDown,
    Other,
}

/// The parts ratatui's layout solver cuts `area` into, one per constraint, stacked
/// vertically or side by side.
pub uninterp spec fn spec_layout_split(area: Area, vertical: bool, constraints: Seq<LayoutConstraint>) -> Seq<Area>;

/// `ratatui::layout::Layout::split` with the given direction and constraints: the
/// solver's parts, named by `spec_layout_split`, one per constraint (as `Layout::areas`
/// documents). The solver's arithmetic is not restated here.
#[verifier::external_body]
pub(crate) fn layout_split(area: Area, vertical: bool, constraints: &Vec<LayoutConstraint>) -> (r: Vec<Area>)
    ensures
        r@ == spec_layout_split(area, vertical, constraints@),
        r@.len() == constraints@.len(),
{
    let cs: Vec<Constraint> = constraints.iter().map(|c| match *c {
        LayoutConstraint::Length(n) => Constraint::Length(n),
        LayoutConstraint::Min(n) => Constraint::Min(n),
        LayoutConstraint::Percentage(p) => Constraint::Percentage(p),
    }).collect();
    let dir = if vertical { Direction::Vertical } else { Direction::Horizontal };
    let parts = Layout::default().direction(dir).constraints(cs).split(Rect::new(area.x, area.y, area.width, area.height));
    parts.iter().map(|r| Area { x: r.x, y: r.y, width: r.width, height: r.height }).collect()
}

/// Whether `(x, y)` lies in `r`.
pub open spec fn spec_contains(r: Area, x: int, y: int) -> bool {
    r.x <= x < r.x + r.width && r.y <= y < r.y + r.height
}

/// Whether `(x, y)` lies in `r` (see `spec_contains`).
pub fn contains_point(r: Area, x: u16, y: u16) -> (b: bool)
    ensures
        b == spec_contains(r, x as int, y as int),
{
    (x as u32) >= (r.x as u32) && (x as u32) < (r.x as u32) + (r.width as u32) && (y as u32) >= (r.y as u32)
        && (y as u32) < (r.y as u32) + (r.height as u32)
}

/// The pane of the Market workspace under `(x, y)` in a screen of size `area`: the shell
/// (tab bar, main, hint and status rows) holds a one-row banner over a two-by-two grid
/// of Dashboard and Positions over Orders and Yield.
pub open spec fn spec_market_pane_at(x: int, y: int, area: Area) -> Option<Tab> {
    let shell = spec_layout_split(area, true, seq![LayoutConstraint::Length(3), LayoutConstraint::Min(0),
        LayoutConstraint::Length(1), LayoutConstraint::Length(1)]);
    let outer = spec_layout_split(shell[1], true, seq![LayoutConstraint::Length(1), LayoutConstraint::Min(0)]);
    let rows = spec_layout_split(outer[1], true, seq![LayoutConstraint::Percentage(50),
        LayoutConstraint::Percentage(50)]);
    let top = spec_layout_split(rows[0], false, seq![LayoutConstraint::Percentage(52),
        LayoutConstraint::Percentage(48)]);
    let bottom = spec_layout_split(rows[1], false, seq![LayoutConstraint::Percentage(48),
        LayoutConstraint::Percentage(52)]);
    if spec_contains(top[0], x, y) {
        Some(Tab::Dashboard)
    } else if spec_contains(top[1], x, y) {
        Some(Tab::Positions)
    } else if spec_contains(bottom[0], x, y) {
        Some(Tab::Orders)
    } else if spec_contains(bottom[1], x, y) {
        Some(Tab::Yield)
    } else {
        None
    }
}

/// The Market workspace pane under `(x, y)` (see `spec_market_pane_at`).
pub fn market_workspace_tab_at_point(x: u16, y: u16, area: Area) -> (r: Option<Tab>)
    ensures
        r == spec_market_pane_at(x as int, y as int, area),
{
    let shell = layout_split(area, true, &vec![LayoutConstraint::Length(3), LayoutConstraint::Min(0),
        LayoutConstraint::Length(1), LayoutConstraint::Length(1)]);
    let outer = layout_split(shell[1], true, &vec![LayoutConstraint::Length(1), LayoutConstraint::Min(0)]);
    let rows = layout_split(outer[1], true, &vec![LayoutConstraint::Percentage(50),
        LayoutConstraint::Percentage(50)]);
    let top = layout_split(rows[0], false, &vec![LayoutConstraint::Percentage(52),
        LayoutConstraint::Percentage(48)]);
    let bottom = layout_split(rows[1], false, &vec![LayoutConstraint::Percentage(48),
        LayoutConstraint::Percentage(52)]);
    if contains_point(top[0], x, y) {
        Some(Tab::Dashboard)
    } else if contains_point(top[1], x, y) {
        Some(Tab::Positions)
    } else if contains_point(bottom[0], x, y) {
        Some(Tab::Orders)
    } else if contains_point(bottom[1], x, y) {
        Some(Tab::Yield)
    } else {
        None
    }
}

/// The wheel action for `(x, y)`: in the Market workspace, scroll the pane under the
/// cursor when there is one; otherwise scroll the active pane.
pub open spec fn spec_mouse_scroll_action(a: &App, x: int, y: int, area: Area, up: bool) -> Action {
    if spec_visible_workspace(a.visible_workspace_tabs@) == VisibleWorkspace::Market
        && spec_market_pane_at(x, y, area) is Some {
        let t = spec_market_pane_at(x, y, area)->0;
        if up { Action::MouseScrollUpIn(t) } else { Action::MouseScrollDownIn(t) }
    } else if up {
        Action::MouseScrollUp
    } else {
        Action::MouseScrollDown
    }
}

/// The wheel action (see `spec_mouse_scroll_action`).
pub fn mouse_scroll_action(app: &App, x: u16, y: u16, area: Area, up: bool) -> (r: Action)
    ensures
        r == spec_mouse_scroll_action(app, x as int, y as int, area, up),
{
    if app.visible_workspace() == VisibleWorkspace::Market {
        if let Some(tab) = market_workspace_tab_at_point(x, y, area) {
            return if up { Action::MouseScrollUpIn(tab) } else { Action::MouseScrollDownIn(tab) };
        }
    }
    if up { Action::MouseScrollUp } else { Action::MouseScrollDown }
}

/// The tab whose label spans column `rel_x` of the tab bar (Dashboard 0–9, Positions
/// 11–20, Charts 22–28, Orders 30–36, Alerts 38–44, Yield 46–51, Loans 53–58, Scenarios
/// 60–69, Settings 71–79), as the digit that jumps to it.
pub open spec fn spec_tab_digit_at(rel_x: int) -> Option<u8> {
    if 0 <= rel_x < 10 {
        Some(1u8)
    } else if 11 <= rel_x < 21 {
        Some(2u8)
    } else if 22 <= rel_x < 29 {
        Some(3u8)
    } else if 30 <= rel_x < 37 {
        Some(4u8)
    } else if 38 <= rel_x < 45 {
        Some(5u8)
    } else if 46 <= rel_x < 52 {
        Some(6u8)
    } else if 53 <= rel_x < 59 {
        Some(7u8)
    } else if 60 <= rel_x < 70 {
        Some(8u8)
    } else if 71 <= rel_x < 80 {
        Some(9u8)
    } else {
        None
    }
}

/// A click on the tab bar at column `x` (see `spec_tab_digit_at`).
pub fn handle_tab_click(x: u16, area: Area) -> (r: Option<Action>)
    ensures
        r == match spec_tab_digit_at(if x < area.x { 0 } else { x - area.x }) {
            Some(d) => Some(Action::JumpToTab(d)),
            None => None,
        },
{
    let rel_x: u16 = if x < area.x { 0 } else { x - area.x };
    let digit: u8 = if rel_x < 10 {
        1
    } else if 11 <= rel_x && rel_x < 21 {
        2
    } else if 22 <= rel_x && rel_x < 29 {
        3
    } else if 30 <= rel_x && rel_x < 37 {
        4
    } else if 38 <= rel_x && rel_x < 45 {
        5
    } else if 46 <= rel_x && rel_x < 52 {
        6
    } else if 53 <= rel_x && rel_x < 59 {
        7
    } else if 60 <= rel_x && rel_x < 70 {
        8
    } else if 71 <= rel_x && rel_x < 80 {
        9
    } else {
        return None;
    };
    Some(Action::JumpToTab(digit))
}

/// A click in the content opens the selected row of Positions, Orders or Scenarios, or
/// charts the selected Dashboard symbol.
pub open spec fn spec_content_click(tab: Tab) -> Option<Action> {
    match tab {
        Tab::Positions => Some(Action::PositionsDetail),
        Tab::Orders => Some(Action::OrdersDetail),
        Tab::Dashboard => Some(Action::DashboardNavigateToChart),
        Tab::Scenarios => Some(Action::ScenariosDetail),
        _ => None,
    }
}

/// A left click at `(x, y)` in a screen of size `area`: outside it nothing; on the top
/// two rows the tab bar; between the third row and the last two rows the content.
pub open spec fn spec_mouse_click(a: &App, x: int, y: int, area: Area) -> Option<Action> {
    if !spec_contains(area, x, y) {
        None
    } else if y <= area.y + 1 {
        match spec_tab_digit_at(x - area.x) {
            Some(d) => Some(Action::JumpToTab(d)),
            None => None,
        }
    } else if y > area.y + 2 && y < area.y + area.height - 2 {
        spec_content_click(a.active_tab)
    } else {
        None
    }
}

/// A left click (see `spec_mouse_click`).
pub fn handle_mouse_click(app: &App, x: u16, y: u16, area: Area) -> (r: Option<Action>)
    ensures
        r == spec_mouse_click(app, x as int, y as int, area),
{
    if !contains_point(area, x, y) {
        return None;
    }
    if (y as u32) <= (area.y as u32) + 1 {
        return handle_tab_click(x, area);
    }
    if (y as u32) > (area.y as u32) + 2 && (y as u32) + 2 < (area.y as u32) + (area.height as u32) {
        return match app.active_tab {
            Tab::Positions => Some(Action::PositionsDetail),
            Tab::Orders => Some(Action::OrdersDetail),
            Tab::Dashboard => Some(Action::DashboardNavigateToChart),
            Tab::Scenarios => Some(Action::ScenariosDetail),
            _ => None,
        };
    }
    None
}

/// The action for a mouse event at `(x, y)` in a screen of size `area`.
pub fn handle_mouse_event(app: &App, kind: MouseKind, x: u16, y: u16, area: Area) -> (r: Option<Action>)
    ensures
        r == match kind {
            MouseKind::LeftDown => spec_mouse_click(app, x as int, y as int, area),
            MouseKind::ScrollUp => Some(spec_mouse_scroll_action(app, x as int, y as int, area, true)),
            MouseKind::ScrollDown => Some(spec_mouse_scroll_action(app, x as int, y as int, area, false)),
            MouseKind::Other => None,
        },
{
    match kind {
        MouseKind::LeftDown => handle_mouse_click(app, x, y, area),
        MouseKind::ScrollUp => Some(mouse_scroll_action(app, x, y, area, true)),
        MouseKind::ScrollDown => Some(mouse_scroll_action(app, x, y, area, false)),
        MouseKind::Other => None,
    }
}

} // verus!
