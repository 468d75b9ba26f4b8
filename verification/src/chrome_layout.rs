//! Fixed screen chrome: the tab bar, main area, hint bar and status bar stacked top to
//! bottom, the banner row above a tiled workspace, and the boxes for toasts and the
//! progress popup.
use vstd::prelude::*;
use crate::mouse::{layout_split, spec_layout_split, Area, LayoutConstraint};

verus! {

/// Rows of the tab bar (borders included).
pub const TAB_BAR_HEIGHT: u16 = 3;
/// Rows of the hint bar.
pub const HINT_BAR_HEIGHT: u16 = 1;
/// Rows of the status bar.
pub const STATUS_BAR_HEIGHT: u16 = 1;
/// Rows of the banner above a tiled workspace.
pub const WORKSPACE_BANNER_ROW_HEIGHT: u16 = 1;

/// The constraints of the vertical chrome: tab bar, main (the rest), hint bar, status bar.
pub open spec fn chrome_constraints() -> Seq<LayoutConstraint> {
    seq![
        LayoutConstraint::Length(TAB_BAR_HEIGHT),
        LayoutConstraint::Min(0),
        LayoutConstraint::Length(HINT_BAR_HEIGHT),
        LayoutConstraint::Length(STATUS_BAR_HEIGHT),
    ]
}

/// The constraints of a tiled workspace: the banner row, then the body (the rest).
pub open spec fn banner_constraints() -> Seq<LayoutConstraint> {
    seq![LayoutConstraint::Length(WORKSPACE_BANNER_ROW_HEIGHT), LayoutConstraint::Min(0)]
}

/// Splits a tiled workspace into its banner row and its body.
pub fn split_workspace_outer_rows(area: Area) -> (r: (Area, Area))
    ensures
        r.0 == spec_layout_split(area, true, banner_constraints())[0],
        r.1 == spec_layout_split(area, true, banner_constraints())[1],
{
    let cs = vec![LayoutConstraint::Length(WORKSPACE_BANNER_ROW_HEIGHT), LayoutConstraint::Min(0)];
    assert(cs@ =~= banner_constraints());
    let parts = layout_split(area, true, &cs);
    (parts[0], parts[1])
}

/// Splits the screen into `[tab_bar, main, hint_bar, status_bar]`.
pub fn split_vertical_chrome(area: Area) -> (r: [Area; 4])
    ensures
        r@ == spec_layout_split(area, true, chrome_constraints()),
{
    let cs = vec![
        LayoutConstraint::Length(TAB_BAR_HEIGHT),
        LayoutConstraint::Min(0),
        LayoutConstraint::Length(HINT_BAR_HEIGHT),
        LayoutConstraint::Length(STATUS_BAR_HEIGHT),
    ];
    assert(cs@ =~= chrome_constraints());
    let parts = layout_split(area, true, &cs);
    let r = [parts[0], parts[1], parts[2], parts[3]];
    assert(r@ =~= parts@);
    r
}

/// `n - k`, or zero when `k` exceeds `n`.
pub open spec fn sub_or_zero(n: int, k: int) -> int {
    if n >= k { n - k } else { 0 }
}

/// The smaller of two numbers.
pub open spec fn smaller(a: int, b: int) -> int {
    if a <= b { a } else { b }
}

/// The toast box: at most 40 columns by 9 rows, placed 42 columns from the right edge
/// and 10 rows from the bottom of a screen of size `frame` (clamped at zero).
pub fn toast_area(frame: Area) -> (r: Area)
    ensures
        r.x == sub_or_zero(frame.width as int, 42),
        r.y == sub_or_zero(frame.height as int, 10),
        r.width == smaller(40, frame.width as int),
        r.height == smaller(9, frame.height as int),
{
    Area {
        x: frame.width.saturating_sub(42),
        y: frame.height.saturating_sub(10),
        width: if frame.width < 40 { frame.width } else { 40 },
        height: if frame.height < 9 { frame.height } else { 9 },
    }
}

/// The progress popup: at most 50 columns by 5 rows, leaving two cells on each side,
/// centred in a screen of size `frame`.
pub fn progress_area(frame: Area) -> (r: Area)
    requires
        frame.width >= 4,
        frame.height >= 4,
    ensures
        r.width == smaller(50, frame.width - 4),
        r.height == smaller(5, frame.height - 4),
        r.x == (frame.width - r.width) / 2,
        r.y == (frame.height - r.height) / 2,
{
    let w4 = frame.width - 4;
    let h4 = frame.height - 4;
    let width: u16 = if w4 < 50 { w4 } else { 50 };
    let height: u16 = if h4 < 5 { h4 } else { 5 };
    Area { x: (frame.width - width) / 2, y: (frame.height - height) / 2, width, height }
}

/// An overlay box `percent_x` by `percent_y` percent of `r` (rounded down), centred in
/// `r`; its width and height are clipped so that it ends by the last cell coordinate
/// (as `Rect::new` clips them). The sizes are computed in 16-bit arithmetic, so the
/// products and the offset sums must fit in 16 bits.
pub fn centered_rect(percent_x: u16, percent_y: u16, r: Area) -> (c: Area)
    requires
        r.width * percent_x <= u16::MAX,
        r.height * percent_y <= u16::MAX,
        r.x + sub_or_zero(r.width as int, (r.width * percent_x) / 100) / 2 <= u16::MAX,
        r.y + sub_or_zero(r.height as int, (r.height * percent_y) / 100) / 2 <= u16::MAX,
    ensures
        c.x == r.x + sub_or_zero(r.width as int, (r.width * percent_x) / 100) / 2,
        c.y == r.y + sub_or_zero(r.height as int, (r.height * percent_y) / 100) / 2,
        c.width == smaller((r.width * percent_x) / 100, u16::MAX - c.x),
        c.height == smaller((r.height * percent_y) / 100, u16::MAX - c.y),
{
    let w = (r.width * percent_x) / 100;
    let h = (r.height * percent_y) / 100;
    let x = r.x + (r.width.saturating_sub(w)) / 2;
    let y = r.y + (r.height.saturating_sub(h)) / 2;
    let width = if w <= u16::MAX - x { w } else { u16::MAX - x };
    let height = if h <= u16::MAX - y { h } else { u16::MAX - y };
    Area { x, y, width, height }
}

/// Column shares (left, right) of the Operations workspace body, in percent: narrower
/// bodies give the right column more room.
pub fn operations_workspace_column_constraints(body_width: u16) -> (r: (u16, u16))
    ensures
        r == if body_width < 118 {
            (22u16, 78u16)
        } else if body_width < 150 {
            (32u16, 68u16)
        } else {
            (40u16, 60u16)
        },
        r.0 + r.1 == 100,
{
    if body_width < 118 {
        (22, 78)
    } else if body_width < 150 {
        (32, 68)
    } else {
        (40, 60)
    }
}

} // verus!
