//! Scrollable table selection and viewport offset.
//!
//! `clamp_to_len(len)` repairs the indices after the row count changes;
//! `adjust_scroll(visible_height)` moves the viewport so the selection stays visible.
use vstd::prelude::*;

verus! {

/// The selected index clamped to a list of `len` rows.
pub open spec fn spec_clamp_index(index: int, len: int) -> int {
    if len == 0 {
        0
    } else if index < len - 1 {
        index
    } else {
        len - 1
    }
}

/// Clamp a possibly-out-of-range selected index to a list length.
///
/// Returns 0 when `len == 0`, otherwise `min(index, len - 1)`.
pub fn clamp_index(index: usize, len: usize) -> (r: usize)
    ensures
        r as int == spec_clamp_index(index as int, len as int),
{
    if len == 0 {
        0
    } else if index < len - 1 {
        index
    } else {
        len - 1
    }
}

/// Start offset of a viewport of `visible_height` rows that keeps `cursor` roughly centered.
pub open spec fn spec_centered_viewport_start(cursor: int, len: int, visible_height: int) -> int {
    if len == 0 {
        0
    } else {
        let v1 = if visible_height < 1 { 1 } else { visible_height };
        let visible = if v1 < len { v1 } else { len };
        if len <= visible {
            0
        } else {
            let back = if cursor >= visible / 2 { cursor - visible / 2 } else { 0 };
            let last_start = len - visible;
            if back < last_start { back } else { last_start }
        }
    }
}

/// Compute a viewport start offset that keeps `cursor` roughly centered.
///
/// `cursor` should already be clamped to `len`.
pub fn centered_viewport_start(cursor: usize, len: usize, visible_height: usize) -> (r: usize)
    ensures
        r as int == spec_centered_viewport_start(cursor as int, len as int, visible_height as int),
        len > 0 ==> r < len,
{
    if len == 0 {
        return 0;
    }
    let v1 = if visible_height < 1 { 1 } else { visible_height };
    let visible = if v1 < len { v1 } else { len };
    if len <= visible {
        0
    } else {
        let back = cursor.saturating_sub(visible / 2);
        let last_start = len - visible;
        if back < last_start { back } else { last_start }
    }
}

/// Abstract state of a table: the highlighted row and the first visible row.
pub ghost struct TableView {
    pub selected: nat,
    pub scroll: nat,
}

/// Selection index and optional viewport offset for tabular / list panes.
#[derive(Debug, Clone, Copy, PartialEq, Eq, Structural)]
pub struct ScrollableTableState {
    selected: usize,
    scroll: usize,
}

impl View for ScrollableTableState {
    type V = TableView;

    closed spec fn view(&self) -> TableView {
        TableView { selected: self.selected as nat, scroll: self.scroll as nat }
    }
}

/// `v` clamped into `[lo, hi]` (`lo <= hi`).
pub open spec fn spec_clamp(v: int, lo: int, hi: int) -> int {
    if v < lo {
        lo
    } else if v > hi {
        hi
    } else {
        v
    }
}

/// Viewport offset after making `selected` visible in a window of `visible_height` rows.
pub open spec fn spec_adjusted_scroll(selected: int, scroll: int, visible_height: int) -> int {
    if visible_height == 0 {
        scroll
    } else {
        let s1 = if selected < scroll { selected } else { scroll };
        if selected > s1 + visible_height - 1 {
            selected - (visible_height - 1)
        } else {
            s1
        }
    }
}

/// Whether `selected` lies in the window `[scroll, scroll + visible_height)`.
pub open spec fn spec_selection_visible(t: TableView, visible_height: int) -> bool {
    t.scroll <= t.selected < t.scroll + visible_height
}

impl ScrollableTableState {
    /// A table with the first row selected and the viewport at the top.
    pub fn new() -> (r: Self)
        ensures
            r@ == (TableView { selected: 0, scroll: 0 }),
    {
        ScrollableTableState { selected: 0, scroll: 0 }
    }

    /// Move selection up one row (stays at 0).
    pub fn move_up(&mut self)
        ensures
            final(self)@.selected == if old(self)@.selected == 0 { 0 } else { (old(self)@.selected - 1) as nat },
            final(self)@.scroll == old(self)@.scroll,
    {
        self.selected = self.selected.saturating_sub(1);
    }

    /// Move selection down; `max` is row count (valid indices are `0..max`).
    pub fn move_down(&mut self, max: usize)
        ensures
            final(self)@.selected == if max == 0 {
                0
            } else if old(self)@.selected + 1 < max {
                old(self)@.selected + 1
            } else {
                (max - 1) as nat
            },
            final(self)@.scroll == old(self)@.scroll,
    {
        if max == 0 {
            self.selected = 0;
        } else if self.selected < max - 1 {
            self.selected = self.selected + 1;
        } else {
            self.selected = max - 1;
        }
    }

    /// Keep `selected` within the visible window starting at `scroll`.
    pub fn adjust_scroll(&mut self, visible_height: usize)
        ensures
            final(self)@.selected == old(self)@.selected,
            final(self)@.scroll as int == spec_adjusted_scroll(
                old(self)@.selected as int,
                old(self)@.scroll as int,
                visible_height as int,
            ),
            visible_height > 0 ==> spec_selection_visible(final(self)@, visible_height as int),
    {
        if visible_height == 0 {
            return;
        }
        if self.selected < self.scroll {
            self.scroll = self.selected;
        }
        let vis = visible_height;
        if self.selected - self.scroll > vis - 1 {
            self.scroll = self.selected - (vis - 1);
        }
    }

    /// The highlighted row index.
    pub fn selected(&self) -> (r: usize)
        ensures
            r as nat == self@.selected,
    {
        self.selected
    }

    /// The first visible row index.
    pub fn scroll(&self) -> (r: usize)
        ensures
            r as nat == self@.scroll,
    {
        self.scroll
    }

    /// Reset selection and viewport (e.g. toggle combo view, change symbol).
    pub fn reset(&mut self)
        ensures
            final(self)@ == (TableView { selected: 0, scroll: 0 }),
    {
        self.selected = 0;
        self.scroll = 0;
    }

    /// Clamp when row count shrinks; keeps `scroll` consistent with `selected`.
    pub fn clamp_to_len(&mut self, len: usize)
        ensures
            final(self)@.selected as int == spec_clamp_index(old(self)@.selected as int, len as int),
            final(self)@.scroll == if len == 0 {
                0
            } else if old(self)@.scroll <= final(self)@.selected {
                old(self)@.scroll
            } else {
                final(self)@.selected
            },
            len > 0 ==> final(self)@.selected < len && final(self)@.scroll <= final(self)@.selected,
    {
        if len == 0 {
            self.selected = 0;
            self.scroll = 0;
            return;
        }
        self.selected = clamp_index(self.selected, len);
        if self.scroll > self.selected {
            self.scroll = self.selected;
        }
    }

    /// Move selection by `delta` rows, clamped to `[0, max - 1]` when `max > 0`.
    pub fn shift_selected(&mut self, delta: isize, max: usize)
        ensures
            final(self)@.selected as int == if max == 0 {
                0
            } else {
                spec_clamp(old(self)@.selected + delta, 0, max - 1)
            },
            final(self)@.scroll == old(self)@.scroll,
    {
        if max == 0 {
            self.selected = 0;
            return;
        }
        let s: i128 = self.selected as i128 + delta as i128;
        let hi: i128 = (max - 1) as i128;
        let c: i128 = if s < 0 { 0 } else if s > hi { hi } else { s };
        self.selected = c as usize;
    }

    /// Move viewport offset only (alerts paragraph scroll). Clamps to `[0, max_offset]`.
    pub fn shift_scroll(&mut self, delta: isize, max_offset: usize)
        ensures
            final(self)@.scroll as int == spec_clamp(old(self)@.scroll + delta, 0, max_offset as int),
            final(self)@.selected == old(self)@.selected,
    {
        let s: i128 = self.scroll as i128 + delta as i128;
        let hi: i128 = max_offset as i128;
        let c: i128 = if s < 0 { 0 } else if s > hi { hi } else { s };
        self.scroll = c as usize;
    }
}

impl Default for ScrollableTableState {
    fn default() -> (r: Self)
        ensures
            r@ == (TableView { selected: 0, scroll: 0 }),
    {
        ScrollableTableState::new()
    }
}

/// Adjusting the viewport twice for the same height changes nothing the second time.
pub proof fn law_adjust_scroll_idempotent(selected: nat, scroll: nat, h: nat)
    ensures
        ({
            let s1 = spec_adjusted_scroll(selected as int, scroll as int, h as int);
            spec_adjusted_scroll(selected as int, s1, h as int) == s1
        }),
{
}

/// Moving down then up from a valid, non-last row returns to the same row.
pub proof fn law_move_down_then_up(selected: nat, max: nat)
    requires
        selected + 1 < max,
    ensures
        ({
            let down = if max == 0 {
                0
            } else if selected + 1 < max {
                selected + 1
            } else {
                (max - 1) as nat
            };
            (if down == 0 { 0 } else { (down - 1) as nat }) == selected
        }),
{
}

} // verus!
