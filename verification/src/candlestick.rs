//! Scrolling through a candlestick chart. The chart keeps how many candles it holds
//! and the index of the first one on screen; the prices themselves are drawn by the
//! renderer, which reads the visible window from here.
use vstd::prelude::*;

verus! {

/// How many candles a chart keeps visible at its right edge when scrolled fully right.
pub const CANDLE_SCROLL_MARGIN: usize = 10;

/// Columns one candle takes on screen.
pub const CANDLE_COLUMNS: usize = 6;

/// A candlestick chart's scroll state.
#[derive(Debug, Clone)]
pub struct CandlestickChart {
    symbol: String,
    candle_count: usize,
    scroll_offset: usize,
}

/// The largest offset scrolling right reaches: the candle count less the margin,
/// clamped at zero.
pub open spec fn max_scroll_offset(candle_count: int) -> int {
    if candle_count >= CANDLE_SCROLL_MARGIN { candle_count - CANDLE_SCROLL_MARGIN } else { 0 }
}

/// The offset after scrolling left from `offset`.
pub open spec fn scrolled_left(offset: int) -> int {
    if offset > 0 { offset - 1 } else { offset }
}

/// The offset after scrolling right from `offset` in a chart of `candle_count` candles.
pub open spec fn scrolled_right(offset: int, candle_count: int) -> int {
    if offset < max_scroll_offset(candle_count) { offset + 1 } else { offset }
}

impl CandlestickChart {
    /// The chart's symbol.
    pub closed spec fn spec_symbol(&self) -> Seq<char> {
        self.symbol@
    }

    /// Number of candles the chart holds.
    pub closed spec fn spec_candle_count(&self) -> nat {
        self.candle_count as nat
    }

    /// Index of the first candle on screen.
    pub closed spec fn spec_scroll_offset(&self) -> nat {
        self.scroll_offset as nat
    }

    /// A chart of `candle_count` candles scrolled to the start.
    pub fn new(symbol: String, candle_count: usize) -> (c: Self)
        ensures
            c.spec_symbol() == symbol@,
            c.spec_candle_count() == candle_count,
            c.spec_scroll_offset() == 0,
    {
        CandlestickChart { symbol, candle_count, scroll_offset: 0 }
    }

    /// The chart's symbol.
    pub fn symbol(&self) -> (r: &str)
        ensures
            r@ == self.spec_symbol(),
    {
        self.symbol.as_str()
    }

    /// Number of candles the chart holds.
    pub fn candle_count(&self) -> (r: usize)
        ensures
            r == self.spec_candle_count(),
    {
        self.candle_count
    }

    /// Index of the first candle on screen.
    pub fn scroll_offset(&self) -> (r: usize)
        ensures
            r == self.spec_scroll_offset(),
    {
        self.scroll_offset
    }

    /// Scrolls one candle towards the start, stopping at the first.
    pub fn scroll_left(&mut self)
        ensures
            final(self).spec_symbol() == old(self).spec_symbol(),
            final(self).spec_candle_count() == old(self).spec_candle_count(),
            final(self).spec_scroll_offset() == scrolled_left(old(self).spec_scroll_offset() as int),
    {
        if self.scroll_offset > 0 {
            self.scroll_offset = self.scroll_offset - 1;
        }
    }

    /// Scrolls one candle towards the end while the offset is below the candle count
    /// less the margin.
    pub fn scroll_right(&mut self)
        ensures
            final(self).spec_symbol() == old(self).spec_symbol(),
            final(self).spec_candle_count() == old(self).spec_candle_count(),
            final(self).spec_scroll_offset() == scrolled_right(
                old(self).spec_scroll_offset() as int,
                old(self).spec_candle_count() as int,
            ),
    {
        let limit = self.candle_count.saturating_sub(CANDLE_SCROLL_MARGIN);
        if self.scroll_offset < limit {
            self.scroll_offset = self.scroll_offset + 1;
        }
    }

    /// The candles drawn in a chart `chart_width` columns wide, as a half-open index
    /// range: from the scroll offset (clamped to the last candle) for as many candles as
    /// fit at six columns each, ending at the last candle.
    pub fn visible_window(&self, chart_width: usize) -> (r: (usize, usize))
        ensures
            r.0 == if self.spec_scroll_offset() as int <= self.spec_candle_count() - 1 {
                self.spec_scroll_offset() as int
            } else {
                if self.spec_candle_count() >= 1 { self.spec_candle_count() - 1 } else { 0 }
            },
            r.1 == if r.0 + (chart_width / CANDLE_COLUMNS) as int <= self.spec_candle_count() {
                r.0 + (chart_width / CANDLE_COLUMNS) as int
            } else {
                self.spec_candle_count() as int
            },
            r.0 <= r.1 || self.spec_candle_count() == 0,
    {
        let last = self.candle_count.saturating_sub(1);
        let start = if self.scroll_offset <= last { self.scroll_offset } else { last };
        let visible = chart_width / CANDLE_COLUMNS;
        let end = if visible <= self.candle_count - start { start + visible } else { self.candle_count };
        (start, end)
    }
}

/// Scrolling right and then left returns to the same candle whenever the right scroll
/// moved, and scrolling left then right does so whenever the left scroll moved and
/// the offset was within the right-scroll range.
pub proof fn law_scroll_right_left_inverse(offset: int, candle_count: int)
    requires
        0 <= offset,
    ensures
        offset < max_scroll_offset(candle_count) ==> scrolled_left(scrolled_right(offset, candle_count))
            == offset,
        0 < offset <= max_scroll_offset(candle_count) ==> scrolled_right(scrolled_left(offset), candle_count)
            == offset,
{
}

} // verus!
