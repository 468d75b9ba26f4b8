//! Values the panes show that follow from the state by rules: the Charts symbol search
//! results, the Orders filter caption and the Alerts scroll window and title.
use vstd::prelude::*;
use std::collections::VecDeque;
use crate::app::App;
use crate::parse::{format_u64, spec_format_decimal};
use crate::text::{
    concat, copy_str, push_str, spec_contains, spec_starts_with, spec_str_to_uppercase, str_contains,
    str_starts_with, strings_view, to_uppercase,
};

verus! {

/// Results shown at most, and history entries offered for an empty query.
pub const SEARCH_RESULTS_MAX: usize = 10;
/// History entries offered for an empty query.
pub const SEARCH_HISTORY_OFFERED: usize = 5;

/// The symbols the chart search knows.
pub open spec fn spec_search_symbols() -> Seq<Seq<char>> {
    seq!["SPX"@, "SPY"@, "SPXW"@, "SPY241220C600"@, "QQQ"@, "QQQ241220C500"@, "NDX"@, "AAPL"@, "MSFT"@,
        "GOOG"@, "AMZN"@, "TSLA"@, "META"@, "NVDA"@, "AMD"@, "INTC"@, "JPM"@, "GS"@, "BAC"@, "XSP"@,
        "XSP241220C500"@]
}

/// Whether a known symbol matches the (uppercased) query: it contains it, or its
/// uppercase form starts with it.
pub open spec fn spec_search_match(sym: Seq<char>, q: Seq<char>) -> bool {
    spec_contains(sym, q) || spec_starts_with(spec_str_to_uppercase(sym), q)
}

/// The symbols of `syms` that match `q`, in order.
pub open spec fn spec_search_filter(syms: Seq<Seq<char>>, q: Seq<char>) -> Seq<Seq<char>>
    decreases syms.len(),
{
    if syms.len() == 0 {
        Seq::empty()
    } else {
        let r = spec_search_filter(syms.drop_last(), q);
        if spec_search_match(syms.last(), q) { r.push(syms.last()) } else { r }
    }
}

/// Search results for the uppercased query `q`: the first five history entries when it
/// is empty, else the first ten matching symbols.
pub open spec fn spec_search_results(q: Seq<char>, history: Seq<Seq<char>>) -> Seq<Seq<char>> {
    if q.len() == 0 {
        history.take(if history.len() < SEARCH_HISTORY_OFFERED { history.len() as int } else {
            SEARCH_HISTORY_OFFERED as int })
    } else {
        let m = spec_search_filter(spec_search_symbols(), q);
        m.take(if m.len() < SEARCH_RESULTS_MAX { m.len() as int } else { SEARCH_RESULTS_MAX as int })
    }
}

fn search_symbols() -> (r: Vec<&'static str>)
    ensures
        r@.map_values(|s: &str| s@) == spec_search_symbols(),
{
    let r = vec!["SPX", "SPY", "SPXW", "SPY241220C600", "QQQ", "QQQ241220C500", "NDX", "AAPL", "MSFT", "GOOG",
        "AMZN", "TSLA", "META", "NVDA", "AMD", "INTC", "JPM", "GS", "BAC", "XSP", "XSP241220C500"];
    assert(r@.map_values(|s: &str| s@) =~= spec_search_symbols());
    r
}

/// Whether `sym` matches the query (see `spec_search_match`).
fn search_match(sym: &str, q: &str) -> (r: bool)
    ensures
        r == spec_search_match(sym@, q@),
{
    if str_contains(sym, q) {
        return true;
    }
    let up = to_uppercase(sym);
    str_starts_with(up.as_str(), q)
}

/// Search results for the uppercased query (see `spec_search_results`).
pub fn search_results(q: &str, history: &VecDeque<String>) -> (r: Vec<String>)
    ensures
        strings_view(r@) == spec_search_results(q@, strings_view(history@)),
{
    let mut out: Vec<String> = Vec::new();
    if q.unicode_len() == 0 {
        let n: usize = if history.len() < SEARCH_HISTORY_OFFERED { history.len() } else { SEARCH_HISTORY_OFFERED };
        let mut i: usize = 0;
        while i < n
            invariant
                n <= history@.len(),
                i <= n,
                strings_view(out@) == strings_view(history@).take(i as int),
            decreases n - i,
        {
            let ghost before = strings_view(out@);
            out.push(copy_str(history[i].as_str()));
            assert(strings_view(out@) =~= before.push(history@[i as int]@));
            assert(strings_view(history@).take(i + 1) =~= strings_view(history@).take(i as int).push(history@[i as int]@));
            i = i + 1;
        }
        return out;
    }
    let syms = search_symbols();
    let ghost all = spec_search_symbols();
    let mut i: usize = 0;
    while i < syms.len()
        invariant
            i <= syms@.len(),
            syms@.map_values(|s: &str| s@) == all,
            strings_view(out@) == spec_search_filter(all.take(i as int), q@),
        decreases syms@.len() - i,
    {
        proof {
            assert(all.take(i + 1).drop_last() =~= all.take(i as int));
            assert(all.take(i + 1).last() == syms@[i as int]@);
        }
        let ghost before = strings_view(out@);
        if search_match(syms[i], q) {
            out.push(copy_str(syms[i]));
            assert(strings_view(out@) =~= before.push(syms@[i as int]@));
        }
        i = i + 1;
    }
    proof {
        assert(all.take(syms@.len() as int) =~= all);
    }
    let ghost full = strings_view(out@);
    if out.len() > SEARCH_RESULTS_MAX {
        out.truncate(SEARCH_RESULTS_MAX);
    }
    assert(strings_view(out@) =~= full.take(if full.len() < SEARCH_RESULTS_MAX { full.len() as int } else {
        SEARCH_RESULTS_MAX as int }));
    out
}

/// Pill label of an expiry `dte` days out: 30D, 60D, 90D, 6M, else the day count.
pub open spec fn spec_expiry_label(dte: i32) -> Seq<char> {
    if dte <= 30 {
        "30D"@
    } else if dte <= 60 {
        "60D"@
    } else if dte <= 90 {
        "90D"@
    } else if dte <= 180 {
        "6M"@
    } else {
        spec_format_decimal(dte as nat) + "D"@
    }
}

/// Pill label of an expiry (see `spec_expiry_label`).
pub fn expiry_label(dte: i32) -> (r: String)
    ensures
        r@ == spec_expiry_label(dte),
{
    if dte <= 30 {
        copy_str("30D")
    } else if dte <= 60 {
        copy_str("60D")
    } else if dte <= 90 {
        copy_str("90D")
    } else if dte <= 180 {
        copy_str("6M")
    } else {
        concat(format_u64(dte as u64).as_str(), "D")
    }
}

/// `slice::sort` on integers: the same values in ascending order.
#[verifier::external_body]
fn sort_i32(v: &mut Vec<i32>)
    ensures
        final(v)@.to_multiset() == old(v)@.to_multiset(),
        forall|i: int, j: int| 0 <= i < j < final(v)@.len() ==> final(v)@[i] <= final(v)@[j],
{
    v.sort();
}

/// The expiry pills of a curve with points at `dtes` days: one per distinct day count,
/// in ascending order, each with its label.
pub fn expiry_labels(dtes: &Vec<i32>) -> (r: Vec<(i32, String)>)
    ensures
        forall|i: int, j: int| 0 <= i < j < r@.len() ==> r@[i].0 < r@[j].0,
        forall|d: i32| dtes@.contains(d) <==> exists|i: int| 0 <= i < r@.len() && #[trigger] r@[i].0 == d,
        forall|i: int| 0 <= i < r@.len() ==> (#[trigger] r@[i]).1@ == spec_expiry_label(r@[i].0),
{
    let mut sorted: Vec<i32> = Vec::new();
    let mut k: usize = 0;
    while k < dtes.len()
        invariant
            k <= dtes@.len(),
            sorted@ == dtes@.take(k as int),
        decreases dtes@.len() - k,
    {
        sorted.push(dtes[k]);
        assert(dtes@.take(k + 1) =~= dtes@.take(k as int).push(dtes@[k as int]));
        k = k + 1;
    }
    assert(dtes@.take(dtes@.len() as int) =~= dtes@);
    sort_i32(&mut sorted);
    proof {
        assert forall|d: i32| dtes@.contains(d) <==> sorted@.contains(d) by {
            vstd::seq_lib::to_multiset_contains(dtes@, d);
            vstd::seq_lib::to_multiset_contains(sorted@, d);
        }
    }
    let mut out: Vec<(i32, String)> = Vec::new();
    let mut i: usize = 0;
    while i < sorted.len()
        invariant
            i <= sorted@.len(),
            forall|a: int, b: int| 0 <= a < b < sorted@.len() ==> sorted@[a] <= sorted@[b],
            forall|a: int, b: int| 0 <= a < b < out@.len() ==> out@[a].0 < out@[b].0,
            forall|a: int| 0 <= a < out@.len() ==> (#[trigger] out@[a]).1@ == spec_expiry_label(out@[a].0),
            forall|d: i32| sorted@.take(i as int).contains(d) <==> exists|a: int| 0 <= a < out@.len()
                && #[trigger] out@[a].0 == d,
            out@.len() > 0 ==> i > 0 && out@.last().0 == sorted@[i - 1],
            out@.len() == 0 ==> i == 0,
        decreases sorted@.len() - i,
    {
        let d = sorted[i];
        let ghost before = out@;
        proof {
            assert(sorted@.take(i + 1) =~= sorted@.take(i as int).push(d));
        }
        let dup = out.len() > 0 && out[out.len() - 1].0 == d;
        if !dup {
            out.push((d, expiry_label(d)));
            proof {
                if before.len() > 0 {
                    assert(before.last().0 == sorted@[i - 1]);
                    assert(sorted@[i - 1] <= d);
                }
                assert forall|e: i32| #[trigger] sorted@.take(i + 1).contains(e) implies exists|a: int| 0 <= a < out@.len()
                    && #[trigger] out@[a].0 == e by {
                    if e == d {
                        assert(out@[before.len() as int].0 == e);
                    } else {
                        assert(sorted@.take(i as int).contains(e)) by {
                            let w = choose|w: int| 0 <= w < sorted@.take(i + 1).len() && #[trigger] sorted@.take(i + 1)[w] == e;
                            assert(w < i);
                            assert(sorted@.take(i as int)[w] == e);
                        }
                        let a = choose|a: int| 0 <= a < before.len() && #[trigger] before[a].0 == e;
                        assert(out@[a].0 == e);
                    }
                }
                assert forall|e: i32| (exists|a: int| 0 <= a < out@.len() && #[trigger] out@[a].0 == e)
                    implies #[trigger] sorted@.take(i + 1).contains(e) by {
                    let a = choose|a: int| 0 <= a < out@.len() && #[trigger] out@[a].0 == e;
                    if a == before.len() {
                        assert(sorted@.take(i + 1)[i as int] == e);
                    } else {
                        assert(before[a].0 == e);
                        assert(sorted@.take(i as int).contains(e));
                        let w = choose|w: int| 0 <= w < sorted@.take(i as int).len() && #[trigger] sorted@.take(i as int)[w] == e;
                        assert(sorted@.take(i + 1)[w] == e);
                    }
                }
            }
        } else {
            proof {
                assert forall|e: i32| #[trigger] sorted@.take(i + 1).contains(e) implies exists|a: int| 0 <= a < out@.len()
                    && #[trigger] out@[a].0 == e by {
                    if e == d {
                        assert(out@[out@.len() - 1].0 == e);
                    } else {
                        let w = choose|w: int| 0 <= w < sorted@.take(i + 1).len() && #[trigger] sorted@.take(i + 1)[w] == e;
                        assert(w < i);
                        assert(sorted@.take(i as int)[w] == e);
                        assert(sorted@.take(i as int).contains(e));
                    }
                }
                assert forall|e: i32| (exists|a: int| 0 <= a < out@.len() && #[trigger] out@[a].0 == e)
                    implies #[trigger] sorted@.take(i + 1).contains(e) by {
                    assert(sorted@.take(i as int).contains(e));
                    let w = choose|w: int| 0 <= w < sorted@.take(i as int).len() && #[trigger] sorted@.take(i as int)[w] == e;
                    assert(sorted@.take(i + 1)[w] == e);
                }
            }
        }
        i = i + 1;
    }
    proof {
        assert(sorted@.take(sorted@.len() as int) =~= sorted@);
    }
    out
}

/// Caption of the Orders filter.
pub open spec fn spec_orders_filter_caption(filter: Seq<char>, active: bool) -> Seq<char> {
    if filter.len() == 0 {
        if active {
            "Filter mode: type symbol, status, or side; Esc clear; / exits when empty"@
        } else {
            "Filter: / to activate"@
        }
    } else {
        "Filter ["@ + (if active { "ACTIVE"@ } else { "saved"@ }) + "]: "@ + filter
            + " (symbol/status/side substring; Esc clear; / exits when empty)"@
    }
}

/// Caption of the Orders filter (see `spec_orders_filter_caption`).
pub fn orders_filter_caption(app: &App) -> (r: String)
    ensures
        r@ == spec_orders_filter_caption(app.order_filter@, app.order_filter_active),
{
    if app.order_filter.unicode_len() == 0 {
        if app.order_filter_active {
            copy_str("Filter mode: type symbol, status, or side; Esc clear; / exits when empty")
        } else {
            copy_str("Filter: / to activate")
        }
    } else {
        let mut r = concat("Filter [", if app.order_filter_active { "ACTIVE" } else { "saved" });
        push_str(&mut r, "]: ");
        push_str(&mut r, app.order_filter.as_str());
        push_str(&mut r, " (symbol/status/side substring; Esc clear; / exits when empty)");
        r
    }
}

/// Rows the Alerts pane shows inside its borders.
pub open spec fn spec_alerts_visible(height: int) -> int {
    if height < 2 { 0 } else { height - 2 }
}

/// First row shown of `len` alert lines: from the top while they fit, else the scroll
/// offset kept where the last page stays full.
pub open spec fn spec_alerts_scroll_row(len: int, height: int, scroll: int) -> int {
    let visible = spec_alerts_visible(height);
    let max_scroll = if len < (if visible < 1 { 1 } else { visible }) { 0 } else {
        len - (if visible < 1 { 1 } else { visible }) };
    if len <= visible { 0 } else if scroll < max_scroll { scroll } else { max_scroll }
}

/// Title of the Alerts pane: the position (the first shown row as a 16-bit row number,
/// plus one) when the lines scroll, else the count.
pub open spec fn spec_alerts_title(len: int, height: int, scroll: int) -> Seq<char> {
    if len > spec_alerts_visible(height) {
        "Alerts ("@ + spec_format_decimal((spec_alerts_scroll_row(len, height, scroll) % 65536 + 1) as nat) + "/"@
            + spec_format_decimal(len as nat) + ")  [↑↓ PgUp/PgDn]:scroll"@
    } else {
        "Alerts ("@ + spec_format_decimal(len as nat) + ")"@
    }
}

/// Title and first shown row of the Alerts pane for `len` lines in a pane `height`
/// rows high (see `spec_alerts_title`, `spec_alerts_scroll_row`). The row is a 16-bit
/// terminal row, so it wraps modulo 65536; the shown position adds one to it in 16
/// bits, which overflows only when that row is 65535.
pub fn alerts_view(len: usize, height: u16, scroll: usize) -> (r: (String, u16))
    requires
        len > spec_alerts_visible(height as int) ==> spec_alerts_scroll_row(len as int, height as int, scroll as int)
            % 65536 != 65535,
    ensures
        r.1 as int == spec_alerts_scroll_row(len as int, height as int, scroll as int) % 65536,
        r.0@ == spec_alerts_title(len as int, height as int, scroll as int),
{
    let visible: usize = if height < 2 { 0 } else { (height - 2) as usize };
    let floor: usize = if visible < 1 { 1 } else { visible };
    let max_scroll: usize = if len < floor { 0 } else { len - floor };
    let row: usize = if len <= visible { 0 } else if scroll < max_scroll { scroll } else { max_scroll };
    let row16: u16 = (row % 65536) as u16;
    let title = if len > visible {
        let mut t = concat("Alerts (", format_u64((row16 + 1) as u64).as_str());
        push_str(&mut t, "/");
        push_str(&mut t, format_u64(len as u64).as_str());
        push_str(&mut t, ")  [↑↓ PgUp/PgDn]:scroll");
        t
    } else {
        let mut t = concat("Alerts (", format_u64(len as u64).as_str());
        push_str(&mut t, ")");
        t
    };
    (title, row16)
}

impl App {
    /// Recompute the Charts search results at `now_ms`, unless the last computation is
    /// less than the debounce interval old: the uppercased query picks the results (see
    /// `spec_search_results`) and the selection goes back to the first.
    #[verifier::spinoff_prover]
    #[verifier::rlimit(100)]
    pub fn update_search_results(&mut self, now_ms: u64)
        ensures
            (if now_ms < old(self).chart_search_last_search_ms { 0 } else {
                now_ms - old(self).chart_search_last_search_ms }) < old(self).chart_search_debounce_ms
                ==> *final(self) == *old(self),
            (if now_ms < old(self).chart_search_last_search_ms { 0 } else {
                now_ms - old(self).chart_search_last_search_ms }) >= old(self).chart_search_debounce_ms
                ==> strings_view(final(self).chart_search_results@) == spec_search_results(
                    spec_str_to_uppercase(old(self).chart_search_input@), strings_view(old(self).chart_search_history@))
                && *final(self) == (App { chart_search_last_search_ms: now_ms,
                    chart_search_results: final(self).chart_search_results, chart_search_selected: 0, ..*old(self) }),
    {
        let elapsed: u64 = if now_ms < self.chart_search_last_search_ms { 0 } else {
            now_ms - self.chart_search_last_search_ms };
        if elapsed < self.chart_search_debounce_ms {
            return;
        }
        let q = to_uppercase(self.chart_search_input.as_str());
        let results = search_results(q.as_str(), &self.chart_search_history);
        self.chart_search_last_search_ms = now_ms;
        self.chart_search_results = results;
        self.chart_search_selected = 0;
    }
}

} // verus!
