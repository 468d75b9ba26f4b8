//! Small display rules shared by the panes: position types, log levels, symbol stems,
//! cell truncation and the stacked Settings layout.
use vstd::prelude::*;
use crate::text::{
    chars_of, spec_is_whitespace, spec_starts_with, spec_truncate_chars, str_eq, str_starts_with,
    string_from_range, truncate_chars, is_whitespace, copy_str,
};

verus! {

/// Display label of a position's instrument type.
pub open spec fn spec_position_type_label(typ: Option<Seq<char>>) -> Seq<char> {
    match typ {
        Some(t) => if t == "OPT"@ || t == "OPTION"@ {
            "Option"@
        } else if t == "STK"@ || t == "STOCK"@ {
            "Equity"@
        } else if t == "FUT"@ {
            "Futures"@
        } else {
            "—"@
        },
        None => "—"@,
    }
}

/// Label for a position type: options, equities and futures by name, anything else a dash.
pub fn position_type_label(typ: Option<&str>) -> (r: &'static str)
    ensures
        r@ == spec_position_type_label(match typ { Some(t) => Some(t@), None => None }),
{
    proof {
        reveal_strlit("OPT");
        reveal_strlit("OPTION");
        reveal_strlit("STK");
        reveal_strlit("STOCK");
        reveal_strlit("FUT");
    }
    match typ {
        Some(t) => if str_eq(t, "OPT") || str_eq(t, "OPTION") {
            "Option"
        } else if str_eq(t, "STK") || str_eq(t, "STOCK") {
            "Equity"
        } else if str_eq(t, "FUT") {
            "Futures"
        } else {
            "—"
        },
        None => "—",
    }
}

/// Log level filter shown and set from the Logs tab.
#[derive(Debug, Clone, Copy, PartialEq, Eq)]
pub enum LevelFilter {
    Off,
    Error,
    Warn,
    Info,
    Debug,
    Trace,
}

impl LevelFilter {
    /// Name shown in the Logs title.
    pub open spec fn spec_name(self) -> Seq<char> {
        match self {
            LevelFilter::Error => "ERROR"@,
            LevelFilter::Warn => "WARN"@,
            LevelFilter::Info => "INFO"@,
            LevelFilter::Debug => "DEBUG"@,
            LevelFilter::Trace => "TRACE"@,
            LevelFilter::Off => "ALL"@,
        }
    }

    /// One step less verbose (`+` key): Trace → Debug → Info → Warn → Error, which stays.
    pub open spec fn spec_up(self) -> LevelFilter {
        match self {
            LevelFilter::Trace => LevelFilter::Debug,
            LevelFilter::Debug => LevelFilter::Info,
            LevelFilter::Info => LevelFilter::Warn,
            LevelFilter::Warn => LevelFilter::Error,
            LevelFilter::Error => LevelFilter::Error,
            LevelFilter::Off => LevelFilter::Off,
        }
    }

    /// One step more verbose (`-` key): Error → Warn → Info → Debug → Trace, which stays.
    pub open spec fn spec_down(self) -> LevelFilter {
        match self {
            LevelFilter::Error => LevelFilter::Warn,
            LevelFilter::Warn => LevelFilter::Info,
            LevelFilter::Info => LevelFilter::Debug,
            LevelFilter::Debug => LevelFilter::Trace,
            LevelFilter::Trace => LevelFilter::Trace,
            LevelFilter::Off => LevelFilter::Off,
        }
    }

    /// Name shown in the Logs title.
    pub fn level_name(self) -> (r: &'static str)
        ensures
            r@ == self.spec_name(),
    {
        match self {
            LevelFilter::Error => "ERROR",
            LevelFilter::Warn => "WARN",
            LevelFilter::Info => "INFO",
            LevelFilter::Debug => "DEBUG",
            LevelFilter::Trace => "TRACE",
            LevelFilter::Off => "ALL",
        }
    }

    /// One step less verbose (see `spec_up`).
    pub fn up(self) -> (r: LevelFilter)
        ensures
            r == self.spec_up(),
    {
        match self {
            LevelFilter::Trace => LevelFilter::Debug,
            LevelFilter::Debug => LevelFilter::Info,
            LevelFilter::Info => LevelFilter::Warn,
            LevelFilter::Warn => LevelFilter::Error,
            LevelFilter::Error => LevelFilter::Error,
            LevelFilter::Off => LevelFilter::Off,
        }
    }

    /// One step more verbose (see `spec_down`).
    pub fn down(self) -> (r: LevelFilter)
        ensures
            r == self.spec_down(),
    {
        match self {
            LevelFilter::Error => LevelFilter::Warn,
            LevelFilter::Warn => LevelFilter::Info,
            LevelFilter::Info => LevelFilter::Debug,
            LevelFilter::Debug => LevelFilter::Trace,
            LevelFilter::Trace => LevelFilter::Trace,
            LevelFilter::Off => LevelFilter::Off,
        }
    }
}

/// Between Error and Trace, one step up undoes one step down and vice versa.
pub proof fn law_level_up_down_inverse(l: LevelFilter)
    ensures
        l != LevelFilter::Trace && l != LevelFilter::Off ==> l.spec_down().spec_up() == l,
        l != LevelFilter::Error && l != LevelFilter::Off ==> l.spec_up().spec_down() == l,
{
}

/// Whether a symbol names one of the index option roots charted with expiry pills.
pub open spec fn spec_is_option_symbol(s: Seq<char>) -> bool {
    spec_starts_with(s, "SPX"@) || spec_starts_with(s, "XSP"@) || spec_starts_with(s, "NDX"@)
        || spec_starts_with(s, "SPXW"@) || spec_starts_with(s, "XSPW"@)
}

/// Whether `symbol` starts with SPX, XSP, NDX, SPXW or XSPW.
pub fn is_option_symbol(symbol: &str) -> (r: bool)
    ensures
        r == spec_is_option_symbol(symbol@),
{
    str_starts_with(symbol, "SPX") || str_starts_with(symbol, "XSP") || str_starts_with(symbol, "NDX")
        || str_starts_with(symbol, "SPXW") || str_starts_with(symbol, "XSPW")
}

/// Index of the first character at or after `i` that satisfies `ws == want`, or the length.
pub open spec fn spec_scan(s: Seq<char>, i: int, want: bool) -> int
    decreases s.len() - i,
{
    if i >= s.len() || i < 0 {
        s.len() as int
    } else if spec_is_whitespace(s[i]) == want {
        i
    } else {
        spec_scan(s, i + 1, want)
    }
}

/// The first whitespace-separated word of `s`, or `s` itself when it has none.
pub open spec fn spec_symbol_stem(s: Seq<char>) -> Seq<char> {
    let start = spec_scan(s, 0, false);
    if start >= s.len() {
        s
    } else {
        s.subrange(start, spec_scan(s, start, true))
    }
}

proof fn lemma_scan_bounds(s: Seq<char>, i: int, want: bool)
    requires
        0 <= i <= s.len(),
    ensures
        i <= spec_scan(s, i, want) <= s.len(),
    decreases s.len() - i,
{
    if i < s.len() && spec_is_whitespace(s[i]) != want {
        lemma_scan_bounds(s, i + 1, want);
    }
}

fn scan(v: &Vec<char>, start: usize, want: bool) -> (r: usize)
    requires
        start <= v@.len(),
    ensures
        r as int == spec_scan(v@, start as int, want),
{
    let mut i = start;
    while i < v.len() && is_whitespace(v[i]) != want
        invariant
            start <= i <= v@.len(),
            spec_scan(v@, i as int, want) == spec_scan(v@, start as int, want),
        decreases v@.len() - i,
    {
        i = i + 1;
    }
    i
}

/// The symbol's stem: its first whitespace-separated word (an OCC option symbol's root).
pub fn symbol_stem(symbol: &str) -> (r: String)
    ensures
        r@ == spec_symbol_stem(symbol@),
{
    let v = chars_of(symbol);
    let start = scan(&v, 0, false);
    if start >= v.len() {
        return copy_str(symbol);
    }
    proof {
        lemma_scan_bounds(v@, start as int, true);
    }
    let end = scan(&v, start, true);
    string_from_range(&v, start, end)
}

/// Row heights for the four stacked Settings sections: an even share of `total`, with
/// the remainder given one row each to the first sections.
pub open spec fn spec_stacked_height(total: u16, i: int) -> int {
    (total / 4) as int + if i < (total % 4) as int { 1int } else { 0int }
}

/// Distribute `total` rows across the four stacked Settings sections (config, symbols,
/// sources, alpaca); the heights sum to `total`.
pub fn settings_stacked_mid_heights(total: u16) -> (h: [u16; 4])
    ensures
        forall|i: int| 0 <= i < 4 ==> h[i] as int == spec_stacked_height(total, i),
        h[0] + h[1] + h[2] + h[3] == total,
{
    let base = total / 4;
    let rem = total % 4;
    let mut h: [u16; 4] = [base, base, base, base];
    let mut i: usize = 0;
    while i < rem as usize
        invariant
            rem == total % 4,
            base == total / 4,
            i <= rem,
            h@.len() == 4,
            forall|j: int| 0 <= j < 4 ==> h[j] as int == base + if j < i { 1int } else { 0int },
        decreases rem - i,
    {
        h[i] = h[i] + 1;
        i = i + 1;
    }
    h
}

/// A detail cell cut to `max_len` characters (see `truncate_chars`).
pub fn truncate_detail(detail: &str, max_len: usize) -> (r: String)
    ensures
        r@ == spec_truncate_chars(detail@, max_len as nat),
{
    truncate_chars(detail, max_len)
}

/// A command id cut to 18 characters for the status bar.
pub fn truncate_command_id(command_id: &str) -> (r: String)
    ensures
        r@ == spec_truncate_chars(command_id@, 18),
{
    truncate_chars(command_id, 18)
}

/// Instrument codes label by kind: `OPT` and `OPTION` are options, `STK` and `STOCK`
/// equities, `FUT` futures; no type, or any other code, is a dash.
pub proof fn law_position_type_labels(t: Seq<char>)
    ensures
        (t == "OPT"@ || t == "OPTION"@) ==> spec_position_type_label(Some(t)) == "Option"@,
        (t == "STK"@ || t == "STOCK"@) ==> spec_position_type_label(Some(t)) == "Equity"@,
        t == "FUT"@ ==> spec_position_type_label(Some(t)) == "Futures"@,
        !(t == "OPT"@ || t == "OPTION"@ || t == "STK"@ || t == "STOCK"@ || t == "FUT"@)
            ==> spec_position_type_label(Some(t)) == "—"@,
        spec_position_type_label(None) == "—"@,
{
    reveal_strlit("OPT");
    reveal_strlit("OPTION");
    reveal_strlit("STK");
    reveal_strlit("STOCK");
    reveal_strlit("FUT");
    assert("STK"@[0] != "OPT"@[0] && "STK"@[0] != "OPTION"@[0]);
    assert("STOCK"@[0] != "OPT"@[0] && "STOCK"@[0] != "OPTION"@[0]);
    assert("FUT"@[0] != "OPT"@[0] && "FUT"@[0] != "OPTION"@[0]);
    assert("FUT"@[0] != "STK"@[0] && "FUT"@[0] != "STOCK"@[0]);
}

} // verus!
