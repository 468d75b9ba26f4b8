//! IBKR / OCC option symbols: `ROOT YYYYMMDDC5000` or the OCC form
//! `ROOT  YYMMDDP05000000`. The grammar is checked here and the parts handed back: the
//! expiry date, call or put, and the strike text (a decimal number; the OCC form scales
//! it by 1000). Turning the strike into a price and the expiry into years is left to
//! the caller.
use vstd::prelude::*;
use chrono::{Datelike, NaiveDate};
use crate::keys::{is_alphabetic, spec_is_alphabetic};
use crate::parse::{is_float_text, spec_is_float_text};
use crate::text::{chars_of, spec_trim, string_from_range, trim};

verus! {

/// The date `NaiveDate::parse_from_str` reads from `text` with format `fmt`, as
/// (year, month, day), or `None` when it rejects the text.
pub uninterp spec fn spec_parse_date(text: Seq<char>, fmt: Seq<char>) -> Option<(i32, u32, u32)>;

/// `chrono::NaiveDate::parse_from_str(text, fmt)`, with the date's year, month and day;
/// named by `spec_parse_date`.
#[verifier::external_body]
pub(crate) fn parse_date(text: &str, fmt: &str) -> (r: Option<(i32, u32, u32)>)
    ensures
        r == spec_parse_date(text@, fmt@),
{
    NaiveDate::parse_from_str(text, fmt).ok().map(|d| (d.year(), d.month(), d.day()))
}

/// The parts of an option symbol.
#[derive(Debug, PartialEq, Eq)]
pub struct OptionSymbolParts {
    /// Expiry as (year, month, day).
    pub expiry: (i32, u32, u32),
    /// Call (`C`) rather than put (`P`).
    pub is_call: bool,
    /// The strike as written (trimmed): a decimal number.
    pub strike_text: String,
}

/// `s` without its leading letters and spaces (the root).
pub open spec fn spec_skip_root(s: Seq<char>) -> Seq<char>
    decreases s.len(),
{
    if s.len() > 0 && (spec_is_alphabetic(s[0]) || s[0] == ' ') {
        spec_skip_root(s.drop_first())
    } else {
        s
    }
}

/// Index of the first `C` or `P` of `s` at or after `i`, if any.
pub open spec fn spec_find_cp(s: Seq<char>, i: int) -> Option<int>
    decreases s.len() - i,
{
    if i < 0 || i >= s.len() {
        None
    } else if s[i] == 'C' || s[i] == 'P' {
        Some(i)
    } else {
        spec_find_cp(s, i + 1)
    }
}

/// The date text's format: eight digits are `%Y%m%d`, six are `%y%m%d`.
pub open spec fn spec_date_format(n: int) -> Option<Seq<char>> {
    if n == 8 {
        Some("%Y%m%d"@)
    } else if n == 6 {
        Some("%y%m%d"@)
    } else {
        None
    }
}

/// The parts of `symbol`: after trimming and dropping the root's letters and spaces
/// (then trimming again), the first `C` or `P` must stand at index 6 or later; the text
/// before it is the expiry, read as `%Y%m%d` when eight characters long and `%y%m%d`
/// when six; the letter says call or put; the trimmed rest is the strike and must be a
/// decimal number. `None` when any of these fails.
pub open spec fn spec_option_symbol_parts(symbol: Seq<char>) -> Option<(
    (i32, u32, u32),
    bool,
    Seq<char>,
)> {
    let s = spec_trim(spec_skip_root(spec_trim(symbol)));
    match spec_find_cp(s, 0) {
        None => None,
        Some(cp) => if cp < 6 {
            None
        } else {
            match spec_date_format(cp) {
                None => None,
                Some(fmt) => match spec_parse_date(s.subrange(0, cp), fmt) {
                    None => None,
                    Some(d) => {
                        let strike = spec_trim(s.subrange(cp + 1, s.len() as int));
                        if spec_is_float_text(strike) {
                            Some((d, s[cp] == 'C', strike))
                        } else {
                            None
                        }
                    },
                },
            }
        },
    }
}

/// The parts as plain values.
pub open spec fn parts_view(p: Option<OptionSymbolParts>) -> Option<((i32, u32, u32), bool, Seq<char>)> {
    match p {
        Some(p) => Some((p.expiry, p.is_call, p.strike_text@)),
        None => None,
    }
}

fn skip_root(v: &Vec<char>) -> (i: usize)
    ensures
        i <= v@.len(),
        v@.subrange(i as int, v@.len() as int) == spec_skip_root(v@),
{
    let mut i: usize = 0;
    assert(v@.subrange(0, v@.len() as int) =~= v@);
    while i < v.len() && (is_alphabetic(v[i]) || v[i] == ' ')
        invariant
            i <= v@.len(),
            spec_skip_root(v@.subrange(i as int, v@.len() as int)) == spec_skip_root(v@),
        decreases v@.len() - i,
    {
        assert(v@.subrange(i as int, v@.len() as int).drop_first() =~= v@.subrange(i + 1, v@.len() as int));
        i = i + 1;
    }
    i
}

proof fn lemma_find_cp_bounds(s: Seq<char>, i: int)
    ensures
        spec_find_cp(s, i) matches Some(k) ==> i <= k < s.len() && (s[k] == 'C' || s[k] == 'P'),
    decreases s.len() - i,
{
    if 0 <= i < s.len() && !(s[i] == 'C' || s[i] == 'P') {
        lemma_find_cp_bounds(s, i + 1);
    }
}

fn find_cp(w: &Vec<char>) -> (r: Option<usize>)
    ensures
        r matches Some(k) ==> k < w@.len(),
        spec_find_cp(w@, 0) == match r {
            Some(k) => Some(k as int),
            None => None,
        },
{
    let mut i: usize = 0;
    while i < w.len()
        invariant
            i <= w@.len(),
            spec_find_cp(w@, 0) == spec_find_cp(w@, i as int),
        decreases w@.len() - i,
    {
        if w[i] == 'C' || w[i] == 'P' {
            return Some(i);
        }
        i = i + 1;
    }
    proof {
        lemma_find_cp_bounds(w@, 0);
    }
    None
}

/// Split an option symbol into its parts (see `spec_option_symbol_parts`).
pub fn option_symbol_parts(symbol: &str) -> (r: Option<OptionSymbolParts>)
    ensures
        parts_view(r) == spec_option_symbol_parts(symbol@),
{
    let t = trim(symbol);
    let v = chars_of(t.as_str());
    let i = skip_root(&v);
    let rest = string_from_range(&v, i, v.len());
    let s = trim(rest.as_str());
    let w = chars_of(s.as_str());
    let cp = match find_cp(&w) {
        Some(k) => k,
        None => return None,
    };
    if cp < 6 {
        return None;
    }
    let fmt = if cp == 8 {
        "%Y%m%d"
    } else if cp == 6 {
        "%y%m%d"
    } else {
        return None;
    };
    proof {
        reveal_strlit("%Y%m%d");
        reveal_strlit("%y%m%d");
    }
    let date_text = string_from_range(&w, 0, cp);
    let d = match parse_date(date_text.as_str(), fmt) {
        Some(d) => d,
        None => return None,
    };
    let strike_raw = string_from_range(&w, cp + 1, w.len());
    let strike = trim(strike_raw.as_str());
    if !is_float_text(strike.as_str()) {
        return None;
    }
    let is_call = w[cp] == 'C';
    proof {
        let sv = spec_trim(spec_skip_root(spec_trim(symbol@)));
        assert(w@ == sv);
        assert(spec_find_cp(sv, 0) == Some(cp as int));
        assert(spec_date_format(cp as int) == Some(fmt@));
        assert(date_text@ == sv.subrange(0, cp as int));
        assert(strike@ == spec_trim(sv.subrange(cp + 1, sv.len() as int)));
    }
    Some(OptionSymbolParts { expiry: d, is_call, strike_text: strike })
}

/// Years added to the proleptic Gregorian year before dividing into 400-year eras, so
/// that the year divided is never negative (a whole number of eras, so nothing changes).
pub const ERA_SHIFT: i64 = 5368710;

/// Days from 1970-01-01 to the proleptic Gregorian date (year, month, day), by the
/// civil-from-days count: March-based years split into 400-year eras of 146097 days.
pub open spec fn spec_days_of(y: int, m: int, d: int) -> int {
    let y2 = if m <= 2 { y - 1 } else { y };
    let y3 = y2 + 400 * ERA_SHIFT;
    let era = y3 / 400;
    let yoe = y3 % 400;
    let mp = if m > 2 { m - 3 } else { m + 9 };
    let doy = (153 * mp + 2) / 5 + d - 1;
    let doe = yoe * 365 + yoe / 4 - yoe / 100 + doy;
    (era - ERA_SHIFT) * 146097 + doe - 719468
}

/// Days from 1970-01-01 to `date` (see `spec_days_of`).
pub fn days_of(date: (i32, u32, u32)) -> (r: i64)
    ensures
        r == spec_days_of(date.0 as int, date.1 as int, date.2 as int),
{
    let y = date.0 as i64;
    let m = date.1 as i64;
    let d = date.2 as i64;
    let y2 = if m <= 2 { y - 1 } else { y };
    let y3 = y2 + 400 * ERA_SHIFT;
    let era = y3 / 400;
    let yoe = y3 % 400;
    let mp = if m > 2 { m - 3 } else { m + 9 };
    let doy = (153 * mp + 2) / 5 + d - 1;
    let doe = yoe * 365 + yoe / 4 - yoe / 100 + doy;
    (era - ERA_SHIFT) * 146097 + doe - 719468
}

/// Whole days from the day numbered `today_days` (days since 1970-01-01) to `expiry`,
/// never negative.
pub fn days_to_expiry(expiry: (i32, u32, u32), today_days: i64) -> (r: i64)
    requires
        -1_000_000_000_000_000 <= today_days <= 1_000_000_000_000_000,
    ensures
        r == if spec_days_of(expiry.0 as int, expiry.1 as int, expiry.2 as int) - today_days > 0 {
            spec_days_of(expiry.0 as int, expiry.1 as int, expiry.2 as int) - today_days
        } else {
            0
        },
{
    let days = days_of(expiry) - today_days;
    if days > 0 { days } else { 0 }
}

/// A parsed symbol is a call exactly when the character separating its date from its
/// strike is `C`, and a put exactly when it is `P`, whatever the date's length.
pub proof fn law_call_exactly_when_separator_is_c(symbol: Seq<char>)
    ensures
        spec_option_symbol_parts(symbol) matches Some((_, is_call, _)) ==> ({
            let s = spec_trim(spec_skip_root(spec_trim(symbol)));
            &&& spec_find_cp(s, 0) is Some
            &&& (is_call <==> s[spec_find_cp(s, 0)->0] == 'C')
            &&& (!is_call <==> s[spec_find_cp(s, 0)->0] == 'P')
        }),
{
    let s = spec_trim(spec_skip_root(spec_trim(symbol)));
    lemma_find_cp_bounds(s, 0);
}

} // verus!
