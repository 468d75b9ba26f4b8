//! The loan form's maturity date: one day short of thirty days per payment after the
//! first payment date, written `YYYY-MM-DD`.
use vstd::prelude::*;
use chrono::{Datelike, NaiveDate, TimeDelta};
use crate::app::LoanEntryState;
use crate::option_symbol::{parse_date, spec_parse_date};
use crate::parse::{format_u64, parse_i32, spec_format_decimal, spec_parse_i32};
use crate::text::{chars_of, concat, string_from_chars};

verus! {

/// The date `days` days after (before, when negative) the given (year, month, day), as
/// chrono's `NaiveDate::checked_add_signed` computes it; `None` when the date is not a
/// valid date or the result leaves chrono's range.
pub uninterp spec fn spec_date_plus_days(date: (i32, u32, u32), days: i64) -> Option<(i32, u32, u32)>;

/// `NaiveDate::from_ymd_opt` then `checked_add_signed(TimeDelta::try_days(days))`, as
/// (year, month, day); named by `spec_date_plus_days`. A date chrono returns has a month
/// from 1 to 12 and a day from 1 to 31.
#[verifier::external_body]
fn date_plus_days(date: (i32, u32, u32), days: i64) -> (r: Option<(i32, u32, u32)>)
    ensures
        r == spec_date_plus_days(date, days),
        r matches Some(t) ==> 1 <= t.1 <= 12 && 1 <= t.2 <= 31,
{
    let start = NaiveDate::from_ymd_opt(date.0, date.1, date.2)?;
    let delta = TimeDelta::try_days(days)?;
    let end = start.checked_add_signed(delta)?;
    Some((end.year(), end.month(), end.day()))
}

/// `s` left-padded with zeros to at least `width` characters.
pub open spec fn spec_zero_pad(s: Seq<char>, width: int) -> Seq<char> {
    if s.len() >= width {
        s
    } else {
        Seq::new((width - s.len()) as nat, |i: int| '0') + s
    }
}

/// A year as chrono's `%Y` writes it: four digits (zero-padded) from 0 to 9999, else a
/// sign followed by at least four digits.
pub open spec fn spec_year_text(y: int) -> Seq<char> {
    if 0 <= y <= 9999 {
        spec_zero_pad(spec_format_decimal(y as nat), 4)
    } else if y > 9999 {
        seq!['+'] + spec_format_decimal(y as nat)
    } else {
        seq!['-'] + spec_zero_pad(spec_format_decimal((-y) as nat), 4)
    }
}

/// A date written `%Y-%m-%d`.
pub open spec fn spec_iso_date(d: (i32, u32, u32)) -> Seq<char> {
    spec_year_text(d.0 as int) + seq!['-'] + spec_zero_pad(spec_format_decimal(d.1 as nat), 2) + seq!['-']
        + spec_zero_pad(spec_format_decimal(d.2 as nat), 2)
}

/// The maturity date of a form, when both the first payment date and the number of
/// payments are filled in, the number parses as an `i32` `p`, the date parses as
/// `%Y-%m-%d`, and the date `30 p - 1` days later exists.
pub open spec fn spec_maturity(e: LoanEntryState) -> Option<(i32, u32, u32)> {
    if e.first_payment_date@.len() > 0 && e.num_payments@.len() > 0 {
        match (spec_parse_i32(e.num_payments@), spec_parse_date(e.first_payment_date@, "%Y-%m-%d"@)) {
            (Some(p), Some(d)) => spec_date_plus_days(d, (p * 30 - 1) as i64),
            _ => None,
        }
    } else {
        None
    }
}

fn zero_pad(s: String, width: usize) -> (r: String)
    ensures
        r@ == spec_zero_pad(s@, width as int),
{
    let n = s.unicode_len();
    if n >= width {
        return s;
    }
    let v = chars_of(s.as_str());
    let mut out: Vec<char> = Vec::new();
    let mut i: usize = 0;
    while i < width - n
        invariant
            n < width,
            i <= width - n,
            out@ == Seq::new(i as nat, |j: int| '0'),
        decreases width - n - i,
    {
        out.push('0');
        assert(out@ =~= Seq::new((i + 1) as nat, |j: int| '0'));
        i = i + 1;
    }
    let mut k: usize = 0;
    let ghost zeros = out@;
    while k < v.len()
        invariant
            k <= v@.len(),
            v@ == s@,
            out@ == zeros + v@.subrange(0, k as int),
        decreases v@.len() - k,
    {
        out.push(v[k]);
        assert(out@ =~= zeros + v@.subrange(0, k + 1));
        k = k + 1;
    }
    assert(v@.subrange(0, v@.len() as int) =~= v@);
    string_from_chars(&out)
}

/// A date written as chrono's `%Y-%m-%d` writes it (see `spec_iso_date`).
pub fn format_iso_date(d: (i32, u32, u32)) -> (r: String)
    ensures
        r@ == spec_iso_date(d),
{
    let y = d.0 as i64;
    let year = if 0 <= y && y <= 9999 {
        zero_pad(format_u64(y as u64), 4)
    } else if y > 9999 {
        concat("+", format_u64(y as u64).as_str())
    } else {
        let digits = zero_pad(format_u64((-y) as u64), 4);
        concat("-", digits.as_str())
    };
    proof {
        reveal_strlit("+");
        reveal_strlit("-");
    }
    let month = zero_pad(format_u64(d.1 as u64), 2);
    let day = zero_pad(format_u64(d.2 as u64), 2);
    let a = concat(year.as_str(), "-");
    let b = concat(a.as_str(), month.as_str());
    let c = concat(b.as_str(), "-");
    let r = concat(c.as_str(), day.as_str());
    assert(r@ =~= spec_iso_date(d));
    r
}

impl LoanEntryState {
    /// Fill in the maturity date (see `spec_maturity`); when it cannot be computed the
    /// form is left as it was.
    pub fn calculate_maturity(&mut self)
        ensures
            match spec_maturity(*old(self)) {
                Some(m) => *final(self) == (LoanEntryState { maturity_date: final(self).maturity_date, ..*old(self) })
                    && final(self).maturity_date@ == spec_iso_date(m),
                None => *final(self) == *old(self),
            },
    {
        if self.first_payment_date.unicode_len() == 0 || self.num_payments.unicode_len() == 0 {
            return;
        }
        proof {
            reveal_strlit("%Y-%m-%d");
        }
        let p = match parse_i32(self.num_payments.as_str()) {
            Some(p) => p,
            None => return,
        };
        let d = match parse_date(self.first_payment_date.as_str(), "%Y-%m-%d") {
            Some(d) => d,
            None => return,
        };
        let days = (p as i64) * 30 - 1;
        match date_plus_days(d, days) {
            Some(m) => {
                self.maturity_date = format_iso_date(m);
            },
            None => {},
        }
    }
}

} // verus!
