//! Number and boolean parsing with the behaviour of the standard library's `from_str`.
use vstd::prelude::*;
use crate::text::{chars_of, spec_ascii_lowercase, spec_trim, to_ascii_lowercase, trim};

verus! {

/// Whether `c` is an ASCII decimal digit.
pub open spec fn spec_is_digit(c: char) -> bool {
    '0' <= c <= '9'
}

/// Value of a digit character.
pub open spec fn spec_digit_value(c: char) -> nat {
    (c as u32 - '0' as u32) as nat
}

/// Decimal value of a digit string (most significant digit first).
pub open spec fn spec_decimal(d: Seq<char>) -> nat
    decreases d.len(),
{
    if d.len() == 0 {
        0
    } else {
        spec_decimal(d.drop_last()) * 10 + spec_digit_value(d.last())
    }
}

/// Whether every character of `d` is a digit.
pub open spec fn spec_all_digits(d: Seq<char>) -> bool {
    forall|i: int| 0 <= i < d.len() ==> spec_is_digit(#[trigger] d[i])
}

/// Digits of an unsigned literal: an optional leading `+` is dropped.
pub open spec fn spec_unsigned_digits(s: Seq<char>) -> Seq<char> {
    if s.len() > 0 && s[0] == '+' { s.drop_first() } else { s }
}

/// What `u64::from_str` returns: an optional `+`, then one or more ASCII digits whose
/// value fits in a `u64`; anything else is an error.
pub open spec fn spec_parse_u64(s: Seq<char>) -> Option<u64> {
    let d = spec_unsigned_digits(s);
    if d.len() > 0 && spec_all_digits(d) && spec_decimal(d) <= u64::MAX {
        Some(spec_decimal(d) as u64)
    } else {
        None
    }
}

proof fn lemma_decimal_prefix_le(d: Seq<char>, k: int)
    requires
        0 <= k <= d.len(),
        spec_all_digits(d),
    ensures
        spec_decimal(d.subrange(0, k)) <= spec_decimal(d),
    decreases d.len() - k,
{
    if k < d.len() {
        let p = d.subrange(0, k + 1);
        assert(p.drop_last() =~= d.subrange(0, k));
        assert(spec_is_digit(d[k]));
        lemma_decimal_prefix_le(d, k + 1);
    } else {
        assert(d.subrange(0, k) =~= d);
    }
}

/// Parse an unsigned decimal integer as `u64::from_str` does.
pub fn parse_u64(s: &str) -> (r: Option<u64>)
    ensures
        r == spec_parse_u64(s@),
{
    let v = chars_of(s);
    let start: usize = if v.len() > 0 && v[0] == '+' { 1 } else { 0 };
    let ghost d = spec_unsigned_digits(s@);
    assert(d =~= v@.subrange(start as int, v@.len() as int));
    if start >= v.len() {
        return None;
    }
    let mut acc: u64 = 0;
    let mut i: usize = start;
    while i < v.len()
        invariant
            start <= i <= v@.len(),
            d == v@.subrange(start as int, v@.len() as int),
            d == spec_unsigned_digits(s@),
            forall|j: int| start <= j < i ==> spec_is_digit(#[trigger] v@[j]),
            acc == spec_decimal(v@.subrange(start as int, i as int)),
        decreases v@.len() - i,
    {
        let c = v[i];
        if c < '0' || c > '9' {
            assert(!spec_is_digit(d[i - start]));
            assert(!spec_all_digits(d));
            return None;
        }
        let digit = (c as u32 - '0' as u32) as u64;
        assert(v@.subrange(start as int, i + 1).drop_last() =~= v@.subrange(start as int, i as int));
        if acc > (u64::MAX - digit) / 10 {
            proof {
                let p = v@.subrange(start as int, i + 1);
                assert(acc * 10 + digit > u64::MAX) by (nonlinear_arith)
                    requires
                        acc > (u64::MAX - digit) / 10,
                        digit <= 9,
                ;
                assert(spec_decimal(p) == acc * 10 + digit);
                if spec_all_digits(d) {
                    assert(d.subrange(0, i + 1 - start) =~= p);
                    lemma_decimal_prefix_le(d, i + 1 - start);
                }
            }
            return None;
        }
        acc = acc * 10 + digit;
        i = i + 1;
    }
    assert(v@.subrange(start as int, i as int) =~= d);
    Some(acc)
}

/// Boolean words accepted in configuration (after trimming and ASCII lowercasing).
pub open spec fn spec_parse_bool(s: Seq<char>) -> Option<bool> {
    let w = spec_ascii_lowercase(spec_trim(s));
    if w == "1"@ || w == "true"@ || w == "yes"@ || w == "on"@ {
        Some(true)
    } else if w == "0"@ || w == "false"@ || w == "no"@ || w == "off"@ {
        Some(false)
    } else {
        None
    }
}

/// Parse a boolean flag: `1/true/yes/on` or `0/false/no/off`, case-insensitive, ignoring
/// surrounding whitespace.
pub fn parse_bool(value: &str) -> (r: Option<bool>)
    ensures
        r == spec_parse_bool(value@),
{
    let t = trim(value);
    let w = to_ascii_lowercase(t.as_str());
    let ws = w.as_str();
    proof {
        reveal_strlit("1");
        reveal_strlit("true");
        reveal_strlit("yes");
        reveal_strlit("on");
        reveal_strlit("0");
        reveal_strlit("false");
        reveal_strlit("no");
        reveal_strlit("off");
    }
    if crate::text::str_eq(ws, "1") || crate::text::str_eq(ws, "true") || crate::text::str_eq(ws, "yes")
        || crate::text::str_eq(ws, "on") {
        Some(true)
    } else if crate::text::str_eq(ws, "0") || crate::text::str_eq(ws, "false") || crate::text::str_eq(ws, "no")
        || crate::text::str_eq(ws, "off") {
        Some(false)
    } else {
        None
    }
}


/// The decimal digit character for `d < 10`.
pub open spec fn spec_digit_char(d: nat) -> char {
    if d == 0 { '0' } else if d == 1 { '1' } else if d == 2 { '2' } else if d == 3 { '3' }
    else if d == 4 { '4' } else if d == 5 { '5' } else if d == 6 { '6' } else if d == 7 { '7' }
    else if d == 8 { '8' } else { '9' }
}

/// Decimal representation of `n`, without sign or leading zeros.
pub open spec fn spec_format_decimal(n: nat) -> Seq<char>
    decreases n,
{
    if n < 10 {
        seq![spec_digit_char(n)]
    } else {
        spec_format_decimal(n / 10).push(spec_digit_char(n % 10))
    }
}

fn digit_char(d: u64) -> (r: char)
    requires
        d < 10,
    ensures
        r == spec_digit_char(d as nat),
{
    if d == 0 { '0' } else if d == 1 { '1' } else if d == 2 { '2' } else if d == 3 { '3' }
    else if d == 4 { '4' } else if d == 5 { '5' } else if d == 6 { '6' } else if d == 7 { '7' }
    else if d == 8 { '8' } else { '9' }
}

/// Decimal representation of `n`, as `u64::to_string` gives it.
pub fn format_u64(n: u64) -> (r: String)
    ensures
        r@ == spec_format_decimal(n as nat),
    decreases n,
{
    if n < 10 {
        let mut s = String::new();
        crate::text::push_char(&mut s, digit_char(n));
        assert(s@ =~= seq![spec_digit_char(n as nat)]);
        s
    } else {
        let mut s = format_u64(n / 10);
        crate::text::push_char(&mut s, digit_char(n % 10));
        s
    }
}

proof fn lemma_digit_char(d: nat)
    requires
        d < 10,
    ensures
        spec_is_digit(spec_digit_char(d)),
        spec_digit_char(d) != '+',
        spec_digit_value(spec_digit_char(d)) == d,
{
    assert(spec_digit_value('0') == 0);
    assert(spec_digit_value('1') == 1);
    assert(spec_digit_value('2') == 2);
    assert(spec_digit_value('3') == 3);
    assert(spec_digit_value('4') == 4);
    assert(spec_digit_value('5') == 5);
    assert(spec_digit_value('6') == 6);
    assert(spec_digit_value('7') == 7);
    assert(spec_digit_value('8') == 8);
    assert(spec_digit_value('9') == 9);
}

proof fn lemma_format_decimal(n: nat)
    ensures
        spec_format_decimal(n).len() > 0,
        spec_format_decimal(n)[0] != '+',
        spec_all_digits(spec_format_decimal(n)),
        spec_decimal(spec_format_decimal(n)) == n,
    decreases n,
{
    if n < 10 {
        lemma_digit_char(n);
        assert(spec_format_decimal(n).drop_last() =~= Seq::<char>::empty());
        assert(spec_decimal(Seq::<char>::empty()) == 0);
    } else {
        lemma_digit_char(n % 10);
        lemma_format_decimal(n / 10);
        let p = spec_format_decimal(n / 10);
        let s = spec_format_decimal(n);
        assert(s.drop_last() =~= p);
        assert(s[0] == p[0]);
        assert(spec_decimal(s) == spec_decimal(p) * 10 + spec_digit_value(s.last()));
        assert(n == (n / 10) * 10 + n % 10);
        assert forall|i: int| 0 <= i < s.len() implies spec_is_digit(#[trigger] s[i]) by {
            if i < p.len() {
                assert(s[i] == p[i]);
            }
        }
    }
}

/// Formatting a `u64` in decimal and parsing the text back gives the number again.
pub proof fn law_format_parse_roundtrip(n: u64)
    ensures
        spec_parse_u64(spec_format_decimal(n as nat)) == Some(n),
{
    lemma_format_decimal(n as nat);
}


/// Digits of a signed literal: an optional leading `+` or `-` is dropped.
pub open spec fn spec_signed_digits(s: Seq<char>) -> Seq<char> {
    if s.len() > 0 && (s[0] == '+' || s[0] == '-') { s.drop_first() } else { s }
}

/// What `i32::from_str` returns: an optional sign, then one or more ASCII digits whose
/// signed value fits in an `i32`; anything else is an error.
pub open spec fn spec_parse_i32(s: Seq<char>) -> Option<i32> {
    let d = spec_signed_digits(s);
    let neg = s.len() > 0 && s[0] == '-';
    let v: int = if neg { -(spec_decimal(d) as int) } else { spec_decimal(d) as int };
    if d.len() > 0 && spec_all_digits(d) && i32::MIN <= v <= i32::MAX {
        Some(v as i32)
    } else {
        None
    }
}

/// Parse a signed decimal integer as `i32::from_str` does.
pub fn parse_i32(s: &str) -> (r: Option<i32>)
    ensures
        r == spec_parse_i32(s@),
{
    let v = chars_of(s);
    let neg = v.len() > 0 && v[0] == '-';
    let start: usize = if v.len() > 0 && (v[0] == '+' || v[0] == '-') { 1 } else { 0 };
    let ghost d = spec_signed_digits(s@);
    assert(d =~= v@.subrange(start as int, v@.len() as int));
    if start >= v.len() {
        return None;
    }
    let limit: u64 = if neg { 2147483648 } else { 2147483647 };
    let mut acc: u64 = 0;
    let mut i: usize = start;
    while i < v.len()
        invariant
            start <= i <= v@.len(),
            d == v@.subrange(start as int, v@.len() as int),
            forall|j: int| start <= j < i ==> spec_is_digit(#[trigger] v@[j]),
            acc == spec_decimal(v@.subrange(start as int, i as int)),
            acc <= limit,
            v@ == s@,
            d == spec_signed_digits(s@),
            neg == (s@.len() > 0 && s@[0] == '-'),
            limit == if neg { 2147483648u64 } else { 2147483647u64 },
        decreases v@.len() - i,
    {
        let c = v[i];
        if c < '0' || c > '9' {
            assert(!spec_is_digit(d[i - start]));
            assert(!spec_all_digits(d));
            return None;
        }
        let digit = (c as u32 - '0' as u32) as u64;
        assert(v@.subrange(start as int, i + 1).drop_last() =~= v@.subrange(start as int, i as int));
        let next = acc * 10 + digit;
        if next > limit {
            proof {
                if spec_all_digits(d) {
                    assert(d.subrange(0, i + 1 - start) =~= v@.subrange(start as int, i + 1));
                    lemma_decimal_prefix_le(d, i + 1 - start);
                }
            }
            return None;
        }
        acc = next;
        i = i + 1;
    }
    assert(v@.subrange(start as int, i as int) =~= d);
    if neg {
        Some((0 - (acc as i64)) as i32)
    } else {
        Some(acc as i32)
    }
}

/// Index of the first `c` in `s` at or after `i`, or the length.
pub open spec fn spec_find_from(s: Seq<char>, c: char, i: int) -> int
    decreases s.len() - i,
{
    if i < 0 || i >= s.len() {
        s.len() as int
    } else if s[i] == c {
        i
    } else {
        spec_find_from(s, c, i + 1)
    }
}

/// Mantissa of a float literal: digits with at most one `.`, and at least one digit.
pub open spec fn spec_is_mantissa(m: Seq<char>) -> bool {
    let d = spec_find_from(m, '.', 0);
    if d >= m.len() {
        m.len() > 0 && spec_all_digits(m)
    } else {
        spec_all_digits(m.subrange(0, d)) && spec_all_digits(m.subrange(d + 1, m.len() as int))
            && m.len() > 1
    }
}

/// Exponent of a float literal: empty, or `e`, an optional sign and one or more digits.
pub open spec fn spec_is_exponent(x: Seq<char>) -> bool {
    x.len() == 0 || (x[0] == 'e' && {
        let y = spec_signed_digits(x.drop_first());
        y.len() > 0 && spec_all_digits(y)
    })
}

/// Whether `f64::from_str` accepts `s`: after ASCII lowercasing, an optional sign and
/// then `inf`, `infinity`, `nan`, or a decimal number (digits with an optional point and
/// at least one digit) with an optional exponent.
pub open spec fn spec_is_float_text(s: Seq<char>) -> bool {
    let b = spec_signed_digits(spec_ascii_lowercase(s));
    let k = spec_find_from(b, 'e', 0);
    b == "inf"@ || b == "infinity"@ || b == "nan"@
        || (k <= b.len() && spec_is_mantissa(b.subrange(0, k)) && spec_is_exponent(b.subrange(k, b.len() as int)))
}

proof fn lemma_find_from_bounds(s: Seq<char>, c: char, i: int)
    requires
        0 <= i <= s.len(),
    ensures
        i <= spec_find_from(s, c, i) <= s.len(),
        spec_find_from(s, c, i) < s.len() ==> s[spec_find_from(s, c, i)] == c,
        forall|j: int| i <= j < spec_find_from(s, c, i) ==> s[j] != c,
    decreases s.len() - i,
{
    if i < s.len() && s[i] != c {
        lemma_find_from_bounds(s, c, i + 1);
    }
}

fn find_from(v: &Vec<char>, c: char, start: usize) -> (r: usize)
    requires
        start <= v@.len(),
    ensures
        r as int == spec_find_from(v@, c, start as int),
{
    let mut i = start;
    while i < v.len() && v[i] != c
        invariant
            start <= i <= v@.len(),
            spec_find_from(v@, c, i as int) == spec_find_from(v@, c, start as int),
        decreases v@.len() - i,
    {
        i = i + 1;
    }
    i
}

fn all_digits_in(v: &Vec<char>, lo: usize, hi: usize) -> (r: bool)
    requires
        lo <= hi <= v@.len(),
    ensures
        r == spec_all_digits(v@.subrange(lo as int, hi as int)),
{
    let mut i = lo;
    while i < hi
        invariant
            lo <= i <= hi <= v@.len(),
            forall|j: int| lo <= j < i ==> spec_is_digit(#[trigger] v@[j]),
        decreases hi - i,
    {
        if v[i] < '0' || v[i] > '9' {
            assert(!spec_is_digit(v@.subrange(lo as int, hi as int)[i - lo]));
            return false;
        }
        i = i + 1;
    }
    assert forall|j: int| 0 <= j < hi - lo implies spec_is_digit(#[trigger] v@.subrange(lo as int, hi as int)[j]) by {
        assert(v@.subrange(lo as int, hi as int)[j] == v@[lo + j]);
    }
    true
}

fn chars_eq(v: &Vec<char>, lo: usize, lit: &str) -> (r: bool)
    requires
        lo <= v@.len(),
    ensures
        r == (v@.subrange(lo as int, v@.len() as int) == lit@),
{
    let w = chars_of(lit);
    if v.len() - lo != w.len() {
        return false;
    }
    let mut i: usize = 0;
    while i < w.len()
        invariant
            lo <= v@.len(),
            v@.len() == v.len(),
            lo + w@.len() <= usize::MAX,
            v@.len() - lo == w@.len(),
            w@ == lit@,
            i <= w@.len(),
            forall|j: int| 0 <= j < i ==> v@[lo + j] == w@[j],
        decreases w@.len() - i,
    {
        if v[lo + i] != w[i] {
            assert(v@.subrange(lo as int, v@.len() as int)[i as int] != lit@[i as int]);
            return false;
        }
        i = i + 1;
    }
    assert(v@.subrange(lo as int, v@.len() as int) =~= lit@);
    true
}

fn sub_chars(v: &Vec<char>, lo: usize, hi: usize) -> (r: Vec<char>)
    requires
        lo <= hi <= v@.len(),
    ensures
        r@ == v@.subrange(lo as int, hi as int),
{
    let mut r: Vec<char> = Vec::new();
    let mut i = lo;
    while i < hi
        invariant
            lo <= i <= hi <= v@.len(),
            r@ == v@.subrange(lo as int, i as int),
        decreases hi - i,
    {
        r.push(v[i]);
        i = i + 1;
        assert(r@ =~= v@.subrange(lo as int, i as int));
    }
    r
}

fn is_mantissa(m: &Vec<char>) -> (r: bool)
    ensures
        r == spec_is_mantissa(m@),
{
    let d = find_from(m, '.', 0);
    proof {
        lemma_find_from_bounds(m@, '.', 0);
    }
    if d >= m.len() {
        assert(m@.subrange(0, m@.len() as int) =~= m@);
        m.len() > 0 && all_digits_in(m, 0, m.len())
    } else {
        all_digits_in(m, 0, d) && all_digits_in(m, d + 1, m.len()) && m.len() > 1
    }
}

fn is_exponent(x: &Vec<char>) -> (r: bool)
    ensures
        r == spec_is_exponent(x@),
{
    if x.len() == 0 {
        return true;
    }
    if x[0] != 'e' {
        return false;
    }
    let start: usize = if x.len() > 1 && (x[1] == '+' || x[1] == '-') { 2 } else { 1 };
    assert(spec_signed_digits(x@.drop_first()) =~= x@.subrange(start as int, x@.len() as int));
    start < x.len() && all_digits_in(x, start, x.len())
}

/// Whether `f64::from_str` would accept `s` (see `spec_is_float_text`).
pub fn is_float_text(s: &str) -> (r: bool)
    ensures
        r == spec_is_float_text(s@),
{
    let low = to_ascii_lowercase(s);
    let v = chars_of(low.as_str());
    let start: usize = if v.len() > 0 && (v[0] == '+' || v[0] == '-') { 1 } else { 0 };
    let b = sub_chars(&v, start, v.len());
    assert(b@ =~= spec_signed_digits(spec_ascii_lowercase(s@)));
    if chars_eq(&b, 0, "inf") || chars_eq(&b, 0, "infinity") || chars_eq(&b, 0, "nan") {
        assert(b@.subrange(0, b@.len() as int) =~= b@);
        return true;
    }
    assert(b@.subrange(0, b@.len() as int) =~= b@);
    let k = find_from(&b, 'e', 0);
    proof {
        lemma_find_from_bounds(b@, 'e', 0);
    }
    let m = sub_chars(&b, 0, k);
    let x = sub_chars(&b, k, b.len());
    is_mantissa(&m) && is_exponent(&x)
}

} // verus!
