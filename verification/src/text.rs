//! Character-level string helpers shared by the UI logic: conversion between strings
//! and character vectors, Unicode whitespace trimming, case mapping, splitting,
//! substring search and char-safe truncation / padding.
use vstd::prelude::*;

verus! {

/// Whether `c` has the Unicode `White_Space` property (the set `char::is_whitespace` tests).
pub open spec fn spec_is_whitespace(c: char) -> bool {
    let u = c as u32;
    (9 <= u <= 13) || u == 32 || u == 0x85 || u == 0xA0 || u == 0x1680 || (0x2000 <= u <= 0x200A)
        || u == 0x2028 || u == 0x2029 || u == 0x202F || u == 0x205F || u == 0x3000
}

/// Exec test for Unicode whitespace.
pub fn is_whitespace(c: char) -> (r: bool)
    ensures
        r == spec_is_whitespace(c),
{
    let u = c as u32;
    (9 <= u && u <= 13) || u == 32 || u == 0x85 || u == 0xA0 || u == 0x1680 || (0x2000 <= u
        && u <= 0x200A) || u == 0x2028 || u == 0x2029 || u == 0x202F || u == 0x205F || u == 0x3000
}

/// Number of leading whitespace characters of `s`.
pub open spec fn spec_leading_ws(s: Seq<char>) -> nat
    decreases s.len(),
{
    if s.len() == 0 {
        0
    } else if spec_is_whitespace(s[0]) {
        1 + spec_leading_ws(s.drop_first())
    } else {
        0
    }
}

/// `s` without its trailing whitespace.
pub open spec fn spec_trim_end(s: Seq<char>) -> Seq<char>
    decreases s.len(),
{
    if s.len() == 0 {
        s
    } else if spec_is_whitespace(s.last()) {
        spec_trim_end(s.drop_last())
    } else {
        s
    }
}

/// `s` without leading and trailing whitespace (what `str::trim` returns).
pub open spec fn spec_trim(s: Seq<char>) -> Seq<char> {
    spec_trim_end(s.skip(spec_leading_ws(s) as int))
}

/// `s` without trailing occurrences of `c` (what `str::trim_end_matches(c)` returns).
pub open spec fn spec_trim_end_char(s: Seq<char>, c: char) -> Seq<char>
    decreases s.len(),
{
    if s.len() == 0 {
        s
    } else if s.last() == c {
        spec_trim_end_char(s.drop_last(), c)
    } else {
        s
    }
}

/// ASCII lowercase of one character.
pub open spec fn spec_ascii_lower(c: char) -> char {
    if 'A' <= c <= 'Z' {
        ((c as u32) + 32) as char
    } else {
        c
    }
}

/// ASCII lowercase of a string (what `str::to_ascii_lowercase` returns).
pub open spec fn spec_ascii_lowercase(s: Seq<char>) -> Seq<char> {
    s.map_values(|c: char| spec_ascii_lower(c))
}

/// Unicode lowercase mapping of a string, as `str::to_lowercase` computes it.
pub uninterp spec fn spec_str_to_lowercase(s: Seq<char>) -> Seq<char>;

/// Unicode uppercase mapping of a string, as `str::to_uppercase` computes it.
pub uninterp spec fn spec_str_to_uppercase(s: Seq<char>) -> Seq<char>;

/// Whether `needle` occurs as a contiguous run of `hay` (what `str::contains(&str)` tests).
pub open spec fn spec_contains(hay: Seq<char>, needle: Seq<char>) -> bool {
    exists|i: int| 0 <= i && i + needle.len() <= hay.len() && #[trigger] hay.subrange(i, i + needle.len()) == needle
}

/// Whether `prefix` starts `s`.
pub open spec fn spec_starts_with(s: Seq<char>, prefix: Seq<char>) -> bool {
    prefix.len() <= s.len() && s.subrange(0, prefix.len() as int) == prefix
}

/// Pieces of `s` separated by `sep` (what `str::split(sep)` yields, in order).
pub open spec fn spec_split(s: Seq<char>, sep: char) -> Seq<Seq<char>>
    decreases s.len(),
{
    if s.len() == 0 {
        seq![Seq::<char>::empty()]
    } else {
        let prev = spec_split(s.drop_last(), sep);
        if s.last() == sep {
            prev.push(Seq::<char>::empty())
        } else {
            prev.update(prev.len() - 1, prev.last().push(s.last()))
        }
    }
}

/// Views of a sequence of strings.
pub open spec fn strings_view(v: Seq<String>) -> Seq<Seq<char>> {
    v.map_values(|s: String| s@)
}

/// `str::to_lowercase`: returns the Unicode lowercase mapping of `s`.
#[verifier::external_body]
pub(crate) fn to_lowercase(s: &str) -> (r: String)
    ensures
        r@ == spec_str_to_lowercase(s@),
{
    s.to_lowercase()
}

/// `str::to_uppercase`: returns the Unicode uppercase mapping of `s`.
#[verifier::external_body]
pub(crate) fn to_uppercase(s: &str) -> (r: String)
    ensures
        r@ == spec_str_to_uppercase(s@),
{
    s.to_uppercase()
}

/// `String::push`: appends one character.
#[verifier::external_body]
pub(crate) fn push_char(s: &mut String, c: char)
    ensures
        final(s)@ == old(s)@.push(c),
{
    s.push(c);
}

/// `String::pop`: removes and returns the last character, if any.
#[verifier::external_body]
pub(crate) fn pop_char(s: &mut String) -> (r: Option<char>)
    ensures
        old(s)@.len() == 0 ==> r is None && final(s)@ == old(s)@,
        old(s)@.len() > 0 ==> r == Some(old(s)@.last()) && final(s)@ == old(s)@.drop_last(),
{
    s.pop()
}

/// The characters of `s`.
pub fn chars_of(s: &str) -> (r: Vec<char>)
    ensures
        r@ == s@,
{
    let n = s.unicode_len();
    let mut v: Vec<char> = Vec::new();
    let mut i: usize = 0;
    while i < n
        invariant
            n == s@.len(),
            i <= n,
            v@ == s@.subrange(0, i as int),
        decreases n - i,
    {
        let c = s.get_char(i);
        v.push(c);
        i = i + 1;
        assert(v@ =~= s@.subrange(0, i as int));
    }
    assert(v@ =~= s@);
    v
}

/// A string made of the characters `v[lo..hi]`.
pub fn string_from_range(v: &Vec<char>, lo: usize, hi: usize) -> (r: String)
    requires
        lo <= hi <= v@.len(),
    ensures
        r@ == v@.subrange(lo as int, hi as int),
{
    let mut s = String::new();
    let mut i = lo;
    while i < hi
        invariant
            lo <= i <= hi <= v@.len(),
            s@ == v@.subrange(lo as int, i as int),
        decreases hi - i,
    {
        push_char(&mut s, v[i]);
        i = i + 1;
        assert(s@ =~= v@.subrange(lo as int, i as int));
    }
    s
}

/// A string made of all characters of `v`.
pub fn string_from_chars(v: &Vec<char>) -> (r: String)
    ensures
        r@ == v@,
{
    let r = string_from_range(v, 0, v.len());
    assert(v@.subrange(0, v@.len() as int) =~= v@);
    r
}

/// A copy of `s`.
pub fn copy_str(s: &str) -> (r: String)
    ensures
        r@ == s@,
{
    let v = chars_of(s);
    string_from_chars(&v)
}

proof fn lemma_trim_end_bounds(s: Seq<char>)
    ensures
        spec_trim_end(s).len() <= s.len(),
        spec_trim_end(s) == s.subrange(0, spec_trim_end(s).len() as int),
        spec_trim_end(s).len() > 0 ==> !spec_is_whitespace(spec_trim_end(s).last()),
    decreases s.len(),
{
    if s.len() > 0 && spec_is_whitespace(s.last()) {
        lemma_trim_end_bounds(s.drop_last());
        assert(s.drop_last().subrange(0, spec_trim_end(s).len() as int) =~= s.subrange(
            0,
            spec_trim_end(s).len() as int,
        ));
    } else {
        assert(s.subrange(0, s.len() as int) =~= s);
    }
}

proof fn lemma_trim_end_prefix(s: Seq<char>, k: int)
    requires
        0 <= k <= s.len(),
        forall|j: int| k <= j < s.len() ==> spec_is_whitespace(#[trigger] s[j]),
        k == 0 || !spec_is_whitespace(s[k - 1]),
    ensures
        spec_trim_end(s) == s.subrange(0, k),
    decreases s.len(),
{
    if s.len() == k {
        assert(s.subrange(0, k) =~= s);
    } else {
        assert(spec_is_whitespace(s[s.len() - 1]));
        let d = s.drop_last();
        assert forall|j: int| k <= j < d.len() implies spec_is_whitespace(#[trigger] d[j]) by {
            assert(d[j] == s[j]);
        }
        if k > 0 {
            assert(d[k - 1] == s[k - 1]);
        }
        lemma_trim_end_prefix(d, k);
        assert(d.subrange(0, k) =~= s.subrange(0, k));
    }
}

proof fn lemma_leading_ws(s: Seq<char>, k: int)
    requires
        0 <= k <= s.len(),
        forall|j: int| 0 <= j < k ==> spec_is_whitespace(#[trigger] s[j]),
        k == s.len() || !spec_is_whitespace(s[k]),
    ensures
        spec_leading_ws(s) == k,
    decreases s.len(),
{
    if k > 0 {
        let d = s.drop_first();
        assert forall|j: int| 0 <= j < k - 1 implies spec_is_whitespace(#[trigger] d[j]) by {
            assert(d[j] == s[j + 1]);
        }
        if k < s.len() {
            assert(d[k - 1] == s[k]);
        }
        lemma_leading_ws(d, k - 1);
    }
}

/// `str::trim` as a new string: `s` without leading and trailing Unicode whitespace.
pub fn trim(s: &str) -> (r: String)
    ensures
        r@ == spec_trim(s@),
{
    let v = chars_of(s);
    let n = v.len();
    let mut lo: usize = 0;
    while lo < n && is_whitespace(v[lo])
        invariant
            n == v@.len(),
            lo <= n,
            forall|j: int| 0 <= j < lo ==> spec_is_whitespace(#[trigger] v@[j]),
        decreases n - lo,
    {
        lo = lo + 1;
    }
    proof {
        lemma_leading_ws(v@, lo as int);
    }
    let mut hi: usize = n;
    while hi > lo && is_whitespace(v[hi - 1])
        invariant
            n == v@.len(),
            lo <= hi <= n,
            forall|j: int| hi <= j < n ==> spec_is_whitespace(#[trigger] v@[j]),
        decreases hi - lo,
    {
        hi = hi - 1;
    }
    proof {
        let t = v@.skip(lo as int);
        let k = hi - lo;
        assert forall|j: int| k <= j < t.len() implies spec_is_whitespace(#[trigger] t[j]) by {
            assert(t[j] == v@[j + lo]);
        }
        if k > 0 {
            assert(t[k - 1] == v@[hi - 1]);
        }
        lemma_trim_end_prefix(t, k as int);
        assert(t.subrange(0, k as int) =~= v@.subrange(lo as int, hi as int));
    }
    string_from_range(&v, lo, hi)
}

/// `str::trim_end_matches(c)` as a new string.
pub fn trim_end_char(s: &str, c: char) -> (r: String)
    ensures
        r@ == spec_trim_end_char(s@, c),
{
    let v = chars_of(s);
    let mut hi: usize = v.len();
    assert(v@.subrange(0, hi as int) =~= v@);
    while hi > 0 && v[hi - 1] == c
        invariant
            hi <= v@.len(),
            spec_trim_end_char(v@, c) == spec_trim_end_char(v@.subrange(0, hi as int), c),
        decreases hi,
    {
        assert(v@.subrange(0, hi as int).drop_last() =~= v@.subrange(0, hi - 1));
        hi = hi - 1;
    }
    proof {
        let p = v@.subrange(0, hi as int);
        if hi > 0 {
            assert(p.last() == v@[hi - 1]);
        }
    }
    string_from_range(&v, 0, hi)
}

/// ASCII lowercase of one character.
pub fn ascii_lower(c: char) -> (r: char)
    ensures
        r == spec_ascii_lower(c),
{
    if 'A' <= c && c <= 'Z' {
        let u = ((c as u32) + 32) as u8;
        u as char
    } else {
        c
    }
}

/// `str::to_ascii_lowercase`.
pub fn to_ascii_lowercase(s: &str) -> (r: String)
    ensures
        r@ == spec_ascii_lowercase(s@),
{
    let v = chars_of(s);
    let mut out = String::new();
    let mut i: usize = 0;
    while i < v.len()
        invariant
            i <= v@.len(),
            out@ == spec_ascii_lowercase(v@.subrange(0, i as int)),
        decreases v@.len() - i,
    {
        let c = ascii_lower(v[i]);
        push_char(&mut out, c);
        i = i + 1;
        assert(out@ =~= spec_ascii_lowercase(v@.subrange(0, i as int)));
    }
    assert(v@.subrange(0, v@.len() as int) =~= v@);
    out
}

/// Whether `hay[i..]` starts with `needle`.
fn matches_at(hay: &Vec<char>, needle: &Vec<char>, i: usize) -> (r: bool)
    requires
        i + needle@.len() <= hay@.len(),
    ensures
        r == (hay@.subrange(i as int, i + needle@.len()) == needle@),
{
    let mut j: usize = 0;
    while j < needle.len()
        invariant
            j <= needle.len(),
            i + needle.len() <= hay.len(),
            forall|k: int| 0 <= k < j ==> hay@[i + k] == needle@[k],
        decreases needle@.len() - j,
    {
        if hay[i + j] != needle[j] {
            assert(hay@.subrange(i as int, i + needle@.len())[j as int] != needle@[j as int]);
            return false;
        }
        j = j + 1;
    }
    assert(hay@.subrange(i as int, i + needle@.len()) =~= needle@);
    true
}

/// `str::contains(&str)` over character vectors.
pub fn contains_chars(hay: &Vec<char>, needle: &Vec<char>) -> (r: bool)
    ensures
        r == spec_contains(hay@, needle@),
{
    if needle.len() > hay.len() {
        return false;
    }
    let last = hay.len() - needle.len();
    let mut i: usize = 0;
    loop
        invariant
            last + needle@.len() == hay@.len(),
            i <= last,
            forall|k: int| 0 <= k < i ==> #[trigger] hay@.subrange(k, k + needle@.len()) != needle@,
        decreases last - i,
    {
        if matches_at(hay, needle, i) {
            return true;
        }
        if i == last {
            return false;
        }
        i = i + 1;
    }
}

/// `str::contains(&str)`.
pub fn str_contains(hay: &str, needle: &str) -> (r: bool)
    ensures
        r == spec_contains(hay@, needle@),
{
    let h = chars_of(hay);
    let n = chars_of(needle);
    contains_chars(&h, &n)
}

/// `str::starts_with(&str)`.
pub fn str_starts_with(s: &str, prefix: &str) -> (r: bool)
    ensures
        r == spec_starts_with(s@, prefix@),
{
    let v = chars_of(s);
    let p = chars_of(prefix);
    if p.len() > v.len() {
        return false;
    }
    matches_at(&v, &p, 0)
}

/// Equality of two strings' characters.
pub fn str_eq(a: &str, b: &str) -> (r: bool)
    ensures
        r == (a@ == b@),
{
    let va = chars_of(a);
    let vb = chars_of(b);
    if va.len() != vb.len() {
        return false;
    }
    let r = matches_at(&va, &vb, 0);
    assert(va@.subrange(0, va@.len() as int) =~= va@);
    r
}

/// `str::split(sep)` collected into strings.
pub fn split_char(s: &str, sep: char) -> (r: Vec<String>)
    ensures
        strings_view(r@) == spec_split(s@, sep),
{
    let v = chars_of(s);
    let mut pieces: Vec<String> = Vec::new();
    let mut cur = String::new();
    let mut i: usize = 0;
    while i < v.len()
        invariant
            i <= v@.len(),
            strings_view(pieces@).push(cur@) == spec_split(v@.subrange(0, i as int), sep),
        decreases v@.len() - i,
    {
        let c = v[i];
        let ghost prefix = v@.subrange(0, i as int);
        let ghost next = v@.subrange(0, i + 1);
        assert(next.drop_last() =~= prefix);
        if c == sep {
            let done = cur;
            pieces.push(done);
            cur = String::new();
            assert(strings_view(pieces@).push(cur@) =~= spec_split(prefix, sep).push(
                Seq::<char>::empty(),
            ));
        } else {
            let ghost before = strings_view(pieces@).push(cur@);
            push_char(&mut cur, c);
            assert(strings_view(pieces@).push(cur@) =~= before.update(
                before.len() - 1,
                before.last().push(c),
            ));
        }
        i = i + 1;
    }
    pieces.push(cur);
    assert(v@.subrange(0, v@.len() as int) =~= v@);
    assert(strings_view(pieces@) =~= spec_split(v@, sep));
    pieces
}

/// Truncation of `s` to at most `max_chars` characters, ending in `…` when shortened.
pub open spec fn spec_truncate_chars(s: Seq<char>, max_chars: nat) -> Seq<char> {
    if max_chars == 0 {
        Seq::<char>::empty()
    } else if s.len() <= max_chars {
        s
    } else {
        s.subrange(0, max_chars - 1).push('…')
    }
}

/// Truncate to at most `max_chars` Unicode scalar values, appending `…` when shortened.
pub fn truncate_chars(s: &str, max_chars: usize) -> (r: String)
    ensures
        r@ == spec_truncate_chars(s@, max_chars as nat),
        r@.len() <= max_chars,
{
    if max_chars == 0 {
        return String::new();
    }
    let v = chars_of(s);
    if v.len() <= max_chars {
        string_from_chars(&v)
    } else {
        let mut t = string_from_range(&v, 0, max_chars - 1);
        push_char(&mut t, '…');
        t
    }
}

/// Approximate display width: the number of Unicode scalar values.
pub fn display_width_cells(s: &str) -> (r: usize)
    ensures
        r == s@.len(),
{
    s.unicode_len()
}

/// Largest character count among `samples` (0 when there are none).
pub open spec fn spec_max_width(samples: Seq<Seq<char>>) -> nat
    decreases samples.len(),
{
    if samples.len() == 0 {
        0
    } else {
        let rest = spec_max_width(samples.drop_last());
        if samples.last().len() > rest {
            samples.last().len()
        } else {
            rest
        }
    }
}

/// Maximum `display_width_cells` over sample strings (0 if there are none).
pub fn max_display_width(samples: &[&str]) -> (r: usize)
    ensures
        r == spec_max_width(samples@.map_values(|s: &str| s@)),
{
    let ghost views = samples@.map_values(|s: &str| s@);
    let mut best: usize = 0;
    let mut i: usize = 0;
    while i < samples.len()
        invariant
            i <= samples@.len(),
            views == samples@.map_values(|s: &str| s@),
            best == spec_max_width(views.subrange(0, i as int)),
        decreases samples@.len() - i,
    {
        let w = display_width_cells(samples[i]);
        assert(views.subrange(0, i + 1).drop_last() =~= views.subrange(0, i as int));
        if w > best {
            best = w;
        }
        i = i + 1;
    }
    assert(views.subrange(0, samples@.len() as int) =~= views);
    best
}

/// `s` left-padded with spaces to at least `width` characters.
pub open spec fn spec_pad_left(width: nat, s: Seq<char>) -> Seq<char> {
    if s.len() >= width {
        s
    } else {
        Seq::new((width - s.len()) as nat, |i: int| ' ') + s
    }
}

/// Left-pad `s` with ASCII spaces until its character count is at least `width`.
pub fn pad_left(width: usize, s: &str) -> (r: String)
    ensures
        r@ == spec_pad_left(width as nat, s@),
{
    let v = chars_of(s);
    if v.len() >= width {
        return string_from_chars(&v);
    }
    let pad = width - v.len();
    let mut out = String::new();
    let mut i: usize = 0;
    while i < pad
        invariant
            i <= pad,
            out@ == Seq::new(i as nat, |k: int| ' '),
        decreases pad - i,
    {
        push_char(&mut out, ' ');
        i = i + 1;
        assert(out@ =~= Seq::new(i as nat, |k: int| ' '));
    }
    let mut j: usize = 0;
    while j < v.len()
        invariant
            j <= v@.len(),
            out@ == Seq::new(pad as nat, |k: int| ' ') + v@.subrange(0, j as int),
        decreases v@.len() - j,
    {
        push_char(&mut out, v[j]);
        j = j + 1;
        assert(out@ =~= Seq::new(pad as nat, |k: int| ' ') + v@.subrange(0, j as int));
    }
    assert(v@.subrange(0, v@.len() as int) =~= v@);
    out
}

/// `s` without the suffix `suf`, if `s` ends with it (what `str::strip_suffix` returns).
pub open spec fn spec_strip_suffix(s: Seq<char>, suf: Seq<char>) -> Option<Seq<char>> {
    if suf.len() <= s.len() && s.subrange(s.len() - suf.len(), s.len() as int) == suf {
        Some(s.subrange(0, s.len() - suf.len()))
    } else {
        None
    }
}

/// `str::strip_suffix(&str)` as a new string.
pub fn strip_suffix(s: &str, suf: &str) -> (r: Option<String>)
    ensures
        r is Some <==> spec_strip_suffix(s@, suf@) is Some,
        r is Some ==> r->0@ == spec_strip_suffix(s@, suf@)->0,
{
    let v = chars_of(s);
    let p = chars_of(suf);
    if p.len() > v.len() {
        return None;
    }
    let start = v.len() - p.len();
    if matches_at(&v, &p, start) {
        Some(string_from_range(&v, 0, start))
    } else {
        None
    }
}


/// Appends the characters of `t` to `s`.
pub fn push_str(s: &mut String, t: &str)
    ensures
        final(s)@ == old(s)@ + t@,
{
    let v = chars_of(t);
    let ghost s0 = s@;
    let mut i: usize = 0;
    while i < v.len()
        invariant
            i <= v@.len(),
            v@ == t@,
            s@ == s0 + v@.subrange(0, i as int),
        decreases v@.len() - i,
    {
        push_char(s, v[i]);
        i = i + 1;
        assert(s@ =~= s0 + v@.subrange(0, i as int));
    }
    assert(v@.subrange(0, v@.len() as int) =~= v@);
}

/// The concatenation of `a` and `b`.
pub fn concat(a: &str, b: &str) -> (r: String)
    ensures
        r@ == a@ + b@,
{
    let mut r = copy_str(a);
    push_str(&mut r, b);
    r
}


/// A copy of a list of strings.
pub fn copy_strings(v: &Vec<String>) -> (r: Vec<String>)
    ensures
        strings_view(r@) == strings_view(v@),
{
    let mut out: Vec<String> = Vec::new();
    let mut i: usize = 0;
    while i < v.len()
        invariant
            i <= v@.len(),
            out@.len() == i,
            forall|j: int| 0 <= j < i ==> (#[trigger] out@[j])@ == v@[j]@,
        decreases v@.len() - i,
    {
        out.push(copy_str(v[i].as_str()));
        i = i + 1;
    }
    assert(strings_view(out@) =~= strings_view(v@));
    out
}

/// Lexicographic order of two strings by code point; on UTF-8 text this is the byte
/// order that `String`'s `Ord` compares by.
pub open spec fn spec_str_le(a: Seq<char>, b: Seq<char>) -> bool
    decreases a.len(),
{
    if a.len() == 0 {
        true
    } else if b.len() == 0 {
        false
    } else if (a[0] as u32) < (b[0] as u32) {
        true
    } else if (a[0] as u32) > (b[0] as u32) {
        false
    } else {
        spec_str_le(a.drop_first(), b.drop_first())
    }
}

/// `spec_str_le` is reflexive.
pub(crate) proof fn lemma_str_le_refl(a: Seq<char>)
    ensures
        spec_str_le(a, a),
    decreases a.len(),
{
    if a.len() > 0 {
        lemma_str_le_refl(a.drop_first());
    }
}

/// `spec_str_le` is total.
pub(crate) proof fn lemma_str_le_total(a: Seq<char>, b: Seq<char>)
    ensures
        spec_str_le(a, b) || spec_str_le(b, a),
    decreases a.len(),
{
    if a.len() > 0 && b.len() > 0 && (a[0] as u32) == (b[0] as u32) {
        lemma_str_le_total(a.drop_first(), b.drop_first());
    }
}

/// `spec_str_le` is transitive.
pub(crate) proof fn lemma_str_le_trans(a: Seq<char>, b: Seq<char>, c: Seq<char>)
    requires
        spec_str_le(a, b),
        spec_str_le(b, c),
    ensures
        spec_str_le(a, c),
    decreases a.len(),
{
    if a.len() > 0 && b.len() > 0 && c.len() > 0 && (a[0] as u32) == (b[0] as u32)
        && (b[0] as u32) == (c[0] as u32) {
        lemma_str_le_trans(a.drop_first(), b.drop_first(), c.drop_first());
    }
}

/// `spec_str_le` is antisymmetric.
pub(crate) proof fn lemma_str_le_antisym(a: Seq<char>, b: Seq<char>)
    requires
        spec_str_le(a, b),
        spec_str_le(b, a),
    ensures
        a == b,
    decreases a.len(),
{
    if a.len() > 0 && b.len() > 0 {
        lemma_str_le_antisym(a.drop_first(), b.drop_first());
        vstd::utf8::char_u32_cast(a[0], a[0] as u32);
        vstd::utf8::char_u32_cast(b[0], b[0] as u32);
        assert(a[0] == b[0]);
        assert(a =~= seq![a[0]] + a.drop_first());
        assert(b =~= seq![b[0]] + b.drop_first());
    } else {
        assert(a.len() == 0 && b.len() == 0);
        assert(a =~= b);
    }
}

/// Whether `a` comes before or with `b` in code-point order.
pub(crate) fn str_le(a: &str, b: &str) -> (r: bool)
    ensures
        r == spec_str_le(a@, b@),
{
    let va = crate::text::chars_of(a);
    let vb = crate::text::chars_of(b);
    let mut i: usize = 0;
    assert(a@.skip(0) =~= a@);
    assert(b@.skip(0) =~= b@);
    while i < va.len() && i < vb.len() && (va[i] as u32) == (vb[i] as u32)
        invariant
            i <= va@.len(),
            i <= vb@.len(),
            va@ == a@,
            vb@ == b@,
            spec_str_le(a@, b@) == spec_str_le(a@.skip(i as int), b@.skip(i as int)),
        decreases va@.len() - i,
    {
        proof {
            let sa = a@.skip(i as int);
            let sb = b@.skip(i as int);
            assert(sa.drop_first() =~= a@.skip(i + 1));
            assert(sb.drop_first() =~= b@.skip(i + 1));
        }
        i = i + 1;
    }
    if i == va.len() {
        proof {
            assert(a@.skip(i as int).len() == 0);
        }
        true
    } else if i == vb.len() {
        false
    } else {
        proof {
            assert(a@.skip(i as int)[0] == va@[i as int]);
            assert(b@.skip(i as int)[0] == vb@[i as int]);
        }
        (va[i] as u32) < (vb[i] as u32)
    }
}

/// Whether the strings are in ascending `spec_str_le` order.
pub open spec fn spec_sorted_strings(s: Seq<Seq<char>>) -> bool {
    forall|i: int, j: int| 0 <= i < j < s.len() ==> spec_str_le(#[trigger] s[i], #[trigger] s[j])
}

/// `slice::sort` on strings: the same strings, rearranged in ascending order of
/// `String`'s `Ord` (byte-wise lexicographic). Which of two equal strings comes first is
/// not stated; they are equal, so the views agree either way.
#[verifier::external_body]
pub(crate) fn sort_strings(v: &mut Vec<String>)
    ensures
        strings_view(final(v)@).to_multiset() == strings_view(old(v)@).to_multiset(),
        spec_sorted_strings(strings_view(final(v)@)),
{
    v.sort();
}

/// Bytes `c` takes in UTF-8.
pub open spec fn spec_char_utf8_len(c: char) -> nat {
    let u = c as u32;
    if u < 0x80 { 1 } else if u < 0x800 { 2 } else if u < 0x10000 { 3 } else { 4 }
}

/// Length of `s` in UTF-8 bytes (what `str::len` reports).
pub open spec fn spec_utf8_len(s: Seq<char>) -> nat
    decreases s.len(),
{
    if s.len() == 0 { 0 } else { spec_utf8_len(s.drop_last()) + spec_char_utf8_len(s.last()) }
}

proof fn lemma_utf8_len_prefix_mono(s: Seq<char>, i: int, j: int)
    requires
        0 <= i <= j <= s.len(),
    ensures
        spec_utf8_len(s.subrange(0, i)) <= spec_utf8_len(s.subrange(0, j)),
    decreases j - i,
{
    if i < j {
        lemma_utf8_len_prefix_mono(s, i, j - 1);
        assert(s.subrange(0, j).drop_last() =~= s.subrange(0, j - 1));
    }
}

/// Whether `s` takes fewer than `limit` bytes in UTF-8.
pub fn utf8_len_below(s: &str, limit: usize) -> (r: bool)
    ensures
        r == (spec_utf8_len(s@) < limit),
{
    if limit == 0 {
        return false;
    }
    let v = chars_of(s);
    let mut sum: usize = 0;
    let mut i: usize = 0;
    assert(v@.subrange(0, 0) =~= Seq::<char>::empty());
    while i < v.len()
        invariant
            i <= v@.len(),
            v@ == s@,
            sum == spec_utf8_len(v@.subrange(0, i as int)),
            sum < limit,
        decreases v@.len() - i,
    {
        let u = v[i] as u32;
        let w: usize = if u < 0x80 { 1 } else if u < 0x800 { 2 } else if u < 0x10000 { 3 } else { 4 };
        assert(v@.subrange(0, i + 1).drop_last() =~= v@.subrange(0, i as int));
        if w >= limit - sum {
            proof {
                lemma_utf8_len_prefix_mono(v@, i + 1, v@.len() as int);
                assert(v@.subrange(0, v@.len() as int) =~= v@);
            }
            return false;
        }
        sum = sum + w;
        i = i + 1;
    }
    assert(v@.subrange(0, v@.len() as int) =~= v@);
    true
}

} // verus!
