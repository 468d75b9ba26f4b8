//! The Charts search history as saved between sessions: at most ten symbols are kept
//! on save, and a saved list is cleaned on load (trimmed, blanks and repeats dropped).
use vstd::prelude::*;
use std::collections::VecDeque;
use crate::input_views::CHART_SEARCH_HISTORY_MAX;
use crate::text::{copy_str, spec_trim, str_eq, strings_view, trim};

verus! {

/// One step of loading: the trimmed symbol is appended unless it is blank or already
/// present.
pub open spec fn spec_load_step(acc: Seq<Seq<char>>, s: Seq<char>) -> Seq<Seq<char>> {
    let t = spec_trim(s);
    if t.len() > 0 && !acc.contains(t) {
        acc.push(t)
    } else {
        acc
    }
}

/// The history built from `saved`, symbol by symbol.
pub open spec fn spec_load_all(saved: Seq<Seq<char>>) -> Seq<Seq<char>>
    decreases saved.len(),
{
    if saved.len() == 0 {
        Seq::empty()
    } else {
        spec_load_step(spec_load_all(saved.drop_last()), saved.last())
    }
}

/// The history loaded from a saved list: its first ten entries, trimmed, without blanks
/// or repeats, in order.
pub open spec fn spec_loaded_history(saved: Seq<Seq<char>>) -> Seq<Seq<char>> {
    spec_load_all(
        if saved.len() <= CHART_SEARCH_HISTORY_MAX {
            saved
        } else {
            saved.take(CHART_SEARCH_HISTORY_MAX as int)
        },
    )
}

fn contains_text(h: &VecDeque<String>, s: &String) -> (r: bool)
    ensures
        r == strings_view(h@).contains(s@),
{
    let mut i: usize = 0;
    while i < h.len()
        invariant
            i <= h@.len(),
            forall|j: int| 0 <= j < i ==> h@[j]@ != s@,
        decreases h@.len() - i,
    {
        if str_eq(h[i].as_str(), s.as_str()) {
            assert(strings_view(h@)[i as int] == s@);
            return true;
        }
        i = i + 1;
    }
    assert forall|j: int| 0 <= j < strings_view(h@).len() implies strings_view(h@)[j] != s@ by {
        assert(strings_view(h@)[j] == h@[j]@);
    }
    false
}

/// The history to start a session with, from the symbols saved by the last one (see
/// `spec_loaded_history`).
pub fn history_from_saved(saved: &Vec<String>) -> (r: VecDeque<String>)
    ensures
        strings_view(r@) == spec_loaded_history(strings_view(saved@)),
{
    let ghost sv = strings_view(saved@);
    let n = if saved.len() <= CHART_SEARCH_HISTORY_MAX { saved.len() } else { CHART_SEARCH_HISTORY_MAX };
    let ghost src = if sv.len() <= CHART_SEARCH_HISTORY_MAX { sv } else { sv.take(CHART_SEARCH_HISTORY_MAX as int) };
    assert(src.len() == n);
    let mut out: VecDeque<String> = VecDeque::new();
    let mut i: usize = 0;
    while i < n
        invariant
            i <= n,
            n <= saved@.len(),
            sv == strings_view(saved@),
            src.len() == n,
            forall|j: int| 0 <= j < n ==> src[j] == sv[j],
            strings_view(out@) == spec_load_all(src.take(i as int)),
        decreases n - i,
    {
        assert(src.take(i as int + 1).drop_last() =~= src.take(i as int));
        assert(src.take(i as int + 1).last() == saved@[i as int]@);
        let t = trim(saved[i].as_str());
        if t.unicode_len() > 0 && !contains_text(&out, &t) {
            let ghost before = strings_view(out@);
            out.push_back(t);
            assert(strings_view(out@) =~= before.push(spec_trim(saved@[i as int]@)));
        }
        i = i + 1;
    }
    assert(src.take(n as int) =~= src);
    out
}

/// The symbols to save: the first ten of the history, in order.
pub fn history_to_save(history: &VecDeque<String>) -> (r: Vec<String>)
    ensures
        strings_view(r@) == if history@.len() <= CHART_SEARCH_HISTORY_MAX {
            strings_view(history@)
        } else {
            strings_view(history@).take(CHART_SEARCH_HISTORY_MAX as int)
        },
{
    let n = if history.len() <= CHART_SEARCH_HISTORY_MAX { history.len() } else { CHART_SEARCH_HISTORY_MAX };
    let mut out: Vec<String> = Vec::new();
    let mut i: usize = 0;
    while i < n
        invariant
            i <= n,
            n <= history@.len(),
            strings_view(out@) == strings_view(history@).take(i as int),
        decreases n - i,
    {
        let ghost before = strings_view(out@);
        out.push(copy_str(history[i].as_str()));
        assert(strings_view(out@) =~= before.push(history@[i as int]@));
        assert(strings_view(history@).take(i as int + 1) =~= strings_view(history@).take(i as int).push(
            history@[i as int]@,
        ));
        i = i + 1;
    }
    assert(strings_view(history@).take(n as int) =~= if history@.len() <= CHART_SEARCH_HISTORY_MAX {
        strings_view(history@)
    } else {
        strings_view(history@).take(CHART_SEARCH_HISTORY_MAX as int)
    });
    out
}

/// Loading what was saved gives back the saved history whenever that history was
/// clean: at most ten symbols, each trimmed and non-blank, none repeated.
pub proof fn law_save_then_load_restores_clean_history(h: Seq<Seq<char>>)
    requires
        h.len() <= CHART_SEARCH_HISTORY_MAX,
        forall|j: int| 0 <= j < h.len() ==> spec_trim(#[trigger] h[j]) == h[j] && h[j].len() > 0,
        forall|i: int, j: int| 0 <= i < j < h.len() ==> #[trigger] h[i] != #[trigger] h[j],
    ensures
        spec_loaded_history(h) == h,
{
    lemma_load_all_clean(h);
}

proof fn lemma_load_all_clean(h: Seq<Seq<char>>)
    requires
        forall|j: int| 0 <= j < h.len() ==> spec_trim(#[trigger] h[j]) == h[j] && h[j].len() > 0,
        forall|i: int, j: int| 0 <= i < j < h.len() ==> #[trigger] h[i] != #[trigger] h[j],
    ensures
        spec_load_all(h) == h,
    decreases h.len(),
{
    if h.len() > 0 {
        let p = h.drop_last();
        assert forall|j: int| 0 <= j < p.len() implies spec_trim(#[trigger] p[j]) == p[j] && p[j].len() > 0 by {
            assert(p[j] == h[j]);
        }
        assert forall|i: int, j: int| 0 <= i < j < p.len() implies #[trigger] p[i] != #[trigger] p[j] by {
            assert(p[i] == h[i] && p[j] == h[j]);
        }
        lemma_load_all_clean(p);
        let last = h.last();
        assert(spec_trim(h[h.len() - 1]) == h[h.len() - 1]);
        assert(!p.contains(last)) by {
            if p.contains(last) {
                let i = choose|i: int| 0 <= i < p.len() && p[i] == last;
                assert(h[i] == h[h.len() - 1]);
            }
        }
        assert(p.push(last) =~= h);
    }
}

} // verus!
