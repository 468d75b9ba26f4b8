//! Rows of the Positions table. In the flat view each position is a row. In the combo
//! view positions sharing an account, a strategy and a symbol stem form a combo: each
//! combo is a header row, followed by its positions when the combo is expanded.
use vstd::prelude::*;
use crate::labels::{spec_symbol_stem, symbol_stem};
use crate::text::{copy_str, str_eq};

verus! {

/// What the Positions table reads of a position.
#[derive(Debug, Clone)]
pub struct PositionRow {
    pub symbol: String,
    pub account_id: Option<String>,
    pub strategy: Option<String>,
}

/// A combo's identity: account, strategy and symbol stem (empty text for a missing
/// account or strategy).
pub type ComboKey = (String, String, String);

/// A combo key as text.
pub type ComboKeyView = (Seq<char>, Seq<char>, Seq<char>);

/// One table row: the position it shows, or the combo whose header it is.
pub type RowView = (Option<usize>, Option<ComboKeyView>);

/// The text of an optional string, empty when absent.
pub open spec fn text_or_empty(o: Option<String>) -> Seq<char> {
    match o {
        Some(s) => s@,
        None => Seq::empty(),
    }
}

/// The combo a position belongs to.
pub open spec fn combo_key_of(p: PositionRow) -> ComboKeyView {
    (text_or_empty(p.account_id), text_or_empty(p.strategy), spec_symbol_stem(p.symbol@))
}

/// A combo key as text.
pub open spec fn key_view(k: ComboKey) -> ComboKeyView {
    (k.0@, k.1@, k.2@)
}

/// An optional combo key as text.
pub open spec fn opt_key_view(k: Option<ComboKey>) -> Option<ComboKeyView> {
    match k {
        Some(k) => Some(key_view(k)),
        None => None,
    }
}

/// The combos of `ps`, each once, in the order of their first position.
pub open spec fn group_keys(ps: Seq<PositionRow>) -> Seq<ComboKeyView>
    decreases ps.len(),
{
    if ps.len() == 0 {
        Seq::empty()
    } else {
        let g = group_keys(ps.drop_last());
        let k = combo_key_of(ps.last());
        if g.contains(k) {
            g
        } else {
            g.push(k)
        }
    }
}

/// The rows of the positions of combo `k`, in position order.
pub open spec fn member_rows(ps: Seq<PositionRow>, k: ComboKeyView) -> Seq<RowView>
    decreases ps.len(),
{
    if ps.len() == 0 {
        Seq::empty()
    } else {
        let m = member_rows(ps.drop_last(), k);
        if combo_key_of(ps.last()) == k {
            m.push((Some((ps.len() - 1) as usize), None))
        } else {
            m
        }
    }
}

/// Whether combo `k` is among the expanded ones.
pub open spec fn is_expanded(expanded: Seq<ComboKey>, k: ComboKeyView) -> bool {
    exists|i: int| 0 <= i < expanded.len() && key_view(#[trigger] expanded[i]) == k
}

/// The rows of combos `gs`: each a header, then its positions when expanded.
pub open spec fn combo_rows(ps: Seq<PositionRow>, gs: Seq<ComboKeyView>, expanded: Seq<ComboKey>) -> Seq<
    RowView,
>
    decreases gs.len(),
{
    if gs.len() == 0 {
        Seq::empty()
    } else {
        let k = gs.last();
        let header: Seq<RowView> = seq![(None, Some(k))];
        combo_rows(ps, gs.drop_last(), expanded) + header + if is_expanded(expanded, k) {
            member_rows(ps, k)
        } else {
            Seq::empty()
        }
    }
}

/// The rows of the Positions table.
pub open spec fn display_rows(ps: Seq<PositionRow>, combo_view: bool, expanded: Seq<ComboKey>) -> Seq<
    RowView,
> {
    if !combo_view || ps.len() == 0 {
        Seq::new(ps.len(), |i: int| (Some(i as usize), None::<ComboKeyView>))
    } else {
        combo_rows(ps, group_keys(ps), expanded)
    }
}

/// Whether the two row vectors hold exactly `rows`.
pub open spec fn rows_match(
    index_map: Seq<Option<usize>>,
    keys: Seq<Option<ComboKey>>,
    rows: Seq<RowView>,
) -> bool {
    &&& index_map.len() == rows.len()
    &&& keys.len() == rows.len()
    &&& forall|t: int| 0 <= t < rows.len() ==> index_map[t] == (#[trigger] rows[t]).0
    &&& forall|t: int| 0 <= t < rows.len() ==> opt_key_view(#[trigger] keys[t]) == rows[t].1
}

/// The combo of `p`.
pub fn make_combo_key(p: &PositionRow) -> (k: ComboKey)
    ensures
        key_view(k) == combo_key_of(*p),
{
    let account = match &p.account_id {
        Some(a) => copy_str(a.as_str()),
        None => String::new(),
    };
    let strategy = match &p.strategy {
        Some(s) => copy_str(s.as_str()),
        None => String::new(),
    };
    (account, strategy, symbol_stem(p.symbol.as_str()))
}

/// Whether two combo keys have the same text.
pub fn key_eq(a: &ComboKey, b: &ComboKey) -> (r: bool)
    ensures
        r == (key_view(*a) == key_view(*b)),
{
    str_eq(a.0.as_str(), b.0.as_str()) && str_eq(a.1.as_str(), b.1.as_str()) && str_eq(
        a.2.as_str(),
        b.2.as_str(),
    )
}

/// A copy of a combo key.
pub fn copy_key(k: &ComboKey) -> (r: ComboKey)
    ensures
        key_view(r) == key_view(*k),
{
    (copy_str(k.0.as_str()), copy_str(k.1.as_str()), copy_str(k.2.as_str()))
}

/// Whether some key of `keys` has the text of `k`.
pub fn keys_contain(keys: &Vec<ComboKey>, k: &ComboKey) -> (r: bool)
    ensures
        r == is_expanded(keys@, key_view(*k)),
{
    let mut i: usize = 0;
    while i < keys.len()
        invariant
            i <= keys@.len(),
            forall|j: int| 0 <= j < i ==> key_view(#[trigger] keys@[j]) != key_view(*k),
        decreases keys@.len() - i,
    {
        if key_eq(&keys[i], k) {
            return true;
        }
        i = i + 1;
    }
    false
}

/// The combos of `positions` in the order of their first position.
fn collect_group_keys(positions: &Vec<PositionRow>) -> (keys: Vec<ComboKey>)
    ensures
        keys@.map_values(|k: ComboKey| key_view(k)) == group_keys(positions@),
{
    let mut keys: Vec<ComboKey> = Vec::new();
    let mut i: usize = 0;
    while i < positions.len()
        invariant
            i <= positions@.len(),
            keys@.map_values(|k: ComboKey| key_view(k)) == group_keys(positions@.take(i as int)),
        decreases positions@.len() - i,
    {
        let k = make_combo_key(&positions[i]);
        let present = keys_contain(&keys, &k);
        proof {
            let ps = positions@.take(i as int + 1);
            assert(ps.drop_last() =~= positions@.take(i as int));
            assert(ps.last() == positions@[i as int]);
            let kv = keys@.map_values(|k: ComboKey| key_view(k));
            if present {
                let j = choose|j: int| 0 <= j < keys@.len() && key_view(#[trigger] keys@[j]) == key_view(k);
                assert(kv[j] == key_view(k));
                assert(kv.contains(key_view(k)));
            } else {
                assert(!kv.contains(key_view(k))) by {
                    if kv.contains(key_view(k)) {
                        let j = choose|j: int| 0 <= j < kv.len() && kv[j] == key_view(k);
                        assert(key_view(keys@[j]) == key_view(k));
                    }
                }
            }
        }
        if !present {
            keys.push(k);
            proof {
                assert(keys@.map_values(|k: ComboKey| key_view(k)) =~= group_keys(
                    positions@.take(i as int),
                ).push(key_view(k)));
            }
        }
        i = i + 1;
    }
    assert(positions@.take(positions@.len() as int) =~= positions@);
    keys
}

/// Appends the rows of the positions of combo `k` (see `member_rows`).
fn push_member_rows(
    positions: &Vec<PositionRow>,
    k: &ComboKey,
    index_map: &mut Vec<Option<usize>>,
    keys_out: &mut Vec<Option<ComboKey>>,
    Ghost(before): Ghost<Seq<RowView>>,
)
    requires
        rows_match(old(index_map)@, old(keys_out)@, before),
    ensures
        rows_match(final(index_map)@, final(keys_out)@, before + member_rows(positions@, key_view(*k))),
{
    let mut i: usize = 0;
    while i < positions.len()
        invariant
            i <= positions@.len(),
            rows_match(index_map@, keys_out@, before + member_rows(positions@.take(i as int), key_view(*k))),
        decreases positions@.len() - i,
    {
        let pk = make_combo_key(&positions[i]);
        proof {
            let ps = positions@.take(i as int + 1);
            assert(ps.drop_last() =~= positions@.take(i as int));
            assert(ps.last() == positions@[i as int]);
        }
        if key_eq(&pk, k) {
            let ghost prev = before + member_rows(positions@.take(i as int), key_view(*k));
            index_map.push(Some(i));
            keys_out.push(None);
            proof {
                let row: RowView = (Some(i), None);
                assert(before + member_rows(positions@.take(i as int + 1), key_view(*k)) =~= prev.push(row));
            }
        }
        i = i + 1;
    }
    assert(positions@.take(positions@.len() as int) =~= positions@);
}

/// Row count, the position shown by each row, and the combo whose header each row is.
pub fn positions_display_info(
    positions: &Vec<PositionRow>,
    combo_view: bool,
    expanded: &Vec<ComboKey>,
) -> (r: (usize, Vec<Option<usize>>, Vec<Option<ComboKey>>))
    ensures
        r.0 == display_rows(positions@, combo_view, expanded@).len(),
        rows_match(r.1@, r.2@, display_rows(positions@, combo_view, expanded@)),
{
    let mut index_map: Vec<Option<usize>> = Vec::new();
    let mut keys_out: Vec<Option<ComboKey>> = Vec::new();
    let ghost rows = display_rows(positions@, combo_view, expanded@);
    if !combo_view || positions.len() == 0 {
        let mut i: usize = 0;
        while i < positions.len()
            invariant
                i <= positions@.len(),
                rows_match(index_map@, keys_out@, rows.take(i as int)),
                rows == Seq::new(positions@.len(), |j: int| (Some(j as usize), None::<ComboKeyView>)),
            decreases positions@.len() - i,
        {
            index_map.push(Some(i));
            keys_out.push(None);
            proof {
                assert(rows.take(i as int + 1) =~= rows.take(i as int).push(rows[i as int]));
            }
            i = i + 1;
        }
        assert(rows.take(positions@.len() as int) =~= rows);
        return (index_map.len(), index_map, keys_out);
    }
    let groups = collect_group_keys(positions);
    let ghost gk = group_keys(positions@);
    let mut j: usize = 0;
    while j < groups.len()
        invariant
            j <= groups@.len(),
            groups@.map_values(|k: ComboKey| key_view(k)) == gk,
            gk == group_keys(positions@),
            rows_match(index_map@, keys_out@, combo_rows(positions@, gk.take(j as int), expanded@)),
        decreases groups@.len() - j,
    {
        let k = copy_key(&groups[j]);
        let ghost prev = combo_rows(positions@, gk.take(j as int), expanded@);
        assert(gk[j as int] == key_view(groups@[j as int]));
        assert(gk.take(j as int + 1).drop_last() =~= gk.take(j as int));
        index_map.push(None);
        keys_out.push(Some(copy_key(&groups[j])));
        let ghost header: Seq<RowView> = seq![(None, Some(key_view(k)))];
        assert(rows_match(index_map@, keys_out@, prev + header)) by {
            assert(prev + header =~= prev.push((None, Some(key_view(k)))));
        }
        let open = keys_contain(expanded, &k);
        if open {
            push_member_rows(positions, &k, &mut index_map, &mut keys_out, Ghost(prev + header));
        } else {
            assert(prev + header + Seq::<RowView>::empty() =~= prev + header);
        }
        j = j + 1;
    }
    assert(gk.take(gk.len() as int) =~= gk);
    (index_map.len(), index_map, keys_out)
}

/// What opening the selected Positions row does.
#[derive(Debug)]
pub enum PositionTarget {
    /// Expand or collapse this combo.
    ToggleCombo(ComboKey),
    /// Show the detail of the position at this index.
    ShowPosition(usize),
    /// Nothing (no such row).
    Nothing,
}

/// The target of the selected row: its combo when the row is a combo header, else its
/// position when that position exists, else nothing.
pub fn selected_position_target(
    index_map: &Vec<Option<usize>>,
    keys: &Vec<Option<ComboKey>>,
    selected: usize,
    positions_len: usize,
) -> (r: PositionTarget)
    ensures
        selected < keys@.len() && keys@[selected as int] is Some ==> (r matches PositionTarget::ToggleCombo(k)
            && key_view(k) == key_view(keys@[selected as int]->0)),
        !(selected < keys@.len() && keys@[selected as int] is Some) ==> (if selected < index_map@.len()
            && index_map@[selected as int] is Some && index_map@[selected as int]->0 < positions_len {
            r == PositionTarget::ShowPosition(index_map@[selected as int]->0)
        } else {
            r is Nothing
        }),
{
    if selected < keys.len() {
        match &keys[selected] {
            Some(k) => {
                return PositionTarget::ToggleCombo(copy_key(k));
            },
            None => {},
        }
    }
    if selected < index_map.len() {
        match index_map[selected] {
            Some(i) => if i < positions_len {
                return PositionTarget::ShowPosition(i);
            },
            None => {},
        }
    }
    PositionTarget::Nothing
}

/// Whether `after` differs from `before` exactly in combo `key` being expanded.
pub open spec fn toggles(before: Seq<ComboKey>, after: Seq<ComboKey>, key: ComboKeyView) -> bool {
    forall|kv: ComboKeyView|
        #![trigger is_expanded(after, kv)]
        is_expanded(after, kv) == if kv == key {
            !is_expanded(before, kv)
        } else {
            is_expanded(before, kv)
        }
}

/// Expands combo `key` when it is collapsed, collapses it when it is expanded; other
/// combos keep their state.
pub fn toggle_combo(expanded: &mut Vec<ComboKey>, key: ComboKey)
    ensures
        toggles(old(expanded)@, final(expanded)@, key_view(key)),
{
    if keys_contain(expanded, &key) {
        let mut kept: Vec<ComboKey> = Vec::new();
        let mut i: usize = 0;
        while i < expanded.len()
            invariant
                i <= expanded@.len(),
                forall|kv: ComboKeyView|
                    #![trigger is_expanded(kept@, kv)]
                    is_expanded(kept@, kv) == (kv != key_view(key) && is_expanded(
                        expanded@.take(i as int),
                        kv,
                    )),
            decreases expanded@.len() - i,
        {
            let ghost prefix = expanded@.take(i as int);
            let ghost next = expanded@.take(i as int + 1);
            assert(next =~= prefix.push(expanded@[i as int]));
            if !key_eq(&expanded[i], &key) {
                let ghost old_kept = kept@;
                kept.push(copy_key(&expanded[i]));
                assert forall|kv: ComboKeyView| #[trigger] is_expanded(kept@, kv) == (kv != key_view(key)
                    && is_expanded(next, kv)) by {
                    if is_expanded(next, kv) && kv != key_view(key) {
                        let t = choose|t: int| 0 <= t < next.len() && key_view(#[trigger] next[t]) == kv;
                        if t < i {
                            assert(prefix[t] == next[t]);
                            assert(is_expanded(prefix, kv));
                            assert(is_expanded(old_kept, kv));
                            let u = choose|u: int| 0 <= u < old_kept.len() && key_view(#[trigger] old_kept[u]) == kv;
                            assert(kept@[u] == old_kept[u]);
                        } else {
                            assert(key_view(kept@[old_kept.len() as int]) == kv);
                        }
                    }
                    if is_expanded(kept@, kv) {
                        let u = choose|u: int| 0 <= u < kept@.len() && key_view(#[trigger] kept@[u]) == kv;
                        if u < old_kept.len() {
                            assert(kept@[u] == old_kept[u]);
                            assert(is_expanded(old_kept, kv));
                            let t = choose|t: int| 0 <= t < prefix.len() && key_view(#[trigger] prefix[t]) == kv;
                            assert(next[t] == prefix[t]);
                        } else {
                            assert(key_view(next[i as int]) == kv);
                        }
                    }
                }
            } else {
                assert forall|kv: ComboKeyView| #[trigger] is_expanded(kept@, kv) == (kv != key_view(key)
                    && is_expanded(next, kv)) by {
                    if is_expanded(next, kv) && kv != key_view(key) {
                        let t = choose|t: int| 0 <= t < next.len() && key_view(#[trigger] next[t]) == kv;
                        assert(t != i);
                        assert(prefix[t] == next[t]);
                        assert(is_expanded(prefix, kv));
                    }
                    if is_expanded(prefix, kv) {
                        let t = choose|t: int| 0 <= t < prefix.len() && key_view(#[trigger] prefix[t]) == kv;
                        assert(next[t] == prefix[t]);
                    }
                }
            }
            i = i + 1;
        }
        assert(expanded@.take(expanded@.len() as int) =~= expanded@);
        *expanded = kept;
    } else {
        let ghost old_e = expanded@;
        expanded.push(key);
        assert forall|kv: ComboKeyView| #[trigger] is_expanded(expanded@, kv) == if kv == key_view(key) {
            !is_expanded(old_e, kv)
        } else {
            is_expanded(old_e, kv)
        } by {
            if kv == key_view(key) {
                assert(key_view(expanded@[old_e.len() as int]) == kv);
            } else {
                if is_expanded(old_e, kv) {
                    let t = choose|t: int| 0 <= t < old_e.len() && key_view(#[trigger] old_e[t]) == kv;
                    assert(expanded@[t] == old_e[t]);
                }
                if is_expanded(expanded@, kv) {
                    let t = choose|t: int| 0 <= t < expanded@.len() && key_view(#[trigger] expanded@[t]) == kv;
                    assert(t < old_e.len());
                    assert(expanded@[t] == old_e[t]);
                }
            }
        }
    }
}

/// Toggling the same combo twice (see `toggle_combo`) leaves every combo expanded or
/// collapsed as it was.
pub proof fn law_toggle_combo_twice(
    before: Seq<ComboKey>,
    once: Seq<ComboKey>,
    twice: Seq<ComboKey>,
    key: ComboKeyView,
)
    requires
        toggles(before, once, key),
        toggles(once, twice, key),
    ensures
        forall|kv: ComboKeyView| #[trigger] is_expanded(twice, kv) == is_expanded(before, kv),
{
    assert forall|kv: ComboKeyView| #[trigger] is_expanded(twice, kv) == is_expanded(before, kv) by {
        assert(is_expanded(once, kv) == if kv == key {
            !is_expanded(before, kv)
        } else {
            is_expanded(before, kv)
        });
    }
}

} // verus!
