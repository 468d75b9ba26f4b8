//! The Orders pane's status summary: how many of the listed orders are in each status,
//! statuses in ascending order, as `By status: FILLED:2  OPEN:1`.
use vstd::prelude::*;
use crate::orders::OrderRow;
use crate::parse::{format_u64, spec_format_decimal};
use crate::text::{
    copy_str, lemma_str_le_antisym, lemma_str_le_refl, lemma_str_le_total, lemma_str_le_trans,
    push_str, spec_str_le, str_eq, str_le, strings_view,
};

verus! {

/// `a` comes strictly before `b`.
pub open spec fn spec_str_lt(a: Seq<char>, b: Seq<char>) -> bool {
    spec_str_le(a, b) && a != b
}

/// How many of `ss` equal `k`.
pub open spec fn count_status(ss: Seq<Seq<char>>, k: Seq<char>) -> nat
    decreases ss.len(),
{
    if ss.len() == 0 {
        0
    } else {
        count_status(ss.drop_last(), k) + if ss.last() == k { 1nat } else { 0nat }
    }
}

/// How many of `ss` come strictly after `k`.
pub open spec fn count_after(ss: Seq<Seq<char>>, k: Seq<char>) -> nat
    decreases ss.len(),
{
    if ss.len() == 0 {
        0
    } else {
        count_after(ss.drop_last(), k) + if spec_str_lt(k, ss.last()) { 1nat } else { 0nat }
    }
}

/// `keys` lists the distinct strings of `ss` in strictly ascending order.
pub open spec fn ascending_distinct(keys: Seq<Seq<char>>, ss: Seq<Seq<char>>) -> bool {
    &&& forall|i: int, j: int| 0 <= i < j < keys.len() ==> spec_str_lt(#[trigger] keys[i], #[trigger] keys[j])
    &&& forall|i: int| 0 <= i < keys.len() ==> ss.contains(#[trigger] keys[i])
    &&& forall|t: int| 0 <= t < ss.len() ==> keys.contains(#[trigger] ss[t])
}

/// One entry of the summary: the status, a colon and its count.
pub open spec fn rollup_part(k: Seq<char>, ss: Seq<Seq<char>>) -> Seq<char> {
    k + ":"@ + spec_format_decimal(count_status(ss, k))
}

/// The entries for `keys`, separated by two spaces.
pub open spec fn rollup_parts(keys: Seq<Seq<char>>, ss: Seq<Seq<char>>) -> Seq<char>
    decreases keys.len(),
{
    if keys.len() == 0 {
        Seq::empty()
    } else if keys.len() == 1 {
        rollup_part(keys[0], ss)
    } else {
        rollup_parts(keys.drop_last(), ss) + "  "@ + rollup_part(keys.last(), ss)
    }
}

/// The statuses of `orders`, in order.
pub open spec fn statuses(orders: Seq<OrderRow>) -> Seq<Seq<char>> {
    orders.map_values(|o: OrderRow| o.status@)
}

proof fn lemma_count_after_step(ss: Seq<Seq<char>>, last: Seq<char>, k: Seq<char>)
    requires
        spec_str_lt(last, k),
        ss.contains(k),
    ensures
        count_after(ss, k) < count_after(ss, last),
    decreases ss.len(),
{
    lemma_count_after_mono(ss.drop_last(), last, k);
    if ss.last() == k {
        lemma_str_le_refl(k);
    } else {
        let t = choose|t: int| 0 <= t < ss.len() && ss[t] == k;
        assert(ss.drop_last()[t] == k);
        lemma_count_after_step(ss.drop_last(), last, k);
        lemma_after_implies(last, k, ss.last());
    }
}

proof fn lemma_after_implies(last: Seq<char>, k: Seq<char>, x: Seq<char>)
    requires
        spec_str_lt(last, k),
    ensures
        spec_str_lt(k, x) ==> spec_str_lt(last, x),
{
    if spec_str_lt(k, x) {
        lemma_str_le_trans(last, k, x);
        if last == x {
            lemma_str_le_antisym(k, x);
        }
    }
}

proof fn lemma_count_after_mono(ss: Seq<Seq<char>>, last: Seq<char>, k: Seq<char>)
    requires
        spec_str_lt(last, k),
    ensures
        count_after(ss, k) <= count_after(ss, last),
    decreases ss.len(),
{
    if ss.len() > 0 {
        lemma_count_after_mono(ss.drop_last(), last, k);
        lemma_after_implies(last, k, ss.last());
    }
}

/// How many of `ss` equal `k`.
fn count_equal(ss: &Vec<String>, k: &String) -> (r: u64)
    ensures
        r == count_status(strings_view(ss@), k@),
{
    let ghost v = strings_view(ss@);
    let mut n: u64 = 0;
    let mut i: usize = 0;
    while i < ss.len()
        invariant
            i <= ss@.len(),
            v == strings_view(ss@),
            n == count_status(v.take(i as int), k@),
            n <= i,
        decreases ss@.len() - i,
    {
        assert(v.take(i as int + 1).drop_last() =~= v.take(i as int));
        assert(v.take(i as int + 1).last() == ss@[i as int]@);
        if str_eq(ss[i].as_str(), k.as_str()) {
            n = n + 1;
        }
        i = i + 1;
    }
    assert(v.take(ss@.len() as int) =~= v);
    n
}

/// Index of the smallest string of `ss` after `last` (any string when `last` is
/// absent), if there is one.
fn next_key(ss: &Vec<String>, last: Option<usize>) -> (r: Option<usize>)
    requires
        last matches Some(l) ==> l < ss@.len(),
    ensures
        ({
            let v = strings_view(ss@);
            let after = |x: Seq<char>| match last {
                Some(l) => spec_str_lt(v[l as int], x),
                None => true,
            };
            &&& r matches Some(b) ==> b < v.len() && after(v[b as int]) && forall|t: int|
                0 <= t < v.len() && after(#[trigger] v[t]) ==> spec_str_le(v[b as int], v[t])
            &&& r is None ==> forall|t: int| 0 <= t < v.len() ==> !after(#[trigger] v[t])
        }),
{
    let ghost v = strings_view(ss@);
    let ghost after = |x: Seq<char>| match last {
        Some(l) => spec_str_lt(v[l as int], x),
        None => true,
    };
    let mut best: Option<usize> = None;
    let mut i: usize = 0;
    while i < ss.len()
        invariant
            i <= ss@.len(),
            v == strings_view(ss@),
            last matches Some(l) ==> l < ss@.len(),
            after == (|x: Seq<char>| match last {
                Some(l) => spec_str_lt(v[l as int], x),
                None => true,
            }),
            best matches Some(b) ==> b < i && after(v[b as int]) && forall|t: int|
                0 <= t < i && after(#[trigger] v[t]) ==> spec_str_le(v[b as int], v[t]),
            best is None ==> forall|t: int| 0 <= t < i ==> !after(#[trigger] v[t]),
        decreases ss@.len() - i,
    {
        let cand = match last {
            Some(l) => str_le(ss[l].as_str(), ss[i].as_str()) && !str_eq(ss[l].as_str(), ss[i].as_str()),
            None => true,
        };
        assert(cand == after(v[i as int]));
        if cand {
            match best {
                Some(b) => {
                    let smaller = str_le(ss[i].as_str(), ss[b].as_str()) && !str_eq(
                        ss[i].as_str(),
                        ss[b].as_str(),
                    );
                    if smaller {
                        proof {
                            assert forall|t: int| 0 <= t < i + 1 && after(#[trigger] v[t]) implies spec_str_le(
                                v[i as int],
                                v[t],
                            ) by {
                                if t < i {
                                    lemma_str_le_trans(v[i as int], v[b as int], v[t]);
                                } else {
                                    lemma_str_le_refl(v[i as int]);
                                }
                            }
                        }
                        best = Some(i);
                    } else {
                        proof {
                            lemma_str_le_total(v[i as int], v[b as int]);
                            if v[i as int] == v[b as int] {
                                lemma_str_le_refl(v[b as int]);
                            }
                        }
                    }
                },
                None => {
                    proof {
                        lemma_str_le_refl(v[i as int]);
                    }
                    best = Some(i);
                },
            }
        }
        i = i + 1;
    }
    best
}

/// The status summary of `ss` (see `rollup_parts`), for some ascending enumeration of
/// its distinct strings.
fn rollup_text(ss: &Vec<String>) -> (r: String)
    ensures
        exists|keys: Seq<Seq<char>>|
            #[trigger] ascending_distinct(keys, strings_view(ss@)) && r@ == rollup_parts(
                keys,
                strings_view(ss@),
            ),
{
    let ghost v = strings_view(ss@);
    let ghost mut keys: Seq<Seq<char>> = Seq::empty();
    let mut out = String::new();
    let mut last: Option<usize> = None;
    loop
        invariant
            v == strings_view(ss@),
            last matches Some(l) ==> l < ss@.len() && keys.len() > 0 && keys.last() == v[l as int],
            last is None ==> keys.len() == 0,
            forall|i: int, j: int| 0 <= i < j < keys.len() ==> spec_str_lt(#[trigger] keys[i], #[trigger] keys[j]),
            forall|i: int| 0 <= i < keys.len() ==> v.contains(#[trigger] keys[i]),
            last matches Some(l) ==> forall|t: int|
                0 <= t < v.len() && spec_str_le(#[trigger] v[t], v[l as int]) ==> keys.contains(v[t]),
            out@ == rollup_parts(keys, v),
        ensures
            forall|i: int, j: int| 0 <= i < j < keys.len() ==> spec_str_lt(#[trigger] keys[i], #[trigger] keys[j]),
            forall|i: int| 0 <= i < keys.len() ==> v.contains(#[trigger] keys[i]),
            forall|t: int| 0 <= t < v.len() ==> keys.contains(#[trigger] v[t]),
            out@ == rollup_parts(keys, v),
        decreases
            match last {
                Some(l) => count_after(v, v[l as int]) + 1,
                None => v.len() + 2,
            },
    {
        let nk = next_key(ss, last);
        match nk {
            None => {
                proof {
                    assert forall|t: int| 0 <= t < v.len() implies keys.contains(#[trigger] v[t]) by {
                        match last {
                            Some(l) => {
                                lemma_str_le_total(v[l as int], v[t]);
                                if v[l as int] == v[t] {
                                    lemma_str_le_refl(v[t]);
                                }
                            },
                            None => {},
                        }
                    }
                }
                break ;
            },
            Some(b) => {
                let ghost k = v[b as int];
                proof {
                    assert(v.contains(k));
                    match last {
                        Some(l) => {
                            lemma_count_after_step(v, v[l as int], k);
                        },
                        None => {
                            lemma_count_after_bound(v, k);
                        },
                    }
                    // the new key comes after every earlier key
                    match last {
                        Some(l) => {
                            let kl = v[l as int];
                            assert forall|i: int| 0 <= i < keys.len() implies spec_str_lt(#[trigger] keys[i], k) by {
                                if i < keys.len() - 1 {
                                    assert(spec_str_lt(keys[i], keys[keys.len() - 1]));
                                    lemma_str_le_trans(keys[i], kl, k);
                                    if keys[i] == k {
                                        lemma_str_le_antisym(kl, k);
                                    }
                                }
                            }
                        },
                        None => {},
                    }
                }
                let count = count_equal(ss, &ss[b]);
                if last.is_some() {
                    push_str(&mut out, "  ");
                }
                let key_text = copy_str(ss[b].as_str());
                push_str(&mut out, key_text.as_str());
                push_str(&mut out, ":");
                let digits = format_u64(count);
                push_str(&mut out, digits.as_str());
                proof {
                    let old_keys = keys;
                    keys = keys.push(k);
                    assert(keys.drop_last() =~= old_keys);
                    if old_keys.len() == 0 {
                        assert(keys[0] == k);
                    }
                    assert forall|t: int|
                        0 <= t < v.len() && spec_str_le(#[trigger] v[t], k) implies keys.contains(v[t]) by {
                        match last {
                            Some(l) => {
                                lemma_str_le_total(v[t], v[l as int]);
                                if spec_str_le(v[t], v[l as int]) {
                                    assert(old_keys.contains(v[t]));
                                    let u = choose|u: int| 0 <= u < old_keys.len() && old_keys[u] == v[t];
                                    assert(keys[u] == v[t]);
                                } else {
                                    lemma_str_le_antisym(v[t], k);
                                    assert(keys[old_keys.len() as int] == v[t]);
                                }
                            },
                            None => {
                                lemma_str_le_antisym(v[t], k);
                                assert(keys[0] == v[t]);
                            },
                        }
                    }
                }
                last = Some(b);
            },
        }
    }
    assert(ascending_distinct(keys, v));
    out
}

proof fn lemma_count_after_bound(ss: Seq<Seq<char>>, k: Seq<char>)
    ensures
        count_after(ss, k) <= ss.len(),
    decreases ss.len(),
{
    if ss.len() > 0 {
        lemma_count_after_bound(ss.drop_last(), k);
    }
}

/// The status summary of the listed orders: `None` when there are none, else
/// `By status: ` followed by each distinct status, in ascending order, with its count.
pub fn order_status_rollup_line(orders: &Vec<OrderRow>) -> (r: Option<String>)
    ensures
        orders@.len() == 0 <==> r is None,
        r matches Some(line) ==> exists|keys: Seq<Seq<char>>|
            #[trigger] ascending_distinct(keys, statuses(orders@)) && line@ == "By status: "@ + rollup_parts(
                keys,
                statuses(orders@),
            ),
{
    if orders.len() == 0 {
        return None;
    }
    let mut ss: Vec<String> = Vec::new();
    let mut i: usize = 0;
    while i < orders.len()
        invariant
            i <= orders@.len(),
            strings_view(ss@) == statuses(orders@).take(i as int),
        decreases orders@.len() - i,
    {
        let ghost before = strings_view(ss@);
        let st = copy_str(orders[i].status.as_str());
        ss.push(st);
        proof {
            assert(strings_view(ss@) =~= before.push(orders@[i as int].status@));
            assert(statuses(orders@).take(i as int + 1) =~= statuses(orders@).take(i as int).push(
                orders@[i as int].status@,
            ));
        }
        i = i + 1;
    }
    assert(statuses(orders@).take(orders@.len() as int) =~= statuses(orders@));
    let body = rollup_text(&ss);
    let mut line = copy_str("By status: ");
    push_str(&mut line, body.as_str());
    Some(line)
}

} // verus!
