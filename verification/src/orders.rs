//! The Orders pane's list: snapshot orders matching the filter, newest first.
use vstd::prelude::*;
use crate::app::App;
use crate::text::{copy_str, spec_contains, spec_str_to_lowercase, str_contains, to_lowercase};

verus! {

/// One order as the Orders pane lists it; times are milliseconds since the Unix epoch.
#[derive(Debug, Clone)]
pub struct OrderRow {
    pub id: String,
    pub symbol: String,
    pub side: String,
    pub quantity: i64,
    pub status: String,
    pub submitted_at_ms: i64,
}

/// Abstract content of an order.
pub ghost struct OrderRowView {
    pub id: Seq<char>,
    pub symbol: Seq<char>,
    pub side: Seq<char>,
    pub quantity: i64,
    pub status: Seq<char>,
    pub submitted_at_ms: i64,
}

impl View for OrderRow {
    type V = OrderRowView;

    open spec fn view(&self) -> OrderRowView {
        OrderRowView {
            id: self.id@,
            symbol: self.symbol@,
            side: self.side@,
            quantity: self.quantity,
            status: self.status@,
            submitted_at_ms: self.submitted_at_ms,
        }
    }
}

/// The views of a list of orders.
pub open spec fn orders_view(v: Seq<OrderRow>) -> Seq<OrderRowView> {
    v.map_values(|o: OrderRow| o@)
}

/// Whether an order matches the lowercased filter `f` by symbol, status or side
/// (case-insensitively, as substrings).
pub open spec fn spec_order_matches(o: OrderRowView, f: Seq<char>) -> bool {
    spec_contains(spec_str_to_lowercase(o.symbol), f) || spec_contains(spec_str_to_lowercase(o.status), f)
        || spec_contains(spec_str_to_lowercase(o.side), f)
}

/// The orders of `s` that match `f`, in order.
pub open spec fn spec_filter_orders(s: Seq<OrderRowView>, f: Seq<char>) -> Seq<OrderRowView>
    decreases s.len(),
{
    if s.len() == 0 {
        Seq::empty()
    } else {
        let r = spec_filter_orders(s.drop_last(), f);
        if spec_order_matches(s.last(), f) { r.push(s.last()) } else { r }
    }
}

/// Every order the filter keeps matches it, and keeps its place relative to the others.
pub proof fn law_filtered_orders_match(s: Seq<OrderRowView>, f: Seq<char>)
    ensures
        forall|i: int| 0 <= i < spec_filter_orders(s, f).len() ==> spec_order_matches(
            #[trigger] spec_filter_orders(s, f)[i], f),
        spec_filter_orders(s, f).len() <= s.len(),
    decreases s.len(),
{
    if s.len() > 0 {
        law_filtered_orders_match(s.drop_last(), f);
    }
}

/// The orders the pane lists for `filter`: all of them when it is empty, else those
/// matching its lowercase form.
pub open spec fn spec_listed_orders(s: Seq<OrderRowView>, filter: Seq<char>) -> Seq<OrderRowView> {
    let f = spec_str_to_lowercase(filter);
    if f.len() == 0 { s } else { spec_filter_orders(s, f) }
}

/// Whether the orders are newest first.
pub open spec fn spec_newest_first(s: Seq<OrderRowView>) -> bool {
    forall|i: int, j: int| 0 <= i < j < s.len() ==> (#[trigger] s[i]).submitted_at_ms >= (#[trigger] s[j]).submitted_at_ms
}

/// `x` placed in the newest-first list `sorted` just before the first strictly older
/// order, so after every order at least as new.
pub open spec fn spec_insert_newest(sorted: Seq<OrderRowView>, x: OrderRowView) -> Seq<OrderRowView>
    decreases sorted.len(),
{
    if sorted.len() == 0 {
        seq![x]
    } else if sorted[0].submitted_at_ms < x.submitted_at_ms {
        seq![x] + sorted
    } else {
        seq![sorted[0]] + spec_insert_newest(sorted.drop_first(), x)
    }
}

/// The orders newest first, orders submitted at the same time in their input order: the
/// result of a stable sort by submission time, descending.
pub open spec fn spec_sorted_newest_first(s: Seq<OrderRowView>) -> Seq<OrderRowView>
    decreases s.len(),
{
    if s.len() == 0 {
        s
    } else {
        spec_insert_newest(spec_sorted_newest_first(s.drop_last()), s.last())
    }
}

/// `slice::sort_by_key` with the submission time reversed: the same orders, newest
/// first; `sort_by_key` is stable, so orders submitted at the same time keep their
/// relative order, which fixes the result (`spec_sorted_newest_first`).
#[verifier::external_body]
fn sort_newest_first(v: &mut Vec<OrderRow>)
    ensures
        orders_view(final(v)@) == spec_sorted_newest_first(orders_view(old(v)@)),
        orders_view(final(v)@).to_multiset() == orders_view(old(v)@).to_multiset(),
        spec_newest_first(orders_view(final(v)@)),
{
    v.sort_by_key(|o| std::cmp::Reverse(o.submitted_at_ms));
}

fn copy_order(o: &OrderRow) -> (r: OrderRow)
    ensures
        r@ == o@,
{
    OrderRow {
        id: copy_str(o.id.as_str()),
        symbol: copy_str(o.symbol.as_str()),
        side: copy_str(o.side.as_str()),
        quantity: o.quantity,
        status: copy_str(o.status.as_str()),
        submitted_at_ms: o.submitted_at_ms,
    }
}

fn order_matches(o: &OrderRow, f: &str) -> (r: bool)
    ensures
        r == spec_order_matches(o@, f@),
{
    let sym = to_lowercase(o.symbol.as_str());
    if str_contains(sym.as_str(), f) {
        return true;
    }
    let st = to_lowercase(o.status.as_str());
    if str_contains(st.as_str(), f) {
        return true;
    }
    let side = to_lowercase(o.side.as_str());
    str_contains(side.as_str(), f)
}

impl App {
    /// The orders the Orders pane lists: those matching the filter (see
    /// `spec_listed_orders`), newest first, orders submitted at the same time in their
    /// input order.
    pub fn filtered_orders(&self, orders: &Vec<OrderRow>) -> (r: Vec<OrderRow>)
        ensures
            orders_view(r@) == spec_sorted_newest_first(
                spec_listed_orders(orders_view(orders@), self.order_filter@),
            ),
            orders_view(r@).to_multiset() == spec_listed_orders(orders_view(orders@), self.order_filter@).to_multiset(),
            spec_newest_first(orders_view(r@)),
    {
        let f = to_lowercase(self.order_filter.as_str());
        let mut out: Vec<OrderRow> = Vec::new();
        if f.unicode_len() == 0 {
            let mut i: usize = 0;
            while i < orders.len()
                invariant
                    i <= orders@.len(),
                    orders_view(out@) == orders_view(orders@).take(i as int),
                decreases orders@.len() - i,
            {
                let ghost before = orders_view(out@);
                out.push(copy_order(&orders[i]));
                assert(orders_view(out@) =~= before.push(orders@[i as int]@));
                assert(orders_view(orders@).take(i + 1) =~= orders_view(orders@).take(i as int).push(orders@[i as int]@));
                i = i + 1;
            }
            assert(orders_view(orders@).take(orders@.len() as int) =~= orders_view(orders@));
        } else {
            let mut i: usize = 0;
            while i < orders.len()
                invariant
                    i <= orders@.len(),
                    orders_view(out@) == spec_filter_orders(orders_view(orders@).take(i as int), f@),
                decreases orders@.len() - i,
            {
                proof {
                    let all = orders_view(orders@);
                    assert(all.take(i + 1).drop_last() =~= all.take(i as int));
                    assert(all.take(i + 1).last() == orders@[i as int]@);
                }
                let ghost before = orders_view(out@);
                if order_matches(&orders[i], f.as_str()) {
                    out.push(copy_order(&orders[i]));
                    assert(orders_view(out@) =~= before.push(orders@[i as int]@));
                }
                i = i + 1;
            }
            assert(orders_view(orders@).take(orders@.len() as int) =~= orders_view(orders@));
        }
        sort_newest_first(&mut out);
        out
    }

    /// How many orders the Orders pane lists.
    pub fn filtered_orders_len(&self, orders: &Vec<OrderRow>) -> (r: usize)
        ensures
            r == spec_listed_orders(orders_view(orders@), self.order_filter@).len(),
    {
        let v = self.filtered_orders(orders);
        proof {
            vstd::seq_lib::to_multiset_len(orders_view(v@));
            vstd::seq_lib::to_multiset_len(spec_listed_orders(orders_view(orders@), self.order_filter@));
        }
        v.len()
    }
}

} // verus!
