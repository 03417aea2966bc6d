//! Reference semantics of the read queries, executable over modelled
//! rows.
//!
//! Each listing endpoint's result is pinned to a sequence-level
//! pipeline: keep the rows the query accepts, in store order, then cap
//! where the query caps. The evaluators both document what the SQL is
//! trusted to do and serve as a drop-in store fake under test.

use vstd::prelude::*;

use crate::query::CustomerQuery;
use crate::text::ilike_match;
use crate::types::Customer;
use crate::types::CustomerRow;
use crate::types::MetalRate;
use crate::types::Product;
use crate::types::ProductRow;

verus! {

/// Most rows a customer listing may return.
pub const CUSTOMER_LIST_CAP: usize = 20;

/// The soft-delete marker, the bytes of `deleted`.
pub open spec fn deleted_marker() -> Seq<u8> {
    seq![100u8, 101u8, 108u8, 101u8, 116u8, 101u8, 100u8]
}

/// A row every customer read path may surface: its status is not the
/// soft-delete marker.
pub open spec fn visible(r: CustomerRow) -> bool {
    r.status@ != deleted_marker()
}

/// A search probe against an optional column: an absent value matches
/// nothing, as a NULL comparison would.
pub open spec fn opt_field_match(term: Seq<u8>, field: Option<Vec<u8>>) -> bool {
    match field {
        None => false,
        Some(v) => ilike_match(term, v@),
    }
}

/// The three-column search: the term occurs, case-insensitively, in
/// the row's name, phone or email.
pub open spec fn row_matches(r: CustomerRow, term: Seq<u8>) -> bool {
    ilike_match(term, r.customer.name@) || ilike_match(term, r.customer.phone@)
        || opt_field_match(term, r.customer.email)
}

/// Whether a customer listing of the given shape keeps this row:
/// visible always, and matching the term when one is set.
pub open spec fn accepted(r: CustomerRow, t: Option<Seq<u8>>) -> bool {
    visible(r) && match t {
        None => true,
        Some(s) => row_matches(r, s),
    }
}

/// The rows a customer listing of shape `t` keeps, in store order,
/// before the cap.
pub open spec fn selected(rows: Seq<CustomerRow>, t: Option<Seq<u8>>) -> Seq<CustomerRow> {
    rows.filter(|r: CustomerRow| accepted(r, t))
}

/// At most the first `CUSTOMER_LIST_CAP` elements.
pub open spec fn capped(s: Seq<CustomerRow>) -> Seq<CustomerRow> {
    if s.len() <= CUSTOMER_LIST_CAP as int {
        s
    } else {
        s.take(CUSTOMER_LIST_CAP as int)
    }
}

/// The full customer listing pipeline over the store's rows.
pub open spec fn customer_list(rows: Seq<CustomerRow>, t: Option<Seq<u8>>) -> Seq<CustomerRow> {
    capped(selected(rows, t))
}

/// Projection of a kept row onto the payload the endpoint returns: the
/// status column never leaves the store model.
pub open spec fn payload_of(rows: Seq<CustomerRow>) -> Seq<Customer> {
    rows.map_values(|r: CustomerRow| r.customer)
}

/// The first row with the wanted id that is visible, if any: the
/// meaning of the by-id lookup.
pub open spec fn first_visible_with_id(rows: Seq<CustomerRow>, id: i32) -> Option<CustomerRow>
    decreases rows.len(),
{
    if rows.len() == 0 {
        None
    } else if rows[0].customer.id == id && visible(rows[0]) {
        Some(rows[0])
    } else {
        first_visible_with_id(rows.skip(1), id)
    }
}

/// The payload of an optional kept row.
pub open spec fn opt_payload_of(r: Option<CustomerRow>) -> Option<Customer> {
    match r {
        None => None,
        Some(row) => Some(row.customer),
    }
}

/// Filtering a one-longer prefix keeps the shorter prefix's result and
/// appends the new element exactly when the predicate accepts it.
proof fn lemma_filter_take_succ<A>(s: Seq<A>, p: spec_fn(A) -> bool, i: int)
    requires
        0 <= i < s.len(),
    ensures
        s.take(i + 1).filter(p) == if p(s[i]) {
            s.take(i).filter(p).push(s[i])
        } else {
            s.take(i).filter(p)
        },
{
    reveal(Seq::filter);
    assert(s.take(i + 1).drop_last() =~= s.take(i));
    assert(s.take(i + 1).last() == s[i]);
}

/// Filtering a prefix yields a prefix of filtering the whole.
proof fn lemma_filter_take_prefix<A>(s: Seq<A>, p: spec_fn(A) -> bool, i: int)
    requires
        0 <= i <= s.len(),
    ensures
        s.take(i).filter(p).is_prefix_of(s.filter(p)),
    decreases s.len() - i,
{
    if i == s.len() {
        assert(s.take(i) =~= s);
    } else {
        lemma_filter_take_succ(s, p, i);
        lemma_filter_take_prefix(s, p, i + 1);
        let shorter = s.take(i).filter(p);
        let longer = s.take(i + 1).filter(p);
        let whole = s.filter(p);
        assert(shorter.is_prefix_of(longer));
        assert(shorter =~= longer.subrange(0, shorter.len() as int));
        assert forall|k: int| 0 <= k < shorter.len() implies shorter[k] == whole[k] by {
            assert(shorter[k] == longer[k]);
            assert(longer[k] == whole[k]);
        }
        assert(shorter =~= whole.subrange(0, shorter.len() as int));
    }
}

/// Tests a status column against the soft-delete marker.
pub fn is_deleted_status(status: &Vec<u8>) -> (r: bool)
    ensures
        r == (status@ == deleted_marker()),
{
    if status.len() != 7 {
        proof {
            assert(status@ != deleted_marker());
        }
        return false;
    }
    let r = status[0] == 100 && status[1] == 101 && status[2] == 108 && status[3] == 101
        && status[4] == 116 && status[5] == 101 && status[6] == 100;
    proof {
        if r {
            assert(status@ =~= deleted_marker());
        } else {
            assert(status@ != deleted_marker());
        }
    }
    r
}

/// Whether a customer listing of this shape keeps the row.
pub fn row_accepted(r: &CustomerRow, q: &CustomerQuery) -> (b: bool)
    ensures
        b == accepted(*r, q.term()),
{
    if is_deleted_status(&r.status) {
        return false;
    }
    match q {
        CustomerQuery::Unfiltered => true,
        CustomerQuery::Filtered(t) => {
            if crate::text::ilike(t, &r.customer.name) {
                true
            } else if crate::text::ilike(t, &r.customer.phone) {
                true
            } else {
                match &r.customer.email {
                    None => false,
                    Some(e) => crate::text::ilike(t, e),
                }
            }
        },
    }
}

/// Runs the customer listing over the store's rows: keep the accepted
/// rows in store order, stop at the cap, return their payloads.
pub fn run_customer_list(rows: Vec<CustomerRow>, q: &CustomerQuery) -> (out: Vec<Customer>)
    ensures
        out@ == payload_of(customer_list(rows@, q.term())),
        out@.len() <= CUSTOMER_LIST_CAP,
{
    let ghost orig = rows@;
    let ghost pred = |r: CustomerRow| accepted(r, q.term());
    let mut rows = rows;
    let mut out: Vec<Customer> = Vec::new();
    let mut i: usize = 0;
    proof {
        assert(rows.len() == orig.len());
    }
    while rows.len() > 0 && out.len() < CUSTOMER_LIST_CAP
        invariant
            i <= orig.len() <= usize::MAX,
            rows@ == orig.skip(i as int),
            out@ == payload_of(orig.take(i as int).filter(pred)),
            out@.len() <= CUSTOMER_LIST_CAP,
            pred == (|r: CustomerRow| accepted(r, q.term())),
        decreases rows@.len(),
    {
        let row = rows.remove(0);
        proof {
            assert(orig.skip(i as int)[0] == orig[i as int]);
            assert(orig.skip(i as int).remove(0) =~= orig.skip(i + 1));
            lemma_filter_take_succ(orig, pred, i as int);
        }
        let keep = row_accepted(&row, q);
        if keep {
            out.push(row.customer);
            proof {
                let before = orig.take(i as int).filter(pred);
                let after = orig.take(i + 1).filter(pred);
                assert(after == before.push(orig[i as int]));
                assert(payload_of(after) =~= payload_of(before).push(orig[i as int].customer));
            }
        }
        i = i + 1;
    }
    proof {
        let full = selected(orig, q.term());
        let part = orig.take(i as int).filter(pred);
        if i == orig.len() {
            assert(orig.take(i as int) =~= orig);
            assert(capped(full) == full);
        } else {
            assert(out@.len() == CUSTOMER_LIST_CAP);
            assert(part.len() == CUSTOMER_LIST_CAP);
            lemma_filter_take_prefix(orig, pred, i as int);
            assert(part =~= full.subrange(0, part.len() as int));
            assert(full.len() > CUSTOMER_LIST_CAP ==> capped(full) =~= part);
            assert(full.len() <= CUSTOMER_LIST_CAP ==> capped(full) =~= part);
        }
    }
    out
}

/// Runs the by-id lookup over the store's rows: the payload of the
/// first visible row carrying the id, if one exists.
pub fn find_customer(rows: Vec<CustomerRow>, id: i32) -> (r: Option<Customer>)
    ensures
        r == opt_payload_of(first_visible_with_id(rows@, id)),
{
    let ghost orig = rows@;
    let mut rows = rows;
    let mut result: Option<Customer> = None;
    let mut i: usize = 0;
    proof {
        assert(rows.len() == orig.len());
        assert(orig.skip(0) =~= orig);
    }
    while rows.len() > 0
        invariant_except_break
            i <= orig.len() <= usize::MAX,
            rows@ == orig.skip(i as int),
            result is None,
            first_visible_with_id(orig, id) == first_visible_with_id(orig.skip(i as int), id),
        ensures
            result == opt_payload_of(first_visible_with_id(orig, id)),
        decreases rows@.len(),
    {
        let row = rows.remove(0);
        proof {
            let rest = orig.skip(i as int);
            assert(rest.len() == orig.len() - i);
            assert(rest[0] == orig[i as int]);
            assert(rest.remove(0) =~= rest.skip(1));
            assert(rest.skip(1) =~= orig.skip(i + 1));
        }
        let hit = row.customer.id == id && !is_deleted_status(&row.status);
        proof {
            let rest = orig.skip(i as int);
            assert(row == rest[0]);
            if hit {
                assert(first_visible_with_id(rest, id) == Some(rest[0]));
            } else {
                assert(first_visible_with_id(rest, id) == first_visible_with_id(
                    rest.skip(1),
                    id,
                ));
            }
        }
        if hit {
            result = Some(row.customer);
            break;
        }
        i = i + 1;
        if rows.len() == 0 {
            proof {
                assert(orig.skip(i as int).len() == 0);
                assert(first_visible_with_id(orig.skip(i as int), id) is None);
            }
        }
    }
    result
}

/// Runs the product listing: every row's payload, in store order. The
/// store orders by creation instant, newest first; the pipeline adds
/// and removes nothing and keeps that order.
pub fn run_product_list(rows: Vec<ProductRow>) -> (out: Vec<Product>)
    ensures
        out@ == rows@.map_values(|r: ProductRow| r.product),
{
    let ghost orig = rows@;
    let mut rows = rows;
    let mut out: Vec<Product> = Vec::new();
    while rows.len() > 0
        invariant
            out@.len() + rows@.len() == orig.len(),
            out@ == orig.take(out@.len() as int).map_values(|r: ProductRow| r.product),
            rows@ == orig.skip(out@.len() as int),
        decreases rows@.len(),
    {
        let row = rows.remove(0);
        let ghost n = out@.len() as int;
        proof {
            assert(orig.skip(n)[0] == orig[n]);
            assert(orig.skip(n).remove(0) =~= orig.skip(n + 1));
        }
        out.push(row.product);
        proof {
            assert(orig.take(n + 1).map_values(|r: ProductRow| r.product) =~= orig.take(n)
                .map_values(|r: ProductRow| r.product).push(orig[n].product));
        }
    }
    proof {
        assert(orig.take(out@.len() as int) =~= orig);
    }
    out
}

/// Runs the rate listing over the store's rows for the given day: only
/// the daily snapshot rows, in store order.
pub fn run_rate_list(rows: Vec<MetalRate>, today: i32) -> (out: Vec<MetalRate>)
    ensures
        out@ == rows@.filter(|r: MetalRate| r.date_days == today),
{
    let ghost orig = rows@;
    let ghost pred = |r: MetalRate| r.date_days == today;
    let mut rows = rows;
    let mut out: Vec<MetalRate> = Vec::new();
    let mut i: usize = 0;
    proof {
        assert(rows.len() == orig.len());
    }
    while rows.len() > 0
        invariant
            i <= orig.len() <= usize::MAX,
            rows@ == orig.skip(i as int),
            out@ == orig.take(i as int).filter(pred),
            pred == (|r: MetalRate| r.date_days == today),
        decreases rows@.len(),
    {
        let row = rows.remove(0);
        proof {
            assert(orig.skip(i as int)[0] == orig[i as int]);
            assert(orig.skip(i as int).remove(0) =~= orig.skip(i + 1));
            lemma_filter_take_succ(orig, pred, i as int);
        }
        let keep = row.date_days == today;
        if keep {
            out.push(row);
        }
        i = i + 1;
    }
    proof {
        assert(orig.take(i as int) =~= orig);
    }
    out
}

} // verus!
