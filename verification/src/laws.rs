//! Statements of the listing guarantees, proved once over the query
//! semantics rather than observed per test: the cap, the soft-delete
//! exclusion, the blank-search fallback, the filtered listing's relation
//! to the unfiltered one, and the preservation of recency order.

use vstd::prelude::*;

use vstd::seq_lib::group_filter_ensures;

use crate::eval::CUSTOMER_LIST_CAP;
use crate::eval::accepted;
use crate::eval::customer_list;
use crate::eval::first_visible_with_id;
use crate::eval::row_matches;
use crate::eval::selected;
use crate::eval::visible;
use crate::query::spec_query_term;
use crate::text::is_blank;
use crate::types::CustomerRow;

verus! {

/// Whatever the shape, a customer listing never exceeds the cap.
pub proof fn lemma_customer_list_cap(rows: Seq<CustomerRow>, t: Option<Seq<u8>>)
    ensures
        customer_list(rows, t).len() <= CUSTOMER_LIST_CAP,
{
    broadcast use group_filter_ensures;

}

/// Whatever the shape and the input, every row a customer listing
/// returns is visible — no soft-deleted row ever leaves the read path —
/// and matches the term when one is set.
pub proof fn lemma_customer_list_keeps_only_accepted(rows: Seq<CustomerRow>, t: Option<Seq<u8>>)
    ensures
        forall|i: int|
            0 <= i < customer_list(rows, t).len() ==> accepted(
                #[trigger] customer_list(rows, t)[i],
                t,
            ),
        forall|i: int| 0 <= i < customer_list(rows, t).len() ==> visible(customer_list(rows, t)[i]),
{
    broadcast use group_filter_ensures;

    let sel = selected(rows, t);
    assert forall|i: int| 0 <= i < customer_list(rows, t).len() implies accepted(
        #[trigger] customer_list(rows, t)[i],
        t,
    ) by {
        assert(customer_list(rows, t)[i] == sel[i]);
        assert(accepted(sel[i], t));
    }
}

/// A by-id hit is a visible row that carries the id and sits in the
/// store; a miss is final. The lookup can never surface a soft-deleted
/// row.
pub proof fn lemma_first_visible_sound(rows: Seq<CustomerRow>, id: i32)
    ensures
        match first_visible_with_id(rows, id) {
            None => true,
            Some(row) => rows.contains(row) && row.customer.id == id && visible(row),
        },
    decreases rows.len(),
{
    if rows.len() == 0 {
    } else if rows[0].customer.id == id && visible(rows[0]) {
        assert(rows.contains(rows[0]));
    } else {
        lemma_first_visible_sound(rows.skip(1), id);
        match first_visible_with_id(rows.skip(1), id) {
            None => {},
            Some(row) => {
                let k = choose|k: int| 0 <= k < rows.skip(1).len() && rows.skip(1)[k] == row;
                assert(rows[k + 1] == row);
                assert(rows.contains(row));
            },
        }
    }
}

/// An id whose every row is soft-deleted is not found: the by-id path
/// answers 404 for it, exactly as for an id that never existed.
pub proof fn lemma_deleted_id_is_not_found(rows: Seq<CustomerRow>, id: i32)
    requires
        forall|j: int| 0 <= j < rows.len() && (#[trigger] rows[j]).customer.id == id ==> !visible(rows[j]),
    ensures
        first_visible_with_id(rows, id) is None,
    decreases rows.len(),
{
    if rows.len() == 0 {
    } else {
        assert(rows[0].customer.id == id ==> !visible(rows[0]));
        assert forall|j: int|
            0 <= j < rows.skip(1).len() && (#[trigger] rows.skip(1)[j]).customer.id
                == id implies !visible(rows.skip(1)[j]) by {
            assert(rows.skip(1)[j] == rows[j + 1]);
        }
        lemma_deleted_id_is_not_found(rows.skip(1), id);
    }
}

/// A search term that is empty after trimming selects the very same
/// listing as no search parameter at all.
pub proof fn lemma_blank_search_is_unfiltered(rows: Seq<CustomerRow>, s: Seq<u8>)
    requires
        is_blank(s),
    ensures
        customer_list(rows, spec_query_term(Some(s))) == customer_list(
            rows,
            spec_query_term(None),
        ),
{
}

/// A stronger acceptance test keeps no more rows than a weaker one.
proof fn lemma_filter_stronger_shorter<A>(s: Seq<A>, p: spec_fn(A) -> bool, q: spec_fn(A) -> bool)
    requires
        forall|x: A| #[trigger] p(x) ==> q(x),
    ensures
        s.filter(p).len() <= s.filter(q).len(),
    decreases s.len(),
{
    reveal(Seq::filter);
    if s.len() > 0 {
        lemma_filter_stronger_shorter(s.drop_last(), p, q);
    }
}

/// Whenever the unfiltered listing has room for every visible row, a
/// filtered listing is exactly the matching part of it: a row comes
/// back for the term precisely when it stands in the unfiltered listing
/// and contains the term. With more visible rows than the cap, a
/// matching row beyond the unfiltered slice may appear in the filtered
/// listing only.
pub proof fn lemma_filtered_within_unfiltered(rows: Seq<CustomerRow>, t: Seq<u8>)
    requires
        selected(rows, None).len() <= CUSTOMER_LIST_CAP,
    ensures
        forall|r: CustomerRow|
            #[trigger] customer_list(rows, Some(t)).contains(r) <==> customer_list(
                rows,
                None,
            ).contains(r) && row_matches(r, t),
{
    broadcast use group_filter_ensures;
    broadcast use vstd::prelude::Seq::lemma_filter_contains_rev;

    let flt = customer_list(rows, Some(t));
    let sel = selected(rows, Some(t));
    lemma_filter_stronger_shorter(
        rows,
        |r: CustomerRow| accepted(r, Some(t)),
        |r: CustomerRow| accepted(r, None),
    );
    assert(flt == sel);
    assert(customer_list(rows, None) == selected(rows, None));
    assert forall|r: CustomerRow| #[trigger] flt.contains(r) implies customer_list(
        rows,
        None,
    ).contains(r) && row_matches(r, t) by {
        let i = choose|i: int| 0 <= i < flt.len() && flt[i] == r;
        assert(accepted(sel[i], Some(t)));
        assert(rows.contains(r));
        let j = choose|j: int| 0 <= j < rows.len() && rows[j] == r;
        assert(accepted(rows[j], None));
        assert(selected(rows, None).contains(r));
    }
    assert forall|r: CustomerRow|
        customer_list(rows, None).contains(r) && row_matches(r, t) implies #[trigger] flt.contains(
        r,
    ) by {
        let i = choose|i: int|
            0 <= i < selected(rows, None).len() && selected(rows, None)[i] == r;
        assert(accepted(selected(rows, None)[i], None));
        assert(rows.contains(r));
        let j = choose|j: int| 0 <= j < rows.len() && rows[j] == r;
        assert(accepted(rows[j], Some(t)));
        assert(sel.contains(r));
    }
}

/// A row's recency for ordering purposes: an unset creation instant
/// sorts ahead of every set one, as the store's descending order with
/// nulls first does.
pub open spec fn recency_rank(r: CustomerRow) -> int {
    match r.customer.created_at_millis {
        None => i64::MAX + 1,
        Some(m) => m as int,
    }
}

/// The rows stand newest first.
pub open spec fn newest_first(s: Seq<CustomerRow>) -> bool {
    forall|i: int, j: int|
        0 <= i < j < s.len() ==> recency_rank(#[trigger] s[i]) >= recency_rank(#[trigger] s[j])
}

proof fn lemma_filter_newest_first(s: Seq<CustomerRow>, p: spec_fn(CustomerRow) -> bool)
    requires
        newest_first(s),
    ensures
        newest_first(s.filter(p)),
    decreases s.len(),
{
    broadcast use group_filter_ensures;
    broadcast use vstd::prelude::Seq::lemma_filter_contains_rev;

    reveal(Seq::filter);
    if s.len() == 0 {
    } else {
        let rest = s.drop_last();
        assert(newest_first(rest));
        lemma_filter_newest_first(rest, p);
        let out = s.filter(p);
        if p(s.last()) {
            assert(out == rest.filter(p).push(s.last()));
            assert forall|i: int, j: int| 0 <= i < j < out.len() implies recency_rank(
                #[trigger] out[i],
            ) >= recency_rank(#[trigger] out[j]) by {
                if j < out.len() - 1 {
                    assert(out[i] == rest.filter(p)[i]);
                    assert(out[j] == rest.filter(p)[j]);
                } else {
                    assert(out[j] == s.last());
                    assert(out[i] == rest.filter(p)[i]);
                    assert(rest.filter(p).contains(out[i]));
                    assert(rest.contains(out[i]));
                    let k = choose|k: int| 0 <= k < rest.len() && rest[k] == out[i];
                    assert(s[k] == out[i]);
                    assert(recency_rank(s[k]) >= recency_rank(s[s.len() - 1]));
                }
            }
        } else {
            assert(out == rest.filter(p));
        }
    }
}

/// The listing keeps the store's recency order: rows fetched newest
/// first are returned newest first, whatever the shape and the cap.
pub proof fn lemma_customer_list_newest_first(rows: Seq<CustomerRow>, t: Option<Seq<u8>>)
    requires
        newest_first(rows),
    ensures
        newest_first(customer_list(rows, t)),
{
    lemma_filter_newest_first(rows, |r: CustomerRow| accepted(r, t));
    let sel = selected(rows, t);
    let out = customer_list(rows, t);
    assert forall|i: int, j: int| 0 <= i < j < out.len() implies recency_rank(#[trigger] out[i])
        >= recency_rank(#[trigger] out[j]) by {
        assert(out[i] == sel[i]);
        assert(out[j] == sel[j]);
    }
}

} // verus!
