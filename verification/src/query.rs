//! The query builder: the exact SQL text and bound parameters of every
//! read path.
//!
//! SQL text is always one of a handful of fixed literals, chosen by the
//! shape of the request; untrusted input only ever travels as a bound
//! parameter, never inside the text. The customer listing has exactly
//! two shapes, unfiltered and filtered, rather than an assembled WHERE
//! clause, so the text stays static and auditable.

use vstd::prelude::*;

use crate::text::is_blank;

verus! {

/// The shape of a customer listing: either the plain top-of-recency
/// slice, or the same slice restricted by a search term.
pub enum CustomerQuery {
    Unfiltered,
    Filtered(Vec<u8>),
}

impl CustomerQuery {
    /// The search term this query applies, if any.
    pub open spec fn term(&self) -> Option<Seq<u8>> {
        match self {
            CustomerQuery::Unfiltered => None,
            CustomerQuery::Filtered(t) => Some(t@),
        }
    }
}

/// The bytes of an optional byte string, position for position.
pub open spec fn opt_bytes(s: Option<Vec<u8>>) -> Option<Seq<u8>> {
    match s {
        None => None,
        Some(v) => Some(v@),
    }
}

/// The term a raw `search` query parameter amounts to: an absent
/// parameter, or one that is nothing but whitespace, means no filter;
/// anything else filters by the term as given.
pub open spec fn spec_query_term(search: Option<Seq<u8>>) -> Option<Seq<u8>> {
    match search {
        None => None,
        Some(s) => if is_blank(s) {
            None
        } else {
            Some(s)
        },
    }
}

/// Decides the shape of the customer listing from the raw `search`
/// parameter. A term that would be empty after trimming falls back to
/// the unfiltered shape instead of becoming a vacuous `%%` pattern.
pub fn customer_query_of_search(search: Option<Vec<u8>>) -> (q: CustomerQuery)
    ensures
        q.term() == spec_query_term(opt_bytes(search)),
{
    match search {
        None => CustomerQuery::Unfiltered,
        Some(s) => {
            if crate::text::blank(&s) {
                CustomerQuery::Unfiltered
            } else {
                CustomerQuery::Filtered(s)
            }
        },
    }
}

/// The single bound pattern of the filtered customer listing:
/// `%term%`, built once and reused across all three probed columns.
pub open spec fn spec_like_pattern(term: Seq<u8>) -> Seq<u8> {
    seq![37u8] + term + seq![37u8]
}

/// Wraps a term in `%`...`%` for a substring probe.
pub fn like_pattern(term: &Vec<u8>) -> (r: Vec<u8>)
    ensures
        r@ == spec_like_pattern(term@),
{
    let mut r: Vec<u8> = Vec::new();
    r.push(37);
    let mut i: usize = 0;
    while i < term.len()
        invariant
            i <= term@.len(),
            r@ == seq![37u8] + term@.take(i as int),
        decreases term@.len() - i,
    {
        r.push(term[i]);
        i = i + 1;
        proof {
            assert(seq![37u8] + term@.take(i as int) =~= (seq![37u8] + term@.take(i - 1)).push(
                term@[i - 1],
            ));
        }
    }
    r.push(37);
    proof {
        assert(term@.take(term@.len() as int) =~= term@);
        assert(r@ =~= spec_like_pattern(term@));
    }
    r
}

/// SQL of the product listing: every product, newest creation first,
/// decimals cast to a float representation in the query itself.
pub fn products_sql() -> (r: &'static str)
    ensures
        r@ == (
        "SELECT id, name, metal_type, CAST(weight_grams AS FLOAT) as weight_grams, CAST(making_charges AS FLOAT) as making_charges, CAST(current_price AS FLOAT) as current_price, stock_quantity, hallmark_number FROM products ORDER BY created_at DESC")@,
{
    "SELECT id, name, metal_type, CAST(weight_grams AS FLOAT) as weight_grams, CAST(making_charges AS FLOAT) as making_charges, CAST(current_price AS FLOAT) as current_price, stock_quantity, hallmark_number FROM products ORDER BY created_at DESC"
}

/// SQL of the rate listing: only rows dated today, ordered by metal
/// type; the daily snapshot, not a history.
pub fn rates_sql() -> (r: &'static str)
    ensures
        r@ == (
        "SELECT id, metal_type, CAST(rate_per_gram AS FLOAT) as rate_per_gram, date FROM metal_rates WHERE date = CURRENT_DATE ORDER BY metal_type")@,
{
    "SELECT id, metal_type, CAST(rate_per_gram AS FLOAT) as rate_per_gram, date FROM metal_rates WHERE date = CURRENT_DATE ORDER BY metal_type"
}

/// SQL of the customer listing. Both shapes exclude soft-deleted rows,
/// order newest first and cap at 20; the filtered shape adds one
/// case-insensitive probe bound at a single site and applied to name,
/// phone and email alike. The term itself never enters the text.
pub fn customers_sql(q: &CustomerQuery) -> (r: &'static str)
    ensures
        q.term() is None ==> r@ == (
        "SELECT id, name, phone, email, customer_type, kyc_verified, CAST(total_purchases AS FLOAT) as total_purchases, created_at FROM customers WHERE status != 'deleted' ORDER BY created_at DESC LIMIT 20")@,
        q.term() is Some ==> r@ == (
        "SELECT id, name, phone, email, customer_type, kyc_verified, CAST(total_purchases AS FLOAT) as total_purchases, created_at FROM customers WHERE status != 'deleted' AND (name ILIKE $1 OR phone ILIKE $1 OR email ILIKE $1) ORDER BY created_at DESC LIMIT 20")@,
{
    match q {
        CustomerQuery::Unfiltered => {
            "SELECT id, name, phone, email, customer_type, kyc_verified, CAST(total_purchases AS FLOAT) as total_purchases, created_at FROM customers WHERE status != 'deleted' ORDER BY created_at DESC LIMIT 20"
        },
        CustomerQuery::Filtered(_) => {
            "SELECT id, name, phone, email, customer_type, kyc_verified, CAST(total_purchases AS FLOAT) as total_purchases, created_at FROM customers WHERE status != 'deleted' AND (name ILIKE $1 OR phone ILIKE $1 OR email ILIKE $1) ORDER BY created_at DESC LIMIT 20"
        },
    }
}

/// The parameter bound to the customer listing: nothing for the
/// unfiltered shape, the single `%term%` pattern for the filtered one.
pub fn customers_bind(q: &CustomerQuery) -> (r: Option<Vec<u8>>)
    ensures
        match q.term() {
            None => r is None,
            Some(t) => r matches Some(p) && p@ == spec_like_pattern(t),
        },
{
    match q {
        CustomerQuery::Unfiltered => None,
        CustomerQuery::Filtered(t) => Some(like_pattern(t)),
    }
}

/// SQL of the by-id customer lookup: exact match on the key, and the
/// mandatory soft-delete exclusion even on this path. The id is bound,
/// never formatted into the text.
pub fn customer_by_id_sql() -> (r: &'static str)
    ensures
        r@ == (
        "SELECT id, name, phone, email, customer_type, kyc_verified, CAST(total_purchases AS FLOAT) as total_purchases, created_at FROM customers WHERE id = $1 AND status != 'deleted'")@,
{
    "SELECT id, name, phone, email, customer_type, kyc_verified, CAST(total_purchases AS FLOAT) as total_purchases, created_at FROM customers WHERE id = $1 AND status != 'deleted'"
}

} // verus!
