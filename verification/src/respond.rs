//! Response mapping: one function per endpoint, from a store outcome to
//! a status code and payload.
//!
//! Every store failure on a data path maps to a bare 500 with no detail;
//! a by-id miss maps to 404, distinct from a failure; the health probe
//! alone reports an unreachable store as a field of a 200 payload, never
//! as an error status.

use vstd::prelude::*;

use crate::HTTP_INTERNAL_ERROR;
use crate::HTTP_NOT_FOUND;
use crate::HTTP_OK;
use crate::eval::CUSTOMER_LIST_CAP;
use crate::eval::customer_list;
use crate::eval::first_visible_with_id;
use crate::eval::opt_payload_of;
use crate::eval::payload_of;
use crate::eval::find_customer;
use crate::eval::run_customer_list;
use crate::eval::run_product_list;
use crate::eval::run_rate_list;
use crate::query::customer_query_of_search;
use crate::query::opt_bytes;
use crate::query::spec_query_term;
use crate::types::Customer;
use crate::types::CustomerRow;
use crate::types::DbError;
use crate::types::DbStatus;
use crate::types::HealthStatus;
use crate::types::MetalRate;
use crate::types::Product;
use crate::types::ProductRow;

verus! {

/// Relies on `chrono::Utc::now` and `DateTime::timestamp_millis` for the
/// current instant as milliseconds since the Unix epoch. Nothing is
/// promised of the value: the clock is the environment's. `Utc::now`
/// itself panics on a system clock set before the epoch.
#[verifier::external_body]
fn now_millis() -> i64 {
    chrono::Utc::now().timestamp_millis()
}

/// Builds the health payload for a given probe outcome and instant:
/// always a 200, with connectivity degraded to a field value.
pub fn health_status_at(db_ok: bool, now: i64) -> (r: (HealthStatus, u16))
    ensures
        r.1 == HTTP_OK,
        r.0.database == (if db_ok {
            DbStatus::Connected
        } else {
            DbStatus::Disconnected
        }),
        r.0.timestamp_millis == now,
{
    let database = if db_ok {
        DbStatus::Connected
    } else {
        DbStatus::Disconnected
    };
    (HealthStatus { database, timestamp_millis: now }, HTTP_OK)
}

/// The health endpoint: stamps the probe outcome with the current
/// instant. A failed ping is not a request failure.
pub fn health_endpoint(db_ok: bool) -> (r: (HealthStatus, u16))
    ensures
        r.1 == HTTP_OK,
        r.0.database == (if db_ok {
            DbStatus::Connected
        } else {
            DbStatus::Disconnected
        }),
{
    let now = now_millis();
    health_status_at(db_ok, now)
}

/// Maps a listing outcome to a response: the rows pass through
/// untouched on success, and any store failure becomes a bare 500.
pub fn list_endpoint<T>(outcome: Result<Vec<T>, DbError>) -> (r: Result<Vec<T>, u16>)
    ensures
        match outcome {
            Ok(rows) => r matches Ok(p) && p == rows,
            Err(_) => r == Err::<Vec<T>, u16>(HTTP_INTERNAL_ERROR),
        },
{
    match outcome {
        Ok(rows) => Ok(rows),
        Err(_) => Err(HTTP_INTERNAL_ERROR),
    }
}

/// Maps a by-id outcome to a response: a visible row passes through, a
/// miss is a 404, and a store failure a 500 — the two are never
/// conflated.
pub fn detail_endpoint(outcome: Result<Option<Customer>, DbError>) -> (r: Result<Customer, u16>)
    ensures
        match outcome {
            Ok(found) => match found {
                Some(c) => r matches Ok(rc) && rc == c,
                None => r == Err::<Customer, u16>(HTTP_NOT_FOUND),
            },
            Err(_) => r == Err::<Customer, u16>(HTTP_INTERNAL_ERROR),
        },
{
    match outcome {
        Ok(Some(c)) => Ok(c),
        Ok(None) => Err(HTTP_NOT_FOUND),
        Err(_) => Err(HTTP_INTERNAL_ERROR),
    }
}

/// The product listing against the store model: every fetched row's
/// payload in store order on success, a bare 500 on failure.
pub fn products_handler(store: Result<Vec<ProductRow>, DbError>) -> (r: Result<Vec<Product>, u16>)
    ensures
        match store {
            Ok(rows) => r matches Ok(p) && p@ == rows@.map_values(|row: ProductRow| row.product),
            Err(_) => r == Err::<Vec<Product>, u16>(HTTP_INTERNAL_ERROR),
        },
{
    match store {
        Ok(rows) => Ok(run_product_list(rows)),
        Err(_) => Err(HTTP_INTERNAL_ERROR),
    }
}

/// The rate listing against the store model: only rows dated `today`,
/// in store order, on success; a bare 500 on failure.
pub fn rates_handler(store: Result<Vec<MetalRate>, DbError>, today: i32) -> (r: Result<
    Vec<MetalRate>,
    u16,
>)
    ensures
        match store {
            Ok(rows) => r matches Ok(p) && p@ == rows@.filter(
                |row: MetalRate| row.date_days == today,
            ),
            Err(_) => r == Err::<Vec<MetalRate>, u16>(HTTP_INTERNAL_ERROR),
        },
{
    match store {
        Ok(rows) => Ok(run_rate_list(rows, today)),
        Err(_) => Err(HTTP_INTERNAL_ERROR),
    }
}

/// The customer listing against the store model: decides the query
/// shape from the raw search parameter, keeps only visible rows that
/// match, caps the result, and never leaks a failure's detail.
pub fn customers_handler(store: Result<Vec<CustomerRow>, DbError>, search: Option<Vec<u8>>) -> (r:
    Result<Vec<Customer>, u16>)
    ensures
        match store {
            Ok(rows) => r matches Ok(p) && p@ == payload_of(
                customer_list(rows@, spec_query_term(opt_bytes(search))),
            ) && p@.len() <= CUSTOMER_LIST_CAP,
            Err(_) => r == Err::<Vec<Customer>, u16>(HTTP_INTERNAL_ERROR),
        },
{
    let q = customer_query_of_search(search);
    match store {
        Ok(rows) => Ok(run_customer_list(rows, &q)),
        Err(_) => Err(HTTP_INTERNAL_ERROR),
    }
}

/// The by-id lookup against the store model: the first visible row
/// with the id, a 404 when there is none, a 500 on a store failure.
pub fn customer_detail_handler(store: Result<Vec<CustomerRow>, DbError>, id: i32) -> (r: Result<
    Customer,
    u16,
>)
    ensures
        match store {
            Ok(rows) => match first_visible_with_id(rows@, id) {
                Some(row) => r matches Ok(c) && Some(c) == opt_payload_of(
                    first_visible_with_id(rows@, id),
                ),
                None => r == Err::<Customer, u16>(HTTP_NOT_FOUND),
            },
            Err(_) => r == Err::<Customer, u16>(HTTP_INTERNAL_ERROR),
        },
{
    match store {
        Ok(rows) => detail_endpoint(Ok(find_customer(rows, id))),
        Err(_) => Err(HTTP_INTERNAL_ERROR),
    }
}

} // verus!
