//! Row and payload types, modelled over plain values.
//!
//! Text columns are UTF-8 bytes, decimal columns fixed-point integers in
//! minor units (the adapter converts to and from the store's decimals),
//! calendar dates day numbers, and timestamps milliseconds since the Unix
//! epoch. A column that may be NULL is an `Option`, never a sentinel: an
//! absent value stays distinguishable from zero or from an empty string.

use vstd::prelude::*;

verus! {

/// An inventory product as the listing endpoint returns it.
#[derive(Clone, PartialEq, Eq, Debug)]
pub struct Product {
    pub id: i32,
    pub name: Vec<u8>,
    pub metal_type: Vec<u8>,
    /// Weight in milligrams; always present.
    pub weight_milligrams: i64,
    /// Making charges in minor currency units; unset for unpriced items.
    pub making_charges_minor: Option<i64>,
    /// Current price in minor currency units; unset for unpriced items.
    pub current_price_minor: Option<i64>,
    pub stock_quantity: Option<i32>,
    pub hallmark_number: Option<Vec<u8>>,
}

/// A product row as the store holds it: the payload columns plus the
/// creation instant the listing orders by, which is never returned.
#[derive(Clone, PartialEq, Eq, Debug)]
pub struct ProductRow {
    pub product: Product,
    pub created_at_millis: Option<i64>,
}

/// A daily metal rate row; the listing surfaces only rows whose date is
/// the current day.
#[derive(Clone, PartialEq, Eq, Debug)]
pub struct MetalRate {
    pub id: i32,
    pub metal_type: Vec<u8>,
    /// Rate per gram in minor currency units.
    pub rate_per_gram_minor: i64,
    /// Calendar date as a day number.
    pub date_days: i32,
}

/// A customer record as the customer endpoints return it.
#[derive(Clone, PartialEq, Eq, Debug)]
pub struct Customer {
    pub id: i32,
    pub name: Vec<u8>,
    pub phone: Vec<u8>,
    pub email: Option<Vec<u8>>,
    pub customer_type: Option<Vec<u8>>,
    /// KYC flag; `None` means unknown, not false.
    pub kyc_verified: Option<bool>,
    /// Lifetime purchase total in minor currency units.
    pub total_purchases_minor: Option<i64>,
    pub created_at_millis: Option<i64>,
}

/// A customer row as the store holds it: the payload columns plus the
/// status column every customer query must filter on. Deletion is
/// logical: a row whose status is the soft-delete marker must never
/// leave any customer read path.
#[derive(Clone, PartialEq, Eq, Debug)]
pub struct CustomerRow {
    pub customer: Customer,
    pub status: Vec<u8>,
}

/// Connectivity of the store as the health check reports it.
#[derive(PartialEq, Eq, Structural, Clone, Copy, Debug)]
pub enum DbStatus {
    Connected,
    Disconnected,
}

/// The health payload: a liveness probe, not an error channel. A failed
/// ping degrades the `database` field, never the status code.
#[derive(Clone, PartialEq, Eq, Debug)]
pub struct HealthStatus {
    pub database: DbStatus,
    pub timestamp_millis: i64,
}

/// A failed query or an unreachable store, as the adapter reports it to
/// the response mappers. No detail is carried: none may leak to clients.
#[derive(Clone, PartialEq, Eq, Debug)]
pub struct DbError;

} // verus!
