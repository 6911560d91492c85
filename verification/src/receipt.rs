//! The canonical receipt schema of the distribution network, as assembled by
//! this adapter. Fields the mapping never fills (customer, payment, the
//! non-transit itemization categories, and similar) are free-form JSON
//! sub-objects in the distribution schema; they are carried here as absent
//! opaque values.
//!
//! `lat` and `lon` hold the 64-bit representations of double-precision
//! coordinates, copied verbatim from the provider record.

use vstd::prelude::*;

verus! {

/// The schema version literal this mapping targets.
pub const SCHEMA_VERSION: &'static str = "0.2.0";

/// The merchant-category code of taxicabs and rideshares.
pub const MCC_TAXI: &'static str = "4121";

/// The fixed country of the provider's service area; the provider record
/// carries no country field.
pub const COUNTRY: &'static str = "US";

/// The currency of a monetary amount, by ISO code.
#[derive(Clone, Copy, Debug, PartialEq, Eq, Structural)]
pub enum Currency {
    Aud,
    Cad,
    Chf,
    Cnh,
    Eur,
    Gbp,
    Jpy,
    Usd,
}

/// One canonical receipt, ready for distribution.
pub struct Receipt {
    pub actions: Option<Vec<serde_json::Value>>,
    pub header: Header,
    pub itemization: Itemization,
    pub payment: Option<serde_json::Value>,
    pub version: String,
}

/// The header of a canonical receipt.
pub struct Header {
    pub amount: i64,
    pub currency: Currency,
    pub customer: Option<serde_json::Value>,
    pub location: Option<serde_json::Value>,
    pub mcc: Option<String>,
    pub receipt_id: String,
    pub subtotal: Option<i64>,
    pub third_party: Option<serde_json::Value>,
    pub created_at: i64,
}

/// The itemization categories of the schema. A ground-transportation
/// receipt populates exactly the transit-route category; the others stay
/// at their empty default.
pub struct Itemization {
    pub general: Option<serde_json::Value>,
    pub lodging: Option<serde_json::Value>,
    pub ecommerce: Option<serde_json::Value>,
    pub car_rental: Option<serde_json::Value>,
    pub transit_route: Option<TransitRoute>,
    pub subscription: Option<serde_json::Value>,
    pub flight: Option<serde_json::Value>,
}

/// The transit-route itemization of one ride.
pub struct TransitRoute {
    pub departure_address: Option<AddressClass>,
    pub arrival_address: Option<AddressClass>,
    pub arrival_time: Option<i64>,
    pub departure_time: Option<i64>,
    pub invoice_level_discounts: Option<serde_json::Value>,
    pub metadata: Option<serde_json::Value>,
    pub polyline: Option<String>,
    pub taxes: Option<Vec<TaxElement>>,
    pub tip: Option<i64>,
}

/// A canonical postal address with a single consolidated street line.
pub struct AddressClass {
    pub street_address: Option<String>,
    pub city: Option<String>,
    pub region: Option<String>,
    pub postal_code: Option<String>,
    pub country: String,
    pub lat: u64,
    pub lon: u64,
}

/// One named tax line item. The rate is reserved for percentage-based
/// taxes and stays absent in this mapping.
pub struct TaxElement {
    pub amount: i64,
    pub name: String,
    pub rate: Option<i64>,
}

/// The mathematical content of an optional string.
pub open spec fn opt_str_view(o: Option<String>) -> Option<Seq<char>> {
    match o {
        Some(s) => Some(s@),
        None => None,
    }
}

/// The observable content of a canonical address: street line, city,
/// region, postal code, country, and the two coordinate representations.
pub open spec fn address_view(a: AddressClass) -> (
    Option<Seq<char>>,
    Option<Seq<char>>,
    Option<Seq<char>>,
    Option<Seq<char>>,
    Seq<char>,
    u64,
    u64,
) {
    (
        opt_str_view(a.street_address),
        opt_str_view(a.city),
        opt_str_view(a.region),
        opt_str_view(a.postal_code),
        a.country@,
        a.lat,
        a.lon,
    )
}

/// The observable content of one tax line item.
pub open spec fn tax_view(e: TaxElement) -> (Seq<char>, i64, Option<i64>) {
    (e.name@, e.amount, e.rate)
}

/// The observable content of a tax line-item list.
pub open spec fn taxes_view(s: Seq<TaxElement>) -> Seq<(Seq<char>, i64, Option<i64>)> {
    s.map_values(|e: TaxElement| tax_view(e))
}

/// The observable content of a transit-route itemization. Free-form
/// opaque sub-objects enter the view by presence alone; this mapping
/// always leaves them absent.
pub open spec fn transit_view(t: TransitRoute) -> (
    Option<(
        Option<Seq<char>>,
        Option<Seq<char>>,
        Option<Seq<char>>,
        Option<Seq<char>>,
        Seq<char>,
        u64,
        u64,
    )>,
    Option<(
        Option<Seq<char>>,
        Option<Seq<char>>,
        Option<Seq<char>>,
        Option<Seq<char>>,
        Seq<char>,
        u64,
        u64,
    )>,
    Option<i64>,
    Option<i64>,
    bool,
    bool,
    Option<Seq<char>>,
    Option<Seq<(Seq<char>, i64, Option<i64>)>>,
    Option<i64>,
) {
    (
        match t.departure_address {
            Some(a) => Some(address_view(a)),
            None => None,
        },
        match t.arrival_address {
            Some(a) => Some(address_view(a)),
            None => None,
        },
        t.arrival_time,
        t.departure_time,
        t.invoice_level_discounts is Some,
        t.metadata is Some,
        opt_str_view(t.polyline),
        match t.taxes {
            Some(tx) => Some(taxes_view(tx@)),
            None => None,
        },
        t.tip,
    )
}

/// The observable content of a canonical header.
pub open spec fn header_view(h: Header) -> (
    i64,
    Currency,
    bool,
    bool,
    Option<Seq<char>>,
    Seq<char>,
    Option<i64>,
    bool,
    i64,
) {
    (
        h.amount,
        h.currency,
        h.customer is Some,
        h.location is Some,
        opt_str_view(h.mcc),
        h.receipt_id@,
        h.subtotal,
        h.third_party is Some,
        h.created_at,
    )
}

/// Whether every observable part of two canonical receipts is the same:
/// the headers, the populated transit-route itemization in full, the
/// presence of every other category and free-form field, the action-list
/// length, and the schema version.
pub open spec fn receipts_agree(a: Receipt, b: Receipt) -> bool {
    &&& header_view(a.header) == header_view(b.header)
    &&& a.itemization.general is Some == b.itemization.general is Some
    &&& a.itemization.lodging is Some == b.itemization.lodging is Some
    &&& a.itemization.ecommerce is Some == b.itemization.ecommerce is Some
    &&& a.itemization.car_rental is Some == b.itemization.car_rental is Some
    &&& a.itemization.subscription is Some == b.itemization.subscription is Some
    &&& a.itemization.flight is Some == b.itemization.flight is Some
    &&& (match (a.itemization.transit_route, b.itemization.transit_route) {
        (Some(ta), Some(tb)) => transit_view(ta) == transit_view(tb),
        (None, None) => true,
        _ => false,
    })
    &&& (match (a.actions, b.actions) {
        (Some(va), Some(vb)) => va@.len() == vb@.len(),
        (None, None) => true,
        _ => false,
    })
    &&& a.payment is Some == b.payment is Some
    &&& a.version@ == b.version@
}

} // verus!
