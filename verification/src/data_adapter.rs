//! The transformation engine: converts one provider ride record into one
//! canonical receipt. A pure function of its input — no I/O, no clock, no
//! shared state — whose whole observable output is pinned by the contracts
//! below.
//!
//! A creation timestamp that does not parse fails the conversion outright:
//! the canonical header's creation time is required and has no safe default.
//! A pickup timestamp that does not parse only leaves the transit leg's
//! departure time absent.

use vstd::prelude::*;
use vstd::string::StringExecFns;
use crate::curb::{Items, Location, Ride};
use crate::datetime::{parse_dt_to_unix, ts_epoch, ts_valid};
use crate::numfmt::{i64_dec, i64_to_dec};
use crate::receipt::{
    receipts_agree, taxes_view, AddressClass, Header, Itemization, Receipt, TaxElement,
    TransitRoute, COUNTRY, MCC_TAXI, SCHEMA_VERSION,
};

verus! {

/// The one fatal failure of a conversion: the creation timestamp does not
/// match the required pattern.
#[derive(Clone, Copy, Debug, PartialEq, Eq, Structural)]
pub enum TransformError {
    InvalidCreatedAt,
}

/// The canonical single-line street address of a provider location: the
/// primary line alone, or the two lines joined by a single space.
pub open spec fn consolidated_street(loc: Location) -> Seq<char> {
    match loc.line2 {
        Some(l2) => loc.line1@ + " "@ + l2@,
        None => loc.line1@,
    }
}

/// What address consolidation guarantees: the consolidated street line,
/// city, region and postal code copied verbatim, the fixed country, and
/// the coordinate representations copied without loss.
pub open spec fn address_post(loc: Location, a: AddressClass) -> bool {
    &&& a.street_address matches Some(s) && s@ == consolidated_street(loc)
    &&& a.city matches Some(c) && c@ == loc.city@
    &&& a.region matches Some(r) && r@ == loc.state@
    &&& a.postal_code matches Some(p) && p@ == loc.postal_code@
    &&& a.country@ == COUNTRY@
    &&& a.lat == loc.latitude
    &&& a.lon == loc.longitude
}

/// One if the sub-amount is present, else zero.
pub open spec fn tax_count(o: Option<i64>) -> int {
    if o is Some {
        1
    } else {
        0
    }
}

/// What tax itemization guarantees: one line item per present sub-amount
/// among improvement surcharge, state surcharge and sales tax, in that
/// fixed order, each amount copied verbatim and each rate absent.
pub open spec fn taxes_post(items: Items, taxes: Seq<TaxElement>) -> bool {
    let n_imp = tax_count(items.improvement_surcharge);
    let n_state = tax_count(items.state_surcharge);
    &&& taxes.len() == n_imp + n_state + tax_count(items.sales_tax)
    &&& (items.improvement_surcharge matches Some(v) ==> taxes[0].name@
        == "Improvement Surcharge"@ && taxes[0].amount == v)
    &&& (items.state_surcharge matches Some(v) ==> taxes[n_imp].name@ == "State Surcharge"@
        && taxes[n_imp].amount == v)
    &&& (items.sales_tax matches Some(v) ==> taxes[n_imp + n_state].name@ == "Sales Tax"@
        && taxes[n_imp + n_state].amount == v)
    &&& forall|i: int| 0 <= i < taxes.len() ==> taxes[i].rate is None
}

/// What the transit-route itemization of a converted ride guarantees.
pub open spec fn transit_post(input: Ride, t: TransitRoute) -> bool {
    &&& t.departure_address matches Some(a) && address_post(input.pickup_location, a)
    &&& t.arrival_address matches Some(a) && address_post(input.dropoff_location, a)
    &&& t.arrival_time matches Some(at) && at == ts_epoch(input.created_at@)
    &&& (ts_valid(input.pickup_time@) ==> (t.departure_time matches Some(dt) && dt == ts_epoch(
        input.pickup_time@,
    )))
    &&& (!ts_valid(input.pickup_time@) ==> t.departure_time is None)
    &&& t.invoice_level_discounts is None
    &&& t.metadata is None
    &&& t.polyline is None
    &&& t.taxes matches Some(tx) && taxes_post(input.bill.items, tx@)
    &&& t.tip == input.bill.items.tip
}

/// What a successful conversion guarantees, field by field: the header
/// carries the bill total, currency, fare subtotal, fixed merchant-category
/// code, the identifier rendered in decimal, and the parsed creation time;
/// exactly the transit-route itemization is populated; the schema version
/// is the fixed literal; every other field stays empty or absent.
pub open spec fn transform_post(input: Ride, out: Receipt) -> bool {
    &&& out.header.amount == input.bill.total
    &&& out.header.currency == input.bill.currency_code
    &&& out.header.customer is None
    &&& out.header.location is None
    &&& out.header.mcc matches Some(m) && m@ == MCC_TAXI@
    &&& out.header.receipt_id@ == i64_dec(input.id as int)
    &&& out.header.subtotal == input.bill.items.fare
    &&& out.header.third_party is None
    &&& out.header.created_at == ts_epoch(input.created_at@)
    &&& out.itemization.general is None
    &&& out.itemization.lodging is None
    &&& out.itemization.ecommerce is None
    &&& out.itemization.car_rental is None
    &&& out.itemization.transit_route matches Some(t) && transit_post(input, t)
    &&& out.itemization.subscription is None
    &&& out.itemization.flight is None
    &&& out.actions matches Some(acts) && acts@.len() == 0
    &&& out.payment is None
    &&& out.version@ == SCHEMA_VERSION@
}

/// Consolidates a provider location into a canonical address: a two-line
/// address becomes `"<line1> <line2>"`, a one-line address stays `"<line1>"`
/// exactly; the remaining fields are copied verbatim and the country is
/// the fixed constant.
pub fn transform_address(location: Location) -> (a: AddressClass)
    ensures
        address_post(location, a),
{
    let street = match location.line2 {
        Some(line2) => location.line1.concat(" ").concat(line2.as_str()),
        None => location.line1,
    };
    AddressClass {
        street_address: Some(street),
        city: Some(location.city),
        region: Some(location.state),
        postal_code: Some(location.postal_code),
        country: String::new().concat(COUNTRY),
        lat: location.latitude,
        lon: location.longitude,
    }
}

/// Expands the bill's optional surcharge fields into the ordered canonical
/// tax line items: improvement surcharge, then state surcharge, then sales
/// tax, skipping any absent field. A present-but-zero amount still yields
/// a line item.
pub fn transform_taxes(items: &Items) -> (taxes: Vec<TaxElement>)
    ensures
        taxes_post(*items, taxes@),
{
    let mut taxes: Vec<TaxElement> = Vec::new();
    if let Some(improvement_surcharge) = items.improvement_surcharge {
        taxes.push(
            TaxElement {
                amount: improvement_surcharge,
                name: String::new().concat("Improvement Surcharge"),
                rate: None,
            },
        );
    }
    if let Some(state_surcharge) = items.state_surcharge {
        taxes.push(
            TaxElement {
                amount: state_surcharge,
                name: String::new().concat("State Surcharge"),
                rate: None,
            },
        );
    }
    if let Some(sales_tax) = items.sales_tax {
        taxes.push(
            TaxElement {
                amount: sales_tax,
                name: String::new().concat("Sales Tax"),
                rate: None,
            },
        );
    }
    taxes
}

/// Converts one provider ride into one canonical receipt, or fails fatally
/// when the creation timestamp does not parse — the only failure of the
/// engine. A pickup timestamp that does not parse is tolerated: the
/// departure time is left absent and the conversion succeeds.
pub fn transform_curb_receipt(receipt: Ride) -> (r: Result<Receipt, TransformError>)
    ensures
        r is Ok <==> ts_valid(receipt.created_at@),
        r matches Ok(out) ==> transform_post(receipt, out),
        r matches Err(e) ==> e == TransformError::InvalidCreatedAt,
{
    let created_epoch = match parse_dt_to_unix(receipt.created_at.as_str()) {
        Some(t) => t,
        None => { return Err(TransformError::InvalidCreatedAt) },
    };
    let departure_time = parse_dt_to_unix(receipt.pickup_time.as_str());
    let bill = receipt.bill;
    let taxes = transform_taxes(&bill.items);
    let header = Header {
        amount: bill.total,
        currency: bill.currency_code,
        customer: None,
        location: None,
        mcc: Some(String::new().concat(MCC_TAXI)),
        receipt_id: i64_to_dec(receipt.id),
        subtotal: bill.items.fare,
        third_party: None,
        created_at: created_epoch,
    };
    let transit = TransitRoute {
        departure_address: Some(transform_address(receipt.pickup_location)),
        arrival_address: Some(transform_address(receipt.dropoff_location)),
        arrival_time: Some(created_epoch),
        departure_time,
        invoice_level_discounts: None,
        metadata: None,
        polyline: None,
        taxes: Some(taxes),
        tip: bill.items.tip,
    };
    Ok(
        Receipt {
            actions: Some(Vec::new()),
            header,
            itemization: Itemization {
                general: None,
                lodging: None,
                ecommerce: None,
                car_rental: None,
                transit_route: Some(transit),
                subscription: None,
                flight: None,
            },
            payment: None,
            version: String::new().concat(SCHEMA_VERSION),
        },
    )
}

/// The canonical tax names owed for a bill, in emission order: one per
/// present sub-amount among the three considered kinds.
pub open spec fn expected_tax_names(items: Items) -> Seq<Seq<char>> {
    (if items.improvement_surcharge is Some {
        seq!["Improvement Surcharge"@]
    } else {
        Seq::<Seq<char>>::empty()
    }) + (if items.state_surcharge is Some {
        seq!["State Surcharge"@]
    } else {
        Seq::<Seq<char>>::empty()
    }) + (if items.sales_tax is Some {
        seq!["Sales Tax"@]
    } else {
        Seq::<Seq<char>>::empty()
    })
}

/// Law: for any combination of present and absent sub-amounts, the tax
/// line items follow the fixed order improvement surcharge, state
/// surcharge, sales tax — skipping absent kinds — and their count equals
/// the number of present kinds.
pub proof fn lemma_tax_item_order(items: Items, taxes: Seq<TaxElement>)
    requires
        taxes_post(items, taxes),
    ensures
        taxes.len() == expected_tax_names(items).len(),
        forall|i: int|
            0 <= i < taxes.len() ==> taxes[i].name@ == expected_tax_names(items)[i],
{
    assert forall|i: int|
        0 <= i < taxes.len() implies taxes[i].name@ == expected_tax_names(items)[i] by {
        assert(taxes.len() <= 3);
    }
}

/// Two tax line-item lists that meet the itemizer's guarantee for the
/// same bill have the same observable content.
proof fn lemma_taxes_deterministic(items: Items, a: Seq<TaxElement>, b: Seq<TaxElement>)
    requires
        taxes_post(items, a),
        taxes_post(items, b),
    ensures
        taxes_view(a) == taxes_view(b),
{
    assert forall|i: int|
        0 <= i < taxes_view(a).len() implies taxes_view(a)[i] == taxes_view(b)[i] by {
        assert(a[i].rate is None && b[i].rate is None);
    }
    assert(taxes_view(a) =~= taxes_view(b));
}

/// Law: the conversion is deterministic. Any two canonical receipts that
/// the engine's guarantee admits for the same provider record agree on
/// every observable part, so converting the same record twice yields
/// identical output.
pub proof fn lemma_transform_deterministic(input: Ride, a: Receipt, b: Receipt)
    requires
        transform_post(input, a),
        transform_post(input, b),
    ensures
        receipts_agree(a, b),
{
    let ta = a.itemization.transit_route->0;
    let tb = b.itemization.transit_route->0;
    lemma_taxes_deterministic(input.bill.items, ta.taxes->0@, tb.taxes->0@);
}

} // verus!
