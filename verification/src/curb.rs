//! The provider-side record of one completed ride, as the adapter receives
//! it. Monetary amounts are integers in minor currency units; absent optional
//! fields stay absent (`Option`), never sentinel values.
//!
//! Geographic coordinates arrive as IEEE-754 double-precision values; the
//! adapter never interprets them, so they are carried here as their 64-bit
//! representations and copied verbatim into the canonical record.

use vstd::prelude::*;
use crate::receipt::Currency;

verus! {

/// The free-form JSON values that ride details may carry. The adapter never
/// reads inside them; they ride along opaquely.
#[verifier::external_type_specification]
#[verifier::external_body]
pub struct ExValue(serde_json::Value);

/// One completed ride transaction from the provider.
pub struct Ride {
    pub id: i64,
    pub pickup_location: Location,
    pub dropoff_location: Location,
    pub status: Status,
    pub vehicle: Vehicle,
    pub bill: Bill,
    pub metadata: Metadata,
    pub rider: Rider,
    pub details: Details,
    pub created_at: String,
    pub pickup_time: String,
    pub driver_phone: String,
}

/// The bill of a ride: itemized sub-amounts, the total, and the currency.
pub struct Bill {
    pub items: Items,
    pub total: i64,
    pub currency_code: Currency,
}

/// The optional monetary sub-amounts of a bill, in minor currency units.
#[derive(Clone, Copy, Debug)]
pub struct Items {
    pub service_fee: Option<i64>,
    pub fare: Option<i64>,
    pub improvement_surcharge: Option<i64>,
    pub state_surcharge: Option<i64>,
    pub sales_tax: Option<i64>,
    pub tip: Option<i64>,
    pub toll: Option<i64>,
}

/// Provider-side bookkeeping of a ride, not needed by the transformation.
pub struct Details {
    pub external_ride_id: String,
    pub is_no_show: bool,
    pub is_wav_ride: bool,
    pub is_flat_fare: bool,
    pub notes: Option<serde_json::Value>,
    pub cancel_fee: i64,
    pub copay: Option<serde_json::Value>,
    pub streethail: bool,
    pub partner_code: String,
}

/// A structured postal address with geo-coordinates. `latitude` and
/// `longitude` hold the 64-bit representations of the provider's
/// double-precision coordinates.
pub struct Location {
    pub line1: String,
    pub line2: Option<String>,
    pub city: String,
    pub state: String,
    pub postal_code: String,
    pub latitude: u64,
    pub longitude: u64,
}

/// Provider metadata keys, passed along untouched.
pub struct Metadata {
    pub external_ride_id: String,
    pub external_user_id: String,
    pub other_example_key: String,
}

/// The rider of the transaction.
pub struct Rider {
    pub id: i64,
    pub name: String,
}

/// The dispatch status of the ride. `distance_from_pickup`,
/// `vehicle_latitude` and `vehicle_longitude` hold 64-bit representations
/// of double-precision values.
pub struct Status {
    pub status_code: String,
    pub distance_from_pickup: u64,
    pub distance_units: String,
    pub vehicle_latitude: u64,
    pub vehicle_longitude: u64,
}

/// The vehicle and driver of the ride.
pub struct Vehicle {
    pub driver_id: String,
    pub driver_incentive: i64,
    pub driver_name: String,
    pub vehicle_number: String,
    pub estimated_fare: i64,
    pub vehicle_type_subclass: String,
}

} // verus!
