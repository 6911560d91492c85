//! The shape of one inbound conversion request. The HTTP listener itself
//! (routing, deserialization, registry delivery) is unverified plumbing
//! outside this library; it hands the library a value of this shape and
//! takes the canonical receipt back.

use vstd::prelude::*;
use crate::curb::Ride;

verus! {

/// One conversion request: the provider ride record and the customer
/// email, if any, under which the receipt is to be distributed.
pub struct Payload {
    pub ride: Ride,
    pub customer_email: Option<String>,
}

} // verus!
