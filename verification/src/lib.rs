//! A receipt-transformation adapter for a taxi-dispatch provider.
//!
//! The library converts one provider-specific ride record into the canonical,
//! versioned receipt schema consumed by a downstream distribution network.
//! The conversion is a pure function: strict timestamp parsing into epoch
//! seconds, consolidation of multi-line postal addresses, conditional
//! itemization of tax surcharges, and assembly of the canonical record.
//!
//! The surrounding HTTP service (request plumbing, hashing, registry delivery)
//! is not part of this crate's verified core; it hands the library plain
//! values and takes plain values back.

pub mod curb;
pub mod data_adapter;
pub mod endpoint;
pub mod datetime;
pub mod numfmt;
pub mod receipt;
