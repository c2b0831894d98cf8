//! Access-controlled registry of identity-verification records.
//!
//! A small set of trusted issuers may record KYC/liveness attestation
//! results for accounts. Every mutating operation is gated by a single
//! authorization predicate over the issuer set; reads are public and
//! fall back to a well-defined default record when an account was never
//! written. The host that supplies caller identity, argument decoding
//! and persistent storage stands outside this crate: operations take
//! the caller and the data as explicit values.

pub mod record;
pub mod registry;
