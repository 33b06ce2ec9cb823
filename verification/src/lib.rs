//! Batch provisioning of referral-linked accounts against a remote service.
//!
//! The crate validates a referral code, builds the payloads for the two-phase
//! account-creation transaction, interprets the remote service's responses,
//! parses the referrer identity out of a redirect header, and drives the
//! batch plan that adapts the amount of work to the referrer's remaining
//! reward quota.

pub mod code;
pub mod duo_api;
pub mod engine;
pub mod errors;
mod filler;
pub mod quota;
pub mod text;
