//! Authorization and binding checks for custodial token vaults.
//!
//! A vault record ties a token account to the authority that may withdraw
//! from it. Two withdrawal paths are offered side by side: one that only
//! compares the caller with the authority recorded in whatever vault the
//! caller presents, and one whose request is validated against the vault
//! record before the handler runs.

pub mod address;
pub mod derivation;
pub mod error;
pub mod store;
pub mod account;
pub mod transfer;
pub mod owner_check;
pub mod clone;
pub mod withdrawal;
