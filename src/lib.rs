//! A two-stage, fee-gated minting workflow for unique assets: a payment
//! program collects a fee into a treasury and then asks a privileged minting
//! routine, which only accepts calls made under the distributor's identity,
//! to issue one asset with its metadata and a supply cap of one.
//!
//! `keys` holds addresses, `derive` the key-less address derivation,
//! `records` the records and the ledger that holds them, `programs` the two
//! requests, and `lemmas` the laws that relate them.
pub mod keys;
pub mod derive;
pub mod records;
pub mod programs;
pub mod lemmas;
