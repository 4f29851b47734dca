//! Ticket ingestion and catalog reconciliation engine.
//!
//! The library takes an untrusted, partially structured extraction of a
//! grocery receipt and commits it as a consistent set of relational
//! records: a purchase, its line items, the catalog entries they
//! reference, and the attached document.  Monetary values are held as
//! fixed-point amounts, the store is an in-memory relational model with
//! explicit invariants, and every validation and commit step carries a
//! proved contract.

pub mod amount;
pub mod api;
pub mod config;
pub mod datetime;
pub mod error;
pub mod extraction;
pub mod ingest;
pub mod models;
pub mod retry;
pub mod schemas;
pub mod store;
pub mod strings;
