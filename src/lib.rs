//! Normalised real-estate records: addresses, parcel numbers, land-use
//! classification and propensity scores, with the per-row ingestion rules
//! that turn raw tabular rows into persisted records.

pub mod address;
pub mod error;
pub mod ingest;
pub mod land_use;
pub mod parcel;
pub mod propensity;
pub mod property;
pub mod rows;
pub mod search;
pub mod stored;
pub mod text;
