//! Core of a tabular-data movement engine.
//!
//! The crate models the verifiable heart of a tool that copies a table's
//! data and schema between heterogeneous storage endpoints: the schema data
//! model, the single-error supervision channel that all background work
//! reports to, capability-described locators for three exemplar endpoint
//! kinds, the copy engine's negotiation and routing, and the partition
//! planning of the flat-file driver. All I/O stays outside the crate;
//! callers hand in plain values (directory listings, file bytes, worker
//! outcomes) and execute the plans these functions return.

pub mod bigquery_schema;
pub mod copy;
pub mod csv_driver;
pub mod csv_stream;
pub mod errors;
pub mod locator;
pub mod s3;
pub mod schema;
pub mod supervise;
pub mod text;
