//! Ingestion and versioning of feed events: normalization, change detection,
//! the per-batch ingestion machine and the decisions of the poller.
pub mod ingest;
pub mod laws;
pub mod normalize;
pub mod poll;
pub mod record;
