//! Recurring crawl jobs: request lifecycle, paginated result aggregation and
//! heading-anchored segmentation of HTML documents.

pub mod text;
pub mod segment;
pub mod options;
pub mod request;
pub mod ingest;
pub mod tags;
pub mod provider;
